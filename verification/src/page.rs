//! The HTML page that a browser shows when it comes back from an authorization
//! server.

use vstd::prelude::*;

verus! {

/// The part of the page before the document title.
pub const PAGE_START: &'static str = r#"<!DOCTYPE html>
<html lang="en">
<head>
<meta charset="utf-8">
<meta name="viewport" content="width=device-width, initial-scale=1">
<title>"#;

/// The part of the page between the document title and the color of the icon.
pub const PAGE_STYLE: &'static str = r#" — Zed</title>
<style>
  * { margin: 0; padding: 0; box-sizing: border-box; }
  body {
    font-family: -apple-system, BlinkMacSystemFont, 'Segoe UI', Roboto, Oxygen, Ubuntu, sans-serif;
    background: #1e1e2e;
    color: #cdd6f4;
    display: flex;
    align-items: center;
    justify-content: center;
    min-height: 100vh;
    padding: 1rem;
  }
  .card {
    background: #313244;
    border-radius: 12px;
    padding: 2.5rem;
    max-width: 420px;
    width: 100%;
    text-align: center;
    box-shadow: 0 4px 24px rgba(0, 0, 0, 0.3);
  }
  .icon {
    width: 48px;
    height: 48px;
    margin: 0 auto 1.5rem;
    background: "#;

/// The part of the page between the color of the icon and the icon.
pub const PAGE_BODY: &'static str = r#";
    border-radius: 50%;
    display: flex;
    align-items: center;
    justify-content: center;
  }
  .icon svg {
    width: 24px;
    height: 24px;
    stroke: #1e1e2e;
    stroke-width: 3;
    fill: none;
  }
  h1 {
    font-size: 1.25rem;
    font-weight: 600;
    margin-bottom: 0.75rem;
    color: #cdd6f4;
  }
  p {
    font-size: 0.925rem;
    line-height: 1.5;
    color: #a6adc8;
  }
  .brand {
    margin-top: 1.5rem;
    font-size: 0.8rem;
    color: #585b70;
    letter-spacing: 0.05em;
  }
</style>
</head>
<body>
<div class="card">
  <div class="icon">
    "#;

/// The part of the page between the icon and the heading.
pub const PAGE_HEADING: &'static str = r#"
  </div>
  <h1>"#;

/// The part of the page between the heading and the message.
pub const PAGE_MESSAGE: &'static str = r#"</h1>
  <p>"#;

/// The part of the page behind the message.
pub const PAGE_END: &'static str = r#"</p>
  <div class="brand">Zed</div>
</div>
</body>
</html>"#;

/// The color of the icon of a page that reports a success.
pub const SUCCESS_COLOR: &'static str = "#a6e3a1";

/// The icon of a page that reports a success: a check mark.
pub const SUCCESS_ICON: &'static str = r#"<svg viewBox="0 0 24 24"><polyline points="20 6 9 17 4 12"/></svg>"#;

/// The color of the icon of a page that reports an error.
pub const ERROR_COLOR: &'static str = "#f38ba8";

/// The icon of a page that reports an error: a cross.
pub const ERROR_ICON: &'static str = r#"<svg viewBox="0 0 24 24"><line x1="18" y1="6" x2="6" y2="18"/><line x1="6" y1="6" x2="18" y2="18"/></svg>"#;

/// What stands for a character in HTML text and in quoted attributes.
pub open spec fn escaped_char(c: char) -> Seq<char> {
    if c == '&' {
        "&amp;"@
    } else if c == '<' {
        "&lt;"@
    } else if c == '>' {
        "&gt;"@
    } else if c == '"' {
        "&quot;"@
    } else if c == '\'' {
        "&#x27;"@
    } else {
        seq![c]
    }
}

/// A text with each character escaped.
pub open spec fn html_escaped(text: Seq<char>) -> Seq<char>
    decreases text.len(),
{
    if text.len() == 0 {
        Seq::empty()
    } else {
        html_escaped(text.drop_last()) + escaped_char(text.last())
    }
}

/// The color and the icon of a page.
pub open spec fn page_icon(is_error: bool) -> (Seq<char>, Seq<char>) {
    if is_error {
        (ERROR_COLOR@, ERROR_ICON@)
    } else {
        (SUCCESS_COLOR@, SUCCESS_ICON@)
    }
}

/// The whole page, with a title and a message as plain text.
pub open spec fn callback_page(title: Seq<char>, message: Seq<char>, is_error: bool) -> Seq<char> {
    PAGE_START@ + html_escaped(title) + PAGE_STYLE@ + page_icon(is_error).0 + PAGE_BODY@
        + page_icon(is_error).1 + PAGE_HEADING@ + html_escaped(title) + PAGE_MESSAGE@
        + html_escaped(message) + PAGE_END@
}

/// Escapes a text for HTML.
pub fn html_escape(input: &str) -> (output: String)
    ensures
        output@ == html_escaped(input@),
{
    let mut output = String::new();
    for ch in it: input.chars()
        invariant
            it.seq() == input@,
            output@ == html_escaped(input@.take(it.index() as int)),
    {
        proof {
            let seen = input@.take(it.index() + 1);
            assert(seen.drop_last() == input@.take(it.index() as int));
            assert(seen.last() == ch);
        }
        match ch {
            '&' => output.push_str("&amp;"),
            '<' => output.push_str("&lt;"),
            '>' => output.push_str("&gt;"),
            '"' => output.push_str("&quot;"),
            '\'' => output.push_str("&#x27;"),
            _ => output.push(ch),
        }
    }
    proof {
        assert(input@.take(input@.len() as int) == input@);
    }
    output
}

/// Generate a styled HTML page for OAuth callback responses.
///
/// Returns a complete HTML document (no HTTP headers) with a centered card
/// layout styled to match Zed's dark theme. The `title` is rendered as a
/// heading and `message` as body text below it.
///
/// When `is_error` is true, a red X icon is shown instead of the green
/// checkmark.
pub fn oauth_callback_page(title: &str, message: &str, is_error: bool) -> (page: String)
    ensures
        page@ == callback_page(title@, message@, is_error),
{
    let title = html_escape(title);
    let message = html_escape(message);
    let (icon_bg, icon_svg) = if is_error {
        (ERROR_COLOR, ERROR_ICON)
    } else {
        (SUCCESS_COLOR, SUCCESS_ICON)
    };
    let mut page = PAGE_START.to_owned();
    page.push_str(title.as_str());
    page.push_str(PAGE_STYLE);
    page.push_str(icon_bg);
    page.push_str(PAGE_BODY);
    page.push_str(icon_svg);
    page.push_str(PAGE_HEADING);
    page.push_str(title.as_str());
    page.push_str(PAGE_MESSAGE);
    page.push_str(message.as_str());
    page.push_str(PAGE_END);
    page
}

/// How often a character occurs in a text.
pub open spec fn occurrences(text: Seq<char>, c: char) -> nat {
    text.to_multiset().count(c)
}

proof fn lemma_occurrences_concat(a: Seq<char>, b: Seq<char>, c: char)
    ensures
        occurrences(a + b, c) == occurrences(a, c) + occurrences(b, c),
{
    vstd::seq_lib::lemma_multiset_commutative(a, b);
}

/// Whether a character has a meaning of its own in HTML.
pub open spec fn is_special(c: char) -> bool {
    c == '&' || c == '<' || c == '>' || c == '"' || c == '\''
}

proof fn lemma_escaped_char(c: char)
    ensures
        escaped_char(c).len() > 0,
        !escaped_char(c).contains('<'),
        !escaped_char(c).contains('>'),
        !escaped_char(c).contains('"'),
        !escaped_char(c).contains('\''),
        is_special(c) ==> escaped_char(c)[0] == '&' && escaped_char(c).len() > 1,
        !is_special(c) ==> escaped_char(c) == seq![c],
        c == '&' ==> escaped_char(c)[1] == 'a' && escaped_char(c).len() == 5,
        c == '<' ==> escaped_char(c)[1] == 'l' && escaped_char(c).len() == 4,
        c == '>' ==> escaped_char(c)[1] == 'g' && escaped_char(c).len() == 4,
        c == '"' ==> escaped_char(c)[1] == 'q' && escaped_char(c).len() == 6,
        c == '\'' ==> escaped_char(c)[1] == '#' && escaped_char(c).len() == 6,
{
    reveal_strlit("&amp;");
    reveal_strlit("&lt;");
    reveal_strlit("&gt;");
    reveal_strlit("&quot;");
    reveal_strlit("&#x27;");
}

/// Escaping works character by character: a text may be escaped in pieces.
pub proof fn escaping_distributes(a: Seq<char>, b: Seq<char>)
    ensures
        html_escaped(a + b) == html_escaped(a) + html_escaped(b),
    decreases b.len(),
{
    if b.len() == 0 {
        assert(a + b == a);
        assert(html_escaped(a) + html_escaped(b) == html_escaped(a));
    } else {
        escaping_distributes(a, b.drop_last());
        assert((a + b).drop_last() == a + b.drop_last());
        assert(html_escaped(a) + html_escaped(b) == html_escaped(a) + html_escaped(b.drop_last())
            + escaped_char(b.last()));
    }
}

/// Escaped text holds no `<`, no `>` and no quotation mark.
pub proof fn escaped_text_holds_no_markup(text: Seq<char>)
    ensures
        !html_escaped(text).contains('<'),
        !html_escaped(text).contains('>'),
        !html_escaped(text).contains('"'),
        !html_escaped(text).contains('\''),
    decreases text.len(),
{
    if text.len() > 0 {
        escaped_text_holds_no_markup(text.drop_last());
        lemma_escaped_char(text.last());
        let init = html_escaped(text.drop_last());
        let tail = escaped_char(text.last());
        assert forall|c: char| !init.contains(c) && !tail.contains(c) implies !(init
            + tail).contains(c) by {
            if (init + tail).contains(c) {
                let i = choose|i: int| 0 <= i < (init + tail).len() && (init + tail)[i] == c;
                if i < init.len() {
                    assert(init[i] == c);
                } else {
                    assert(tail[i - init.len()] == c);
                }
            }
        }
    }
}

/// Text without special characters is its own escaped form.
pub proof fn plain_text_is_kept(text: Seq<char>)
    requires
        forall|i: int| 0 <= i < text.len() ==> !is_special(#[trigger] text[i]),
    ensures
        html_escaped(text) == text,
    decreases text.len(),
{
    if text.len() > 0 {
        let init = text.drop_last();
        assert forall|i: int| 0 <= i < init.len() implies !is_special(#[trigger] init[i]) by {
            assert(init[i] == text[i]);
        }
        plain_text_is_kept(init);
        assert(!is_special(text[text.len() - 1]));
        assert(init + seq![text.last()] == text);
    }
}

/// Escaping loses nothing: different texts have different escaped forms.
pub proof fn escaping_is_injective(a: Seq<char>, b: Seq<char>)
    requires
        html_escaped(a) == html_escaped(b),
    ensures
        a == b,
    decreases a.len(),
{
    if a.len() > 0 {
        lemma_escaped_front(a);
    }
    if b.len() > 0 {
        lemma_escaped_front(b);
    }
    if a.len() > 0 && b.len() > 0 {
        let whole = html_escaped(a);
        let head_a = escaped_char(a[0]);
        let head_b = escaped_char(b[0]);
        lemma_escaped_char(a[0]);
        lemma_escaped_char(b[0]);
        assert(whole[0] == head_a[0] && whole[0] == head_b[0]);
        if is_special(a[0]) && is_special(b[0]) {
            assert(whole[1] == head_a[1] && whole[1] == head_b[1]);
        }
        assert(a[0] == b[0]);
        let rest_a = html_escaped(a.drop_first());
        let rest_b = html_escaped(b.drop_first());
        assert(rest_a == whole.skip(head_a.len() as int));
        assert(rest_b == whole.skip(head_b.len() as int));
        escaping_is_injective(a.drop_first(), b.drop_first());
        assert(a == seq![a[0]] + a.drop_first());
        assert(b == seq![b[0]] + b.drop_first());
    } else {
        assert(a == b);
    }
}

proof fn lemma_escaped_front(text: Seq<char>)
    requires
        text.len() > 0,
    ensures
        html_escaped(text) == escaped_char(text[0]) + html_escaped(text.drop_first()),
        html_escaped(text).len() > 0,
{
    let first = seq![text[0]];
    escaping_distributes(first, text.drop_first());
    assert(first + text.drop_first() == text);
    assert(first.drop_last() == Seq::<char>::empty());
    assert(html_escaped(first.drop_last()) == Seq::<char>::empty());
    assert(html_escaped(first) == escaped_char(text[0]));
    lemma_escaped_char(text[0]);
}

/// The markup of a page is fixed: a title and a message add no `<`, no `>` and
/// no quotation mark to it.
pub proof fn page_markup_is_fixed(
    title: Seq<char>,
    message: Seq<char>,
    is_error: bool,
    mark: char,
)
    requires
        mark == '<' || mark == '>' || mark == '"' || mark == '\'',
    ensures
        occurrences(callback_page(title, message, is_error), mark) == occurrences(
            callback_page(Seq::empty(), Seq::empty(), is_error),
            mark,
        ),
{
    lemma_page_occurrences(title, message, is_error, mark);
    lemma_page_occurrences(Seq::empty(), Seq::empty(), is_error, mark);
}

proof fn lemma_page_occurrences(
    title: Seq<char>,
    message: Seq<char>,
    is_error: bool,
    mark: char,
)
    requires
        mark == '<' || mark == '>' || mark == '"' || mark == '\'',
    ensures
        occurrences(callback_page(title, message, is_error), mark) == occurrences(
            PAGE_START@,
            mark,
        ) + occurrences(PAGE_STYLE@, mark) + occurrences(page_icon(is_error).0, mark)
            + occurrences(PAGE_BODY@, mark) + occurrences(page_icon(is_error).1, mark)
            + occurrences(PAGE_HEADING@, mark) + occurrences(PAGE_MESSAGE@, mark) + occurrences(
            PAGE_END@,
            mark,
        ),
{
    let t = html_escaped(title);
    let m = html_escaped(message);
    escaped_text_holds_no_markup(title);
    escaped_text_holds_no_markup(message);
    t.to_multiset_ensures();
    m.to_multiset_ensures();
    assert(occurrences(t, mark) == 0);
    assert(occurrences(m, mark) == 0);
    let s1 = PAGE_START@ + t;
    let s2 = s1 + PAGE_STYLE@;
    let s3 = s2 + page_icon(is_error).0;
    let s4 = s3 + PAGE_BODY@;
    let s5 = s4 + page_icon(is_error).1;
    let s6 = s5 + PAGE_HEADING@;
    let s7 = s6 + t;
    let s8 = s7 + PAGE_MESSAGE@;
    let s9 = s8 + m;
    lemma_occurrences_concat(PAGE_START@, t, mark);
    lemma_occurrences_concat(s1, PAGE_STYLE@, mark);
    lemma_occurrences_concat(s2, page_icon(is_error).0, mark);
    lemma_occurrences_concat(s3, PAGE_BODY@, mark);
    lemma_occurrences_concat(s4, page_icon(is_error).1, mark);
    lemma_occurrences_concat(s5, PAGE_HEADING@, mark);
    lemma_occurrences_concat(s6, t, mark);
    lemma_occurrences_concat(s7, PAGE_MESSAGE@, mark);
    lemma_occurrences_concat(s8, m, mark);
    lemma_occurrences_concat(s9, PAGE_END@, mark);
}

/// Each character with a meaning of its own in HTML is replaced by the entity
/// that stands for it, and every other character stays. With
/// [`escaping_distributes`] this says what becomes of every text.
pub proof fn each_character_has_its_entity(c: char)
    ensures
        c == '&' ==> html_escaped(seq![c]) == "&amp;"@,
        c == '<' ==> html_escaped(seq![c]) == "&lt;"@,
        c == '>' ==> html_escaped(seq![c]) == "&gt;"@,
        c == '"' ==> html_escaped(seq![c]) == "&quot;"@,
        c == '\'' ==> html_escaped(seq![c]) == "&#x27;"@,
        c != '&' && c != '<' && c != '>' && c != '"' && c != '\'' ==> html_escaped(seq![c])
            == seq![c],
        html_escaped(Seq::empty()) == Seq::<char>::empty(),
{
    let text = seq![c];
    assert(text.drop_last() == Seq::<char>::empty());
    assert(text.last() == c);
    assert(html_escaped(text.drop_last()) == Seq::<char>::empty());
    assert(html_escaped(text) == escaped_char(c));
}

/// Every page of a kind is the same page but for its texts: there is a frame
/// that each title and each message are put into, the title as the title of the
/// document and as the heading, the message as the paragraph below it, and
/// every one of them whole.
pub proof fn pages_show_their_texts(is_error: bool) -> (frame: (
    Seq<char>,
    Seq<char>,
    Seq<char>,
    Seq<char>,
))
    ensures
        forall|title: Seq<char>, message: Seq<char>| #[trigger]
            callback_page(title, message, is_error) == frame.0 + html_escaped(title) + frame.1
                + html_escaped(title) + frame.2 + html_escaped(message) + frame.3,
        "<title>"@.is_suffix_of(frame.0),
        "<h1>"@.is_suffix_of(frame.1),
        frame.2 == "</h1>\n  <p>"@,
        "</p>"@.is_prefix_of(frame.3),
{
    reveal_strlit("<title>");
    reveal_strlit("<h1>");
    reveal_strlit("</p>");
    reveal_strlit(
        "<!DOCTYPE html>\n<html lang=\"en\">\n<head>\n<meta charset=\"utf-8\">\n<meta name=\"viewport\" content=\"width=device-width, initial-scale=1\">\n<title>",
    );
    reveal_strlit("\n  </div>\n  <h1>");
    reveal_strlit("</p>\n  <div class=\"brand\">Zed</div>\n</div>\n</body>\n</html>");
    let icon = page_icon(is_error);
    let middle = PAGE_STYLE@ + icon.0 + PAGE_BODY@ + icon.1 + PAGE_HEADING@;
    assert forall|title: Seq<char>, message: Seq<char>| #[trigger]
        callback_page(title, message, is_error) == PAGE_START@ + html_escaped(title) + middle
            + html_escaped(title) + PAGE_MESSAGE@ + html_escaped(message) + PAGE_END@ by {
        let t = html_escaped(title);
        assert(PAGE_START@ + t + PAGE_STYLE@ + icon.0 + PAGE_BODY@ + icon.1 + PAGE_HEADING@
            == PAGE_START@ + t + middle);
    }
    assert("<h1>"@.is_suffix_of(PAGE_HEADING@));
    assert(middle.subrange(middle.len() - 4, middle.len() as int) == "<h1>"@);
    (PAGE_START@, middle, PAGE_MESSAGE@, PAGE_END@)
}

/// Every page ends with its heading and below it its message.
pub proof fn page_ends_with_heading_and_message(
    title: Seq<char>,
    message: Seq<char>,
    is_error: bool,
)
    ensures
        ("<h1>"@ + html_escaped(title) + "</h1>\n  <p>"@ + html_escaped(message)
            + "</p>\n  <div class=\"brand\">Zed</div>\n</div>\n</body>\n</html>"@).is_suffix_of(
            callback_page(title, message, is_error),
        ),
{
    reveal_strlit("<h1>");
    reveal_strlit("\n  </div>\n  <h1>");
    let page = callback_page(title, message, is_error);
    let end = html_escaped(title) + PAGE_MESSAGE@ + html_escaped(message) + PAGE_END@;
    let front = PAGE_START@ + html_escaped(title) + PAGE_STYLE@ + page_icon(is_error).0 + PAGE_BODY@
        + page_icon(is_error).1;
    assert(page == front + PAGE_HEADING@ + end);
    let heading = PAGE_HEADING@;
    assert(heading == heading.take(heading.len() - 4) + "<h1>"@);
    let tail = "<h1>"@ + html_escaped(title) + "</h1>\n  <p>"@ + html_escaped(message) + PAGE_END@;
    assert(tail == "<h1>"@ + end);
    assert(page == front + heading.take(heading.len() - 4) + tail);
    assert(page.subrange(page.len() - tail.len(), page.len() as int) == tail);
}

/// A page that reports an error has a red cross exactly where one that reports
/// a success has a green check mark, and they differ in nothing else.
pub proof fn icon_tells_errors_from_successes(title: Seq<char>, message: Seq<char>) -> (frame: (
    Seq<char>,
    Seq<char>,
    Seq<char>,
))
    ensures
        callback_page(title, message, true) == frame.0 + "#f38ba8"@ + frame.1
            + r#"<svg viewBox="0 0 24 24"><line x1="18" y1="6" x2="6" y2="18"/><line x1="6" y1="6" x2="18" y2="18"/></svg>"#@
            + frame.2,
        callback_page(title, message, false) == frame.0 + "#a6e3a1"@ + frame.1
            + r#"<svg viewBox="0 0 24 24"><polyline points="20 6 9 17 4 12"/></svg>"#@ + frame.2,
{
    let t = html_escaped(title);
    let first = PAGE_START@ + t + PAGE_STYLE@;
    let last = PAGE_HEADING@ + t + PAGE_MESSAGE@ + html_escaped(message) + PAGE_END@;
    assert(callback_page(title, message, true) == first + ERROR_COLOR@ + PAGE_BODY@ + ERROR_ICON@
        + last);
    assert(callback_page(title, message, false) == first + SUCCESS_COLOR@ + PAGE_BODY@
        + SUCCESS_ICON@ + last);
    (first, PAGE_BODY@, last)
}

} // verus!
