use http_client::{html_escape, oauth_callback_page};

const CHECK: &str = r#"<svg viewBox="0 0 24 24"><polyline points="20 6 9 17 4 12"/></svg>"#;
const CROSS: &str = r#"<svg viewBox="0 0 24 24"><line x1="18" y1="6" x2="6" y2="18"/><line x1="6" y1="6" x2="18" y2="18"/></svg>"#;

fn expected(title: &str, message: &str, icon_bg: &str, icon_svg: &str) -> String {
    format!(
        r#"<!DOCTYPE html>
<html lang="en">
<head>
<meta charset="utf-8">
<meta name="viewport" content="width=device-width, initial-scale=1">
<title>{title} — Zed</title>
<style>
  * {{ margin: 0; padding: 0; box-sizing: border-box; }}
  body {{
    font-family: -apple-system, BlinkMacSystemFont, 'Segoe UI', Roboto, Oxygen, Ubuntu, sans-serif;
    background: #1e1e2e;
    color: #cdd6f4;
    display: flex;
    align-items: center;
    justify-content: center;
    min-height: 100vh;
    padding: 1rem;
  }}
  .card {{
    background: #313244;
    border-radius: 12px;
    padding: 2.5rem;
    max-width: 420px;
    width: 100%;
    text-align: center;
    box-shadow: 0 4px 24px rgba(0, 0, 0, 0.3);
  }}
  .icon {{
    width: 48px;
    height: 48px;
    margin: 0 auto 1.5rem;
    background: {icon_bg};
    border-radius: 50%;
    display: flex;
    align-items: center;
    justify-content: center;
  }}
  .icon svg {{
    width: 24px;
    height: 24px;
    stroke: #1e1e2e;
    stroke-width: 3;
    fill: none;
  }}
  h1 {{
    font-size: 1.25rem;
    font-weight: 600;
    margin-bottom: 0.75rem;
    color: #cdd6f4;
  }}
  p {{
    font-size: 0.925rem;
    line-height: 1.5;
    color: #a6adc8;
  }}
  .brand {{
    margin-top: 1.5rem;
    font-size: 0.8rem;
    color: #585b70;
    letter-spacing: 0.05em;
  }}
</style>
</head>
<body>
<div class="card">
  <div class="icon">
    {icon_svg}
  </div>
  <h1>{title}</h1>
  <p>{message}</p>
  <div class="brand">Zed</div>
</div>
</body>
</html>"#,
        title = title,
        message = message,
        icon_bg = icon_bg,
        icon_svg = icon_svg,
    )
}

fn count(text: &str, c: char) -> usize {
    text.chars().filter(|d| *d == c).count()
}

#[test]
fn escapes_each_special_character() {
    assert_eq!(html_escape("&"), "&amp;");
    assert_eq!(html_escape("<"), "&lt;");
    assert_eq!(html_escape(">"), "&gt;");
    assert_eq!(html_escape("\""), "&quot;");
    assert_eq!(html_escape("'"), "&#x27;");
    assert_eq!(
        html_escape("<a href=\"x\">Tom & Jerry's</a>"),
        "&lt;a href=&quot;x&quot;&gt;Tom &amp; Jerry&#x27;s&lt;/a&gt;"
    );
}

#[test]
fn keeps_plain_text() {
    assert_eq!(html_escape(""), "");
    assert_eq!(html_escape("Grüße; 世界 \u{1F980}"), "Grüße; 世界 \u{1F980}");
}

#[test]
fn escapes_in_pieces() {
    let whole = html_escape("a<b&c");
    assert_eq!(whole, format!("{}{}", html_escape("a<"), html_escape("b&c")));
}

#[test]
fn escaping_tells_texts_apart() {
    assert_ne!(html_escape("&lt;"), html_escape("<"));
    assert_eq!(html_escape("&lt;"), "&amp;lt;");
}

#[test]
fn success_page_is_exact() {
    assert_eq!(
        oauth_callback_page("Done", "All went well.", false),
        expected("Done", "All went well.", "#a6e3a1", CHECK)
    );
}

#[test]
fn error_page_is_exact() {
    assert_eq!(
        oauth_callback_page("Oh & no", "It's <bad>", true),
        expected("Oh &amp; no", "It&#x27;s &lt;bad&gt;", "#f38ba8", CROSS)
    );
}

#[test]
fn texts_add_no_markup() {
    let plain = oauth_callback_page("", "", false);
    let page = oauth_callback_page("<script>\"'", "</p><img src='x'>", false);
    for mark in ['<', '>', '"', '\''] {
        assert_eq!(count(&page, mark), count(&plain, mark));
    }
}
