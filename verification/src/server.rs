//! The loopback server that an OAuth authorization ends at: what it does with
//! each thing that happens to it.
//!
//! The program binds the socket, waits, answers and reports; the server says
//! what is to be done next.

use crate::oauth::{handle_oauth_callback_request, OAuthCallbackError, OAuthCallbackParams};
use crate::page::oauth_callback_page;
use crate::text::push_decimal;
use vstd::prelude::*;

verus! {

/// How long to wait for the browser to complete the OAuth flow before giving
/// up and releasing the loopback port, in nanoseconds.
pub const OAUTH_CALLBACK_TIMEOUT: u64 = 120_000_000_000;

/// The longest time for which a request is waited for at once, in nanoseconds.
pub const POLL_INTERVAL: u64 = 500_000_000;

/// What came of binding the loopback socket.
pub enum Binding {
    /// It could not be bound.
    Failed,
    /// It is bound, but to no TCP address.
    NotTcp,
    /// It is bound to a TCP port.
    Port(u16),
}

/// A server that was not started.
#[derive(Debug, Clone, Copy, PartialEq, Eq, Structural)]
pub enum StartError {
    BindFailed,
    NotTcp,
}

/// What happens to the server.
pub enum ServerEvent {
    /// It is about to wait: whether nobody awaits the callback any more, and
    /// how many nanoseconds have passed since it started.
    Ready { canceled: bool, elapsed: u64 },
    /// It waited, and no request came.
    NoRequest,
    /// It waited, and receiving failed.
    ReceiveFailed,
    /// A request came, for this path and query.
    Request { target: String },
}

/// A response to the browser.
pub struct CallbackResponse {
    pub status: u16,
    pub headers: Vec<&'static str>,
    pub body: String,
}

/// What the server is to do.
pub enum ServerAction {
    /// Wait for a request, so many nanoseconds at the most.
    Wait { timeout: u64 },
    /// Start over.
    Again,
    /// Answer the request, report the outcome, and stop.
    Answer {
        response: CallbackResponse,
        result: Result<OAuthCallbackParams, OAuthCallbackError>,
    },
    /// Report the outcome, and stop.
    Report { result: Result<OAuthCallbackParams, OAuthCallbackError> },
    /// Stop, and report nothing.
    Stop,
}

/// The URI that the browser is sent back to.
pub open spec fn redirect_uri(port: u16) -> Seq<char> {
    "http://127.0.0.1:"@ + crate::text::decimal(port as nat) + "/callback"@
}

/// The headers of each response.
pub open spec fn response_headers() -> Seq<Seq<char>> {
    seq!["Content-Type: text/html"@, "Keep-Alive: timeout=0,max=0"@]
}

/// The status code of a response.
pub open spec fn response_status(accepted: bool) -> u16 {
    if accepted {
        200
    } else {
        400
    }
}

/// The page in a response.
pub open spec fn response_page(accepted: bool) -> Seq<char> {
    if accepted {
        crate::page::callback_page(
            "Authorization Successful"@,
            "You can close this tab and return to Zed."@,
            false,
        )
    } else {
        crate::page::callback_page(
            "Authorization Failed"@,
            "Something went wrong. Please try again from Zed."@,
            true,
        )
    }
}

impl CallbackResponse {
    /// Whether this is the response to a callback that was accepted, or to one
    /// that was not.
    pub open spec fn answers(self, accepted: bool) -> bool {
        &&& self.status == response_status(accepted)
        &&& crate::proxy::texts(self.headers@) == response_headers()
        &&& self.body@ == response_page(accepted)
    }
}

/// How long a request is waited for, after some time has passed; nothing if
/// the time is up.
pub open spec fn wait_after(elapsed: u64) -> Option<u64> {
    if elapsed >= OAUTH_CALLBACK_TIMEOUT {
        None
    } else if OAUTH_CALLBACK_TIMEOUT - elapsed < POLL_INTERVAL {
        Some((OAUTH_CALLBACK_TIMEOUT - elapsed) as u64)
    } else {
        Some(POLL_INTERVAL)
    }
}

/// Whether an action is what a server that is listening does about an event.
pub open spec fn is_reaction(event: ServerEvent, action: ServerAction) -> bool {
    match event {
        ServerEvent::Ready { canceled, elapsed } => match wait_after(elapsed) {
            Some(timeout) if !canceled => action == ServerAction::Wait { timeout },
            _ => action is Stop,
        },
        ServerEvent::NoRequest => action is Again,
        ServerEvent::ReceiveFailed => action matches ServerAction::Report { result }
            && crate::oauth::outcome(result) == Err::<
            crate::oauth::CallbackText,
            crate::oauth::CallbackFailure,
        >(crate::oauth::CallbackFailure::ServerFailure),
        ServerEvent::Request { target } => action matches ServerAction::Answer { response, result }
            && crate::oauth::outcome(result) == crate::oauth::request_outcome(target@)
            && response.answers(result is Ok),
    }
}

/// Whether the server goes on after an action.
pub open spec fn goes_on(action: ServerAction) -> bool {
    action is Wait || action is Again
}

/// Whether an action is what the server does about an event.
pub open spec fn is_step(listening: bool, event: ServerEvent, action: ServerAction) -> bool {
    if listening {
        is_reaction(event, action)
    } else {
        action is Stop
    }
}

/// The server: listening, or not any more.
pub struct OAuthCallbackServer {
    listening: bool,
}

impl OAuthCallbackServer {
    /// Whether the server is still listening.
    pub closed spec fn is_listening(self) -> bool {
        self.listening
    }

    /// Takes note of an event and says what is to be done.
    pub fn step(&mut self, event: ServerEvent) -> (action: ServerAction)
        requires
            event matches ServerEvent::Request { target } ==> target@.len()
                <= crate::oauth::TARGET_MAX,
        ensures
            is_step(old(self).is_listening(), event, action),
            final(self).is_listening() == (old(self).is_listening() && goes_on(action)),
            final(self).is_listening() <==> old(self).is_listening() && (action is Wait
                || action is Again),
            !old(self).is_listening() ==> action is Stop,
            old(self).is_listening() ==> match event {
                ServerEvent::Ready { canceled, elapsed } => {
                    &&& canceled || elapsed >= OAUTH_CALLBACK_TIMEOUT ==> action is Stop
                    &&& !canceled && elapsed < OAUTH_CALLBACK_TIMEOUT ==> {
                        &&& action is Wait
                        &&& action->timeout <= POLL_INTERVAL
                        &&& elapsed + action->timeout <= OAUTH_CALLBACK_TIMEOUT
                        &&& action->timeout == POLL_INTERVAL || elapsed + action->timeout
                            == OAUTH_CALLBACK_TIMEOUT
                    }
                },
                ServerEvent::NoRequest => action is Again,
                ServerEvent::ReceiveFailed => action is Report && action->Report_result
                    matches Err(OAuthCallbackError::ServerFailure),
                ServerEvent::Request { target } => {
                    &&& action is Answer
                    &&& crate::oauth::outcome(action->Answer_result)
                        == crate::oauth::request_outcome(target@)
                    &&& action->response.status == if action->Answer_result is Ok {
                        200u16
                    } else {
                        400u16
                    }
                    &&& action->response.body@ == response_page(action->Answer_result is Ok)
                },
            },
            event matches ServerEvent::Request { target } ==> (action matches ServerAction::Answer {
                result,
                ..
            } ==> forall|pairs: Seq<(Seq<char>, Seq<char>)>|
                target@ == "/callback?"@ + #[trigger] crate::web::urlencoded(pairs)
                    ==> crate::oauth::outcome(result) == crate::oauth::pairs_outcome(pairs)),
    {
        if !self.listening {
            return ServerAction::Stop;
        }
        match event {
            ServerEvent::Ready { canceled, elapsed } => {
                if canceled || elapsed >= OAUTH_CALLBACK_TIMEOUT {
                    self.listening = false;
                    return ServerAction::Stop;
                }
                let remaining: u64 = OAUTH_CALLBACK_TIMEOUT - elapsed;
                let timeout: u64 = if remaining < POLL_INTERVAL {
                    remaining
                } else {
                    POLL_INTERVAL
                };
                ServerAction::Wait { timeout }
            },
            ServerEvent::NoRequest => ServerAction::Again,
            ServerEvent::ReceiveFailed => {
                self.listening = false;
                ServerAction::Report { result: Err(OAuthCallbackError::ServerFailure) }
            },
            ServerEvent::Request { target } => {
                self.listening = false;
                let result = handle_oauth_callback_request(target.as_str());
                let response = callback_response(result.is_ok());
                ServerAction::Answer { response, result }
            },
        }
    }
}

/// The response to a callback that was accepted, or to one that was not.
pub fn callback_response(accepted: bool) -> (response: CallbackResponse)
    ensures
        response.answers(accepted),
        response.status == if accepted {
            200u16
        } else {
            400u16
        },
        response.headers@.len() == 2,
        response.headers@[0]@ == "Content-Type: text/html"@,
        response.headers@[1]@ == "Keep-Alive: timeout=0,max=0"@,
        accepted ==> response.body@ == crate::page::callback_page(
            "Authorization Successful"@,
            "You can close this tab and return to Zed."@,
            false,
        ),
        !accepted ==> response.body@ == crate::page::callback_page(
            "Authorization Failed"@,
            "Something went wrong. Please try again from Zed."@,
            true,
        ),
{
    let headers: Vec<&'static str> = vec!["Content-Type: text/html", "Keep-Alive: timeout=0,max=0"];
    proof {
        assert(crate::proxy::texts(headers@) =~= response_headers());
    }
    if accepted {
        CallbackResponse {
            status: 200,
            headers,
            body: oauth_callback_page(
                "Authorization Successful",
                "You can close this tab and return to Zed.",
                false,
            ),
        }
    } else {
        CallbackResponse {
            status: 400,
            headers,
            body: oauth_callback_page(
                "Authorization Failed",
                "Something went wrong. Please try again from Zed.",
                true,
            ),
        }
    }
}

/// Starts a server whose socket was bound. Returns the redirect URI and the
/// server. The caller should use the redirect URI in the authorization
/// request and open the browser.
pub fn start_oauth_callback_server(binding: Binding) -> (started: Result<
    (String, OAuthCallbackServer),
    StartError,
>)
    ensures
        match binding {
            Binding::Failed => started == Err::<(String, OAuthCallbackServer), StartError>(
                StartError::BindFailed,
            ),
            Binding::NotTcp => started == Err::<(String, OAuthCallbackServer), StartError>(
                StartError::NotTcp,
            ),
            Binding::Port(port) => started matches Ok((uri, server)) && uri@ == redirect_uri(port)
                && uri@ == "http://127.0.0.1:"@ + crate::text::decimal(port as nat) + "/callback"@
                && server.is_listening(),
        },
{
    match binding {
        Binding::Failed => Err(StartError::BindFailed),
        Binding::NotTcp => Err(StartError::NotTcp),
        Binding::Port(port) => {
            let mut uri = "http://127.0.0.1:".to_owned();
            push_decimal(&mut uri, port);
            uri.push_str("/callback");
            Ok((uri, OAuthCallbackServer { listening: true }))
        },
    }
}

impl StartError {
    /// What the error is reported as.
    pub fn message(&self) -> (message: &'static str)
        ensures
            message@ == match self {
                StartError::BindFailed => "Failed to bind loopback listener for OAuth callback"@,
                StartError::NotTcp => "server not bound to a TCP address"@,
            },
    {
        match self {
            StartError::BindFailed => "Failed to bind loopback listener for OAuth callback",
            StartError::NotTcp => "server not bound to a TCP address",
        }
    }
}

/// Whether the server, started anew, is still listening after some steps.
pub open spec fn listens_after(steps: Seq<(ServerEvent, ServerAction)>) -> bool
    decreases steps.len(),
{
    steps.len() == 0 || (listens_after(steps.drop_last()) && goes_on(steps.last().1))
}

/// Whether the server, started anew, takes these steps.
pub open spec fn is_run(steps: Seq<(ServerEvent, ServerAction)>) -> bool {
    forall|i: int|
        0 <= i < steps.len() ==> is_step(
            listens_after(steps.take(i)),
            (#[trigger] steps[i]).0,
            steps[i].1,
        )
}

proof fn lemma_stays_closed(steps: Seq<(ServerEvent, ServerAction)>, i: int, j: int)
    requires
        0 <= i < j <= steps.len(),
        !goes_on(steps[i].1),
    ensures
        !listens_after(steps.take(j)),
    decreases j,
{
    let taken = steps.take(j);
    if i == j - 1 {
        assert(taken.last() == steps[i]);
    } else {
        lemma_stays_closed(steps, i, j - 1);
        assert(taken.drop_last() == steps.take(j - 1));
    }
}

/// Once the server has answered, reported or stopped, it does nothing more: of
/// a whole run at most one step answers or reports.
pub proof fn nothing_follows_the_end(steps: Seq<(ServerEvent, ServerAction)>, i: int, j: int)
    requires
        is_run(steps),
        0 <= i < j < steps.len(),
        !goes_on(steps[i].1),
    ensures
        steps[j].1 is Stop,
{
    lemma_stays_closed(steps, i, j);
    assert(is_step(listens_after(steps.take(j)), steps[j].0, steps[j].1));
}

/// The server never waits beyond its deadline, nor longer than one interval,
/// and never for no time at all.
pub proof fn waits_end_in_time(listening: bool, elapsed: u64, canceled: bool, timeout: u64)
    requires
        is_step(
            listening,
            ServerEvent::Ready { canceled, elapsed },
            ServerAction::Wait { timeout },
        ),
    ensures
        !canceled,
        0 < timeout <= POLL_INTERVAL,
        elapsed + timeout <= OAUTH_CALLBACK_TIMEOUT,
{
}

/// The browser is told that the authorization succeeded just when the
/// parameters are reported.
pub proof fn browser_is_told_the_outcome(
    listening: bool,
    target: String,
    response: CallbackResponse,
    result: Result<OAuthCallbackParams, OAuthCallbackError>,
)
    requires
        is_step(
            listening,
            ServerEvent::Request { target },
            ServerAction::Answer { response, result },
        ),
    ensures
        response.status == 200 <==> result is Ok,
        response.status == 400 <==> result is Err,
        result is Ok <==> crate::oauth::request_outcome(target@) is Ok,
{
}

/// A server that is listening, and whose callback is still awaited, goes on
/// waiting until its time is up: each time for one whole interval, or for what
/// is left.
pub proof fn server_waits_until_the_deadline(elapsed: u64, action: ServerAction)
    requires
        is_step(true, ServerEvent::Ready { canceled: false, elapsed }, action),
        elapsed < OAUTH_CALLBACK_TIMEOUT,
    ensures
        action is Wait,
        elapsed + POLL_INTERVAL <= OAUTH_CALLBACK_TIMEOUT ==> action->timeout == POLL_INTERVAL,
        elapsed + POLL_INTERVAL > OAUTH_CALLBACK_TIMEOUT ==> elapsed + action->timeout
            == OAUTH_CALLBACK_TIMEOUT,
        goes_on(action),
{
}

/// A server gives up just when nobody awaits the callback any more, or its time
/// is up.
pub proof fn server_gives_up_only_for_a_reason(
    elapsed: u64,
    canceled: bool,
    action: ServerAction,
)
    requires
        is_step(true, ServerEvent::Ready { canceled, elapsed }, action),
    ensures
        action is Stop <==> canceled || elapsed >= OAUTH_CALLBACK_TIMEOUT,
        !goes_on(action) <==> canceled || elapsed >= OAUTH_CALLBACK_TIMEOUT,
{
}

/// A wait in which no request comes changes nothing: the server starts over. A
/// failure to receive is reported as such.
pub proof fn idle_waits_are_repeated(action: ServerAction, failed: ServerAction)
    requires
        is_step(true, ServerEvent::NoRequest, action),
        is_step(true, ServerEvent::ReceiveFailed, failed),
    ensures
        action is Again,
        goes_on(action),
        failed is Report,
        failed->Report_result matches Err(OAuthCallbackError::ServerFailure),
        !goes_on(failed),
{
    crate::oauth::outcomes_are_seen_as_they_are(failed->Report_result);
}

/// Every request that a listening server gets is answered and its outcome
/// reported, with the page for that outcome.
pub proof fn every_request_is_answered(target: String, action: ServerAction)
    requires
        is_step(true, ServerEvent::Request { target }, action),
    ensures
        action is Answer,
        crate::oauth::outcome(action->Answer_result) == crate::oauth::request_outcome(target@),
        action->response.headers@.len() == 2,
        action->response.headers@[0]@ == "Content-Type: text/html"@,
        action->response.headers@[1]@ == "Keep-Alive: timeout=0,max=0"@,
        action->Answer_result is Ok ==> action->response.status == 200 && action->response.body@
            == crate::page::callback_page(
            "Authorization Successful"@,
            "You can close this tab and return to Zed."@,
            false,
        ),
        action->Answer_result is Err ==> action->response.status == 400 && action->response.body@
            == crate::page::callback_page(
            "Authorization Failed"@,
            "Something went wrong. Please try again from Zed."@,
            true,
        ),
        !goes_on(action),
{
    let headers = action->response.headers@;
    crate::proxy::texts_are_seen_as_they_are(headers, None);
    assert(crate::proxy::texts(headers).len() == 2);
    assert(crate::proxy::texts(headers)[0] == headers[0]@);
    assert(crate::proxy::texts(headers)[1] == headers[1]@);
}

/// A server that is not listening any more does nothing, whatever happens.
pub proof fn closed_server_does_nothing(event: ServerEvent, action: ServerAction)
    requires
        is_step(false, event, action),
    ensures
        action is Stop,
{
}

/// The redirect URI leads to the callback at the loopback address, and the
/// digits in it stand for the port that was bound.
pub proof fn redirect_uri_names_the_port(port: u16)
    ensures
        exists|digits: Seq<char>|
            {
                &&& redirect_uri(port) == "http://127.0.0.1:"@ + digits + "/callback"@
                &&& #[trigger] crate::text::number(digits) == port
                &&& digits.len() > 0
                &&& digits[0] == '0' ==> digits.len() == 1
                &&& forall|i: int| 0 <= i < digits.len() ==> '0' <= #[trigger] digits[i] <= '9'
            },
{
    let digits = crate::text::decimal(port as nat);
    crate::text::decimal_is_read_back(port as nat);
    assert(crate::text::number(digits) == port);
}

} // verus!
