//! One call and its retries.
//!
//! An [`RpcCall`] takes what happened and answers what to do next. It starts
//! with [`Event::Start`]; each later event reports on the action before it.

use crate::backoff::backoff_duration;
use crate::envelope::{JsonRpcRequest, JsonRpcResponse};
use crate::error::{PrismError, PrismResult};
use crate::status::HttpStatus;
use crate::text::decimal_text;
use serde_json::Value;
use std::time::Duration;
use vstd::prelude::*;

verus! {

/// Where a call stands. Attempts count from zero.
#[derive(Debug, Clone, Copy, PartialEq, Eq, Structural)]
pub enum CallState {
    /// Nothing has happened yet.
    Ready,
    /// The delay before an attempt is running.
    Waiting { attempt: u32 },
    /// The request of an attempt is out.
    Sending { attempt: u32 },
    /// The body of the reply to an attempt is being read.
    Reading { attempt: u32 },
    /// The result has been handed out.
    Finished,
}

/// What happened.
#[derive(Debug)]
pub enum Event {
    /// The call begins.
    Start,
    /// The delay is over.
    Waited,
    /// The request could not be sent, or no reply came; with the reason.
    SendFailed(String),
    /// A reply came, with this status.
    Responded(HttpStatus),
    /// The body of the reply could not be read; with the reason.
    ReadFailed(String),
    /// The body of the reply is not a JSON-RPC response; with the reason.
    ParseFailed(String),
    /// The body of the reply is this response.
    Parsed(JsonRpcResponse),
}

/// What to do next.
#[derive(Debug)]
pub enum Action {
    /// Sleep, then report [`Event::Waited`].
    Sleep(Duration),
    /// Send the request to the endpoint, then report [`Event::SendFailed`] or
    /// [`Event::Responded`].
    Send,
    /// Read and parse the body of the reply, then report [`Event::ReadFailed`],
    /// [`Event::ParseFailed`] or [`Event::Parsed`].
    ReadBody,
    /// Return this: the call is over.
    Return(PrismResult<Value>),
}

/// What an [`Event`] reports.
pub enum EventView {
    Start,
    Waited,
    SendFailed(Seq<char>),
    Responded(u16),
    ReadFailed(Seq<char>),
    ParseFailed(Seq<char>),
    Parsed(crate::envelope::ResponseView),
}

impl View for Event {
    type V = EventView;

    open spec fn view(&self) -> EventView {
        match self {
            Event::Start => EventView::Start,
            Event::Waited => EventView::Waited,
            Event::SendFailed(reason) => EventView::SendFailed(reason@),
            Event::Responded(status) => EventView::Responded(status@),
            Event::ReadFailed(reason) => EventView::ReadFailed(reason@),
            Event::ParseFailed(reason) => EventView::ParseFailed(reason@),
            Event::Parsed(response) => EventView::Parsed(response@),
        }
    }
}

/// What an [`Action`] asks for.
pub enum ActionView {
    Sleep(Duration),
    Send,
    ReadBody,
    Return(Result<Value, crate::error::PrismErrorView>),
}

impl View for Action {
    type V = ActionView;

    open spec fn view(&self) -> ActionView {
        match self {
            Action::Sleep(delay) => ActionView::Sleep(*delay),
            Action::Send => ActionView::Send,
            Action::ReadBody => ActionView::ReadBody,
            Action::Return(result) => ActionView::Return(crate::error::result_view(*result)),
        }
    }
}

/// A failure with the given message.
pub open spec fn failure(message: Seq<char>) -> Result<Value, crate::error::PrismErrorView> {
    Err(crate::error::PrismErrorView::RpcError(message))
}

/// Whether a reply with the status code `code` calls for another attempt.
pub open spec fn is_retried_status(code: u16) -> bool {
    code == crate::status::TOO_MANY_REQUESTS || crate::status::is_server_error_code(code)
}

/// The message for an attempt whose request failed for `reason`.
pub open spec fn send_failed_message(reason: Seq<char>) -> Seq<char> {
    "Request failed: "@ + reason
}

/// The message for an attempt whose reply had the retried status code `code`.
pub open spec fn retried_status_message(code: u16, attempt: u32) -> Seq<char> {
    if code == crate::status::TOO_MANY_REQUESTS {
        "Rate limited (attempt "@ + crate::text::decimal(attempt as nat) + ")"@
    } else {
        "Server error "@ + crate::status::status_line(code) + " on attempt "@
            + crate::text::decimal(attempt as nat)
    }
}

/// What follows when attempt `attempt` failed in a way that another attempt may
/// mend: the delay before the next one, or, after the last one, its failure.
pub open spec fn after_retryable(max_retries: u32, attempt: u32, message: Seq<char>) -> (
    CallState,
    ActionView,
) {
    if attempt < max_retries {
        (
            CallState::Waiting { attempt: (attempt + 1) as u32 },
            ActionView::Sleep(crate::backoff::backoff_delay((attempt + 1) as nat)),
        )
    } else {
        (CallState::Finished, ActionView::Return(failure(message)))
    }
}

/// What follows an event: the next state and the action, or nothing where the
/// state does not wait for such an event.
pub open spec fn transition(max_retries: u32, state: CallState, event: EventView) -> Option<
    (CallState, ActionView),
> {
    match (state, event) {
        (CallState::Ready, EventView::Start) => Some(
            (CallState::Sending { attempt: 0 }, ActionView::Send),
        ),
        (CallState::Waiting { attempt }, EventView::Waited) => Some(
            (CallState::Sending { attempt }, ActionView::Send),
        ),
        (CallState::Sending { attempt }, EventView::SendFailed(reason)) => Some(
            after_retryable(max_retries, attempt, send_failed_message(reason)),
        ),
        (CallState::Sending { attempt }, EventView::Responded(code)) => Some(
            if is_retried_status(code) {
                after_retryable(max_retries, attempt, retried_status_message(code, attempt))
            } else {
                (CallState::Reading { attempt }, ActionView::ReadBody)
            },
        ),
        (CallState::Reading { .. }, EventView::ReadFailed(reason)) => Some(
            (
                CallState::Finished,
                ActionView::Return(failure("Response read error: "@ + reason)),
            ),
        ),
        (CallState::Reading { .. }, EventView::ParseFailed(reason)) => Some(
            (
                CallState::Finished,
                ActionView::Return(failure("Response parse error: "@ + reason)),
            ),
        ),
        (CallState::Reading { .. }, EventView::Parsed(response)) => Some(
            (CallState::Finished, ActionView::Return(response.outcome())),
        ),
        _ => None,
    }
}

/// Whether a call with `max_retries` retries can stand in `state`: attempts run
/// from zero to `max_retries`, and there is no delay before the first.
pub open spec fn is_in_range(max_retries: u32, state: CallState) -> bool {
    match state {
        CallState::Ready => true,
        CallState::Waiting { attempt } => 1 <= attempt <= max_retries,
        CallState::Sending { attempt } => attempt <= max_retries,
        CallState::Reading { attempt } => attempt <= max_retries,
        CallState::Finished => true,
    }
}

/// A call: its request, where the request goes, how often it is retried, and
/// where the call stands.
#[derive(Debug)]
pub struct RpcCall<'a> {
    endpoint: &'a str,
    request: JsonRpcRequest<'a>,
    max_retries: u32,
    state: CallState,
}

/// What an [`RpcCall`] holds.
pub struct CallView {
    pub endpoint: Seq<char>,
    pub request: crate::envelope::RequestView,
    pub max_retries: u32,
    pub state: CallState,
}

impl<'a> View for RpcCall<'a> {
    type V = CallView;

    closed spec fn view(&self) -> CallView {
        CallView {
            endpoint: self.endpoint@,
            request: self.request@,
            max_retries: self.max_retries,
            state: self.state,
        }
    }
}

impl<'a> RpcCall<'a> {
    #[verifier::type_invariant]
    spec fn is_valid(self) -> bool {
        is_in_range(self.max_retries, self.state)
    }

    /// The call that sends `request` to `endpoint` and retries it at most
    /// `max_retries` times.
    pub fn new(
        endpoint: &'a str,
        request: JsonRpcRequest<'a>,
        max_retries: u32,
    ) -> (call: RpcCall<'a>)
        ensures
            call@ == (CallView {
                endpoint: endpoint@,
                request: request@,
                max_retries,
                state: CallState::Ready,
            }),
            call@.endpoint == endpoint@,
            call@.request.jsonrpc == request.jsonrpc@,
            call@.request.id == request.id,
            call@.request.method == request.method@,
            call@.request.params == request.params,
            call@.max_retries == max_retries,
            call@.state is Ready,
    {
        RpcCall { endpoint, request, max_retries, state: CallState::Ready }
    }

    /// Where the request goes.
    pub fn endpoint(&self) -> (endpoint: &'a str)
        ensures
            endpoint@ == self@.endpoint,
    {
        self.endpoint
    }

    /// The request, the same for every attempt.
    pub fn request(&self) -> (request: &JsonRpcRequest<'a>)
        ensures
            request@ == self@.request,
            request.jsonrpc@ == self@.request.jsonrpc,
            request.id == self@.request.id,
            request.method@ == self@.request.method,
            request.params == self@.request.params,
    {
        &self.request
    }

    /// Where the call stands.
    pub fn state(&self) -> (state: CallState)
        ensures
            state == self@.state,
            is_in_range(self@.max_retries, state),
    {
        proof {
            use_type_invariant(self);
        }
        self.state
    }

    /// Takes what happened and answers what to do next. An event that the call
    /// does not wait for is answered by `None` and changes nothing.
    pub fn on_event(&mut self, event: Event) -> (action: Option<Action>)
        ensures
            match transition(old(self)@.max_retries, old(self)@.state, event@) {
                Some((state, next)) => action is Some && action->0@ == next && final(self)@
                    == (CallView { state, ..old(self)@ }),
                None => action is None && final(self)@ == old(self)@,
            },
            // Only the state of a call changes.
            final(self)@.endpoint == old(self)@.endpoint,
            final(self)@.request == old(self)@.request,
            final(self)@.max_retries == old(self)@.max_retries,
            // Which events are taken.
            action is Some <==> ({
                ||| old(self)@.state is Ready && event is Start
                ||| old(self)@.state is Waiting && event is Waited
                ||| old(self)@.state is Sending && (event is SendFailed || event is Responded)
                ||| old(self)@.state is Reading && (event is ReadFailed || event is ParseFailed
                    || event is Parsed)
            }),
            action is None ==> final(self)@.state == old(self)@.state,
            // The request is sent at the start and after each delay.
            old(self)@.state is Ready && event is Start ==> (action matches Some(Action::Send)
                && final(self)@.state == (CallState::Sending { attempt: 0 })),
            old(self)@.state matches CallState::Waiting { attempt } ==> (event is Waited ==> (
            action matches Some(Action::Send) && final(self)@.state == (CallState::Sending {
                attempt,
            }))),
            // A failed request, a 429 and a 5xx are retried while a retry is left.
            old(self)@.state matches CallState::Sending { attempt } ==> ((event is SendFailed || (
            event matches Event::Responded(status) && (status@ == 429 || 500 <= status@ <= 599)))
                && attempt < old(self)@.max_retries ==> (action matches Some(Action::Sleep(delay))
                && delay == crate::backoff::duration_of_millis(
                vstd::math::min(
                    100int * vstd::arithmetic::power2::pow2((attempt + 1) as nat),
                    10_000,
                ) as u64,
            ) && final(self)@.state == (CallState::Waiting { attempt: (attempt + 1) as u32 }))),
            // After the last retry each of them ends the call with its own message.
            old(self)@.state matches CallState::Sending { attempt } ==> (event matches
                Event::SendFailed(reason) ==> (attempt >= old(self)@.max_retries ==> (
            action matches Some(Action::Return(Err(PrismError::RpcError(message)))) && message@
                == "Request failed: "@ + reason@ && final(self)@.state is Finished))),
            old(self)@.state matches CallState::Sending { attempt } ==> (event matches
                Event::Responded(status) ==> (status@ == 429 && attempt
                >= old(self)@.max_retries ==> (action matches Some(
                Action::Return(Err(PrismError::RpcError(message))),
            ) && message@ == "Rate limited (attempt "@ + crate::text::decimal(attempt as nat)
                + ")"@ && final(self)@.state is Finished))),
            old(self)@.state matches CallState::Sending { attempt } ==> (event matches
                Event::Responded(status) ==> (500 <= status@ <= 599 && attempt
                >= old(self)@.max_retries ==> (action matches Some(
                Action::Return(Err(PrismError::RpcError(message))),
            ) && message@ == "Server error "@ + (crate::text::decimal(status@ as nat) + " "@
                + crate::status::reason_phrase(status@)) + " on attempt "@
                + crate::text::decimal(attempt as nat) && final(self)@.state is Finished))),
            // Whatever the attempt, the body of any other reply is read.
            old(self)@.state matches CallState::Sending { attempt } ==> (event matches
                Event::Responded(status) ==> (status@ != 429 && !(500 <= status@ <= 599) ==> (
            action matches Some(Action::ReadBody) && final(self)@.state == (CallState::Reading {
                attempt,
            })))),
            // What comes of the body is returned.
            old(self)@.state is Reading && event is ReadFailed ==> (action matches Some(
                Action::Return(Err(PrismError::RpcError(message))),
            ) && message@ == "Response read error: "@ + event->ReadFailed_0@
                && final(self)@.state is Finished),
            old(self)@.state is Reading && event is ParseFailed ==> (action matches Some(
                Action::Return(Err(PrismError::RpcError(message))),
            ) && message@ == "Response parse error: "@ + event->ParseFailed_0@
                && final(self)@.state is Finished),
            old(self)@.state is Reading && event is Parsed ==> final(self)@.state is Finished,
            old(self)@.state is Reading ==> (event matches Event::Parsed(response) ==> (
            response.error matches Some(error) ==> (action matches Some(
                Action::Return(Err(PrismError::RpcError(message))),
            ) && message@ == error.message@))),
            old(self)@.state is Reading ==> (event matches Event::Parsed(response) ==> (
            response.error is None ==> (response.result matches Some(value) ==> action == Some(
                Action::Return(Ok(value)),
            )))),
            old(self)@.state is Reading ==> (event matches Event::Parsed(response) ==> (
            response.error is None && response.result is None ==> (action matches Some(
                Action::Return(Err(PrismError::RpcError(message))),
            ) && message@ == "Empty response"@))),
    {
        proof {
            use_type_invariant(&*self);
        }
        match (self.state, event) {
            (CallState::Ready, Event::Start) => {
                self.state = CallState::Sending { attempt: 0 };
                Some(Action::Send)
            },
            (CallState::Waiting { attempt }, Event::Waited) => {
                self.state = CallState::Sending { attempt };
                Some(Action::Send)
            },
            (CallState::Sending { attempt }, Event::SendFailed(reason)) => {
                let mut message = "Request failed: ".to_owned();
                message.append(reason.as_str());
                Some(self.retry_or_fail(attempt, message))
            },
            (CallState::Sending { attempt }, Event::Responded(status)) => {
                if status.is_rate_limit() {
                    let mut message = "Rate limited (attempt ".to_owned();
                    message.append(decimal_text(attempt).as_str());
                    message.append(")");
                    Some(self.retry_or_fail(attempt, message))
                } else if status.is_server_error() {
                    let mut message = "Server error ".to_owned();
                    message.append(status.text().as_str());
                    message.append(" on attempt ");
                    message.append(decimal_text(attempt).as_str());
                    Some(self.retry_or_fail(attempt, message))
                } else {
                    self.state = CallState::Reading { attempt };
                    Some(Action::ReadBody)
                }
            },
            (CallState::Reading { .. }, Event::ReadFailed(reason)) => {
                let mut message = "Response read error: ".to_owned();
                message.append(reason.as_str());
                self.state = CallState::Finished;
                Some(Action::Return(Err(PrismError::RpcError(message))))
            },
            (CallState::Reading { .. }, Event::ParseFailed(reason)) => {
                let mut message = "Response parse error: ".to_owned();
                message.append(reason.as_str());
                self.state = CallState::Finished;
                Some(Action::Return(Err(PrismError::RpcError(message))))
            },
            (CallState::Reading { .. }, Event::Parsed(response)) => {
                self.state = CallState::Finished;
                Some(Action::Return(response.into_result()))
            },
            _ => None,
        }
    }

    /// Goes on to the next attempt, or fails with `message` after the last one.
    fn retry_or_fail(&mut self, attempt: u32, message: String) -> (action: Action)
        ensures
            (final(self)@, action@) == ({
                let (state, next) = after_retryable(old(self)@.max_retries, attempt, message@);
                (CallView { state, ..old(self)@ }, next)
            }),
    {
        if attempt < self.max_retries {
            let next: u32 = attempt + 1;
            self.state = CallState::Waiting { attempt: next };
            Action::Sleep(backoff_duration(next))
        } else {
            self.state = CallState::Finished;
            Action::Return(Err(PrismError::RpcError(message)))
        }
    }
}

} // verus!
