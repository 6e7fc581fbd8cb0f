//! What a whole call amounts to, from its start to its result.

use crate::call::{ActionView, CallState, EventView};
use crate::envelope::ResponseView;
use crate::error::PrismErrorView;
use serde_json::Value;
use vstd::prelude::*;

verus! {

/// What reading the body of a reply gives.
pub enum Body {
    ReadFailed(Seq<char>),
    ParseFailed(Seq<char>),
    Parsed(ResponseView),
}

/// What sending the request of one attempt gives.
pub enum Reply {
    /// No reply, for this reason.
    Failed(Seq<char>),
    /// A reply with this status code and body.
    Answered { code: u16, body: Body },
}

/// Whether an attempt with this reply calls for another one: no reply came, or
/// the server asked to slow down, or it failed.
pub open spec fn is_retried(reply: Reply) -> bool {
    match reply {
        Reply::Failed(_) => true,
        Reply::Answered { code, .. } => crate::call::is_retried_status(code),
    }
}

/// What a call returns whose last attempt is `attempt`, with this reply.
pub open spec fn reply_result(reply: Reply, attempt: u32) -> Result<Value, PrismErrorView> {
    match reply {
        Reply::Failed(reason) => crate::call::failure(crate::call::send_failed_message(reason)),
        Reply::Answered { code, body } => if crate::call::is_retried_status(code) {
            crate::call::failure(crate::call::retried_status_message(code, attempt))
        } else {
            match body {
                Body::ReadFailed(reason) => crate::call::failure(
                    "Response read error: "@ + reason,
                ),
                Body::ParseFailed(reason) => crate::call::failure(
                    "Response parse error: "@ + reason,
                ),
                Body::Parsed(response) => response.outcome(),
            }
        },
    }
}

/// The event that reports on the action pending in `state`, where `server` says
/// what each attempt gives. No body is read of an attempt without a reply, so
/// what stands for that one does not matter.
pub open spec fn answer(server: spec_fn(u32) -> Reply, state: CallState) -> EventView {
    match state {
        CallState::Ready => EventView::Start,
        CallState::Waiting { .. } => EventView::Waited,
        CallState::Sending { attempt } => match server(attempt) {
            Reply::Failed(reason) => EventView::SendFailed(reason),
            Reply::Answered { code, .. } => EventView::Responded(code),
        },
        CallState::Reading { attempt } => match server(attempt) {
            Reply::Failed(reason) => EventView::ReadFailed(reason),
            Reply::Answered { body, .. } => match body {
                Body::ReadFailed(reason) => EventView::ReadFailed(reason),
                Body::ParseFailed(reason) => EventView::ParseFailed(reason),
                Body::Parsed(response) => EventView::Parsed(response),
            },
        },
        CallState::Finished => EventView::Start,
    }
}

/// An upper bound on the events that a call in `state` still takes.
pub open spec fn events_left(max_retries: u32, state: CallState) -> nat {
    match state {
        CallState::Ready => 3 * (max_retries as nat) + 3,
        CallState::Waiting { attempt } => if attempt <= max_retries {
            (3 * (max_retries - attempt) + 3) as nat
        } else {
            3
        },
        CallState::Sending { attempt } => if attempt <= max_retries {
            (3 * (max_retries - attempt) + 2) as nat
        } else {
            2
        },
        CallState::Reading { .. } => 1,
        CallState::Finished => 0,
    }
}

/// The actions that a call in `state` asks for, one after the other, where each
/// is reported on truthfully and `server` says what each attempt gives.
pub open spec fn actions(
    max_retries: u32,
    state: CallState,
    server: spec_fn(u32) -> Reply,
) -> Seq<ActionView>
    decreases events_left(max_retries, state),
{
    match crate::call::transition(max_retries, state, answer(server, state)) {
        Some((next, action)) => seq![action] + actions(max_retries, next, server),
        None => seq![],
    }
}

/// Whether `attempt` is the attempt that decides the call: every attempt before
/// it calls for another one, and it does not, or it is the last one allowed.
pub open spec fn decides(max_retries: u32, server: spec_fn(u32) -> Reply, attempt: u32) -> bool {
    &&& attempt <= max_retries
    &&& forall|earlier: u32| earlier < attempt ==> is_retried(#[trigger] server(earlier))
    &&& attempt == max_retries || !is_retried(server(attempt))
}

/// The retries of the attempts after `from` up to `upto`: before each the delay
/// of that attempt, and the request again.
pub open spec fn retries(from: u32, upto: u32) -> Seq<ActionView>
    recommends
        from <= upto,
{
    Seq::new(
        (2 * (upto - from)) as nat,
        |i: int|
            if i % 2 == 0 {
                ActionView::Sleep(crate::backoff::backoff_delay((from + i / 2 + 1) as nat))
            } else {
                ActionView::Send
            },
    )
}

/// How a call ends whose deciding attempt is `attempt`: the body is read where
/// the status allows it, and the result of that attempt is returned.
pub open spec fn ending(reply: Reply, attempt: u32) -> Seq<ActionView> {
    let result = ActionView::Return(reply_result(reply, attempt));
    if is_retried(reply) {
        seq![result]
    } else {
        seq![ActionView::ReadBody, result]
    }
}

/// A call sends its request, repeats it after the growing delays up to the
/// attempt that decides, and returns the result of that attempt and no other.
pub proof fn call_history(max_retries: u32, server: spec_fn(u32) -> Reply, attempt: u32)
    requires
        decides(max_retries, server, attempt),
    ensures
        actions(max_retries, CallState::Ready, server) == seq![
            ActionView::Send,
        ] + retries(0, attempt) + ending(server(attempt), attempt),
{
    lemma_history_from(max_retries, server, 0, attempt);
    let first = seq![ActionView::Send];
    assert(first + (retries(0, attempt) + ending(server(attempt), attempt)) =~= first + retries(
        0,
        attempt,
    ) + ending(server(attempt), attempt));
}

proof fn lemma_history_from(
    max_retries: u32,
    server: spec_fn(u32) -> Reply,
    from: u32,
    attempt: u32,
)
    requires
        decides(max_retries, server, attempt),
        from <= attempt,
    ensures
        actions(max_retries, CallState::Sending { attempt: from }, server) == retries(
            from,
            attempt,
        ) + ending(server(attempt), attempt),
    decreases attempt - from,
{
    let state = CallState::Sending { attempt: from };
    if from < attempt {
        assert(is_retried(server(from)));
        let next = (from + 1) as u32;
        lemma_history_from(max_retries, server, next, attempt);
        let waiting = CallState::Waiting { attempt: next };
        let sleep = ActionView::Sleep(crate::backoff::backoff_delay(next as nat));
        let rest = retries(next, attempt) + ending(server(attempt), attempt);
        assert(actions(max_retries, waiting, server) == seq![ActionView::Send] + rest);
        assert(actions(max_retries, state, server) == seq![sleep] + actions(
            max_retries,
            waiting,
            server,
        ));
        assert(retries(from, attempt) =~= seq![sleep, ActionView::Send] + retries(
            next,
            attempt,
        ));
        assert(actions(max_retries, state, server) =~= retries(from, attempt) + ending(
            server(attempt),
            attempt,
        ));
    } else {
        let reading = CallState::Reading { attempt };
        let finished = CallState::Finished;
        assert(actions(max_retries, finished, server) =~= seq![]);
        if !is_retried(server(attempt)) {
            assert(actions(max_retries, reading, server) =~= seq![
                ActionView::Return(reply_result(server(attempt), attempt)),
            ]);
        }
        assert(actions(max_retries, state, server) =~= retries(from, attempt) + ending(
            server(attempt),
            attempt,
        ));
    }
}

/// Whatever the attempts give, exactly one attempt decides the call, so every
/// call ends, after at most `max_retries` retries.
pub proof fn call_is_decided(max_retries: u32, server: spec_fn(u32) -> Reply)
    ensures
        exists|attempt: u32| decides(max_retries, server, attempt),
        forall|a: u32, b: u32|
            decides(max_retries, server, a) && decides(max_retries, server, b) ==> a == b,
{
    lemma_decided_from(max_retries, server, 0);
    assert forall|a: u32, b: u32|
        decides(max_retries, server, a) && decides(max_retries, server, b) implies a == b by {
        if a < b {
            assert(is_retried(server(a)));
        } else if b < a {
            assert(is_retried(server(b)));
        }
    }
}

proof fn lemma_decided_from(max_retries: u32, server: spec_fn(u32) -> Reply, from: u32)
    requires
        from <= max_retries,
        forall|earlier: u32| earlier < from ==> is_retried(#[trigger] server(earlier)),
    ensures
        exists|attempt: u32| decides(max_retries, server, attempt),
    decreases max_retries - from,
{
    if from == max_retries || !is_retried(server(from)) {
        assert(decides(max_retries, server, from));
    } else {
        lemma_decided_from(max_retries, server, (from + 1) as u32);
    }
}

/// How many of the actions are to send the request.
pub open spec fn requests(actions: Seq<ActionView>) -> nat
    decreases actions.len(),
{
    if actions.len() == 0 {
        0
    } else {
        requests(actions.drop_last()) + if actions.last() is Send {
            1nat
        } else {
            0nat
        }
    }
}

/// A call that attempt `attempt` decides sends one request for that attempt and
/// one for each attempt before it, and so at most one more than it may retry.
pub proof fn call_request_count(max_retries: u32, server: spec_fn(u32) -> Reply, attempt: u32)
    requires
        decides(max_retries, server, attempt),
    ensures
        requests(actions(max_retries, CallState::Ready, server)) == attempt + 1,
        requests(actions(max_retries, CallState::Ready, server)) <= max_retries + 1,
{
    let first = seq![ActionView::Send];
    let end = ending(server(attempt), attempt);
    call_history(max_retries, server, attempt);
    lemma_requests_add(first + retries(0, attempt), end);
    lemma_requests_add(first, retries(0, attempt));
    lemma_requests_of_retries(attempt);
    reveal_with_fuel(requests, 3);
}

proof fn lemma_requests_add(a: Seq<ActionView>, b: Seq<ActionView>)
    ensures
        requests(a + b) == requests(a) + requests(b),
    decreases b.len(),
{
    if b.len() == 0 {
        assert(a + b =~= a);
    } else {
        assert((a + b).drop_last() =~= a + b.drop_last());
        lemma_requests_add(a, b.drop_last());
    }
}

proof fn lemma_requests_of_retries(upto: u32)
    ensures
        requests(retries(0, upto)) == upto,
    decreases upto,
{
    if upto > 0 {
        let all = retries(0, upto);
        let before = (upto - 1) as u32;
        assert(all.drop_last().drop_last() =~= retries(0, before));
        assert(all.last() is Send);
        assert(all.drop_last().last() is Sleep);
        lemma_requests_of_retries(before);
        reveal_with_fuel(requests, 3);
    }
}

/// No event takes a call past the attempts that it is allowed.
pub proof fn attempts_stay_in_range(max_retries: u32, state: CallState, event: EventView)
    requires
        crate::call::is_in_range(max_retries, state),
    ensures
        match crate::call::transition(max_retries, state, event) {
            Some((next, _)) => crate::call::is_in_range(max_retries, next),
            None => true,
        },
{
}

/// Every event that a call takes brings it closer to its end.
pub proof fn every_event_makes_progress(max_retries: u32, state: CallState, event: EventView)
    ensures
        match crate::call::transition(max_retries, state, event) {
            Some((next, _)) => events_left(max_retries, next) < events_left(max_retries, state),
            None => true,
        },
{
}

/// A call that is not over takes the event that reports on its pending action,
/// and one that is over takes no event.
pub proof fn reports_are_taken(
    max_retries: u32,
    state: CallState,
    server: spec_fn(u32) -> Reply,
    event: EventView,
)
    ensures
        !(state is Finished) ==> crate::call::transition(max_retries, state, answer(server, state))
            is Some,
        state is Finished ==> crate::call::transition(max_retries, state, event) is None,
{
}

/// A call is over exactly when it hands out its result.
pub proof fn result_ends_the_call(max_retries: u32, state: CallState, event: EventView)
    ensures
        match crate::call::transition(max_retries, state, event) {
            Some((next, action)) => next is Finished <==> action is Return,
            None => true,
        },
{
}

/// Another attempt is made exactly when the request failed, or the reply was a
/// 429 or a status from 500 to 599, and a retry is left.
pub proof fn retries_are_for_passing_failures(
    max_retries: u32,
    state: CallState,
    event: EventView,
)
    ensures
        (crate::call::transition(max_retries, state, event) matches Some((_, ActionView::Sleep(_))))
            <==> {
            &&& state matches CallState::Sending { attempt }
            &&& attempt < max_retries
            &&& match event {
                EventView::SendFailed(_) => true,
                EventView::Responded(code) => code == 429 || 500 <= code <= 599,
                _ => false,
            }
        },
{
}

/// Once the body of a reply is being read there is no retry: what comes of it is
/// returned.
pub proof fn reading_is_not_retried(max_retries: u32, attempt: u32, event: EventView)
    ensures
        crate::call::transition(max_retries, CallState::Reading { attempt }, event) matches Some(
            (_, action),
        ) ==> action is Return,
{
}

/// A call returns a value only where a response without an error carries it.
pub proof fn success_is_a_result(
    max_retries: u32,
    state: CallState,
    event: EventView,
    value: Value,
)
    ensures
        (crate::call::transition(max_retries, state, event) matches Some((_, action)) && action
            == ActionView::Return(Ok(value))) <==> {
            &&& state is Reading
            &&& event matches EventView::Parsed(response)
            &&& response.error is None
            &&& response.result == Some(value)
        },
{
}

/// The request goes out at the start, as attempt zero, and after each delay.
pub proof fn requests_go_out(max_retries: u32, attempt: u32)
    ensures
        crate::call::transition(max_retries, CallState::Ready, EventView::Start) == Some(
            (CallState::Sending { attempt: 0 }, ActionView::Send),
        ),
        crate::call::transition(max_retries, CallState::Waiting { attempt }, EventView::Waited)
            == Some((CallState::Sending { attempt }, ActionView::Send)),
{
}

/// Whatever the attempt and however many retries are allowed, the body is read of
/// every reply whose status is neither 429 nor from 500 to 599.
pub proof fn other_replies_are_read(max_retries: u32, attempt: u32, code: u16)
    requires
        code != 429,
        !(500 <= code <= 599),
    ensures
        crate::call::transition(
            max_retries,
            CallState::Sending { attempt },
            EventView::Responded(code),
        ) == Some((CallState::Reading { attempt }, ActionView::ReadBody)),
{
}

/// While a retry is left, a failed request, a 429 and a status from 500 to 599
/// all lead to the next attempt, after a delay that doubles up to ten seconds.
pub proof fn passing_failures_lead_to_the_next_attempt(
    max_retries: u32,
    attempt: u32,
    event: EventView,
)
    requires
        attempt < max_retries,
        match event {
            EventView::SendFailed(_) => true,
            EventView::Responded(code) => code == 429 || 500 <= code <= 599,
            _ => false,
        },
    ensures
        crate::call::transition(max_retries, CallState::Sending { attempt }, event) == Some(
            (
                CallState::Waiting { attempt: (attempt + 1) as u32 },
                ActionView::Sleep(
                    crate::backoff::duration_of_millis(
                        vstd::math::min(
                            100int * vstd::arithmetic::power2::pow2((attempt + 1) as nat),
                            10_000,
                        ) as u64,
                    ),
                ),
            ),
        ),
{
}

/// When no retry is left, a failed request, a 429 and a status from 500 to 599
/// end the call, each with a message that says what happened and when.
pub proof fn last_failures_are_told_apart(max_retries: u32, attempt: u32, event: EventView)
    requires
        attempt >= max_retries,
    ensures
        event matches EventView::SendFailed(reason) ==> crate::call::transition(
            max_retries,
            CallState::Sending { attempt },
            event,
        ) == Some(
            (
                CallState::Finished,
                ActionView::Return(Err(PrismErrorView::RpcError("Request failed: "@ + reason))),
            ),
        ),
        event == EventView::Responded(429) ==> crate::call::transition(
            max_retries,
            CallState::Sending { attempt },
            event,
        ) == Some(
            (
                CallState::Finished,
                ActionView::Return(
                    Err(
                        PrismErrorView::RpcError(
                            "Rate limited (attempt "@ + crate::text::decimal(attempt as nat)
                                + ")"@,
                        ),
                    ),
                ),
            ),
        ),
        event matches EventView::Responded(code) ==> (500 <= code <= 599
            ==> crate::call::transition(max_retries, CallState::Sending { attempt }, event) == Some(
            (
                CallState::Finished,
                ActionView::Return(
                    Err(
                        PrismErrorView::RpcError(
                            "Server error "@ + (crate::text::decimal(code as nat) + " "@
                                + crate::status::reason_phrase(code)) + " on attempt "@
                                + crate::text::decimal(attempt as nat),
                        ),
                    ),
                ),
            ),
        )),
{
}

/// What comes of the body of a reply is returned: why it could not be read or
/// parsed, the error that it carries, its result, or that it carries neither.
pub proof fn what_is_read_is_returned(max_retries: u32, attempt: u32, event: EventView)
    requires
        event is ReadFailed || event is ParseFailed || event is Parsed,
    ensures
        crate::call::transition(max_retries, CallState::Reading { attempt }, event) == Some(
            (
                CallState::Finished,
                ActionView::Return(
                    match event {
                        EventView::ReadFailed(reason) => Err(
                            PrismErrorView::RpcError("Response read error: "@ + reason),
                        ),
                        EventView::ParseFailed(reason) => Err(
                            PrismErrorView::RpcError("Response parse error: "@ + reason),
                        ),
                        EventView::Parsed(response) => match (response.error, response.result) {
                            (Some(error), _) => Err(PrismErrorView::RpcError(error.message)),
                            (None, Some(value)) => Ok(value),
                            (None, None) => Err(PrismErrorView::RpcError("Empty response"@)),
                        },
                        _ => arbitrary(),
                    },
                ),
            ),
        ),
{
}

/// However a finished call was driven, as long as every event told truthfully
/// what `server` gave for the attempt at hand, it asked for `actions`.
pub proof fn every_finished_call_is_such_a_history(
    max_retries: u32,
    server: spec_fn(u32) -> Reply,
    states: Seq<CallState>,
    events: Seq<EventView>,
    asked: Seq<ActionView>,
)
    requires
        states.len() == events.len() + 1,
        asked.len() == events.len(),
        states.first() is Ready,
        states.last() is Finished,
        forall|i: int|
            0 <= i < events.len() ==> #[trigger] crate::call::transition(
                max_retries,
                states[i],
                events[i],
            ) == Some((states[i + 1], asked[i])),
        forall|i: int|
            0 <= i < events.len() ==> match #[trigger] states[i] {
                CallState::Sending { attempt } => match server(attempt) {
                    Reply::Failed(reason) => events[i] == EventView::SendFailed(reason),
                    Reply::Answered { code, .. } => events[i] == EventView::Responded(code),
                },
                CallState::Reading { attempt } => match server(attempt) {
                    Reply::Failed(_) => true,
                    Reply::Answered { body, .. } => match body {
                        Body::ReadFailed(reason) => events[i] == EventView::ReadFailed(reason),
                        Body::ParseFailed(reason) => events[i] == EventView::ParseFailed(reason),
                        Body::Parsed(response) => events[i] == EventView::Parsed(response),
                    },
                },
                _ => true,
            },
    ensures
        asked == actions(max_retries, CallState::Ready, server),
{
    lemma_history_is_recorded_from(max_retries, server, states, events, asked, 0);
    assert(asked.skip(0) =~= asked);
}

proof fn lemma_history_is_recorded_from(
    max_retries: u32,
    server: spec_fn(u32) -> Reply,
    states: Seq<CallState>,
    events: Seq<EventView>,
    asked: Seq<ActionView>,
    from: int,
)
    requires
        0 <= from <= events.len(),
        states.len() == events.len() + 1,
        asked.len() == events.len(),
        states.first() is Ready,
        states.last() is Finished,
        forall|i: int|
            0 <= i < events.len() ==> #[trigger] crate::call::transition(
                max_retries,
                states[i],
                events[i],
            ) == Some((states[i + 1], asked[i])),
        forall|i: int|
            0 <= i < events.len() ==> match #[trigger] states[i] {
                CallState::Sending { attempt } => match server(attempt) {
                    Reply::Failed(reason) => events[i] == EventView::SendFailed(reason),
                    Reply::Answered { code, .. } => events[i] == EventView::Responded(code),
                },
                CallState::Reading { attempt } => match server(attempt) {
                    Reply::Failed(_) => true,
                    Reply::Answered { body, .. } => match body {
                        Body::ReadFailed(reason) => events[i] == EventView::ReadFailed(reason),
                        Body::ParseFailed(reason) => events[i] == EventView::ParseFailed(reason),
                        Body::Parsed(response) => events[i] == EventView::Parsed(response),
                    },
                },
                _ => true,
            },
    ensures
        asked.skip(from) == actions(max_retries, states[from], server),
    decreases events.len() - from,
{
    if from == events.len() {
        assert(actions(max_retries, states[from], server) =~= seq![]);
        assert(asked.skip(from) =~= seq![]);
    } else {
        lemma_history_is_recorded_from(max_retries, server, states, events, asked, from + 1);
        let step = crate::call::transition(max_retries, states[from], events[from]);
        assert(step == Some((states[from + 1], asked[from])));
        if from > 0 {
            let before = crate::call::transition(max_retries, states[from - 1], events[from - 1]);
            assert(before == Some((states[from], asked[from - 1])));
        }
        assert(events[from] == answer(server, states[from]));
        assert(asked.skip(from) =~= seq![asked[from]] + asked.skip(from + 1));
    }
}

/// A whole call, step by step, where attempt `attempt` is the last: the request,
/// then before each further request its delay, then the body where the status
/// allows it, and then what came of that attempt.
pub proof fn call_step_by_step(max_retries: u32, server: spec_fn(u32) -> Reply, attempt: u32)
    requires
        attempt <= max_retries,
        forall|earlier: u32|
            earlier < attempt ==> match #[trigger] server(earlier) {
                Reply::Failed(_) => true,
                Reply::Answered { code, .. } => code == 429 || 500 <= code <= 599,
            },
        attempt < max_retries ==> match server(attempt) {
            Reply::Failed(_) => false,
            Reply::Answered { code, .. } => code != 429 && !(500 <= code <= 599),
        },
    ensures
        actions(max_retries, CallState::Ready, server)[0] is Send,
        forall|i: int|
            1 <= i <= 2 * attempt ==> #[trigger] actions(max_retries, CallState::Ready, server)[i]
                == if i % 2 == 1 {
                ActionView::Sleep(
                    crate::backoff::duration_of_millis(
                        vstd::math::min(
                            100int * vstd::arithmetic::power2::pow2(((i + 1) / 2) as nat),
                            10_000,
                        ) as u64,
                    ),
                )
            } else {
                ActionView::Send
            },
        match server(attempt) {
            Reply::Answered { code, .. } if code != 429 && !(500 <= code <= 599) => {
                &&& actions(max_retries, CallState::Ready, server).len() == 2 * attempt + 3
                &&& actions(max_retries, CallState::Ready, server)[2 * attempt + 1] is ReadBody
            },
            _ => actions(max_retries, CallState::Ready, server).len() == 2 * attempt + 2,
        },
        actions(max_retries, CallState::Ready, server).last() == ActionView::Return(
            match server(attempt) {
                Reply::Failed(reason) => Err(
                    PrismErrorView::RpcError("Request failed: "@ + reason),
                ),
                Reply::Answered { code, body } => if code == 429 {
                    Err(
                        PrismErrorView::RpcError(
                            "Rate limited (attempt "@ + crate::text::decimal(attempt as nat)
                                + ")"@,
                        ),
                    )
                } else if 500 <= code <= 599 {
                    Err(
                        PrismErrorView::RpcError(
                            "Server error "@ + (crate::text::decimal(code as nat) + " "@
                                + crate::status::reason_phrase(code)) + " on attempt "@
                                + crate::text::decimal(attempt as nat),
                        ),
                    )
                } else {
                    match body {
                        Body::ReadFailed(reason) => Err(
                            PrismErrorView::RpcError("Response read error: "@ + reason),
                        ),
                        Body::ParseFailed(reason) => Err(
                            PrismErrorView::RpcError("Response parse error: "@ + reason),
                        ),
                        Body::Parsed(response) => match (response.error, response.result) {
                            (Some(error), _) => Err(PrismErrorView::RpcError(error.message)),
                            (None, Some(value)) => Ok(value),
                            (None, None) => Err(PrismErrorView::RpcError("Empty response"@)),
                        },
                    }
                },
            },
        ),
{
    call_history(max_retries, server, attempt);
}

/// If every attempt before `attempt` failed to send or got a 429 or a status from
/// 500 to 599, and attempt `attempt`, which may be the last one allowed, got
/// another status and a response without an error and with the result `value`,
/// then the call ends by returning `value`.
pub proof fn first_result_is_returned(
    max_retries: u32,
    server: spec_fn(u32) -> Reply,
    attempt: u32,
    code: u16,
    response: ResponseView,
    value: Value,
)
    requires
        attempt <= max_retries,
        forall|earlier: u32|
            earlier < attempt ==> match #[trigger] server(earlier) {
                Reply::Failed(_) => true,
                Reply::Answered { code, .. } => code == 429 || 500 <= code <= 599,
            },
        server(attempt) == (Reply::Answered { code, body: Body::Parsed(response) }),
        code != 429,
        !(500 <= code <= 599),
        response.error is None,
        response.result == Some(value),
    ensures
        actions(max_retries, CallState::Ready, server).last() == ActionView::Return(Ok(value)),
        requests(actions(max_retries, CallState::Ready, server)) == attempt + 1,
{
    call_step_by_step(max_retries, server, attempt);
    call_request_count(max_retries, server, attempt);
}

} // verus!
