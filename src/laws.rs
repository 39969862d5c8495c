//! Properties of the posting loop that hold for every input, proved from the
//! contracts of the machine's steps.
use vstd::prelude::*;

use crate::bot::{is_step, Action, BotError, Event, Phase};
use crate::completion::{is_fox_request, ChatCompletionResponse, FOX_PROMPT, GPT_MODEL, USER_ROLE};
use crate::delay::{delay_of, MAX_DELAY_SECS, MIN_DELAY_SECS};

verus! {

/// When a reply holds at least one choice, the text published is the content
/// of the first choice, exactly as it came.
pub proof fn published_text_is_first_choice(
    resp: ChatCompletionResponse,
    sample: u64,
    next: Phase,
    action: Action,
)
    requires
        is_step(Phase::Requesting, Event::CompletionArrived(resp), sample, next, action),
        resp.choices@.len() > 0,
    ensures
        next == Phase::Publishing,
        action matches Action::Publish(text) && text@ == resp.choices@[0].message.content@,
{
}

/// Every wait that the loop chooses lasts at least half an hour and less than
/// an hour, in seconds.
pub proof fn every_sleep_is_in_range(
    phase: Phase,
    event: Event,
    sample: u64,
    next: Phase,
    action: Action,
)
    requires
        is_step(phase, event, sample, next, action),
        action is Sleep,
    ensures
        MIN_DELAY_SECS <= action->Sleep_0 < MAX_DELAY_SECS,
        1800 <= action->Sleep_0 < 3600,
{
    assert(0 <= delay_of(sample) - MIN_DELAY_SECS < MAX_DELAY_SECS - MIN_DELAY_SECS);
}

/// Every request the loop sends asks the fixed model with one user message
/// holding the fixed prompt, whatever happened before: two requests sent from
/// any two states are the same.
pub proof fn every_request_is_the_same(
    phase1: Phase,
    event1: Event,
    sample1: u64,
    next1: Phase,
    action1: Action,
    phase2: Phase,
    event2: Event,
    sample2: u64,
    next2: Phase,
    action2: Action,
)
    requires
        is_step(phase1, event1, sample1, next1, action1),
        is_step(phase2, event2, sample2, next2, action2),
        action1 is SendRequest,
        action2 is SendRequest,
    ensures
        is_fox_request(action1->SendRequest_0),
        action1->SendRequest_0.model@ == GPT_MODEL@,
        action1->SendRequest_0.messages@.len() == 1,
        action1->SendRequest_0.messages@[0].role@ == USER_ROLE@,
        action1->SendRequest_0.messages@[0].content@ == FOX_PROMPT@,
        action1->SendRequest_0.model@ == action2->SendRequest_0.model@,
        action1->SendRequest_0.messages@.len() == action2->SendRequest_0.messages@.len(),
        action1->SendRequest_0.messages@[0].role@ == action2->SendRequest_0.messages@[0].role@,
        action1->SendRequest_0.messages@[0].content@
            == action2->SendRequest_0.messages@[0].content@,
{
}

/// A reply with no choice stops the loop: nothing is published.
pub proof fn empty_reply_stops(
    resp: ChatCompletionResponse,
    sample: u64,
    next: Phase,
    action: Action,
)
    requires
        is_step(Phase::Requesting, Event::CompletionArrived(resp), sample, next, action),
        resp.choices@.len() == 0,
    ensures
        next == Phase::Stopped,
        action == Action::Stop(BotError::EmptyChoices),
        !(action is Publish),
{
}

/// When the credential check fails, the loop stops before its first request.
pub proof fn rejected_credentials_stop(sample: u64, next: Phase, action: Action)
    requires
        is_step(Phase::Verifying, Event::CredentialsChecked(false), sample, next, action),
    ensures
        next == Phase::Stopped,
        action == Action::Stop(BotError::CredentialsRejected),
        !(action is SendRequest),
{
}

/// Once stopped, the loop stays stopped and asks for nothing, whatever event
/// comes.
pub proof fn stopped_is_final(event: Event, sample: u64, next: Phase, action: Action)
    requires
        is_step(Phase::Stopped, event, sample, next, action),
    ensures
        next == Phase::Stopped,
        action == Action::Ignore,
{
}

/// Any failure reported to the loop stops it: there is no retry.
pub proof fn failures_stop(phase: Phase, event: Event, sample: u64, next: Phase, action: Action)
    requires
        is_step(phase, event, sample, next, action),
        phase != Phase::Stopped,
        event is CompletionFailed || event is PublishFailed || event == Event::CredentialsChecked(
            false,
        ),
        !(action is Ignore),
    ensures
        next == Phase::Stopped,
        action is Stop,
{
}

} // verus!
