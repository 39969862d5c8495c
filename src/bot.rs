//! The decisions of the posting loop, as a state machine.
//!
//! The program around the library performs each action that the machine asks
//! for (check the credentials, send the request, publish, sleep) and feeds the
//! outcome back as an event. Any failure stops the machine for good: there is
//! no retry.
use vstd::prelude::*;

use crate::completion::{
    build_request, extract_post_text, is_fox_request, post_text_of, ChatCompletionRequest,
    ChatCompletionResponse,
};
use crate::delay::{delay_for_sample, delay_of, MAX_DELAY_SECS, MIN_DELAY_SECS};

verus! {

/// Where the loop stands.
#[derive(Clone, Copy, Debug, PartialEq, Eq, Structural)]
pub enum Phase {
    /// The social-network credentials are being checked.
    Verifying,
    /// A completion request is in flight.
    Requesting,
    /// A fact is being published.
    Publishing,
    /// The loop sleeps before the next round.
    Waiting,
    /// The loop has ended; nothing more happens.
    Stopped,
}

/// Why the loop ended.
#[derive(Clone, Copy, Debug, PartialEq, Eq, Structural)]
pub enum BotError {
    /// The social network refused the credentials at startup.
    CredentialsRejected,
    /// The completion request could not be sent, or its reply not decoded.
    CompletionFailed,
    /// The completion reply held no choice to post.
    EmptyChoices,
    /// The social network refused the post.
    PublishFailed,
}

/// The outcome of an action, as reported back to the machine.
#[derive(Debug, PartialEq)]
pub enum Event {
    /// The credential check ended: `true` when it succeeded.
    CredentialsChecked(bool),
    /// The completion service answered with a decoded reply.
    CompletionArrived(ChatCompletionResponse),
    /// The completion request or the decoding of its reply failed.
    CompletionFailed,
    /// The post was published.
    Published,
    /// Publishing failed.
    PublishFailed,
    /// The sleep is over.
    Woke,
}

/// What the machine asks to be done next.
#[derive(Debug, PartialEq)]
pub enum Action {
    /// Check the social-network credentials.
    VerifyCredentials,
    /// Send this completion request.
    SendRequest(ChatCompletionRequest),
    /// Publish this text as a new post, with no reply target and no options.
    Publish(String),
    /// Sleep for this many seconds.
    Sleep(u64),
    /// Stop the loop, for this reason.
    Stop(BotError),
    /// Nothing: the event was not one the current phase waits for.
    Ignore,
}

/// Whether `(next, action)` is what the machine does in `phase` on `event`,
/// where `sample` is the random value that picks the length of a sleep.
pub open spec fn is_step(
    phase: Phase,
    event: Event,
    sample: u64,
    next: Phase,
    action: Action,
) -> bool {
    match (phase, event) {
        (Phase::Verifying, Event::CredentialsChecked(ok)) => if ok {
            &&& next == Phase::Requesting
            &&& action matches Action::SendRequest(req) && is_fox_request(req)
        } else {
            next == Phase::Stopped && action == Action::Stop(BotError::CredentialsRejected)
        },
        (Phase::Requesting, Event::CompletionArrived(resp)) => if resp.choices@.len() > 0 {
            &&& next == Phase::Publishing
            &&& action matches Action::Publish(text) && text@ == post_text_of(resp)
        } else {
            next == Phase::Stopped && action == Action::Stop(BotError::EmptyChoices)
        },
        (Phase::Requesting, Event::CompletionFailed) => {
            next == Phase::Stopped && action == Action::Stop(BotError::CompletionFailed)
        },
        (Phase::Publishing, Event::Published) => {
            &&& next == Phase::Waiting
            &&& action matches Action::Sleep(secs) && secs as int == delay_of(sample)
        },
        (Phase::Publishing, Event::PublishFailed) => {
            next == Phase::Stopped && action == Action::Stop(BotError::PublishFailed)
        },
        (Phase::Waiting, Event::Woke) => {
            &&& next == Phase::Requesting
            &&& action matches Action::SendRequest(req) && is_fox_request(req)
        },
        _ => next == phase && action == Action::Ignore,
    }
}

/// Where the machine starts: checking the credentials.
pub fn start() -> (r: (Phase, Action))
    ensures
        r.0 == Phase::Verifying,
        r.1 == Action::VerifyCredentials,
{
    (Phase::Verifying, Action::VerifyCredentials)
}

/// One step of the machine, with the random value that picks the length of a
/// sleep given as an argument.
pub fn transition(phase: Phase, event: Event, sample: u64) -> (r: (Phase, Action))
    ensures
        is_step(phase, event, sample, r.0, r.1),
{
    match (phase, event) {
        (Phase::Verifying, Event::CredentialsChecked(ok)) => {
            if ok {
                (Phase::Requesting, Action::SendRequest(build_request()))
            } else {
                (Phase::Stopped, Action::Stop(BotError::CredentialsRejected))
            }
        },
        (Phase::Requesting, Event::CompletionArrived(resp)) => {
            match extract_post_text(&resp) {
                Some(text) => (Phase::Publishing, Action::Publish(text)),
                None => (Phase::Stopped, Action::Stop(BotError::EmptyChoices)),
            }
        },
        (Phase::Requesting, Event::CompletionFailed) => {
            (Phase::Stopped, Action::Stop(BotError::CompletionFailed))
        },
        (Phase::Publishing, Event::Published) => {
            (Phase::Waiting, Action::Sleep(delay_for_sample(sample)))
        },
        (Phase::Publishing, Event::PublishFailed) => {
            (Phase::Stopped, Action::Stop(BotError::PublishFailed))
        },
        (Phase::Waiting, Event::Woke) => (Phase::Requesting, Action::SendRequest(build_request())),
        (p, _) => (p, Action::Ignore),
    }
}

/// One step of the machine. Where it goes to sleep, the length is drawn at
/// random; the step is then the one of some sample.
pub fn step(phase: Phase, event: Event) -> (r: (Phase, Action))
    ensures
        exists|sample: u64| is_step(phase, event, sample, r.0, r.1),
{
    let draws = match (phase, &event) {
        (Phase::Publishing, Event::Published) => true,
        _ => false,
    };
    let sample: u64 = if draws {
        rand::random::<u64>()
    } else {
        0
    };
    let r = transition(phase, event, sample);
    assert(is_step(phase, event, sample, r.0, r.1));
    r
}

} // verus!
