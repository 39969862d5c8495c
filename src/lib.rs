//! A bot that asks a chat-completion service for a short fact about foxes and
//! posts it to a social network, then waits a random while before the next one.
//!
//! The library holds the verified part: the message shapes, the request that is
//! sent each time, how the text to post is read from a reply, how long to wait,
//! and the decisions of the posting loop as a state machine. The network calls
//! and the waiting are made by the program around it.
pub mod bot;
pub mod completion;
pub mod delay;
pub mod laws;

pub use bot::{start, step, transition, Action, BotError, Event, Phase};
pub use completion::{
    ChatCompletionRequest, ChatCompletionResponse, Choice, Message, Usage, build_request,
    extract_post_text, bearer_value, GPT_MODEL, GPT_URL, FOX_PROMPT, USER_ROLE,
};
pub use delay::{delay_for_sample, random_delay, MAX_DELAY_SECS, MIN_DELAY_SECS};
