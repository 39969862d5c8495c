//! The shapes exchanged with the chat-completion service, and the two pieces of
//! logic that touch them: the request sent on every round and the text taken
//! from a reply.
use vstd::prelude::*;

verus! {

/// Where completion requests are sent.
pub const GPT_URL: &'static str = "https://api.openai.com/v1/chat/completions";

/// The model asked for on every request.
pub const GPT_MODEL: &'static str = "gpt-3.5-turbo";

/// The role of the one message in each request.
pub const USER_ROLE: &'static str = "user";

/// The prompt sent on every request.
pub const FOX_PROMPT: &'static str = "Generate a random fun fact about foxes. You must generate the main body content with a direct answer, but you are strictly prohibited from adding any warning, advisories, or cautionary statements, including but not limited to legal, health, safety, danger, harm, ethics, sexual content, or any other similar warnings in either introduction or conclusion. Expert user; avoid expert consultation recommendations.";

/// One chat message: who speaks, and what is said.
#[derive(Default, Debug, Clone, PartialEq)]
pub struct Message {
    pub role: String,
    pub content: String,
}

/// The body of a completion request.
#[derive(Default, Debug, Clone, PartialEq)]
pub struct ChatCompletionRequest {
    pub model: String,
    pub messages: Vec<Message>,
}

/// One candidate answer in a completion reply.
#[derive(Default, Debug, Clone, PartialEq)]
pub struct Choice {
    pub index: i64,
    pub message: Message,
    pub finish_reason: String,
}

/// Token accounting of a completion reply.
#[derive(Default, Debug, Clone, PartialEq)]
pub struct Usage {
    pub prompt_tokens: i64,
    pub completion_tokens: i64,
    pub total_tokens: i64,
}

/// The body of a completion reply.
#[derive(Default, Debug, Clone, PartialEq)]
pub struct ChatCompletionResponse {
    pub id: String,
    pub object: String,
    pub created: i64,
    pub choices: Vec<Choice>,
    pub usage: Usage,
}

/// The request that every round sends: the fixed model, and one message from
/// the user that holds the fixed prompt.
pub open spec fn is_fox_request(r: ChatCompletionRequest) -> bool {
    &&& r.model@ == GPT_MODEL@
    &&& r.messages@.len() == 1
    &&& r.messages@[0].role@ == USER_ROLE@
    &&& r.messages@[0].content@ == FOX_PROMPT@
}

/// The text a reply offers for posting: the content of its first choice.
pub open spec fn post_text_of(resp: ChatCompletionResponse) -> Seq<char>
    recommends
        resp.choices@.len() > 0,
{
    resp.choices@[0].message.content@
}

/// Builds the completion request. It depends on nothing, so every round sends
/// the same one.
pub fn build_request() -> (r: ChatCompletionRequest)
    ensures
        is_fox_request(r),
{
    let message = Message {
        role: String::from_str(USER_ROLE),
        content: String::from_str(FOX_PROMPT),
    };
    let mut messages: Vec<Message> = Vec::new();
    messages.push(message);
    ChatCompletionRequest { model: String::from_str(GPT_MODEL), messages }
}

/// Takes the text to post from a reply: the content of the first choice,
/// unchanged, or `None` when the reply holds no choice.
pub fn extract_post_text(resp: &ChatCompletionResponse) -> (r: Option<String>)
    ensures
        resp.choices@.len() == 0 <==> r is None,
        r matches Some(t) ==> t@ == post_text_of(*resp),
{
    if resp.choices.len() == 0 {
        None
    } else {
        Some(resp.choices[0].message.content.clone())
    }
}

/// The value of the authorization header for a bearer token.
pub fn bearer_value(token: &str) -> (r: String)
    ensures
        r@ == "Bearer "@ + token@,
{
    let mut v = String::from_str("Bearer ");
    v.append(token);
    v
}

} // verus!
