use fox_fact_bot::{
    bearer_value, build_request, delay_for_sample, extract_post_text, random_delay, start, step,
    transition, Action, BotError, ChatCompletionResponse, Choice, Event, Message, Phase, Usage,
    FOX_PROMPT, GPT_MODEL, GPT_URL, MAX_DELAY_SECS, MIN_DELAY_SECS,
};

fn reply_with(contents: &[&str]) -> ChatCompletionResponse {
    let mut choices = Vec::new();
    for (i, c) in contents.iter().enumerate() {
        choices.push(Choice {
            index: i as i64,
            message: Message { role: String::from("assistant"), content: String::from(*c) },
            finish_reason: String::from("stop"),
        });
    }
    ChatCompletionResponse {
        id: String::from("x"),
        object: String::from("chat.completion"),
        created: 0,
        choices,
        usage: Usage { prompt_tokens: 10, completion_tokens: 8, total_tokens: 18 },
    }
}

#[test]
fn stub_reply_is_published_once() {
    let resp = reply_with(&["Foxes can hear rodents burrowing underground."]);
    let mut published = Vec::new();
    let (phase, action) = transition(Phase::Requesting, Event::CompletionArrived(resp), 0);
    if let Action::Publish(text) = action {
        published.push(text);
    }
    assert_eq!(phase, Phase::Publishing);
    assert_eq!(published, vec![String::from("Foxes can hear rodents burrowing underground.")]);
}

#[test]
fn first_choice_text_is_kept_verbatim() {
    let resp = reply_with(&["  Foxes use the earth's magnetic field.\n", "second"]);
    assert_eq!(
        extract_post_text(&resp),
        Some(String::from("  Foxes use the earth's magnetic field.\n"))
    );
    let (phase, action) = transition(Phase::Requesting, Event::CompletionArrived(resp), 0);
    assert_eq!(phase, Phase::Publishing);
    assert_eq!(action, Action::Publish(String::from("  Foxes use the earth's magnetic field.\n")));
}

#[test]
fn empty_content_is_published_as_is() {
    let resp = reply_with(&[""]);
    assert_eq!(extract_post_text(&resp), Some(String::new()));
}

#[test]
fn empty_choices_stop_the_loop() {
    let resp = reply_with(&[]);
    assert_eq!(extract_post_text(&resp), None);
    let (phase, action) = transition(Phase::Requesting, Event::CompletionArrived(resp), 0);
    assert_eq!(phase, Phase::Stopped);
    assert_eq!(action, Action::Stop(BotError::EmptyChoices));
}

#[test]
fn request_is_fixed() {
    let req = build_request();
    assert_eq!(req.model, "gpt-3.5-turbo");
    assert_eq!(req.model, GPT_MODEL);
    assert_eq!(req.messages.len(), 1);
    assert_eq!(req.messages[0].role, "user");
    assert_eq!(req.messages[0].content, FOX_PROMPT);
    assert!(req.messages[0].content.starts_with("Generate a random fun fact about foxes."));
    assert_eq!(GPT_URL, "https://api.openai.com/v1/chat/completions");
}

#[test]
fn request_does_not_depend_on_history() {
    let (_, a1) = transition(Phase::Verifying, Event::CredentialsChecked(true), 0);
    let (_, a2) = transition(Phase::Waiting, Event::Woke, 77);
    let (_, a3) = transition(Phase::Waiting, Event::Woke, 0);
    assert_eq!(a1, Action::SendRequest(build_request()));
    assert_eq!(a1, a2);
    assert_eq!(a2, a3);
}

#[test]
fn delay_for_sample_values() {
    assert_eq!(delay_for_sample(0), 1800);
    assert_eq!(delay_for_sample(1), 1801);
    assert_eq!(delay_for_sample(1799), 3599);
    assert_eq!(delay_for_sample(1800), 1800);
    assert_eq!(delay_for_sample(5000), 3200);
    assert_eq!(delay_for_sample(u64::MAX), 1815);
    assert_eq!(MIN_DELAY_SECS, 1800);
    assert_eq!(MAX_DELAY_SECS, 3600);
}

#[test]
fn random_delays_are_in_range_and_vary() {
    let mut seen = Vec::new();
    for _ in 0..500 {
        let d = random_delay();
        assert!(1800 <= d && d < 3600);
        seen.push(d);
    }
    assert!(seen.iter().any(|d| *d != seen[0]));
}

#[test]
fn published_leads_to_sleep() {
    let (phase, action) = transition(Phase::Publishing, Event::Published, 42);
    assert_eq!(phase, Phase::Waiting);
    assert_eq!(action, Action::Sleep(1842));
    let (phase, action) = step(Phase::Publishing, Event::Published);
    assert_eq!(phase, Phase::Waiting);
    match action {
        Action::Sleep(d) => assert!(1800 <= d && d < 3600),
        other => panic!("expected a sleep, got {:?}", other),
    }
}

#[test]
fn startup_checks_credentials_first() {
    assert_eq!(start(), (Phase::Verifying, Action::VerifyCredentials));
    let (phase, action) = step(Phase::Verifying, Event::CredentialsChecked(true));
    assert_eq!(phase, Phase::Requesting);
    assert_eq!(action, Action::SendRequest(build_request()));
}

#[test]
fn rejected_credentials_never_enter_the_loop() {
    let (phase, action) = transition(Phase::Verifying, Event::CredentialsChecked(false), 0);
    assert_eq!(phase, Phase::Stopped);
    assert_eq!(action, Action::Stop(BotError::CredentialsRejected));
    for event in [
        Event::CredentialsChecked(true),
        Event::CompletionArrived(reply_with(&["a"])),
        Event::Published,
        Event::Woke,
    ] {
        let (p, a) = transition(phase, event, 0);
        assert_eq!(p, Phase::Stopped);
        assert_eq!(a, Action::Ignore);
    }
}

#[test]
fn failures_stop_without_retry() {
    assert_eq!(
        transition(Phase::Requesting, Event::CompletionFailed, 0),
        (Phase::Stopped, Action::Stop(BotError::CompletionFailed))
    );
    assert_eq!(
        transition(Phase::Publishing, Event::PublishFailed, 0),
        (Phase::Stopped, Action::Stop(BotError::PublishFailed))
    );
}

#[test]
fn unexpected_events_are_ignored() {
    assert_eq!(transition(Phase::Waiting, Event::Published, 0), (Phase::Waiting, Action::Ignore));
    assert_eq!(
        transition(Phase::Requesting, Event::Woke, 0),
        (Phase::Requesting, Action::Ignore)
    );
    assert_eq!(
        transition(Phase::Publishing, Event::CompletionFailed, 0),
        (Phase::Publishing, Action::Ignore)
    );
}

#[test]
fn full_round_in_order() {
    let (mut phase, _) = start();
    let (p, a) = step(phase, Event::CredentialsChecked(true));
    phase = p;
    assert!(matches!(a, Action::SendRequest(_)));
    let (p, a) = step(phase, Event::CompletionArrived(reply_with(&["fact"])));
    phase = p;
    assert_eq!(a, Action::Publish(String::from("fact")));
    let (p, a) = step(phase, Event::Published);
    phase = p;
    assert!(matches!(a, Action::Sleep(_)));
    let (p, a) = step(phase, Event::Woke);
    assert_eq!(p, Phase::Requesting);
    assert_eq!(a, Action::SendRequest(build_request()));
}

#[test]
fn bearer_header_value() {
    assert_eq!(bearer_value("abc123"), "Bearer abc123");
    assert_eq!(bearer_value(""), "Bearer ");
}
