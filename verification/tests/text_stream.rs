use language_model::{
    stream_completion_text, EventResult, LanguageModelCompletionError,
    LanguageModelCompletionEvent, LanguageModelTextStream, LanguageModelToolUse,
    LanguageModelToolUseId, StopReason, TextResult, TextStreamStep, TokenUsage,
};
use zed_llm_client::CompletionRequestStatus;

fn text(text: &str) -> EventResult {
    Ok(LanguageModelCompletionEvent::Text(text.to_string()))
}

fn start(id: &str) -> EventResult {
    Ok(LanguageModelCompletionEvent::StartMessage { message_id: id.to_string() })
}

fn usage(output_tokens: u64) -> TokenUsage {
    TokenUsage { output_tokens, ..TokenUsage::default() }
}

fn report(output_tokens: u64) -> EventResult {
    Ok(LanguageModelCompletionEvent::UsageUpdate(usage(output_tokens)))
}

fn failure() -> EventResult {
    Err(LanguageModelCompletionError::Overloaded)
}

fn tool_use() -> LanguageModelToolUse {
    LanguageModelToolUse {
        id: LanguageModelToolUseId::from("toolu_01"),
        name: "grep".into(),
        raw_input: "[1]".to_string(),
        input: serde_json::Value::from(vec![1]),
        is_input_complete: true,
    }
}

/// Reads the text of a completion to its end, and counts how often an event was asked for.
fn read(events: Vec<EventResult>) -> (Vec<String>, LanguageModelTextStream, Vec<TokenUsage>, usize) {
    let mut events = events.into_iter();
    let mut fetched = 1;
    let mut text_stream = stream_completion_text(Ok(events.next())).unwrap();
    let mut results = Vec::new();
    let mut recorded = Vec::new();
    let mut step = text_stream.demand();
    loop {
        step = match step {
            TextStreamStep::Yield(result) => {
                results.push(show(result));
                text_stream.demand()
            }
            TextStreamStep::RecordUsage(usage) => {
                recorded.push(usage);
                text_stream.demand()
            }
            TextStreamStep::FetchEvent => {
                fetched += 1;
                text_stream.receive(events.next())
            }
            TextStreamStep::Finish => break,
        };
    }
    (results, text_stream, recorded, fetched)
}

fn show(result: TextResult) -> String {
    match result {
        Ok(text) => text,
        Err(error) => format!("<{}>", error.to_string()),
    }
}

const OVERLOADED: &str = "<language model provider's API is overloaded>";

#[test]
fn completion_that_cannot_be_opened_fails() {
    match stream_completion_text(Err(LanguageModelCompletionError::PermissionError)) {
        Err(LanguageModelCompletionError::PermissionError) => {}
        other => panic!("{:?}", other),
    }
}

#[test]
fn message_start_gives_the_message_id() {
    let (results, text_stream, _, _) = read(vec![start("msg_1"), text("a"), text("b")]);
    assert_eq!(text_stream.message_id, Some("msg_1".to_string()));
    assert_eq!(results, vec!["a", "b"]);
}

#[test]
fn message_id_comes_from_the_first_event_only() {
    let (results, text_stream, _, _) = read(vec![text("a"), start("msg_1"), text("b")]);
    assert_eq!(text_stream.message_id, None);
    assert_eq!(results, vec!["a", "b"]);
}

#[test]
fn first_text_is_not_lost() {
    let (results, _, _, _) = read(vec![text("first"), text("second")]);
    assert_eq!(results, vec!["first", "second"]);
}

#[test]
fn other_events_give_no_text() {
    let (results, text_stream, recorded, _) = read(vec![
        start("msg_1"),
        Ok(LanguageModelCompletionEvent::StatusUpdate(CompletionRequestStatus::Started)),
        Ok(LanguageModelCompletionEvent::Thinking { text: "hm".to_string(), signature: None }),
        text("a"),
        Ok(LanguageModelCompletionEvent::ToolUse(tool_use())),
        start("msg_2"),
        Ok(LanguageModelCompletionEvent::Stop(StopReason::EndTurn)),
        text("b"),
    ]);
    assert_eq!(results, vec!["a", "b"]);
    assert_eq!(text_stream.message_id, Some("msg_1".to_string()));
    assert_eq!(text_stream.last_token_usage, TokenUsage::default());
    assert!(recorded.is_empty());
}

#[test]
fn errors_are_given_and_do_not_end_the_text() {
    let (results, _, _, _) = read(vec![start("msg_1"), text("a"), failure(), text("b"), failure()]);
    assert_eq!(results, vec!["a", OVERLOADED, "b", OVERLOADED]);
}

#[test]
fn error_as_the_first_event_is_left_out() {
    let (results, text_stream, _, _) = read(vec![failure(), text("a"), failure()]);
    assert_eq!(results, vec!["a", OVERLOADED]);
    assert_eq!(text_stream.message_id, None);
}

#[test]
fn last_report_of_token_usage_counts() {
    let (results, text_stream, recorded, _) =
        read(vec![start("msg_1"), report(1), text("a"), report(5), report(3), text("b")]);
    assert_eq!(results, vec!["a", "b"]);
    assert_eq!(text_stream.last_token_usage, usage(3));
    assert_eq!(recorded, vec![usage(1), usage(5), usage(3)]);
}

#[test]
fn report_as_the_first_event_counts() {
    let first = TokenUsage { input_tokens: 7, output_tokens: 2, ..TokenUsage::default() };
    let event = Ok(LanguageModelCompletionEvent::UsageUpdate(first));
    let (results, text_stream, recorded, fetched) = read(vec![event, text("a")]);
    assert_eq!(results, vec!["a"]);
    assert_eq!(text_stream.last_token_usage, first);
    assert_eq!(recorded, vec![first]);
    assert_eq!(fetched, 3);
    assert_eq!(read(vec![report(9)]).1.last_token_usage, usage(9));
    assert_eq!(read(vec![report(9), text("a"), report(4)]).1.last_token_usage, usage(4));
}

#[test]
fn report_as_the_first_event_is_published_on_demand() {
    let mut text_stream = stream_completion_text(Ok(Some(report(9)))).unwrap();
    assert_eq!(text_stream.last_token_usage, TokenUsage::default());
    match text_stream.demand() {
        TextStreamStep::RecordUsage(reported) => assert_eq!(reported, usage(9)),
        other => panic!("{:?}", other),
    }
    assert_eq!(text_stream.last_token_usage, usage(9));
    assert!(matches!(text_stream.demand(), TextStreamStep::FetchEvent));
}

#[test]
fn token_usage_is_known_as_soon_as_it_is_reported() {
    let mut text_stream = stream_completion_text(Ok(Some(start("msg_1")))).unwrap();
    assert_eq!(text_stream.last_token_usage, TokenUsage::default());
    assert!(matches!(text_stream.demand(), TextStreamStep::FetchEvent));
    match text_stream.receive(Some(report(7))) {
        TextStreamStep::RecordUsage(reported) => assert_eq!(reported, usage(7)),
        other => panic!("{:?}", other),
    }
    assert_eq!(text_stream.last_token_usage, usage(7));
}

#[test]
fn completion_without_events_has_no_text() {
    let (results, text_stream, _, fetched) = read(Vec::new());
    assert!(results.is_empty());
    assert_eq!(text_stream.message_id, None);
    assert_eq!(text_stream.last_token_usage, TokenUsage::default());
    assert_eq!(fetched, 1);
}

#[test]
fn first_text_is_given_before_the_next_event_is_fetched() {
    let mut text_stream = stream_completion_text(Ok(Some(text("a")))).unwrap();
    assert!(matches!(text_stream.demand(), TextStreamStep::Yield(Ok(_))));
    assert!(matches!(text_stream.demand(), TextStreamStep::FetchEvent));
}

#[test]
fn finished_stream_stays_finished() {
    let (_, mut text_stream, _, fetched) = read(vec![start("msg_1"), text("a")]);
    assert_eq!(fetched, 3);
    assert!(matches!(text_stream.demand(), TextStreamStep::Finish));
    assert!(matches!(text_stream.demand(), TextStreamStep::Finish));
}

#[test]
fn default_text_stream_is_empty() {
    let mut text_stream = LanguageModelTextStream::default();
    assert_eq!(text_stream.message_id, None);
    assert_eq!(text_stream.last_token_usage, TokenUsage::default());
    assert!(matches!(text_stream.demand(), TextStreamStep::Finish));
}

#[test]
fn clones_of_events_are_equal() {
    let queued = CompletionRequestStatus::Queued { position: 3 };
    for event in [
        LanguageModelCompletionEvent::ToolUse(tool_use()),
        LanguageModelCompletionEvent::StatusUpdate(queued),
        LanguageModelCompletionEvent::Stop(StopReason::Refusal),
        LanguageModelCompletionEvent::Text("a".to_string()),
        LanguageModelCompletionEvent::Thinking {
            text: "hm".to_string(),
            signature: Some("s".to_string()),
        },
        LanguageModelCompletionEvent::StartMessage { message_id: "msg_1".to_string() },
        LanguageModelCompletionEvent::UsageUpdate(usage(5)),
    ] {
        assert_eq!(event.clone(), event);
    }
    assert_eq!(tool_use().clone().input, serde_json::Value::from(vec![1]));
}
