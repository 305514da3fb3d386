use vstd::prelude::*;

use crate::error::LanguageModelCompletionError;
use crate::event::LanguageModelCompletionEvent;
use crate::usage::TokenUsage;

verus! {

/// What a model's event stream hands out.
pub type EventResult = Result<LanguageModelCompletionEvent, LanguageModelCompletionError>;

/// What a text stream hands out.
pub type TextResult = Result<String, LanguageModelCompletionError>;

/// The part of a completion that its reader has not been given yet.
#[derive(Debug)]
pub struct PendingText {
    /// Text that came as the very first event.
    pub first_item_text: Option<String>,
    /// Token usage that came as the very first event.
    pub first_usage: Option<TokenUsage>,
    /// Whether the model's event stream has come to its end.
    pub events_ended: bool,
}

/// The text of a completion, as it comes in.
#[derive(Debug)]
pub struct LanguageModelTextStream {
    pub message_id: Option<String>,
    pub stream: PendingText,
    /// Has complete token usage after the stream has finished
    pub last_token_usage: TokenUsage,
}

/// What to do next for the reader of a text stream.
#[derive(Debug)]
pub enum TextStreamStep {
    /// Give this to the reader.
    Yield(TextResult),
    /// Publish this token usage, then go on as if the reader had asked for text again.
    RecordUsage(TokenUsage),
    /// Fetch the model's next event.
    FetchEvent,
    /// Tell the reader that there is no more text.
    Finish,
}

/// What comes of reading a text stream until it says that there is no more.
pub struct TextReading {
    /// What the reader is given.
    pub texts: Seq<TextResult>,
    /// The token usages that are published.
    pub usages: Seq<TokenUsage>,
    /// The events that were never asked for.
    pub unread: Seq<EventResult>,
    /// The text stream in the end.
    pub end: LanguageModelTextStream,
}

/// What the reader of a text stream is given for an event, if anything.
pub open spec fn text_result(event: EventResult) -> Option<TextResult> {
    match event {
        Ok(LanguageModelCompletionEvent::Text(text)) => Some(Ok(text)),
        Ok(_) => None,
        Err(error) => Some(Err(error)),
    }
}

/// What the reader of a text stream is given for a sequence of events.
pub open spec fn text_results(events: Seq<EventResult>) -> Seq<TextResult>
    decreases events.len(),
{
    if events.len() == 0 {
        Seq::empty()
    } else {
        let rest = text_results(events.drop_first());
        match text_result(events[0]) {
            Some(result) => seq![result] + rest,
            None => rest,
        }
    }
}

/// The token usage that an event reports, if it reports one.
pub open spec fn reported_usage(event: EventResult) -> Option<TokenUsage> {
    match event {
        Ok(LanguageModelCompletionEvent::UsageUpdate(usage)) => Some(usage),
        _ => None,
    }
}

/// The token usages that a sequence of events reports.
pub open spec fn reported_usages(events: Seq<EventResult>) -> Seq<TokenUsage>
    decreases events.len(),
{
    if events.len() == 0 {
        Seq::empty()
    } else {
        let rest = reported_usages(events.drop_first());
        match reported_usage(events[0]) {
            Some(usage) => seq![usage] + rest,
            None => rest,
        }
    }
}

/// The token usage that is known after a sequence of events, where `usage` was known before it.
pub open spec fn usage_after(usage: TokenUsage, events: Seq<EventResult>) -> TokenUsage
    decreases events.len(),
{
    if events.len() == 0 {
        usage
    } else {
        match reported_usage(events[0]) {
            Some(update) => usage_after(update, events.drop_first()),
            None => usage_after(usage, events.drop_first()),
        }
    }
}

impl LanguageModelTextStream {
    /// A text stream without any text.
    pub open spec fn empty() -> Self {
        LanguageModelTextStream {
            message_id: None,
            stream: PendingText { first_item_text: None, first_usage: None, events_ended: true },
            last_token_usage: TokenUsage::zero(),
        }
    }

    /// The text stream of a completion whose first event is `first_event`.
    pub open spec fn opened(first_event: Option<EventResult>) -> Self {
        LanguageModelTextStream {
            message_id: match first_event {
                Some(Ok(LanguageModelCompletionEvent::StartMessage { message_id })) =>
                    Some(message_id),
                _ => None,
            },
            stream: PendingText {
                first_item_text: match first_event {
                    Some(Ok(LanguageModelCompletionEvent::Text(text))) => Some(text),
                    _ => None,
                },
                first_usage: match first_event {
                    Some(first_event) => reported_usage(first_event),
                    None => None,
                },
                events_ended: first_event is None,
            },
            last_token_usage: TokenUsage::zero(),
        }
    }

    /// The reader has been given everything, and every token usage has been published.
    pub open spec fn finished(self) -> bool {
        &&& self.stream.first_item_text is None
        &&& self.stream.first_usage is None
        &&& self.stream.events_ended
    }

    /// The text that is in and that the reader has not been given yet.
    pub open spec fn held_back(self) -> Seq<TextResult> {
        match self.stream.first_item_text {
            Some(text) => seq![Ok(text)],
            None => Seq::empty(),
        }
    }

    /// The token usage that is known, published or not.
    pub open spec fn known_usage(self) -> TokenUsage {
        match self.stream.first_usage {
            Some(usage) => usage,
            None => self.last_token_usage,
        }
    }

    /// The number of steps for the reader that take no further event.
    pub open spec fn steps_ahead(self) -> nat {
        self.held_back().len() + if self.stream.first_usage is Some {
            1nat
        } else {
            0nat
        }
    }

    /// Those of `events` that are still asked for: none after the end of the model's event stream.
    pub open spec fn still_to_come(self, events: Seq<EventResult>) -> Seq<EventResult> {
        if self.stream.events_ended {
            Seq::empty()
        } else {
            events
        }
    }

    /// The step that follows when the reader asks for text, and the state after it.
    pub open spec fn on_demand(self) -> (TextStreamStep, Self) {
        match (self.stream.first_usage, self.stream.first_item_text) {
            (Some(usage), _) => (
                TextStreamStep::RecordUsage(usage),
                LanguageModelTextStream {
                    stream: PendingText { first_usage: None, ..self.stream },
                    last_token_usage: usage,
                    ..self
                },
            ),
            (None, Some(text)) => (
                TextStreamStep::Yield(Ok(text)),
                LanguageModelTextStream {
                    stream: PendingText { first_item_text: None, ..self.stream },
                    ..self
                },
            ),
            (None, None) => if self.stream.events_ended {
                (TextStreamStep::Finish, self)
            } else {
                (TextStreamStep::FetchEvent, self)
            },
        }
    }

    /// The step that follows when the model's next event is in, and the state after it.
    pub open spec fn on_event(self, event: Option<EventResult>) -> (TextStreamStep, Self) {
        match event {
            None => (
                TextStreamStep::Finish,
                LanguageModelTextStream {
                    stream: PendingText { events_ended: true, ..self.stream },
                    ..self
                },
            ),
            Some(event) => match (text_result(event), reported_usage(event)) {
                (Some(result), _) => (TextStreamStep::Yield(result), self),
                (None, Some(usage)) => (
                    TextStreamStep::RecordUsage(usage),
                    LanguageModelTextStream { last_token_usage: usage, ..self },
                ),
                (None, None) => (TextStreamStep::FetchEvent, self),
            },
        }
    }

    /// How far a step is from the next one that takes an event or ends the reading.
    pub open spec fn distance(self, step: TextStreamStep) -> nat {
        3 * self.steps_ahead() + match step {
            TextStreamStep::Finish => 0nat,
            TextStreamStep::FetchEvent => 1nat,
            _ => 2nat,
        }
    }

    /// What comes of taking `step` and then every step that follows from it, where the model still
    /// has `events`. `Yield` and `RecordUsage` are followed by the next demand, `FetchEvent` by the
    /// next event or the end of the events, and `Finish` by nothing: it ends the reading there.
    pub open spec fn follow(self, step: TextStreamStep, events: Seq<EventResult>) -> TextReading
        decreases events.len(), self.distance(step),
    {
        match step {
            TextStreamStep::Yield(result) => {
                let (next_step, next) = self.on_demand();
                let rest = next.follow(next_step, events);
                TextReading { texts: seq![result] + rest.texts, ..rest }
            },
            TextStreamStep::RecordUsage(usage) => {
                let (next_step, next) = self.on_demand();
                let rest = next.follow(next_step, events);
                TextReading { usages: seq![usage] + rest.usages, ..rest }
            },
            TextStreamStep::FetchEvent => if events.len() == 0 {
                let (next_step, next) = self.on_event(None);
                next.follow(next_step, events)
            } else {
                let (next_step, next) = self.on_event(Some(events[0]));
                next.follow(next_step, events.drop_first())
            },
            TextStreamStep::Finish => TextReading {
                texts: Seq::empty(),
                usages: Seq::empty(),
                unread: events,
                end: self,
            },
        }
    }

    /// What comes of a text stream whose reader asks for text until there is no more, where the
    /// model still has `events`.
    pub open spec fn reading(self, events: Seq<EventResult>) -> TextReading {
        let (step, next) = self.on_demand();
        next.follow(step, events)
    }

    /// What comes of opening the text stream of a completion with these events and reading it until
    /// there is no more.
    pub open spec fn completion(events: Seq<EventResult>) -> TextReading {
        if events.len() == 0 {
            Self::opened(None).reading(events)
        } else {
            Self::opened(Some(events[0])).reading(events.drop_first())
        }
    }

    /// What the reader is given, and the text stream at the end, where the model still has
    /// `events`.
    pub open spec fn read_to_end(self, events: Seq<EventResult>) -> (Seq<TextResult>, Self) {
        (self.reading(events).texts, self.reading(events).end)
    }

    /// Decides what to do when the reader asks for text.
    pub fn demand(&mut self) -> (step: TextStreamStep)
        ensures
            (step, *final(self)) == old(self).on_demand(),
            match (old(self).stream.first_usage, old(self).stream.first_item_text) {
                (Some(usage), _) => step == TextStreamStep::RecordUsage(usage),
                (None, Some(text)) => step == TextStreamStep::Yield(Ok(text)),
                (None, None) => step == if old(self).stream.events_ended {
                    TextStreamStep::Finish
                } else {
                    TextStreamStep::FetchEvent
                },
            },
            final(self).last_token_usage == match old(self).stream.first_usage {
                Some(usage) => usage,
                None => old(self).last_token_usage,
            },
            final(self).stream.first_usage is None,
            final(self).stream.first_item_text == match old(self).stream.first_usage {
                Some(_) => old(self).stream.first_item_text,
                None => None,
            },
            final(self).stream.events_ended == old(self).stream.events_ended,
            final(self).message_id == old(self).message_id,
    {
        if let Some(usage) = self.stream.first_usage.take() {
            self.last_token_usage = usage;
            return TextStreamStep::RecordUsage(usage);
        }
        match self.stream.first_item_text.take() {
            Some(text) => TextStreamStep::Yield(Ok(text)),
            None => if self.stream.events_ended {
                TextStreamStep::Finish
            } else {
                TextStreamStep::FetchEvent
            },
        }
    }

    /// Decides what to do when the model's next event is in, or when there is none left.
    pub fn receive(&mut self, event: Option<EventResult>) -> (step: TextStreamStep)
        ensures
            (step, *final(self)) == old(self).on_event(event),
            step is Finish <==> event is None,
            step is Yield <==> match event {
                Some(Ok(LanguageModelCompletionEvent::Text(_))) => true,
                Some(Err(_)) => true,
                _ => false,
            },
            step is RecordUsage <==> match event {
                Some(Ok(LanguageModelCompletionEvent::UsageUpdate(_))) => true,
                _ => false,
            },
            event matches Some(Ok(LanguageModelCompletionEvent::Text(text)))
                ==> step == TextStreamStep::Yield(Ok(text)),
            event matches Some(Err(error)) ==> step == TextStreamStep::Yield(Err(error)),
            event matches Some(Ok(LanguageModelCompletionEvent::UsageUpdate(usage)))
                ==> step == TextStreamStep::RecordUsage(usage)
                && final(self).last_token_usage == usage,
            !(step is RecordUsage) ==> final(self).last_token_usage == old(
                self,
            ).last_token_usage,
            final(self).stream.first_usage == old(self).stream.first_usage,
            final(self).stream.first_item_text == old(self).stream.first_item_text,
            final(self).stream.events_ended <==> old(self).stream.events_ended || event is None,
            final(self).message_id == old(self).message_id,
    {
        match event {
            None => {
                self.stream.events_ended = true;
                TextStreamStep::Finish
            },
            Some(Ok(LanguageModelCompletionEvent::StatusUpdate(_))) => TextStreamStep::FetchEvent,
            Some(Ok(LanguageModelCompletionEvent::StartMessage { .. })) =>
                TextStreamStep::FetchEvent,
            Some(Ok(LanguageModelCompletionEvent::Text(text))) => TextStreamStep::Yield(Ok(text)),
            Some(Ok(LanguageModelCompletionEvent::Thinking { .. })) => TextStreamStep::FetchEvent,
            Some(Ok(LanguageModelCompletionEvent::Stop(_))) => TextStreamStep::FetchEvent,
            Some(Ok(LanguageModelCompletionEvent::ToolUse(_))) => TextStreamStep::FetchEvent,
            Some(Ok(LanguageModelCompletionEvent::UsageUpdate(token_usage))) => {
                self.last_token_usage = token_usage;
                TextStreamStep::RecordUsage(token_usage)
            },
            Some(Err(error)) => TextStreamStep::Yield(Err(error)),
        }
    }
}

impl Default for LanguageModelTextStream {
    fn default() -> (text_stream: Self)
        ensures
            text_stream == LanguageModelTextStream::empty(),
            text_stream.message_id is None,
            text_stream.stream.first_item_text is None,
            text_stream.stream.first_usage is None,
            text_stream.stream.events_ended,
            text_stream.last_token_usage.input_tokens == 0,
            text_stream.last_token_usage.output_tokens == 0,
            text_stream.last_token_usage.cache_creation_input_tokens == 0,
            text_stream.last_token_usage.cache_read_input_tokens == 0,
    {
        LanguageModelTextStream {
            message_id: None,
            stream: PendingText { first_item_text: None, first_usage: None, events_ended: true },
            last_token_usage: TokenUsage::default(),
        }
    }
}

/// Starts the text stream of a completion. `first_event` is the first event of the model's event
/// stream, `None` if that stream has no events, and an error if there is no event stream at all.
pub fn stream_completion_text(
    first_event: Result<Option<EventResult>, LanguageModelCompletionError>,
) -> (text_stream: Result<LanguageModelTextStream, LanguageModelCompletionError>)
    ensures
        text_stream == match first_event {
            Ok(first_event) => Ok(LanguageModelTextStream::opened(first_event)),
            Err(error) => Err(error),
        },
        first_event matches Err(error) ==> text_stream == Err::<LanguageModelTextStream, _>(error),
        first_event is Ok ==> text_stream is Ok,
        first_event matches Ok(first_event) ==> text_stream matches Ok(text_stream) && {
            &&& text_stream.message_id == match first_event {
                Some(Ok(LanguageModelCompletionEvent::StartMessage { message_id })) =>
                    Some(message_id),
                _ => None,
            }
            &&& text_stream.stream.first_item_text == match first_event {
                Some(Ok(LanguageModelCompletionEvent::Text(text))) => Some(text),
                _ => None,
            }
            &&& text_stream.stream.first_usage == match first_event {
                Some(Ok(LanguageModelCompletionEvent::UsageUpdate(usage))) => Some(usage),
                _ => None,
            }
            &&& text_stream.stream.events_ended == (first_event is None)
            &&& text_stream.last_token_usage.input_tokens == 0
            &&& text_stream.last_token_usage.output_tokens == 0
            &&& text_stream.last_token_usage.cache_creation_input_tokens == 0
            &&& text_stream.last_token_usage.cache_read_input_tokens == 0
        },
{
    let first_event = match first_event {
        Ok(first_event) => first_event,
        Err(error) => return Err(error),
    };
    let mut text_stream = LanguageModelTextStream::default();
    if let Some(first_event) = first_event {
        text_stream.stream.events_ended = false;
        match first_event {
            Ok(LanguageModelCompletionEvent::StartMessage { message_id }) => {
                text_stream.message_id = Some(message_id);
            },
            Ok(LanguageModelCompletionEvent::Text(text)) => {
                text_stream.stream.first_item_text = Some(text);
            },
            Ok(LanguageModelCompletionEvent::UsageUpdate(token_usage)) => {
                text_stream.stream.first_usage = Some(token_usage);
            },
            _ => {},
        }
    }
    Ok(text_stream)
}

/// A text stream that is finished stays so: it asks for no event, and gives its reader no text.
pub proof fn lemma_finished_stays_finished(
    text_stream: LanguageModelTextStream,
    events: Seq<EventResult>,
)
    requires
        text_stream.finished(),
    ensures
        text_stream.on_demand() == (TextStreamStep::Finish, text_stream),
        text_stream.read_to_end(events) == (Seq::<TextResult>::empty(), text_stream),
{
}

/// A reader who asks until there is no more is given the text that is held back, then the texts
/// and errors among the remaining events, each once and in their order. The message id stays, and
/// the token usage in the end is the last one that was reported.
pub proof fn lemma_read_to_end(text_stream: LanguageModelTextStream, events: Seq<EventResult>)
    ensures
        text_stream.read_to_end(events).0 == text_stream.held_back() + text_results(
            text_stream.still_to_come(events),
        ),
        text_stream.read_to_end(events).1 == (LanguageModelTextStream {
            message_id: text_stream.message_id,
            stream: PendingText { first_item_text: None, first_usage: None, events_ended: true },
            last_token_usage: usage_after(
                text_stream.known_usage(),
                text_stream.still_to_come(events),
            ),
        }),
{
    lemma_reading(text_stream, events);
}

/// What comes of a text stream with nothing held back, from the next event on.
proof fn lemma_follow_events(text_stream: LanguageModelTextStream, events: Seq<EventResult>)
    requires
        text_stream.steps_ahead() == 0,
        !text_stream.stream.events_ended,
    ensures
        ({
            let read = text_stream.follow(TextStreamStep::FetchEvent, events);
            &&& read.texts == text_results(events)
            &&& read.usages == reported_usages(events)
            &&& read.unread.len() == 0
            &&& read.end == LanguageModelTextStream {
                stream: PendingText { events_ended: true, ..text_stream.stream },
                last_token_usage: usage_after(text_stream.last_token_usage, events),
                ..text_stream
            }
        }),
    decreases events.len(),
{
    reveal_with_fuel(LanguageModelTextStream::follow, 3);
    if events.len() > 0 {
        let (step, next) = text_stream.on_event(Some(events[0]));
        lemma_follow_events(next, events.drop_first());
    }
}

/// What comes of any text stream, in full: a reader who asks until there is no more has every event
/// asked for, is given the text that is held back and then the texts and errors of the events, and
/// sees every token usage published.
pub proof fn lemma_reading(text_stream: LanguageModelTextStream, events: Seq<EventResult>)
    ensures
        ({
            let read = text_stream.reading(events);
            let to_come = text_stream.still_to_come(events);
            &&& read.texts == text_stream.held_back() + text_results(to_come)
            &&& read.usages == match text_stream.stream.first_usage {
                Some(usage) => seq![usage] + reported_usages(to_come),
                None => reported_usages(to_come),
            }
            &&& read.unread == if text_stream.stream.events_ended {
                events
            } else {
                Seq::empty()
            }
            &&& read.end == LanguageModelTextStream {
                message_id: text_stream.message_id,
                stream: PendingText {
                    first_item_text: None,
                    first_usage: None,
                    events_ended: true,
                },
                last_token_usage: usage_after(text_stream.known_usage(), to_come),
            }
        }),
    decreases text_stream.steps_ahead(),
{
    let (step, next) = text_stream.on_demand();
    if text_stream.steps_ahead() > 0 {
        lemma_reading(next, events);
    } else if !text_stream.stream.events_ended {
        lemma_follow_events(text_stream, events);
    }
}

/// The text stream of a completion without any event gives no text, has no message id and reports
/// no tokens: it is the default one.
pub proof fn lemma_completion_without_events()
    ensures
        LanguageModelTextStream::opened(None) == LanguageModelTextStream::empty(),
        LanguageModelTextStream::empty().finished(),
{
}

/// The reader of a completion's text is given every text and every error of the completion, each
/// once and in their order, unless the completion starts with an error.
pub proof fn lemma_all_text_is_given(first_event: EventResult, events: Seq<EventResult>)
    requires
        first_event is Ok,
    ensures
        LanguageModelTextStream::opened(Some(first_event)).read_to_end(events).0 == text_results(
            seq![first_event] + events,
        ),
{
    lemma_read_to_end(LanguageModelTextStream::opened(Some(first_event)), events);
    assert((seq![first_event] + events).drop_first() =~= events);
}

/// An error as the very first event of a completion is left out, and only that.
pub proof fn lemma_first_error_is_left_out(
    error: LanguageModelCompletionError,
    events: Seq<EventResult>,
)
    ensures
        LanguageModelTextStream::opened(Some(Err(error))).read_to_end(events).0 == text_results(
            events,
        ),
{
    lemma_read_to_end(LanguageModelTextStream::opened(Some(Err(error))), events);
}

/// The token usage is complete after the stream has finished: it is the one that the completion
/// reported last, be it in its very first event.
pub proof fn lemma_usage_is_complete(first_event: EventResult, events: Seq<EventResult>)
    ensures
        LanguageModelTextStream::opened(Some(first_event)).read_to_end(events).1.last_token_usage
            == usage_after(TokenUsage::zero(), seq![first_event] + events),
{
    lemma_read_to_end(LanguageModelTextStream::opened(Some(first_event)), events);
    assert((seq![first_event] + events).drop_first() =~= events);
}

/// Reading a completion to its end finishes the text stream and keeps its message id, which is
/// that of a message start as the very first event.
pub proof fn lemma_end_of_completion(first_event: EventResult, events: Seq<EventResult>)
    ensures
        LanguageModelTextStream::opened(Some(first_event)).read_to_end(events).1.finished(),
        LanguageModelTextStream::opened(Some(first_event)).read_to_end(events).1.message_id == (
        match first_event {
            Ok(LanguageModelCompletionEvent::StartMessage { message_id }) => Some(message_id),
            _ => None,
        }),
{
    lemma_read_to_end(LanguageModelTextStream::opened(Some(first_event)), events);
}

/// Of several reports of token usage the last one counts.
pub proof fn lemma_last_report_counts(usage: TokenUsage, events: Seq<EventResult>, last: int)
    requires
        0 <= last < events.len(),
        reported_usage(events[last]) is Some,
        forall|i: int| last < i < events.len() ==> reported_usage(#[trigger] events[i]) is None,
    ensures
        Some(usage_after(usage, events)) == reported_usage(events[last]),
    decreases events.len(),
{
    let rest = events.drop_first();
    let next = match reported_usage(events[0]) {
        Some(update) => update,
        None => usage,
    };
    if last == 0 {
        assert forall|i: int| 0 <= i < rest.len() implies reported_usage(
            #[trigger] rest[i],
        ) is None by {
            assert(rest[i] == events[i + 1]);
        }
        lemma_no_report_changes_nothing(next, rest);
    } else {
        assert(rest[last - 1] == events[last]);
        assert forall|i: int| last - 1 < i < rest.len() implies reported_usage(
            #[trigger] rest[i],
        ) is None by {
            assert(rest[i] == events[i + 1]);
        }
        lemma_last_report_counts(next, rest, last - 1);
    }
}

/// Events that report no token usage leave it as it was.
pub proof fn lemma_no_report_changes_nothing(usage: TokenUsage, events: Seq<EventResult>)
    requires
        forall|i: int| 0 <= i < events.len() ==> reported_usage(#[trigger] events[i]) is None,
    ensures
        usage_after(usage, events) == usage,
    decreases events.len(),
{
    if events.len() > 0 {
        let rest = events.drop_first();
        assert forall|i: int| 0 <= i < rest.len() implies reported_usage(
            #[trigger] rest[i],
        ) is None by {
            assert(rest[i] == events[i + 1]);
        }
        lemma_no_report_changes_nothing(usage, rest);
    }
}

/// Events that come later do not change what the reader is given for those before them: an error
/// does not end the text.
pub proof fn lemma_text_of_parts(before: Seq<EventResult>, after: Seq<EventResult>)
    ensures
        text_results(before + after) == text_results(before) + text_results(after),
    decreases before.len(),
{
    if before.len() == 0 {
        assert(before + after =~= after);
    } else {
        lemma_text_of_parts(before.drop_first(), after);
        assert((before + after).drop_first() =~= before.drop_first() + after);
    }
}

/// Reports of token usage in two parts of a sequence of events come one after the other.
proof fn lemma_usages_of_parts(
    usage: TokenUsage,
    before: Seq<EventResult>,
    after: Seq<EventResult>,
)
    ensures
        reported_usages(before + after) == reported_usages(before) + reported_usages(after),
        usage_after(usage, before + after) == usage_after(usage_after(usage, before), after),
    decreases before.len(),
{
    if before.len() == 0 {
        assert(before + after =~= after);
    } else {
        let next = match reported_usage(before[0]) {
            Some(update) => update,
            None => usage,
        };
        lemma_usages_of_parts(next, before.drop_first(), after);
        assert((before + after).drop_first() =~= before.drop_first() + after);
    }
}

/// What a single event gives the reader and reports.
proof fn lemma_single_event(usage: TokenUsage, event: EventResult)
    ensures
        text_results(seq![event]) == match text_result(event) {
            Some(result) => seq![result],
            None => Seq::empty(),
        },
        reported_usages(seq![event]) == match reported_usage(event) {
            Some(update) => seq![update],
            None => Seq::empty(),
        },
        usage_after(usage, seq![event]) == match reported_usage(event) {
            Some(update) => update,
            None => usage,
        },
{
    reveal_with_fuel(text_results, 2);
    reveal_with_fuel(reported_usages, 2);
    reveal_with_fuel(usage_after, 2);
}

/// What comes of a completion without events: nothing is given and nothing is published.
pub proof fn lemma_reading_no_event()
    ensures
        ({
            let read = LanguageModelTextStream::completion(Seq::empty());
            &&& read.texts.len() == 0
            &&& read.usages.len() == 0
            &&& read.unread.len() == 0
            &&& read.end.message_id is None
            &&& read.end.last_token_usage.input_tokens == 0
            &&& read.end.last_token_usage.output_tokens == 0
            &&& read.end.last_token_usage.cache_creation_input_tokens == 0
            &&& read.end.last_token_usage.cache_read_input_tokens == 0
        }),
{
    lemma_reading(LanguageModelTextStream::opened(None), Seq::empty());
}

/// What comes of a completion with a single event: its text is given, its token usage published,
/// the id of a message start kept, and anything else, an error too, leaves no trace.
pub proof fn lemma_reading_one_event(event: EventResult)
    ensures
        ({
            let read = LanguageModelTextStream::completion(seq![event]);
            let nothing = LanguageModelTextStream::completion(Seq::empty());
            &&& read.unread.len() == 0
            &&& match event {
                Ok(LanguageModelCompletionEvent::Text(text)) => {
                    &&& read.texts == seq![Ok::<String, LanguageModelCompletionError>(text)]
                    &&& read.usages.len() == 0
                    &&& read.end == nothing.end
                },
                Ok(LanguageModelCompletionEvent::UsageUpdate(usage)) => {
                    &&& read.texts.len() == 0
                    &&& read.usages == seq![usage]
                    &&& read.end.last_token_usage == usage
                    &&& read.end.message_id is None
                },
                Ok(LanguageModelCompletionEvent::StartMessage { message_id }) => {
                    &&& read.texts.len() == 0
                    &&& read.usages.len() == 0
                    &&& read.end.message_id == Some(message_id)
                    &&& read.end.last_token_usage == nothing.end.last_token_usage
                },
                _ => {
                    &&& read.texts.len() == 0
                    &&& read.usages.len() == 0
                    &&& read.end == nothing.end
                },
            }
        }),
{
    let events = seq![event];
    assert(events.drop_first() =~= Seq::empty());
    lemma_reading(LanguageModelTextStream::opened(Some(event)), Seq::empty());
    lemma_reading(LanguageModelTextStream::opened(None), Seq::empty());
}

/// What one more event at the end changes of a completion that has begun: a text or an error is
/// given behind all that was given without it, a token usage is published behind the others and
/// is the one that stays, and any other event changes nothing at all.
pub proof fn lemma_reading_one_event_more(events: Seq<EventResult>, event: EventResult)
    requires
        events.len() > 0,
    ensures
        ({
            let without = LanguageModelTextStream::completion(events);
            let read = LanguageModelTextStream::completion(events.push(event));
            &&& read.unread.len() == 0
            &&& read.end.message_id == without.end.message_id
            &&& match event {
                Ok(LanguageModelCompletionEvent::Text(text)) => {
                    &&& read.texts == without.texts.push(Ok(text))
                    &&& read.usages == without.usages
                    &&& read.end == without.end
                },
                Err(error) => {
                    &&& read.texts == without.texts.push(Err(error))
                    &&& read.usages == without.usages
                    &&& read.end == without.end
                },
                Ok(LanguageModelCompletionEvent::UsageUpdate(usage)) => {
                    &&& read.texts == without.texts
                    &&& read.usages == without.usages.push(usage)
                    &&& read.end.last_token_usage == usage
                },
                Ok(_) => {
                    &&& read.texts == without.texts
                    &&& read.usages == without.usages
                    &&& read.end == without.end
                },
            }
        }),
{
    let text_stream = LanguageModelTextStream::opened(Some(events[0]));
    let rest = events.drop_first();
    let one = seq![event];
    lemma_reading(text_stream, rest);
    lemma_reading(text_stream, rest + one);
    assert(events.push(event).drop_first() =~= rest + one);
    lemma_text_of_parts(rest, one);
    lemma_usages_of_parts(text_stream.known_usage(), rest, one);
    lemma_single_event(usage_after(text_stream.known_usage(), rest), event);
}

/// An event that is neither text nor error nor token usage can be taken out of the middle of a
/// completion: the reader is given the same, and the same token usages are published.
pub proof fn lemma_other_events_do_not_matter(
    before: Seq<EventResult>,
    event: LanguageModelCompletionEvent,
    after: Seq<EventResult>,
)
    requires
        before.len() > 0,
        !(event is Text),
        !(event is UsageUpdate),
    ensures
        LanguageModelTextStream::completion(before + seq![Ok(event)] + after)
            == LanguageModelTextStream::completion(before + after),
{
    let text_stream = LanguageModelTextStream::opened(Some(before[0]));
    let rest = before.drop_first();
    let one: Seq<EventResult> = seq![Ok(event)];
    assert((before + one + after).drop_first() =~= rest + one + after);
    assert((before + after).drop_first() =~= rest + after);
    lemma_reading(text_stream, rest + one + after);
    lemma_reading(text_stream, rest + after);
    lemma_text_of_parts(rest + one, after);
    lemma_text_of_parts(rest, one);
    lemma_text_of_parts(rest, after);
    lemma_usages_of_parts(text_stream.known_usage(), rest + one, after);
    lemma_usages_of_parts(text_stream.known_usage(), rest, one);
    lemma_usages_of_parts(text_stream.known_usage(), rest, after);
    lemma_single_event(usage_after(text_stream.known_usage(), rest), Ok(event));
}

/// The token usage of the last event that reports one, with all its counts, is there once the
/// completion has been read, and it is the last one published.
pub proof fn lemma_last_usage_stays(events: Seq<EventResult>, last: int, usage: TokenUsage)
    requires
        0 <= last < events.len(),
        events[last] == Ok::<_, LanguageModelCompletionError>(
            LanguageModelCompletionEvent::UsageUpdate(usage),
        ),
        forall|i: int|
            last < i < events.len() ==> match #[trigger] events[i] {
                Ok(LanguageModelCompletionEvent::UsageUpdate(_)) => false,
                _ => true,
            },
    ensures
        LanguageModelTextStream::completion(events).end.last_token_usage == usage,
        LanguageModelTextStream::completion(events).usages.len() > 0,
        LanguageModelTextStream::completion(events).usages.last() == usage,
    decreases events.len(),
{
    if events.len() == 1 {
        assert(events =~= seq![events[0]]);
        lemma_reading_one_event(events[0]);
    } else {
        let before = events.drop_last();
        assert(events =~= before.push(events.last()));
        lemma_reading_one_event_more(before, events.last());
        if last < events.len() - 1 {
            lemma_last_usage_stays(before, last, usage);
        }
    }
}

/// The `nth` text that the reader is given is that of the event at `place`, where `nth` of the
/// events before it are texts or errors. So no text is lost, doubled, changed or moved.
pub proof fn lemma_text_is_given_in_its_place(events: Seq<EventResult>, place: int)
    requires
        0 < place < events.len(),
        match events[place] {
            Ok(LanguageModelCompletionEvent::Text(_)) => true,
            Err(_) => true,
            Ok(_) => false,
        },
    ensures
        ({
            let nth = LanguageModelTextStream::completion(events.take(place)).texts.len() as int;
            let texts = LanguageModelTextStream::completion(events).texts;
            &&& nth < texts.len()
            &&& match events[place] {
                Ok(LanguageModelCompletionEvent::Text(text)) => texts[nth] == Ok::<
                    String,
                    LanguageModelCompletionError,
                >(text),
                Ok(_) => false,
                Err(error) => texts[nth] == Err::<String, LanguageModelCompletionError>(error),
            }
            &&& texts.take(nth) == LanguageModelTextStream::completion(events.take(place)).texts
        }),
    decreases events.len(),
{
    let before = events.drop_last();
    assert(events =~= before.push(events.last()));
    lemma_reading_one_event_more(before, events.last());
    let texts = LanguageModelTextStream::completion(events).texts;
    let earlier = LanguageModelTextStream::completion(events.take(place)).texts;
    if place == events.len() - 1 {
        assert(events.take(place) =~= before);
        assert(texts.take(earlier.len() as int) =~= earlier);
    } else {
        lemma_text_is_given_in_its_place(before, place);
        assert(before.take(place) =~= events.take(place));
        let shorter = LanguageModelTextStream::completion(before).texts;
        assert(texts.take(earlier.len() as int) =~= shorter.take(earlier.len() as int));
    }
}

} // verus!
