//! The stream accumulator: folds the items of a streamed completion into
//! one response.

use vstd::prelude::*;

verus! {

/// One of the parallel choices of a streamed response: the piece of text
/// that it adds, if it adds any.
#[derive(Debug)]
pub struct ChatChoiceDelta {
    pub content: Option<String>,
}

/// One successful item of the stream.
#[derive(Debug)]
pub struct ChatStreamResponse {
    pub choices: Vec<ChatChoiceDelta>,
}

/// The text that a choice adds: its content, or nothing where it has none.
pub open spec fn choice_text(choice: ChatChoiceDelta) -> Seq<char> {
    match choice.content {
        Some(content) => content@,
        None => Seq::empty(),
    }
}

/// The fragment that a response stands for: the texts of all its choices,
/// in their given order, with nothing between them.
pub open spec fn token_of(response: ChatStreamResponse) -> Seq<char> {
    response.choices@.map_values(|choice: ChatChoiceDelta| choice_text(choice)).flatten()
}

/// Extracts the fragment of a response.
pub fn get_token_from_response(response: ChatStreamResponse) -> (token: String)
    ensures
        token@ == token_of(response),
{
    let mut token = String::new();
    let ghost texts = response.choices@.map_values(|choice: ChatChoiceDelta| choice_text(choice));
    let mut i: usize = 0;
    while i < response.choices.len()
        invariant
            i <= response.choices@.len(),
            texts == response.choices@.map_values(|choice: ChatChoiceDelta| choice_text(choice)),
            token@ == texts.subrange(0, i as int).flatten(),
        decreases response.choices@.len() - i,
    {
        proof {
            texts.subrange(0, i as int).lemma_flatten_push(texts[i as int]);
            assert(texts.subrange(0, i as int).push(texts[i as int]) =~= texts.subrange(
                0,
                i + 1,
            ));
        }
        match &response.choices[i].content {
            Some(content) => {
                token.append(content.as_str());
            },
            None => {},
        }
        i += 1;
    }
    proof {
        assert(texts.subrange(0, i as int) =~= texts);
    }
    token
}

/// A structured error sent by the server in place of a response.
#[derive(Debug)]
pub struct ApiError {
    pub code: Option<String>,
    pub kind: String,
    pub message: String,
}

/// An item of the stream that is no response.
#[derive(Debug)]
pub enum StreamError {
    /// The server reported an error. Such errors are taken to be transient.
    Api(ApiError),
    /// Anything else went wrong; the text describes it.
    Other(String),
}

/// One item of the stream.
pub type StreamItem = Result<ChatStreamResponse, StreamError>;

/// Why a stream was given up.
#[derive(Debug, PartialEq, Eq)]
pub enum ChatError {
    /// The server refused the credentials.
    Unauthorized,
    /// Any other failure, with its description.
    Failed(String),
}

/// What the caller is to do with an item of the stream.
#[derive(Debug, PartialEq, Eq)]
pub enum StreamAction {
    /// Hand the fragment to the output sink.
    Emit(String),
    /// Tell the user of a transient error, and go on.
    Report(String),
    /// Give the stream up.
    Abort(ChatError),
}

/// The model of a [`ChatError`].
pub enum Failure {
    Unauthorized,
    Failed(Seq<char>),
}

/// The model of a [`StreamAction`]: what an item of the stream amounts to.
pub enum Event {
    Fragment(Seq<char>),
    Transient(Seq<char>),
    Fatal(Failure),
}

impl View for ChatError {
    type V = Failure;

    open spec fn view(&self) -> Failure {
        match self {
            ChatError::Unauthorized => Failure::Unauthorized,
            ChatError::Failed(description) => Failure::Failed(description@),
        }
    }
}

impl View for StreamAction {
    type V = Event;

    open spec fn view(&self) -> Event {
        match self {
            StreamAction::Emit(fragment) => Event::Fragment(fragment@),
            StreamAction::Report(report) => Event::Transient(report@),
            StreamAction::Abort(error) => Event::Fatal(error@),
        }
    }
}

/// The line that tells the user of a server error: a fixed opening, then
/// the error's code, kind and message, a space between them. An error
/// without a code has an empty one.
pub open spec fn report_of(error: ApiError) -> Seq<char> {
    "Received an error from OpenAI: "@ + (match error.code {
        Some(code) => code@,
        None => Seq::empty(),
    }) + " "@ + error.kind@ + " "@ + error.message@
}

/// `needle` occurs in `haystack` as a run of adjacent characters.
pub open spec fn occurs_in(needle: Seq<char>, haystack: Seq<char>) -> bool {
    exists|start: int|
        0 <= start <= haystack.len() - needle.len() && #[trigger] haystack.subrange(
            start,
            start + needle.len(),
        ) == needle
}

/// A failure whose description mentions `401 Unauthorized` is a refusal of
/// the credentials; any other is passed on with its description.
pub open spec fn failure_of(description: Seq<char>) -> Failure {
    if occurs_in("401 Unauthorized"@, description) {
        Failure::Unauthorized
    } else {
        Failure::Failed(description)
    }
}

/// What an item of the stream amounts to.
pub open spec fn event_of(item: StreamItem) -> Event {
    match item {
        Ok(response) => Event::Fragment(token_of(response)),
        Err(StreamError::Api(error)) => Event::Transient(report_of(error)),
        Err(StreamError::Other(description)) => Event::Fatal(failure_of(description@)),
    }
}

/// Wraps `str::contains` with a string as the pattern, which std documents
/// as telling whether the pattern matches a sub-slice of the string.
#[verifier::external_body]
fn str_contains(haystack: &str, needle: &str) -> (found: bool)
    ensures
        found == occurs_in(needle@, haystack@),
{
    haystack.contains(needle)
}

impl ApiError {
    /// The line that tells the user of this error.
    pub fn report(&self) -> (line: String)
        ensures
            line@ == report_of(*self),
    {
        let mut line = "Received an error from OpenAI: ".to_owned();
        match &self.code {
            Some(code) => {
                line.append(code.as_str());
            },
            None => {},
        }
        line.append(" ");
        line.append(self.kind.as_str());
        line.append(" ");
        line.append(self.message.as_str());
        line
    }
}

impl ChatError {
    /// Tells a refusal of the credentials from other failures by the
    /// description of the failure.
    pub fn from_description(description: String) -> (error: ChatError)
        ensures
            error@ == failure_of(description@),
    {
        if str_contains(description.as_str(), "401 Unauthorized") {
            ChatError::Unauthorized
        } else {
            ChatError::Failed(description)
        }
    }

    /// The text that describes the failure to the user.
    pub fn message(&self) -> (text: String)
        ensures
            text@ == self@.message(),
    {
        match self {
            ChatError::Unauthorized => {
                "OpenAI API key is invalid. Please check your OPENAI_API_KEY environment variable.".to_owned()
            },
            ChatError::Failed(description) => description.clone(),
        }
    }
}

impl Failure {
    /// The text that describes the failure to the user: a fixed hint at the
    /// credentials where they were refused, else the description itself.
    pub open spec fn message(self) -> Seq<char> {
        match self {
            Failure::Unauthorized => "OpenAI API key is invalid. Please check your OPENAI_API_KEY environment variable."@,
            Failure::Failed(description) => description,
        }
    }
}

/// The response gathered once an event has been taken: a fragment is added
/// at the end, a transient error changes nothing, and a fatal error leaves
/// no text behind.
pub open spec fn gathered(before: Seq<char>, event: Event) -> Seq<char> {
    match event {
        Event::Fragment(fragment) => before + fragment,
        Event::Transient(_) => before,
        Event::Fatal(_) => Seq::empty(),
    }
}

/// Takes one item of the stream. A response adds its fragment to the
/// response gathered so far and has it emitted. A server error is reported
/// and changes nothing. Any other error gives the stream up, and the
/// response gathered so far is dropped.
pub fn process_stream_item(response_str: &mut String, item: StreamItem) -> (action: StreamAction)
    ensures
        action@ == event_of(item),
        final(response_str)@ == gathered(old(response_str)@, event_of(item)),
{
    match item {
        Ok(response) => {
            let token = get_token_from_response(response);
            response_str.append(token.as_str());
            StreamAction::Emit(token)
        },
        Err(StreamError::Api(error)) => StreamAction::Report(error.report()),
        Err(StreamError::Other(description)) => {
            *response_str = String::new();
            StreamAction::Abort(ChatError::from_description(description))
        },
    }
}

/// What a drained stream leaves behind.
pub struct Transcript {
    /// The fragments handed to the output sink, in order.
    pub emitted: Seq<Seq<char>>,
    /// The transient errors reported to the user, in order.
    pub reported: Seq<Seq<char>>,
    /// The whole response where the stream ran to its end; the failure
    /// where it was given up.
    pub result: Result<Seq<char>, Failure>,
}

/// Drains a stream of events. The stream starts with an empty response.
/// While it has not been given up, a fragment is emitted and added to the
/// response, a transient error is reported, and a fatal error gives the
/// stream up: the response gathered so far is lost, and no later event is
/// looked at.
pub open spec fn drained(events: Seq<Event>) -> Transcript
    decreases events.len(),
{
    if events.len() == 0 {
        Transcript { emitted: Seq::empty(), reported: Seq::empty(), result: Ok(Seq::empty()) }
    } else {
        let before = drained(events.drop_last());
        match before.result {
            Err(_) => before,
            Ok(response) => match events.last() {
                Event::Fragment(fragment) => Transcript {
                    emitted: before.emitted.push(fragment),
                    reported: before.reported,
                    result: Ok(response + fragment),
                },
                Event::Transient(report) => Transcript {
                    emitted: before.emitted,
                    reported: before.reported.push(report),
                    result: Ok(response),
                },
                Event::Fatal(failure) => Transcript {
                    emitted: before.emitted,
                    reported: before.reported,
                    result: Err(failure),
                },
            },
        }
    }
}

/// The views of a list of strings.
pub open spec fn texts(strings: Seq<String>) -> Seq<Seq<char>> {
    strings.map_values(|string: String| string@)
}

/// What [`drain_stream`] hands back.
#[derive(Debug)]
pub struct StreamOutcome {
    /// The fragments for the output sink, in order.
    pub emitted: Vec<String>,
    /// The reports of transient errors, in order.
    pub reported: Vec<String>,
    /// The whole response, or why the stream was given up.
    pub result: Result<String, ChatError>,
}

impl View for StreamOutcome {
    type V = Transcript;

    open spec fn view(&self) -> Transcript {
        Transcript {
            emitted: texts(self.emitted@),
            reported: texts(self.reported@),
            result: match self.result {
                Ok(response) => Ok(response@),
                Err(error) => Err(error@),
            },
        }
    }
}

/// Once a stream has been given up, the events that follow change nothing.
pub proof fn lemma_given_up_is_final(events: Seq<Event>, n: int)
    requires
        0 <= n <= events.len(),
        drained(events.subrange(0, n)).result is Err,
    ensures
        drained(events) == drained(events.subrange(0, n)),
    decreases events.len() - n,
{
    if n == events.len() {
        assert(events.subrange(0, n) =~= events);
    } else {
        assert(events.subrange(0, n + 1).drop_last() =~= events.subrange(0, n));
        lemma_given_up_is_final(events, n + 1);
    }
}

/// A stream of responses alone runs to its end: the whole response is the
/// fragments of the items put together in the order of arrival, with nothing
/// between them; the sink is handed one fragment for each item, these very
/// fragments in that order; and nothing is reported.
pub proof fn lemma_responses_only(items: Seq<StreamItem>)
    requires
        forall|i: int| 0 <= i < items.len() ==> items[i] is Ok,
    ensures
        ({
            let fragments = items.map_values(|item: StreamItem| token_of(item->Ok_0));
            let transcript = drained(items.map_values(|item: StreamItem| event_of(item)));
            &&& transcript.result == Ok::<Seq<char>, Failure>(fragments.flatten())
            &&& transcript.emitted == fragments
            &&& transcript.emitted.len() == items.len()
            &&& transcript.reported == Seq::<Seq<char>>::empty()
        }),
    decreases items.len(),
{
    let fragments = items.map_values(|item: StreamItem| token_of(item->Ok_0));
    let events = items.map_values(|item: StreamItem| event_of(item));
    if items.len() == 0 {
        assert(fragments =~= Seq::empty());
    } else {
        let earlier = items.drop_last();
        let earlier_fragments = earlier.map_values(|item: StreamItem| token_of(item->Ok_0));
        lemma_responses_only(earlier);
        assert(events.drop_last() =~= earlier.map_values(|item: StreamItem| event_of(item)));
        assert(earlier_fragments.push(fragments.last()) =~= fragments);
        earlier_fragments.lemma_flatten_push(fragments.last());
    }
}

/// Drains a stream that is held in memory: takes its items in order until
/// the first fatal one, and records what a sink and the user would have
/// been handed on the way.
pub fn drain_stream(items: Vec<StreamItem>) -> (outcome: StreamOutcome)
    ensures
        outcome@ == drained(items@.map_values(|item: StreamItem| event_of(item))),
{
    let ghost events = items@.map_values(|item: StreamItem| event_of(item));
    let mut response_str = String::new();
    let mut emitted: Vec<String> = Vec::new();
    let mut reported: Vec<String> = Vec::new();
    proof {
        assert(texts(emitted@) =~= Seq::empty());
        assert(texts(reported@) =~= Seq::empty());
    }
    for item in iter: items
        invariant
            iter.seq() == items@,
            events == items@.map_values(|item: StreamItem| event_of(item)),
            drained(events.subrange(0, iter.index() as int)) == (Transcript {
                emitted: texts(emitted@),
                reported: texts(reported@),
                result: Ok(response_str@),
            }),
    {
        let ghost n = iter.index() as int;
        proof {
            assert(events.subrange(0, n + 1).drop_last() =~= events.subrange(0, n));
        }
        match process_stream_item(&mut response_str, item) {
            StreamAction::Emit(fragment) => {
                proof {
                    assert(texts(emitted@.push(fragment)) =~= texts(emitted@).push(fragment@));
                }
                emitted.push(fragment);
            },
            StreamAction::Report(report) => {
                proof {
                    assert(texts(reported@.push(report)) =~= texts(reported@).push(report@));
                }
                reported.push(report);
            },
            StreamAction::Abort(error) => {
                proof {
                    lemma_given_up_is_final(events, n + 1);
                }
                return StreamOutcome { emitted, reported, result: Err(error) };
            },
        }
    }
    proof {
        assert(events.subrange(0, events.len() as int) =~= events);
    }
    StreamOutcome { emitted, reported, result: Ok(response_str) }
}

} // verus!
