//! Events of the error tracker: which of them count, and which request each belongs to.

use crate::error::{Fault, ProcessingError};
use crate::output::{
    all_or_first_error, lemma_all_or_first_error_start, lemma_all_or_first_error_step,
    lemma_first_error_stays, text_view,
};
use crate::text::{
    after_first, before_first, contains, occurs_in, same_text, split_once,
};
use crate::web::{normalized_path, url_path};
use vstd::prelude::*;
use vstd::string::*;

verus! {

/// A tag of an event.
#[derive(Debug, Clone, PartialEq, Eq)]
pub struct Tag {
    pub key: String,
    pub value: String,
}

/// A frame of a stack trace: of its local variables, the request method of the environment,
/// where the frame has one, as the tracker shows it.
#[derive(Debug, Clone, PartialEq, Eq)]
pub struct Frame {
    pub request_method: Option<String>,
}

/// One exception of an event: the frames of its stack trace, where it has one.
#[derive(Debug, Clone, PartialEq, Eq)]
pub struct Exception {
    pub frames: Option<Vec<Frame>>,
}

/// One entry of an event.
#[derive(Debug, Clone, PartialEq, Eq)]
pub enum Entry {
    Exception { values: Vec<Exception> },
    Request { method: Option<String>, url: String },
    Message,
    Breadcrumbs,
}

/// The endpoint that an event belongs to, as far as the event tells.
#[derive(Debug, Clone, PartialEq, Eq)]
pub struct Endpoint {
    pub method: Option<String>,
    pub path: Option<String>,
}

/// An endpoint as a plain value.
pub ghost struct EndpointView {
    pub method: Option<Seq<char>>,
    pub path: Option<Seq<char>>,
}

impl View for Endpoint {
    type V = EndpointView;

    open spec fn view(&self) -> EndpointView {
        EndpointView { method: text_view(self.method), path: text_view(self.path) }
    }
}

/// An endpoint or an error, the endpoint as a plain value.
pub open spec fn endpoint_view(result: Result<Endpoint, ProcessingError>) -> Result<
    EndpointView,
    Fault,
> {
    match result {
        Ok(endpoint) => Ok(endpoint@),
        Err(error) => Err(error.fault()),
    }
}

pub const GUNICORN_ERROR: &'static str = "Error handling request ";

/// Events that come from the targets' own logging and report no failure: notes of the HTTP
/// server, of the shutdown, and of the start of a notebook server.
pub open spec fn is_noise(title: Seq<char>) -> bool {
    ||| occurs_in(title, "code 400, message Bad request syntax"@)
    ||| occurs_in(title, "received signal 15, stopping"@)
    ||| occurs_in(title, "Received signal SIGTERM"@)
    ||| occurs_in(title, "To access the server, open this file in a browser:"@)
    ||| title == "{"@
}

/// The value of the first tag with the key `transaction`.
pub open spec fn transaction_of(tags: Seq<Tag>) -> Option<Seq<char>>
    decreases tags.len(),
{
    if tags.len() == 0 {
        None
    } else if tags.first().key@ == "transaction"@ {
        Some(tags.first().value@)
    } else {
        transaction_of(tags.drop_first())
    }
}

/// The first entry that is a request with a method, as `(method, URL)`.
pub open spec fn first_request(entries: Seq<Entry>) -> Option<(Seq<char>, Seq<char>)>
    decreases entries.len(),
{
    if entries.len() == 0 {
        None
    } else {
        match entries.first() {
            Entry::Request { method: Some(method), url } => Some((method@, url@)),
            _ => first_request(entries.drop_first()),
        }
    }
}

/// The request method that the first frame with one shows.
pub open spec fn method_in_frames(frames: Seq<Frame>) -> Option<Seq<char>>
    decreases frames.len(),
{
    if frames.len() == 0 {
        None
    } else {
        match frames.first().request_method {
            Some(shown) => Some(shown@),
            None => method_in_frames(frames.drop_first()),
        }
    }
}

/// The request method that the first frame with one shows, over the exceptions of an entry.
pub open spec fn method_in_exceptions(values: Seq<Exception>) -> Option<Seq<char>>
    decreases values.len(),
{
    if values.len() == 0 {
        None
    } else {
        let found = match values.first().frames {
            Some(frames) => method_in_frames(frames@),
            None => None,
        };
        match found {
            Some(shown) => Some(shown),
            None => method_in_exceptions(values.drop_first()),
        }
    }
}

/// The request method that the first frame with one shows, over all entries.
pub open spec fn method_in_entries(entries: Seq<Entry>) -> Option<Seq<char>>
    decreases entries.len(),
{
    if entries.len() == 0 {
        None
    } else {
        let found = match entries.first() {
            Entry::Exception { values } => method_in_exceptions(values@),
            _ => None,
        };
        match found {
            Some(shown) => Some(shown),
            None => method_in_entries(entries.drop_first()),
        }
    }
}

/// What a variable holds that the tracker shows in quotes: the text without its first and
/// its last character, which must each be one byte wide.
pub open spec fn unquoted(shown: Seq<char>) -> Option<Seq<char>> {
    if shown.len() >= 2 && (shown.first() as u32) < 128 && (shown.last() as u32) < 128 {
        Some(shown.subrange(1, shown.len() - 1))
    } else {
        None
    }
}

/// The endpoint that an event belongs to. A request entry with a method decides, its URL
/// reduced to the path. Else, where the message reports an error of the application
/// server, the path is what the message names behind that, and the method is what a frame
/// of a stack trace shows. Else the event tells no endpoint.
pub open spec fn endpoint_of(message: Seq<char>, entries: Seq<Entry>) -> Result<
    EndpointView,
    Fault,
> {
    match first_request(entries) {
        Some((method, url)) => match url_path(url) {
            Some(path) => Ok(EndpointView { method: Some(method), path: Some(path) }),
            None => Err(Fault::Url),
        },
        None => if occurs_in(message, GUNICORN_ERROR@) {
            match method_in_entries(entries) {
                Some(shown) => match unquoted(shown) {
                    Some(method) => Ok(
                        EndpointView {
                            method: Some(method),
                            path: Some(after_first(message, GUNICORN_ERROR@)),
                        },
                    ),
                    None => Err(Fault::Malformed),
                },
                None => Ok(EndpointView { method: None, path: None }),
            }
        } else {
            Ok(EndpointView { method: None, path: None })
        },
    }
}

/// Whether an event reports no failure.
pub fn should_be_skipped(title: &str) -> (yes: bool)
    ensures
        yes == is_noise(title@),
{
    contains(title, "code 400, message Bad request syntax") || contains(
        title,
        "received signal 15, stopping",
    ) || contains(title, "Received signal SIGTERM") || contains(
        title,
        "To access the server, open this file in a browser:",
    ) || same_text(title, "{")
}

/// The value of the first tag with the key `transaction`.
pub fn get_transaction(tags: &Vec<Tag>) -> (transaction: Option<String>)
    ensures
        text_view(transaction) == transaction_of(tags@),
{
    let mut at: usize = 0;
    assert(tags@.skip(0) =~= tags@);
    while at < tags.len()
        invariant
            at <= tags.len(),
            transaction_of(tags@) == transaction_of(tags@.skip(at as int)),
        decreases tags.len() - at,
    {
        assert(tags@.skip(at as int).first() == tags@[at as int]);
        assert(tags@.skip(at as int).drop_first() =~= tags@.skip(at + 1));
        if same_text(tags[at].key.as_str(), "transaction") {
            return Some(tags[at].value.clone());
        }
        at = at + 1;
    }
    None
}

/// The first entry that is a request with a method.
pub fn find_request<'a>(entries: &'a Vec<Entry>) -> (found: Option<(&'a str, &'a str)>)
    ensures
        found is Some == first_request(entries@) is Some,
        found matches Some((method, url)) ==> first_request(entries@) == Some((method@, url@)),
{
    let mut at: usize = 0;
    assert(entries@.skip(0) =~= entries@);
    while at < entries.len()
        invariant
            at <= entries.len(),
            first_request(entries@) == first_request(entries@.skip(at as int)),
        decreases entries.len() - at,
    {
        assert(entries@.skip(at as int).first() == entries@[at as int]);
        assert(entries@.skip(at as int).drop_first() =~= entries@.skip(at + 1));
        if let Entry::Request { method: Some(method), url } = &entries[at] {
            return Some((method.as_str(), url.as_str()));
        }
        at = at + 1;
    }
    None
}

/// The request method that the first frame with one shows.
pub fn find_in_frames<'a>(frames: &'a Vec<Frame>) -> (found: Option<&'a str>)
    ensures
        found is Some == method_in_frames(frames@) is Some,
        found matches Some(shown) ==> method_in_frames(frames@) == Some(shown@),
{
    let mut at: usize = 0;
    assert(frames@.skip(0) =~= frames@);
    while at < frames.len()
        invariant
            at <= frames.len(),
            method_in_frames(frames@) == method_in_frames(frames@.skip(at as int)),
        decreases frames.len() - at,
    {
        assert(frames@.skip(at as int).first() == frames@[at as int]);
        assert(frames@.skip(at as int).drop_first() =~= frames@.skip(at + 1));
        if let Some(shown) = &frames[at].request_method {
            return Some(shown.as_str());
        }
        at = at + 1;
    }
    None
}

/// The request method that the first frame with one shows, over the exceptions of an entry.
pub fn find_in_exceptions<'a>(values: &'a Vec<Exception>) -> (found: Option<&'a str>)
    ensures
        found is Some == method_in_exceptions(values@) is Some,
        found matches Some(shown) ==> method_in_exceptions(values@) == Some(shown@),
{
    let mut at: usize = 0;
    assert(values@.skip(0) =~= values@);
    while at < values.len()
        invariant
            at <= values.len(),
            method_in_exceptions(values@) == method_in_exceptions(values@.skip(at as int)),
        decreases values.len() - at,
    {
        assert(values@.skip(at as int).first() == values@[at as int]);
        assert(values@.skip(at as int).drop_first() =~= values@.skip(at + 1));
        if let Some(frames) = &values[at].frames {
            if let Some(shown) = find_in_frames(frames) {
                return Some(shown);
            }
        }
        at = at + 1;
    }
    None
}

/// The request method that the first frame with one shows, over all entries.
pub fn find_in_entries<'a>(entries: &'a Vec<Entry>) -> (found: Option<&'a str>)
    ensures
        found is Some == method_in_entries(entries@) is Some,
        found matches Some(shown) ==> method_in_entries(entries@) == Some(shown@),
{
    let mut at: usize = 0;
    assert(entries@.skip(0) =~= entries@);
    while at < entries.len()
        invariant
            at <= entries.len(),
            method_in_entries(entries@) == method_in_entries(entries@.skip(at as int)),
        decreases entries.len() - at,
    {
        assert(entries@.skip(at as int).first() == entries@[at as int]);
        assert(entries@.skip(at as int).drop_first() =~= entries@.skip(at + 1));
        if let Entry::Exception { values } = &entries[at] {
            if let Some(shown) = find_in_exceptions(values) {
                return Some(shown);
            }
        }
        at = at + 1;
    }
    None
}

/// What a variable holds that the tracker shows in quotes.
pub fn unquote<'a>(shown: &'a str) -> (inner: Option<&'a str>)
    ensures
        inner is Some == unquoted(shown@) is Some,
        inner matches Some(text) ==> unquoted(shown@) == Some(text@),
{
    let length = shown.unicode_len();
    if length >= 2 && (shown.get_char(0) as u32) < 128 && (shown.get_char(length - 1) as u32)
        < 128 {
        Some(shown.substring_char(1, length - 1))
    } else {
        None
    }
}

/// The endpoint that an event belongs to, from the event's message and entries.
pub fn get_endpoint(message: &str, entries: &Vec<Entry>) -> (endpoint: Result<
    Endpoint,
    ProcessingError,
>)
    ensures
        endpoint_view(endpoint) == endpoint_of(message@, entries@),
{
    if let Some((method, url)) = find_request(entries) {
        let path = normalized_path(url)?;
        return Ok(Endpoint { method: Some(method.to_owned()), path: Some(path) });
    }
    if let Some((_, path)) = split_once(message, GUNICORN_ERROR) {
        if let Some(shown) = find_in_entries(entries) {
            return match unquote(shown) {
                Some(method) => Ok(
                    Endpoint { method: Some(method.to_owned()), path: Some(path.to_owned()) },
                ),
                None => Err(ProcessingError::Malformed),
            };
        }
    }
    Ok(Endpoint { method: None, path: None })
}

/// What the logic reads of an event.
#[derive(Debug, Clone, PartialEq, Eq)]
pub struct RawEvent {
    pub title: String,
    pub message: String,
    pub tags: Vec<Tag>,
    pub entries: Vec<Entry>,
}

/// What is worked out of an event: its transaction and the endpoint it belongs to.
#[derive(Debug, Clone, PartialEq, Eq)]
pub struct Summary {
    pub transaction: Option<String>,
    pub endpoint: Endpoint,
}

/// A summary as a plain value.
pub ghost struct SummaryView {
    pub transaction: Option<Seq<char>>,
    pub endpoint: EndpointView,
}

/// A summary that may be missing, as a plain value.
pub open spec fn summary_view(summary: Option<Summary>) -> Option<SummaryView> {
    match summary {
        Some(summary) => Some(
            SummaryView {
                transaction: text_view(summary.transaction),
                endpoint: summary.endpoint@,
            },
        ),
        None => None,
    }
}

/// The summaries of events as plain values, one for one.
pub open spec fn summary_views(summaries: Seq<Option<Summary>>) -> Seq<Option<SummaryView>> {
    summaries.map_values(|summary: Option<Summary>| summary_view(summary))
}

/// What an event comes to: nothing where it reports no failure, else its summary.
pub open spec fn processed_event(event: RawEvent) -> Result<Option<SummaryView>, Fault> {
    if is_noise(event.title@) {
        Ok(None)
    } else {
        match endpoint_of(event.message@, event.entries@) {
            Ok(endpoint) => Ok(
                Some(SummaryView { transaction: transaction_of(event.tags@), endpoint }),
            ),
            Err(error) => Err(error),
        }
    }
}

/// What each event comes to.
pub open spec fn event_outcomes(events: Seq<RawEvent>) -> Seq<
    Result<Option<SummaryView>, Fault>,
> {
    events.map_values(|event: RawEvent| processed_event(event))
}

/// What an event comes to.
pub fn process_event(event: &RawEvent) -> (summary: Result<Option<Summary>, ProcessingError>)
    ensures
        summary is Ok == processed_event(*event) is Ok,
        summary matches Ok(found) ==> processed_event(*event) == Ok::<
            Option<SummaryView>,
            Fault,
        >(summary_view(found)),
        summary matches Err(error) ==> processed_event(*event) == Err::<
            Option<SummaryView>,
            Fault,
        >(error.fault()),
{
    if should_be_skipped(event.title.as_str()) {
        return Ok(None);
    }
    let transaction = get_transaction(&event.tags);
    let endpoint = get_endpoint(event.message.as_str(), &event.entries)?;
    Ok(Some(Summary { transaction, endpoint }))
}

/// The summaries of the events of a run, one for one and in their order; `None` stands for
/// an event that reports no failure. The first event that is malformed stops the run.
pub fn parse_events(events: &Vec<RawEvent>) -> (summaries: Result<
    Vec<Option<Summary>>,
    ProcessingError,
>)
    ensures
        summaries is Ok == all_or_first_error(event_outcomes(events@)) is Ok,
        summaries matches Ok(found) ==> all_or_first_error(event_outcomes(events@)) == Ok::<
            Seq<Option<SummaryView>>,
            Fault,
        >(summary_views(found@)),
        summaries matches Err(error) ==> all_or_first_error(event_outcomes(events@)) == Err::<
            Seq<Option<SummaryView>>,
            Fault,
        >(error.fault()),
{
    let ghost outcomes = event_outcomes(events@);
    let mut summaries: Vec<Option<Summary>> = Vec::new();
    let mut at: usize = 0;
    proof {
        lemma_all_or_first_error_start(outcomes);
        assert(summary_views(summaries@) =~= Seq::empty());
    }
    while at < events.len()
        invariant
            at <= events.len(),
            outcomes == event_outcomes(events@),
            all_or_first_error(outcomes.take(at as int)) == Ok::<
                Seq<Option<SummaryView>>,
                Fault,
            >(summary_views(summaries@)),
        decreases events.len() - at,
    {
        proof {
            lemma_all_or_first_error_step(outcomes, at as int);
        }
        let ghost before = summary_views(summaries@);
        match process_event(&events[at]) {
            Ok(summary) => {
                summaries.push(summary);
                assert(summary_views(summaries@) =~= before.push(summary_view(summary)));
            },
            Err(error) => {
                proof {
                    lemma_first_error_stays(outcomes, at + 1);
                }
                return Err(error);
            },
        }
        at = at + 1;
    }
    assert(outcomes.take(at as int) =~= outcomes);
    Ok(summaries)
}

/// The project under which the tracker files the events of a target: the target's name,
/// which is its token up to the first colon, or the whole token where it has none.
pub open spec fn project_name(target: Seq<char>) -> Seq<char> {
    if occurs_in(target, ":"@) {
        before_first(target, ":"@)
    } else {
        target
    }
}

/// The address of the first page of a project's events.
pub open spec fn first_page(url: Seq<char>, project: Seq<char>) -> Seq<char> {
    url + "api/0/projects/sentry/"@ + project + "/events/?full=true"@
}

/// What a page of events says of the next one. The page's link to the next page carries
/// its address and whether that page holds results, as `true` or `false`; a link that says
/// neither is malformed. Without such a link there is no next page.
pub open spec fn next_page(link: Option<(Seq<char>, Option<Seq<char>>)>) -> Result<
    (Option<Seq<char>>, bool),
    Fault,
> {
    match link {
        Some((address, Some(results))) => if results == "true"@ {
            Ok((Some(address), true))
        } else if results == "false"@ {
            Ok((Some(address), false))
        } else {
            Err(Fault::Malformed)
        },
        Some((_, None)) => Err(Fault::Malformed),
        None => Ok((None, false)),
    }
}

/// The project under which the tracker files the events of a target.
pub fn project_of<'a>(target: &'a str) -> (project: &'a str)
    ensures
        project@ == project_name(target@),
{
    match split_once(target, ":") {
        Some((name, _)) => name,
        None => target,
    }
}

/// The address of the first page of a project's events.
pub fn events_url(url: &str, project: &str) -> (address: String)
    ensures
        address@ == first_page(url@, project@),
{
    url.to_owned().concat("api/0/projects/sentry/").concat(project).concat("/events/?full=true")
}

/// What a page of events says of the next one, given the address and the `results`
/// parameter of its link to the next page, where it has such a link.
pub fn next_call(link: Option<(&str, Option<&str>)>) -> (next: Result<
    (Option<String>, bool),
    ProcessingError,
>)
    ensures
        next is Ok == next_page(link_view(link)) is Ok,
        next matches Ok((address, more)) ==> next_page(link_view(link)) == Ok::<
            (Option<Seq<char>>, bool),
            Fault,
        >((text_view(address), more)),
        next matches Err(error) ==> next_page(link_view(link)) == Err::<
            (Option<Seq<char>>, bool),
            Fault,
        >(error.fault()),
{
    match link {
        Some((address, Some(results))) => if same_text(results, "true") {
            Ok((Some(address.to_owned()), true))
        } else if same_text(results, "false") {
            Ok((Some(address.to_owned()), false))
        } else {
            Err(ProcessingError::Malformed)
        },
        Some((_, None)) => Err(ProcessingError::Malformed),
        None => Ok((None, false)),
    }
}

/// A link as a plain value.
pub open spec fn link_view(link: Option<(&str, Option<&str>)>) -> Option<
    (Seq<char>, Option<Seq<char>>),
> {
    match link {
        Some((address, Some(results))) => Some((address@, Some(results@))),
        Some((address, None)) => Some((address@, None)),
        None => None,
    }
}

} // verus!
