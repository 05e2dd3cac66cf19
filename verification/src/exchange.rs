//! The course of a search: what is done next, and what the caller gets in the end.
//!
//! Whoever does the input and output looks at the state, does what it asks for, and reports what
//! happened as an event.

use crate::args::json_args;
use crate::args::ArgsView;
use crate::args::SearchArgs;
use crate::base_url::verdict;
use crate::error::SearchError;
use crate::render::markdown;
use crate::render::plain_text;
use crate::request::planned;
use crate::request::request_for;
use crate::request::results_to_show;
use crate::request::SearchRequest;
use crate::response::SearxngResponse;
use crate::status::is_success;
use crate::status::status_code;
use crate::status::status_line;
use crate::status::success;
use crate::status::write_status;
use crate::text::decimal;
use crate::text::nonblank;
use crate::tool::SearxngSearchTool;
use crate::tool::ToolSettings;
use vstd::prelude::*;

verus! {

/// How a caller wants the result.
#[derive(Debug, Clone, Copy)]
pub struct ToolCallOptions {
    /// Whether the result is wanted as Markdown too.
    pub prefer_markdown: bool,
}

impl Default for ToolCallOptions {
    fn default() -> (r: Self)
        ensures
            !r.prefer_markdown,
    {
        ToolCallOptions { prefer_markdown: false }
    }
}

/// What a search gives its caller.
#[derive(Debug)]
pub struct ToolResult {
    pub content: String,
    pub markdown_formatted: Option<String>,
}

impl ToolResult {
    /// A result in plain text only.
    pub fn success(content: String) -> (r: Self)
        ensures
            r.content == content,
            r.markdown_formatted is None,
    {
        ToolResult { content, markdown_formatted: None }
    }

    /// The result in plain text.
    pub fn output(&self) -> (r: &str)
        ensures
            r@ == self.content@,
    {
        self.content.as_str()
    }
}

/// Where a search stands, and so what is to be done next.
pub enum SearchState {
    /// The request is to be sent.
    Sending(SearchRequest),
    /// The request was answered with success; the body is to be read.
    Reading(SearchRequest),
    /// The search is over.
    Finished(Result<ToolResult, SearchError>),
}

/// What happened. The strings say in words what went wrong.
pub enum SearchEvent {
    /// There is no client to send the request with.
    ClientFailed(String),
    /// The request was sent and not answered.
    RequestFailed(String),
    /// The request was answered, with this status.
    Responded(u16),
    /// The body cannot be read, or is not what it should be.
    BodyFailed(String),
    /// The body was read.
    BodyParsed(SearxngResponse),
}

impl SearchEvent {
    /// Whether the event can come: a status has a code with three digits.
    pub open spec fn possible(self) -> bool {
        self matches SearchEvent::Responded(code) ==> status_code(code)
    }
}

/// Whether `result` shows the results of `response`: in plain text, and in Markdown exactly where
/// that is wanted.
pub open spec fn shows(
    result: ToolResult,
    response: SearxngResponse,
    request: SearchRequest,
    options: ToolCallOptions,
) -> bool {
    &&& result.content@ == plain_text(response.results@, request.query@, request.max_results)
    &&& match result.markdown_formatted {
        Some(text) => options.prefer_markdown && text@ == markdown(
            response.results@,
            request.query@,
            request.max_results,
        ),
        None => !options.prefer_markdown,
    }
}

/// Whether `state` is where a search begins that is called with these arguments.
pub open spec fn begun(settings: ToolSettings, args: ArgsView, state: SearchState) -> bool {
    match state {
        SearchState::Sending(request) => planned(settings, args, Ok(request)),
        SearchState::Reading(_) => false,
        SearchState::Finished(Ok(_)) => false,
        SearchState::Finished(Err(error)) => planned(settings, args, Err(error)),
    }
}

/// Whether `next` is where a search stands after `event` has happened in `state`. An event that
/// does not belong to the state changes nothing.
pub open spec fn advanced(
    state: SearchState,
    event: SearchEvent,
    options: ToolCallOptions,
    next: SearchState,
) -> bool {
    match (state, event) {
        (SearchState::Sending(_), SearchEvent::ClientFailed(detail)) => next
            == SearchState::Finished(Err(SearchError::Client(detail))),
        (SearchState::Sending(_), SearchEvent::RequestFailed(detail)) => next
            == SearchState::Finished(Err(SearchError::Request(detail))),
        (SearchState::Sending(request), SearchEvent::Responded(code)) => if success(code) {
            next == SearchState::Reading(request)
        } else {
            next matches SearchState::Finished(Err(SearchError::Status(status))) && status@
                == status_line(code) && (decimal(code as nat) + " "@).is_prefix_of(status@)
        },
        (SearchState::Reading(_), SearchEvent::BodyFailed(detail)) => next
            == SearchState::Finished(Err(SearchError::Body(detail))),
        (
            SearchState::Reading(request),
            SearchEvent::BodyParsed(response),
        ) => next matches SearchState::Finished(Ok(result)) && shows(
            result,
            response,
            request,
            options,
        ),
        _ => next == state,
    }
}

impl SearxngSearchTool {
    /// Where a search begins that is called with these arguments.
    pub fn begin_with(&self, args: &SearchArgs) -> (r: SearchState)
        ensures
            begun(self@, args@, r),
    {
        match self.plan(args) {
            Ok(request) => SearchState::Sending(request),
            Err(error) => SearchState::Finished(Err(error)),
        }
    }

    /// Where a search begins that is called with the arguments that a JSON value holds.
    pub fn begin(&self, args: &serde_json::Value) -> (r: SearchState)
        ensures
            begun(self@, json_args(*args), r),
    {
        self.begin_with(&SearchArgs::from_json(args))
    }

    /// What a search gives for an answer.
    pub fn present(
        &self,
        request: &SearchRequest,
        response: &SearxngResponse,
        options: ToolCallOptions,
    ) -> (r: ToolResult)
        ensures
            shows(r, *response, *request, options),
    {
        let results = response.results.as_slice();
        let query = request.query.as_str();
        let mut result = ToolResult::success(
            self.format_results(results, query, request.max_results),
        );
        if options.prefer_markdown {
            result.markdown_formatted = Some(
                self.render_results_markdown(results, query, request.max_results),
            );
        }
        result
    }

    /// Where a search stands after `event` has happened in `state`.
    pub fn advance(
        &self,
        state: SearchState,
        event: SearchEvent,
        options: ToolCallOptions,
    ) -> (r: SearchState)
        requires
            event.possible(),
        ensures
            advanced(state, event, options, r),
    {
        match (state, event) {
            (
                SearchState::Sending(_),
                SearchEvent::ClientFailed(detail),
            ) => SearchState::Finished(Err(SearchError::Client(detail))),
            (
                SearchState::Sending(_),
                SearchEvent::RequestFailed(detail),
            ) => SearchState::Finished(Err(SearchError::Request(detail))),
            (SearchState::Sending(request), SearchEvent::Responded(code)) => {
                if is_success(code) {
                    SearchState::Reading(request)
                } else {
                    SearchState::Finished(Err(SearchError::Status(write_status(code))))
                }
            },
            (
                SearchState::Reading(_),
                SearchEvent::BodyFailed(detail),
            ) => SearchState::Finished(Err(SearchError::Body(detail))),
            (SearchState::Reading(request), SearchEvent::BodyParsed(response)) => {
                SearchState::Finished(Ok(self.present(&request, &response, options)))
            },
            (state, _) => state,
        }
    }
}

// ---------------------------------------------------------------------------
// Laws
// ---------------------------------------------------------------------------

/// How many more events of a search can change something.
pub open spec fn steps_left(state: SearchState) -> nat {
    match state {
        SearchState::Sending(_) => 2,
        SearchState::Reading(_) => 1,
        SearchState::Finished(_) => 0,
    }
}

/// A search never goes back and ends after two steps at most: each event leaves the state as it is
/// or brings it nearer to the end.
pub proof fn law_search_moves_on(
    state: SearchState,
    event: SearchEvent,
    options: ToolCallOptions,
    next: SearchState,
)
    requires
        advanced(state, event, options, next),
    ensures
        next == state || steps_left(next) < steps_left(state),
{
}

/// What a search gave its caller stays, whatever happens later.
pub proof fn law_finished_search_stays(
    outcome: Result<ToolResult, SearchError>,
    event: SearchEvent,
    options: ToolCallOptions,
    next: SearchState,
)
    requires
        advanced(SearchState::Finished(outcome), event, options, next),
    ensures
        next == SearchState::Finished(outcome),
{
}

/// A call without a query, or with a refused base URL, is over before anything is sent. A missing
/// query is reported first.
pub proof fn law_refused_call_sends_nothing(
    settings: ToolSettings,
    args: ArgsView,
    state: SearchState,
)
    requires
        begun(settings, args, state),
    ensures
        nonblank(args.query) is None ==> state == SearchState::Finished(
            Err(SearchError::MissingQuery),
        ),
        nonblank(args.query) is Some ==> (verdict(settings.base_url) matches Err(reason) ==> state
            == SearchState::Finished(Err(SearchError::BaseUrl(reason)))),
        nonblank(args.query) is Some && verdict(settings.base_url) is Ok ==> state is Sending,
{
}

/// Where a call is not refused, the instance answers with success and the body can be read, the
/// caller gets the first results of the answer, in plain text and, where it is wanted, in
/// Markdown.
pub proof fn law_answered_search_succeeds(
    settings: ToolSettings,
    args: ArgsView,
    code: u16,
    response: SearxngResponse,
    options: ToolCallOptions,
    begin: SearchState,
    middle: SearchState,
    end: SearchState,
)
    requires
        nonblank(args.query) is Some,
        verdict(settings.base_url) is Ok,
        success(code),
        begun(settings, args, begin),
        advanced(begin, SearchEvent::Responded(code), options, middle),
        advanced(middle, SearchEvent::BodyParsed(response), options, end),
    ensures
        end matches SearchState::Finished(Ok(result)) && {
            let query = nonblank(args.query).unwrap();
            let max_results = results_to_show(settings, args.max_results);
            &&& result.content@ == plain_text(response.results@, query, max_results)
            &&& result.markdown_formatted is Some <==> options.prefer_markdown
            &&& result.markdown_formatted matches Some(text) ==> text@ == markdown(
                response.results@,
                query,
                max_results,
            )
        },
{
}

/// Only an answer with success and a body that can be read lets a search succeed, and then it
/// shows that body.
pub proof fn law_success_needs_an_answer(
    settings: ToolSettings,
    args: ArgsView,
    first: SearchEvent,
    second: SearchEvent,
    options: ToolCallOptions,
    begin: SearchState,
    middle: SearchState,
    end: SearchState,
)
    requires
        begun(settings, args, begin),
        advanced(begin, first, options, middle),
        advanced(middle, second, options, end),
        end matches SearchState::Finished(Ok(_)),
    ensures
        first matches SearchEvent::Responded(code) && success(code),
        begin matches SearchState::Sending(request) && second matches SearchEvent::BodyParsed(
            response,
        ) && end matches SearchState::Finished(Ok(result)) && {
            &&& request@ == request_for(settings, args, nonblank(args.query).unwrap())
            &&& shows(result, response, request, options)
        },
{
}

/// An answer without success ends the search with an error that names the status.
pub proof fn law_failed_status_is_reported(
    request: SearchRequest,
    code: u16,
    options: ToolCallOptions,
    next: SearchState,
)
    requires
        !success(code),
        advanced(SearchState::Sending(request), SearchEvent::Responded(code), options, next),
    ensures
        next matches SearchState::Finished(Err(error)) && error.text()
            == "SearXNG returned non-2xx status: "@ + status_line(code)
            + " (check that the instance is running and the base_url is correct)"@,
        (decimal(code as nat) + " "@).is_prefix_of(status_line(code)),
{
}

/// Asking for Markdown does not change the plain text.
pub proof fn law_markdown_leaves_the_plain_text(
    request: SearchRequest,
    response: SearxngResponse,
    one: ToolCallOptions,
    other: ToolCallOptions,
    a: ToolResult,
    b: ToolResult,
)
    requires
        shows(a, response, request, one),
        shows(b, response, request, other),
    ensures
        a.content@ == b.content@,
{
}

/// How a search begins: with the request that the call leads to, or over with its refusal.
pub proof fn law_beginning(settings: ToolSettings, args: ArgsView, state: SearchState)
    requires
        begun(settings, args, state),
    ensures
        match state {
            SearchState::Sending(request) => planned(settings, args, Ok(request)),
            SearchState::Finished(Err(error)) => planned(settings, args, Err(error)),
            _ => false,
        },
{
}

/// What comes of sending a request: a failure is told whole, a status from 200 to 299 lets the body
/// be read for the same request, any other status ends the search, and what belongs to reading
/// changes nothing.
pub proof fn law_sending(
    request: SearchRequest,
    event: SearchEvent,
    options: ToolCallOptions,
    next: SearchState,
)
    requires
        advanced(SearchState::Sending(request), event, options, next),
    ensures
        match event {
            SearchEvent::ClientFailed(detail) => next == SearchState::Finished(
                Err(SearchError::Client(detail)),
            ),
            SearchEvent::RequestFailed(detail) => next == SearchState::Finished(
                Err(SearchError::Request(detail)),
            ),
            SearchEvent::Responded(code) => if 200 <= code <= 299 {
                next == SearchState::Reading(request)
            } else {
                next matches SearchState::Finished(Err(SearchError::Status(status))) && status@
                    == status_line(code)
            },
            SearchEvent::BodyFailed(_) => next == SearchState::Sending(request),
            SearchEvent::BodyParsed(_) => next == SearchState::Sending(request),
        },
{
}

/// What comes of reading a body: a failure is told whole, the results of a body are shown for the
/// query and up to the limit of the request, in Markdown too exactly where that is wanted, and
/// what belongs to sending changes nothing.
pub proof fn law_reading(
    request: SearchRequest,
    event: SearchEvent,
    options: ToolCallOptions,
    next: SearchState,
)
    requires
        advanced(SearchState::Reading(request), event, options, next),
    ensures
        match event {
            SearchEvent::BodyFailed(detail) => next == SearchState::Finished(
                Err(SearchError::Body(detail)),
            ),
            SearchEvent::BodyParsed(response) => next matches SearchState::Finished(Ok(result)) && {
                &&& result.content@ == plain_text(
                    response.results@,
                    request.query@,
                    request.max_results,
                )
                &&& options.prefer_markdown ==> (result.markdown_formatted matches Some(text)
                    && text@ == markdown(response.results@, request.query@, request.max_results))
                &&& !options.prefer_markdown ==> result.markdown_formatted is None
            },
            _ => next == SearchState::Reading(request),
        },
{
}

/// What a search shows of an answer: all its results up to the limit of the request, for the query
/// of the request, in Markdown too exactly where that is wanted.
pub proof fn law_presentation(
    result: ToolResult,
    response: SearxngResponse,
    request: SearchRequest,
    options: ToolCallOptions,
)
    requires
        shows(result, response, request, options),
    ensures
        result.content@ == plain_text(response.results@, request.query@, request.max_results),
        options.prefer_markdown ==> (result.markdown_formatted matches Some(text) && text@
            == markdown(response.results@, request.query@, request.max_results)),
        !options.prefer_markdown ==> result.markdown_formatted is None,
{
}

/// Every event can come, but for an answer whose status is not from 100 to 999.
pub proof fn law_possible_events(event: SearchEvent)
    ensures
        event.possible() <==> match event {
            SearchEvent::Responded(code) => 100 <= code <= 999,
            _ => true,
        },
{
}

} // verus!
