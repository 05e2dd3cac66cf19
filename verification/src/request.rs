//! The request that a call leads to.

use crate::args::ArgsView;
use crate::args::SearchArgs;
use crate::base_url::verdict;
use crate::categories::chosen_categories;
use crate::error::SearchError;
use crate::text::borrow_optional;
use crate::text::law_trimmed;
use crate::text::lemma_trimmed_idempotent;
use crate::text::nonblank;
use crate::text::trim_optional;
use crate::text::trimmed;
use crate::text::whitespace;
use crate::tool::clamp_results;
use crate::tool::clamped_results;
use crate::tool::SearxngSearchTool;
use crate::tool::ToolSettings;
use crate::tool::MAX_RESULTS;
use crate::tool::MIN_RESULTS;
use crate::tool::MIN_TIMEOUT_SECS;
use vstd::prelude::*;

verus! {

/// A request, as mathematical values.
pub struct RequestView {
    pub url: Seq<char>,
    pub query: Seq<char>,
    pub categories: Seq<char>,
    pub language: Seq<char>,
    pub max_results: usize,
    pub timeout_secs: u64,
}

impl RequestView {
    /// The query parameters of the request, in order.
    pub open spec fn params(self) -> Seq<(Seq<char>, Seq<char>)> {
        seq![
            ("q"@, self.query),
            ("format"@, "json"@),
            ("categories"@, self.categories),
            ("language"@, self.language),
            ("pageno"@, "1"@),
        ]
    }
}

/// A request for results, and how many of them will be shown.
pub struct SearchRequest {
    /// Where the request goes to, without the query parameters.
    pub url: String,
    pub query: String,
    /// Comma-separated.
    pub categories: String,
    pub language: String,
    pub max_results: usize,
    pub timeout_secs: u64,
}

impl View for SearchRequest {
    type V = RequestView;

    open spec fn view(&self) -> RequestView {
        RequestView {
            url: self.url@,
            query: self.query@,
            categories: self.categories@,
            language: self.language@,
            max_results: self.max_results,
            timeout_secs: self.timeout_secs,
        }
    }
}

/// The character sequences of pairs of strings.
pub open spec fn pair_views(pairs: Seq<(&str, &str)>) -> Seq<(Seq<char>, Seq<char>)> {
    Seq::new(pairs.len(), |i: int| (pairs[i].0@, pairs[i].1@))
}

impl SearchRequest {
    /// The query parameters of the request, in order.
    pub fn params<'a>(&'a self) -> (r: Vec<(&'a str, &'a str)>)
        ensures
            pair_views(r@) == self@.params(),
    {
        let mut pairs: Vec<(&'a str, &'a str)> = Vec::new();
        pairs.push(("q", self.query.as_str()));
        pairs.push(("format", "json"));
        pairs.push(("categories", self.categories.as_str()));
        pairs.push(("language", self.language.as_str()));
        pairs.push(("pageno", "1"));
        assert(pair_views(pairs@) =~= self@.params());
        pairs
    }
}

/// The number of results that a call shows: the one it asks for, moved into the range, or the
/// configured one. Of a number that does not fit into `usize`, the low bits count.
pub open spec fn results_to_show(settings: ToolSettings, asked: Option<u64>) -> usize {
    match asked {
        Some(n) => clamped_results(n as usize),
        None => settings.max_results,
    }
}

/// The request for `query` that a tool with these settings makes on a call with these arguments.
pub open spec fn request_for(
    settings: ToolSettings,
    args: ArgsView,
    query: Seq<char>,
) -> RequestView {
    RequestView {
        url: settings.base_url + "/search"@,
        query,
        categories: chosen_categories(args.categories, settings.default_categories),
        language: match nonblank(args.language) {
            Some(language) => language,
            None => settings.default_language,
        },
        max_results: results_to_show(settings, args.max_results),
        timeout_secs: settings.timeout_secs,
    }
}

/// Whether `r` is the request, or the refusal, that a call with these arguments leads to.
pub open spec fn planned(
    settings: ToolSettings,
    args: ArgsView,
    r: Result<SearchRequest, SearchError>,
) -> bool {
    match nonblank(args.query) {
        None => r == Err::<SearchRequest, SearchError>(SearchError::MissingQuery),
        Some(query) => match verdict(settings.base_url) {
            Err(reason) => r == Err::<SearchRequest, SearchError>(SearchError::BaseUrl(reason)),
            Ok(()) => r matches Ok(request) && request@ == request_for(settings, args, query),
        },
    }
}

impl SearxngSearchTool {
    /// The request that a call with these arguments leads to. A call without a query is refused,
    /// and so is every call where the configured base URL is.
    pub fn plan(&self, args: &SearchArgs) -> (r: Result<SearchRequest, SearchError>)
        ensures
            planned(self@, args@, r),
            self@.well_formed(),
    {
        let base_url = self.base_url();
        let query = match trim_optional(&args.query) {
            Some(query) => query,
            None => {
                return Err(SearchError::MissingQuery);
            },
        };
        let categories = self.parse_categories(borrow_optional(&args.categories));
        let language = match trim_optional(&args.language) {
            Some(language) => language,
            None => self.default_language(),
        };
        let max_results: usize = match args.max_results {
            Some(n) => clamp_results(
                #[verifier::truncate]
                (n as usize),
            ),
            None => self.max_results(),
        };
        match SearxngSearchTool::validate_base_url(base_url) {
            Err(reason) => Err(SearchError::BaseUrl(reason)),
            Ok(()) => Ok(
                SearchRequest {
                    url: base_url.to_owned().concat("/search"),
                    query: query.to_owned(),
                    categories,
                    language: language.to_owned(),
                    max_results,
                    timeout_secs: self.timeout_secs(),
                },
            ),
        }
    }
}

// ---------------------------------------------------------------------------
// Laws
// ---------------------------------------------------------------------------

/// Every request asks for JSON and for the first page, has a query that is neither empty nor has
/// whitespace round it, shows a number of results within the bounds, is given time, and goes to
/// the path `/search` behind a base URL that does not end in a slash.
pub proof fn law_request(settings: ToolSettings, args: ArgsView, request: SearchRequest)
    requires
        settings.well_formed(),
        planned(settings, args, Ok(request)),
    ensures
        request@.query.len() > 0,
        trimmed(request@.query) == request@.query,
        args.query matches Some(query) && request@.query == trimmed(query),
        MIN_RESULTS <= request@.max_results <= MAX_RESULTS,
        request@.timeout_secs >= MIN_TIMEOUT_SECS,
        request@.url == settings.base_url + "/search"@,
        settings.base_url.last() != '/',
        verdict(settings.base_url) is Ok,
        request@.params().contains(("q"@, request@.query)),
        request@.params().contains(("format"@, "json"@)),
        request@.params().contains(("pageno"@, "1"@)),
{
    lemma_trimmed_idempotent(args.query.unwrap());
    if settings.base_url.len() == 0 {
        assert(trimmed(settings.base_url) =~= settings.base_url);
    }
    let params = request@.params();
    assert(params[0] == ("q"@, request@.query));
    assert(params[1] == ("format"@, "json"@));
    assert(params[4] == ("pageno"@, "1"@));
}

/// A call is refused exactly where its query is absent or blank, or the base URL is refused.
pub proof fn law_refusal(
    settings: ToolSettings,
    args: ArgsView,
    r: Result<SearchRequest, SearchError>,
)
    requires
        planned(settings, args, r),
    ensures
        r is Err <==> nonblank(args.query) is None || verdict(settings.base_url) is Err,
{
}

/// The number of results to show lies within the bounds; a number within them is taken as it is.
pub proof fn law_results_to_show(settings: ToolSettings, asked: Option<u64>)
    requires
        settings.well_formed(),
    ensures
        MIN_RESULTS <= results_to_show(settings, asked) <= MAX_RESULTS,
        asked matches Some(n) ==> (MIN_RESULTS <= n <= MAX_RESULTS ==> results_to_show(
            settings,
            asked,
        ) == n),
        asked matches Some(n) ==> (n <= usize::MAX && n > MAX_RESULTS ==> results_to_show(
            settings,
            asked,
        ) == MAX_RESULTS),
        asked == Some(0u64) ==> results_to_show(settings, asked) == MIN_RESULTS,
{
}

/// The whitespace round the arguments of a call does not count.
pub proof fn law_whitespace_round_arguments_does_not_count(
    settings: ToolSettings,
    args: ArgsView,
    r: Result<SearchRequest, SearchError>,
)
    ensures
        planned(settings, args, r) <==> planned(
            settings,
            ArgsView {
                query: trimmed_optional(args.query),
                categories: trimmed_optional(args.categories),
                language: trimmed_optional(args.language),
                max_results: args.max_results,
            },
            r,
        ),
{
    if let Some(text) = args.query {
        lemma_trimmed_idempotent(text);
    }
    if let Some(text) = args.categories {
        lemma_trimmed_idempotent(text);
    }
    if let Some(text) = args.language {
        lemma_trimmed_idempotent(text);
    }
}

/// An optional text without the whitespace round it.
pub open spec fn trimmed_optional(s: Option<Seq<char>>) -> Option<Seq<char>> {
    match s {
        Some(s) => Some(trimmed(s)),
        None => None,
    }
}

/// What a call leads to, part by part. A call without a query, or with a blank one, is refused for
/// that; else a refused base URL is the reason; and else there is a request. It goes to `/search`
/// behind the base URL, asks for the whole query and the whole language without the whitespace
/// round them, with the configured language where a call names none, for the chosen categories,
/// shows the number of results that is asked for, brought into the range from 1 to 50, or the
/// configured one, and is given the configured time.
pub proof fn law_call(
    settings: ToolSettings,
    args: ArgsView,
    r: Result<SearchRequest, SearchError>,
)
    requires
        planned(settings, args, r),
    ensures
        match args.query {
            Some(text) if trimmed(text).len() > 0 => match verdict(settings.base_url) {
                Err(reason) => r == Err::<SearchRequest, SearchError>(SearchError::BaseUrl(reason)),
                Ok(()) => r matches Ok(request) && {
                    &&& request.url@ == settings.base_url + "/search"@
                    &&& request.query@ == trimmed(text)
                    &&& request.categories@ == chosen_categories(
                        args.categories,
                        settings.default_categories,
                    )
                    &&& request.language@ == (match args.language {
                        Some(language) if trimmed(language).len() > 0 => trimmed(language),
                        _ => settings.default_language,
                    })
                    &&& request.max_results == (match args.max_results {
                        Some(n) => if (n as usize) < 1 {
                            1
                        } else if (n as usize) > 50 {
                            50
                        } else {
                            n as usize
                        },
                        None => settings.max_results,
                    })
                    &&& request.timeout_secs == settings.timeout_secs
                },
            },
            _ => r == Err::<SearchRequest, SearchError>(SearchError::MissingQuery),
        },
{
}

/// The parameters that a request is sent with are these five, each with the whole of its value.
pub proof fn law_params(request: SearchRequest)
    ensures
        request@.params() == seq![
            ("q"@, request.query@),
            ("format"@, "json"@),
            ("categories"@, request.categories@),
            ("language"@, request.language@),
            ("pageno"@, "1"@),
        ],
{
}

/// The views of pairs of strings hold the characters of each.
pub proof fn law_pair_views(pairs: Seq<(&str, &str)>, i: int)
    requires
        0 <= i < pairs.len(),
    ensures
        pair_views(pairs).len() == pairs.len(),
        pair_views(pairs)[i].0 == pairs[i].0@,
        pair_views(pairs)[i].1 == pairs[i].1@,
{
}

/// A language that a call names comes into the request whole, also as the value of its parameter,
/// and without the whitespace round it; the configured language does where a call names none or
/// whitespace only.
pub proof fn law_language(
    settings: ToolSettings,
    args: ArgsView,
    request: SearchRequest,
    before: Seq<char>,
    language: Seq<char>,
    after: Seq<char>,
)
    requires
        planned(settings, args, Ok(request)),
        forall|i: int| 0 <= i < before.len() ==> whitespace(#[trigger] before[i]),
        forall|i: int| 0 <= i < after.len() ==> whitespace(#[trigger] after[i]),
        language.len() > 0 ==> !whitespace(language.first()) && !whitespace(language.last()),
    ensures
        args.language == Some(before + language + after) && language.len() > 0 ==> request.language@
            == language && request@.params().contains(("language"@, language)),
        args.language == Some(before + language + after) && language.len() == 0
            ==> request.language@ == settings.default_language,
        args.language is None ==> request.language@ == settings.default_language
            && request@.params().contains(("language"@, settings.default_language)),
{
    law_trimmed(before, language, after);
    assert(request@.params()[3] == ("language"@, request.language@));
}

/// The query that a call names comes into the request whole, also as the value of its parameter,
/// and without the whitespace round it.
pub proof fn law_query(
    settings: ToolSettings,
    args: ArgsView,
    request: SearchRequest,
    before: Seq<char>,
    query: Seq<char>,
    after: Seq<char>,
)
    requires
        planned(settings, args, Ok(request)),
        forall|i: int| 0 <= i < before.len() ==> whitespace(#[trigger] before[i]),
        forall|i: int| 0 <= i < after.len() ==> whitespace(#[trigger] after[i]),
        query.len() > 0,
        !whitespace(query.first()),
        !whitespace(query.last()),
        args.query == Some(before + query + after),
    ensures
        request.query@ == query,
        request@.params().contains(("q"@, query)),
{
    law_trimmed(before, query, after);
    assert(request@.params()[0] == ("q"@, request.query@));
}

} // verus!
