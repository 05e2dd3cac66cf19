//! The configured tool: what a SearXNG instance is asked by default.

use crate::text::law_trim_end_char;
use crate::text::trim_end_char;
use crate::text::trim_end_matches;
use vstd::prelude::*;

verus! {

/// The least number of results that a search shows.
pub const MIN_RESULTS: usize = 1;

/// The greatest number of results that a search shows.
pub const MAX_RESULTS: usize = 50;

/// The shortest time, in seconds, that a request is given.
pub const MIN_TIMEOUT_SECS: u64 = 1;

/// `n` moved into the range of result counts.
pub open spec fn clamped_results(n: usize) -> usize {
    if n < MIN_RESULTS {
        MIN_RESULTS
    } else if n > MAX_RESULTS {
        MAX_RESULTS
    } else {
        n
    }
}

/// `n` moved into the range of result counts.
pub fn clamp_results(n: usize) -> (r: usize)
    ensures
        r == clamped_results(n),
{
    if n < MIN_RESULTS {
        MIN_RESULTS
    } else if n > MAX_RESULTS {
        MAX_RESULTS
    } else {
        n
    }
}

/// The settings of a tool, as mathematical values.
pub struct ToolSettings {
    pub base_url: Seq<char>,
    pub max_results: usize,
    pub default_language: Seq<char>,
    pub default_categories: Seq<char>,
    pub timeout_secs: u64,
}

impl ToolSettings {
    /// What holds of the settings of every tool.
    pub open spec fn well_formed(self) -> bool {
        &&& MIN_RESULTS <= self.max_results <= MAX_RESULTS
        &&& self.timeout_secs >= MIN_TIMEOUT_SECS
        &&& self.base_url.len() > 0 ==> self.base_url.last() != '/'
    }
}

/// The settings of the tool that is made from the given configuration values.
pub open spec fn settings_from(
    base_url: Seq<char>,
    max_results: usize,
    default_language: Seq<char>,
    default_categories: Seq<char>,
    timeout_secs: u64,
) -> ToolSettings {
    ToolSettings {
        base_url: trim_end_char(base_url, '/'),
        max_results: clamped_results(max_results),
        default_language,
        default_categories,
        timeout_secs: if timeout_secs < MIN_TIMEOUT_SECS {
            MIN_TIMEOUT_SECS
        } else {
            timeout_secs
        },
    }
}

/// A search tool that asks one SearXNG instance.
pub struct SearxngSearchTool {
    /// Base URL of the SearXNG instance, e.g. "http://localhost:8080".
    base_url: String,
    max_results: usize,
    default_language: String,
    default_categories: String,
    timeout_secs: u64,
}

impl View for SearxngSearchTool {
    type V = ToolSettings;

    closed spec fn view(&self) -> ToolSettings {
        ToolSettings {
            base_url: self.base_url@,
            max_results: self.max_results,
            default_language: self.default_language@,
            default_categories: self.default_categories@,
            timeout_secs: self.timeout_secs,
        }
    }
}

impl SearxngSearchTool {
    #[verifier::type_invariant]
    spec fn inv(self) -> bool {
        self@.well_formed()
    }

    /// A tool for the instance at `base_url`, whose trailing slashes are dropped.
    /// `max_results` is moved into the allowed range, and a zero timeout becomes one second.
    pub fn new(
        base_url: String,
        max_results: usize,
        default_language: String,
        default_categories: String,
        timeout_secs: u64,
    ) -> (r: Self)
        ensures
            r@ == settings_from(
                base_url@,
                max_results,
                default_language@,
                default_categories@,
                timeout_secs,
            ),
            r@.well_formed(),
    {
        proof {
            lemma_trim_end_char_last(base_url@, '/');
        }
        let base_url = trim_end_matches(base_url.as_str(), '/').to_owned();
        SearxngSearchTool {
            base_url,
            max_results: clamp_results(max_results),
            default_language,
            default_categories,
            timeout_secs: if timeout_secs < MIN_TIMEOUT_SECS {
                MIN_TIMEOUT_SECS
            } else {
                timeout_secs
            },
        }
    }

    /// The name by which the tool is called.
    pub fn name(&self) -> (r: &'static str)
        ensures
            r@ == "searxng_search_tool"@,
    {
        "searxng_search_tool"
    }

    /// What the tool does, for whoever chooses among tools.
    pub fn description(&self) -> (r: &'static str)
        ensures
            r@ == "Search the web via a self-hosted SearXNG instance. Returns results with titles, URLs, and snippets. Supports categories (general, news, images, videos, science, social_media, files) and language filtering. Requires a configured SearXNG base_url."@,
    {
        "Search the web via a self-hosted SearXNG instance. Returns results with titles, URLs, and snippets. Supports categories (general, news, images, videos, science, social_media, files) and language filtering. Requires a configured SearXNG base_url."
    }

    /// Whether the tool can give its result as Markdown.
    pub fn supports_markdown(&self) -> (r: bool)
        ensures
            r,
    {
        true
    }

    /// The base URL, without trailing slashes.
    pub fn base_url(&self) -> (r: &str)
        ensures
            r@ == self@.base_url,
            self@.well_formed(),
    {
        proof {
            use_type_invariant(self);
        }
        self.base_url.as_str()
    }

    /// The greatest number of results to show, where a call names none.
    pub fn max_results(&self) -> (r: usize)
        ensures
            r == self@.max_results,
            self@.well_formed(),
    {
        proof {
            use_type_invariant(self);
        }
        self.max_results
    }

    /// The language to search in, where a call names none.
    pub fn default_language(&self) -> (r: &str)
        ensures
            r@ == self@.default_language,
    {
        self.default_language.as_str()
    }

    /// The categories to search in, where a call names none that is known.
    pub fn default_categories(&self) -> (r: &str)
        ensures
            r@ == self@.default_categories,
    {
        self.default_categories.as_str()
    }

    /// The time in seconds that a request is given.
    pub fn timeout_secs(&self) -> (r: u64)
        ensures
            r == self@.timeout_secs,
            self@.well_formed(),
    {
        proof {
            use_type_invariant(self);
        }
        self.timeout_secs
    }
}

// ---------------------------------------------------------------------------
// Laws
// ---------------------------------------------------------------------------

proof fn lemma_trim_end_char_last(s: Seq<char>, c: char)
    ensures
        trim_end_char(s, c).len() > 0 ==> trim_end_char(s, c).last() != c,
    decreases s.len(),
{
    if s.len() > 0 && s.last() == c {
        lemma_trim_end_char_last(s.drop_last(), c);
    }
}

proof fn lemma_trim_end_char_append(s: Seq<char>, tail: Seq<char>, c: char)
    requires
        forall|i: int| 0 <= i < tail.len() ==> #[trigger] tail[i] == c,
    ensures
        trim_end_char(s + tail, c) == trim_end_char(s, c),
    decreases tail.len(),
{
    if tail.len() == 0 {
        assert(s + tail =~= s);
    } else {
        assert((s + tail).last() == tail[tail.len() - 1]);
        assert((s + tail).drop_last() =~= s + tail.drop_last());
        assert forall|i: int| 0 <= i < tail.len() - 1 implies #[trigger] tail.drop_last()[i]
            == c by {
            assert(tail[i] == c);
        }
        lemma_trim_end_char_append(s, tail.drop_last(), c);
    }
}

/// The slashes at the end of a base URL do not count, however many they are.
pub proof fn law_trailing_slashes_do_not_count(
    base_url: Seq<char>,
    slashes: Seq<char>,
    max_results: usize,
    language: Seq<char>,
    categories: Seq<char>,
    timeout_secs: u64,
)
    requires
        forall|i: int| 0 <= i < slashes.len() ==> #[trigger] slashes[i] == '/',
    ensures
        settings_from(base_url + slashes, max_results, language, categories, timeout_secs)
            == settings_from(base_url, max_results, language, categories, timeout_secs),
{
    lemma_trim_end_char_append(base_url, slashes, '/');
}

/// Settings that are within the bounds are taken as they are.
pub proof fn law_settings_within_bounds_are_kept(settings: ToolSettings)
    requires
        settings.well_formed(),
    ensures
        settings_from(
            settings.base_url,
            settings.max_results,
            settings.default_language,
            settings.default_categories,
            settings.timeout_secs,
        ) == settings,
{
}

/// Whatever the configuration holds, the settings are within the bounds.
pub proof fn law_settings_are_well_formed(
    base_url: Seq<char>,
    max_results: usize,
    language: Seq<char>,
    categories: Seq<char>,
    timeout_secs: u64,
)
    ensures
        settings_from(base_url, max_results, language, categories, timeout_secs).well_formed(),
{
    lemma_trim_end_char_last(base_url, '/');
}

/// What the settings of a tool are: the base URL without the slashes at its end, the number of
/// results brought into the range from 1 to 50, a timeout of at least one second, and language
/// and categories as they are given, whole.
pub proof fn law_settings(
    base_url: Seq<char>,
    slashes: Seq<char>,
    max_results: usize,
    language: Seq<char>,
    categories: Seq<char>,
    timeout_secs: u64,
)
    requires
        base_url.len() > 0 ==> base_url.last() != '/',
        forall|i: int| 0 <= i < slashes.len() ==> #[trigger] slashes[i] == '/',
    ensures
        ({
            let settings = settings_from(
                base_url + slashes,
                max_results,
                language,
                categories,
                timeout_secs,
            );
            &&& settings.base_url == base_url
            &&& max_results == 0 ==> settings.max_results == 1
            &&& 1 <= max_results <= 50 ==> settings.max_results == max_results
            &&& max_results > 50 ==> settings.max_results == 50
            &&& settings.default_language == language
            &&& settings.default_categories == categories
            &&& timeout_secs == 0 ==> settings.timeout_secs == 1
            &&& timeout_secs > 0 ==> settings.timeout_secs == timeout_secs
        }),
{
    law_trim_end_char(base_url, slashes, '/');
}

/// A number of results is moved to the nearest one from 1 to 50.
pub proof fn law_clamped_results(n: usize, other: usize)
    ensures
        1 <= clamped_results(n) <= 50,
        1 <= n <= 50 ==> clamped_results(n) == n,
        n <= other ==> clamped_results(n) <= clamped_results(other),
        n > 50 ==> clamped_results(n) == 50,
{
}

/// What holds of the settings of every tool, in numbers.
pub proof fn law_well_formed(settings: ToolSettings)
    requires
        settings.well_formed(),
    ensures
        1 <= settings.max_results <= 50,
        settings.timeout_secs >= 1,
        settings.base_url.len() > 0 ==> settings.base_url.last() != '/',
{
}

} // verus!
