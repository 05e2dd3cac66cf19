//! How results are shown, as plain text and as Markdown.

use crate::response::SearxngResult;
use crate::text::decimal;
use crate::text::decimal_text;
use crate::text::join;
use crate::text::join_strings;
use crate::text::law_join;
use crate::text::lemma_occurs;
use crate::text::lemma_occurs_join;
use crate::text::lemma_occurs_self;
use crate::text::lemma_trimmed_fixed;
use crate::text::lemma_trimmed_idempotent;
use crate::text::nonblank;
use crate::text::occurs;
use crate::text::optional_view;
use crate::text::trim;
use crate::text::trim_optional;
use crate::text::trimmed;
use crate::text::truncate_with_ellipsis;
use crate::text::truncate_with_suffix;
use crate::text::truncated;
use crate::text::views;
use crate::tool::SearxngSearchTool;
use vstd::prelude::*;

verus! {

/// The greatest number of characters of a snippet that are shown.
pub const SNIPPET_CHARS: usize = 500;

/// The results that are shown: the first `max_results` of them.
pub open spec fn listed(results: Seq<SearxngResult>, max_results: usize) -> Seq<SearxngResult> {
    if results.len() <= max_results {
        results
    } else {
        results.take(max_results as int)
    }
}

/// What is shown of an optional field: its text without the whitespace round it, where a blank one
/// counts as absent.
pub open spec fn shown(field: Option<String>) -> Option<Seq<char>> {
    nonblank(optional_view(field))
}

/// The title that is shown: the result's own, or `fallback` where it has none.
pub open spec fn title_or(result: SearxngResult, fallback: Seq<char>) -> Seq<char> {
    match shown(result.title) {
        Some(title) => title,
        None => fallback,
    }
}

/// The snippet that is shown, cut to length.
pub open spec fn snippet(result: SearxngResult) -> Option<Seq<char>> {
    match shown(result.content) {
        Some(content) => Some(truncated(content, SNIPPET_CHARS as nat, "..."@)),
        None => None,
    }
}

// ---------------------------------------------------------------------------
// Plain text
// ---------------------------------------------------------------------------

/// The lines of one result, the `number`-th of its list.
pub open spec fn result_lines(result: SearxngResult, number: nat) -> Seq<Seq<char>> {
    let head = seq![
        decimal(number) + ". "@ + title_or(result, "No title"@),
        "   "@ + trimmed(result.url@),
    ];
    let date = match shown(result.published_date) {
        Some(date) => seq!["   Published: "@ + date],
        None => Seq::<Seq<char>>::empty(),
    };
    let tail = match snippet(result) {
        Some(text) => seq!["   "@ + text],
        None => Seq::<Seq<char>>::empty(),
    };
    head + date + tail
}

/// The lines of the results, which are numbered from one.
pub open spec fn list_lines(results: Seq<SearxngResult>) -> Seq<Seq<char>>
    decreases results.len(),
{
    if results.len() == 0 {
        Seq::<Seq<char>>::empty()
    } else {
        list_lines(results.drop_last()) + result_lines(results.last(), results.len())
    }
}

/// The results of a search as plain text.
pub open spec fn plain_text(
    results: Seq<SearxngResult>,
    query: Seq<char>,
    max_results: usize,
) -> Seq<char> {
    if results.len() == 0 {
        "No results found for: "@ + query
    } else {
        join(
            seq!["Search results for: "@ + query + " (via SearXNG)"@] + list_lines(
                listed(results, max_results),
            ),
            "\n"@,
        )
    }
}

// ---------------------------------------------------------------------------
// Markdown
// ---------------------------------------------------------------------------

/// The Markdown of one result.
pub open spec fn result_markdown(result: SearxngResult) -> Seq<char> {
    let head = "\n## ["@ + title_or(result, "Untitled"@) + "]("@ + trimmed(result.url@) + ")\n"@;
    let date = match shown(result.published_date) {
        Some(date) => "_Published: "@ + date + "_\n\n"@,
        None => Seq::<char>::empty(),
    };
    let tail = match snippet(result) {
        Some(text) => "> "@ + text + "\n"@,
        None => Seq::<char>::empty(),
    };
    head + date + tail
}

/// The Markdown of the results, one behind the other.
pub open spec fn list_markdown(results: Seq<SearxngResult>) -> Seq<char>
    decreases results.len(),
{
    if results.len() == 0 {
        Seq::<char>::empty()
    } else {
        list_markdown(results.drop_last()) + result_markdown(results.last())
    }
}

/// The results of a search as Markdown.
pub open spec fn markdown(
    results: Seq<SearxngResult>,
    query: Seq<char>,
    max_results: usize,
) -> Seq<char> {
    if results.len() == 0 {
        "_No results for `"@ + query + "`._"@
    } else {
        "# Search results: `"@ + query + "` (SearXNG)\n"@ + list_markdown(
            listed(results, max_results),
        )
    }
}

// ---------------------------------------------------------------------------
// Rendering
// ---------------------------------------------------------------------------

/// `prefix` followed by `text`.
fn prefixed(prefix: &str, text: &str) -> (r: String)
    ensures
        r@ == prefix@ + text@,
{
    prefix.to_owned().concat(text)
}

/// Appends the lines of one result, the `number`-th of its list.
fn push_result_lines(lines: &mut Vec<String>, result: &SearxngResult, number: usize)
    ensures
        views(final(lines)@) == views(old(lines)@) + result_lines(*result, number as nat),
{
    let ghost start = views(lines@);
    let title = match trim_optional(&result.title) {
        Some(title) => title,
        None => "No title",
    };
    let mut first = decimal_text(number);
    first.append(". ");
    first.append(title);
    lines.push(first);
    let second = prefixed("   ", trim(result.url.as_str()));
    lines.push(second);
    let ghost head = seq![first@, second@];
    assert(views(lines@) =~= start + head);

    let ghost mut date_lines = Seq::<Seq<char>>::empty();
    if let Some(date) = trim_optional(&result.published_date) {
        let line = prefixed("   Published: ", date);
        lines.push(line);
        proof {
            date_lines = seq![line@];
        }
    }
    assert(views(lines@) =~= start + head + date_lines);

    let ghost mut tail_lines = Seq::<Seq<char>>::empty();
    if let Some(content) = trim_optional(&result.content) {
        let text = truncate_with_ellipsis(content, SNIPPET_CHARS);
        let line = prefixed("   ", text.as_str());
        lines.push(line);
        proof {
            tail_lines = seq![line@];
        }
    }
    assert(views(lines@) =~= start + head + date_lines + tail_lines);
    assert(result_lines(*result, number as nat) =~= head + date_lines + tail_lines);
}

/// Appends the Markdown of one result.
fn push_result_markdown(out: &mut String, result: &SearxngResult)
    ensures
        final(out)@ == old(out)@ + result_markdown(*result),
{
    let title = match trim_optional(&result.title) {
        Some(title) => title,
        None => "Untitled",
    };
    out.append("\n## [");
    out.append(title);
    out.append("](");
    out.append(trim(result.url.as_str()));
    out.append(")\n");
    if let Some(date) = trim_optional(&result.published_date) {
        out.append("_Published: ");
        out.append(date);
        out.append("_\n\n");
    }
    if let Some(content) = trim_optional(&result.content) {
        let text = truncate_with_suffix(content, SNIPPET_CHARS, "...");
        out.append("> ");
        out.append(text.as_str());
        out.append("\n");
    }
    assert(out@ =~= old(out)@ + result_markdown(*result));
}

impl SearxngSearchTool {
    /// The first `max_results` results as plain text.
    pub fn format_results(
        &self,
        results: &[SearxngResult],
        query: &str,
        max_results: usize,
    ) -> (r: String)
        ensures
            r@ == plain_text(results@, query@, max_results),
    {
        if results.len() == 0 {
            return prefixed("No results found for: ", query);
        }
        let mut heading = prefixed("Search results for: ", query);
        heading.append(" (via SearXNG)");
        let mut lines: Vec<String> = Vec::new();
        lines.push(heading);
        let ghost top = seq![heading@];
        let ghost shown_results = listed(results@, max_results);
        let count: usize = if results.len() < max_results {
            results.len()
        } else {
            max_results
        };
        let mut i: usize = 0;
        assert(shown_results.take(0) =~= Seq::<SearxngResult>::empty());
        assert(views(lines@) =~= top + list_lines(shown_results.take(0)));
        while i < count
            invariant
                i <= count <= results@.len(),
                shown_results.len() == count,
                forall|j: int| 0 <= j < count ==> shown_results[j] == results@[j],
                views(lines@) == top + list_lines(shown_results.take(i as int)),
            decreases count - i,
        {
            push_result_lines(&mut lines, &results[i], i + 1);
            let ghost next = shown_results.take(i + 1);
            assert(next.drop_last() =~= shown_results.take(i as int));
            assert(views(lines@) =~= top + list_lines(next));
            i = i + 1;
        }
        assert(shown_results.take(count as int) =~= shown_results);
        join_strings(&lines, "\n")
    }

    /// The first `max_results` results as Markdown.
    pub fn render_results_markdown(
        &self,
        results: &[SearxngResult],
        query: &str,
        max_results: usize,
    ) -> (r: String)
        ensures
            r@ == markdown(results@, query@, max_results),
    {
        if results.len() == 0 {
            let mut out = prefixed("_No results for `", query);
            out.append("`._");
            return out;
        }
        let mut out = prefixed("# Search results: `", query);
        out.append("` (SearXNG)\n");
        let ghost top = out@;
        let ghost shown_results = listed(results@, max_results);
        let count: usize = if results.len() < max_results {
            results.len()
        } else {
            max_results
        };
        let mut i: usize = 0;
        assert(shown_results.take(0) =~= Seq::<SearxngResult>::empty());
        assert(out@ =~= top + list_markdown(shown_results.take(0)));
        while i < count
            invariant
                i <= count <= results@.len(),
                shown_results.len() == count,
                forall|j: int| 0 <= j < count ==> shown_results[j] == results@[j],
                out@ == top + list_markdown(shown_results.take(i as int)),
            decreases count - i,
        {
            push_result_markdown(&mut out, &results[i]);
            let ghost next = shown_results.take(i + 1);
            assert(next.drop_last() =~= shown_results.take(i as int));
            assert(out@ =~= top + list_markdown(next));
            i = i + 1;
        }
        assert(shown_results.take(count as int) =~= shown_results);
        out
    }
}

// ---------------------------------------------------------------------------
// Laws
// ---------------------------------------------------------------------------

/// At most `max_results` results are shown: the first ones, and all where there are no more.
pub proof fn law_listed(results: Seq<SearxngResult>, max_results: usize)
    ensures
        listed(results, max_results).len() <= max_results,
        listed(results, max_results).len() == results.len() || listed(results, max_results).len()
            == max_results,
        listed(results, max_results).is_prefix_of(results),
{
}

/// Results past the limit change nothing of what is shown.
pub proof fn law_results_past_the_limit_are_not_shown(
    results: Seq<SearxngResult>,
    more: Seq<SearxngResult>,
    query: Seq<char>,
    max_results: usize,
)
    requires
        results.len() > 0,
        results.len() >= max_results,
    ensures
        plain_text(results + more, query, max_results) == plain_text(results, query, max_results),
        markdown(results + more, query, max_results) == markdown(results, query, max_results),
{
    assert(listed(results + more, max_results) =~= listed(results, max_results));
}

/// Every result is shown under a title that is not blank and has no whitespace round it, also
/// where it has none of its own.
pub proof fn law_titles_are_not_blank(result: SearxngResult)
    ensures
        title_or(result, "No title"@).len() > 0,
        title_or(result, "Untitled"@).len() > 0,
        trimmed(title_or(result, "No title"@)) == title_or(result, "No title"@),
        trimmed(title_or(result, "Untitled"@)) == title_or(result, "Untitled"@),
{
    reveal_strlit("No title");
    reveal_strlit("Untitled");
    lemma_trimmed_fixed("No title"@);
    lemma_trimmed_fixed("Untitled"@);
    if let Some(title) = result.title {
        lemma_trimmed_idempotent(title@);
    }
}

/// A snippet is not empty, and holds at most the allowed number of characters and the three dots
/// behind them.
pub proof fn law_snippet_length(result: SearxngResult)
    ensures
        snippet(result) matches Some(text) ==> 0 < text.len() <= SNIPPET_CHARS + 3,
{
    reveal_strlit("...");
}

/// Whether two results have the same title, address, date and text, apart from the whitespace
/// round them.
pub open spec fn alike(a: SearxngResult, b: SearxngResult) -> bool {
    &&& shown(a.title) == shown(b.title)
    &&& trimmed(a.url@) == trimmed(b.url@)
    &&& shown(a.published_date) == shown(b.published_date)
    &&& shown(a.content) == shown(b.content)
}

proof fn lemma_alike_lists(a: Seq<SearxngResult>, b: Seq<SearxngResult>)
    requires
        a.len() == b.len(),
        forall|i: int| 0 <= i < a.len() ==> alike(#[trigger] a[i], b[i]),
    ensures
        list_lines(a) == list_lines(b),
        list_markdown(a) == list_markdown(b),
    decreases a.len(),
{
    if a.len() > 0 {
        assert forall|i: int| 0 <= i < a.len() - 1 implies alike(
            #[trigger] a.drop_last()[i],
            b.drop_last()[i],
        ) by {
            assert(alike(a[i], b[i]));
        }
        lemma_alike_lists(a.drop_last(), b.drop_last());
        assert(alike(a[a.len() - 1], b[a.len() - 1]));
    }
}

/// Only title, address, date and text of a result are shown, without the whitespace round them
/// and with a blank one counting as absent: neither its engine nor its score matters.
pub proof fn law_only_title_url_date_and_text_are_shown(
    a: Seq<SearxngResult>,
    b: Seq<SearxngResult>,
    query: Seq<char>,
    max_results: usize,
)
    requires
        a.len() == b.len(),
        forall|i: int| 0 <= i < a.len() ==> alike(#[trigger] a[i], b[i]),
    ensures
        plain_text(a, query, max_results) == plain_text(b, query, max_results),
        markdown(a, query, max_results) == markdown(b, query, max_results),
{
    let x = listed(a, max_results);
    let y = listed(b, max_results);
    assert forall|i: int| 0 <= i < x.len() implies alike(#[trigger] x[i], y[i]) by {
        assert(alike(a[i], b[i]));
    }
    lemma_alike_lists(x, y);
}

/// The lines of the `i`-th result stand together among the lines of the list.
proof fn lemma_list_lines(results: Seq<SearxngResult>, i: int) -> (at: int)
    requires
        0 <= i < results.len(),
    ensures
        0 <= at,
        at + result_lines(results[i], (i + 1) as nat).len() <= list_lines(results).len(),
        list_lines(results).subrange(
            at,
            at + result_lines(results[i], (i + 1) as nat).len(),
        ) == result_lines(results[i], (i + 1) as nat),
    decreases results.len(),
{
    let init = results.drop_last();
    let lines = result_lines(results[i], (i + 1) as nat);
    if i == results.len() - 1 {
        let at = list_lines(init).len() as int;
        assert(list_lines(results).subrange(at, at + lines.len()) =~= lines);
        at
    } else {
        let at = lemma_list_lines(init, i);
        assert(list_lines(results).subrange(at, at + lines.len()) =~= list_lines(init).subrange(
            at,
            at + lines.len(),
        ));
        at
    }
}

/// Every line of every result within the limit occurs in the plain text, and so does the query.
pub proof fn law_plain_text_shows_each_result(
    results: Seq<SearxngResult>,
    query: Seq<char>,
    max_results: usize,
    i: int,
    k: int,
)
    requires
        0 <= i < results.len(),
        i < max_results,
        0 <= k < result_lines(results[i], (i + 1) as nat).len(),
    ensures
        occurs(
            result_lines(results[i], (i + 1) as nat)[k],
            plain_text(results, query, max_results),
        ),
        occurs(query, plain_text(results, query, max_results)),
{
    let list = listed(results, max_results);
    let top = seq!["Search results for: "@ + query + " (via SearXNG)"@];
    let all = top + list_lines(list);
    let lines = result_lines(results[i], (i + 1) as nat);
    let at = lemma_list_lines(list, i);
    assert(list_lines(list).subrange(at, at + lines.len())[k] == lines[k]);
    assert(all[1 + at + k] == lines[k]);
    lemma_occurs_join(all, "\n"@, 1 + at + k);
    lemma_occurs_self(query);
    lemma_occurs(query, "Search results for: "@, query, " (via SearXNG)"@);
    lemma_occurs_join(all, "\n"@, 0);
    lemma_occurs_through(query, top[0], join(all, "\n"@));
}

/// Occurring is transitive.
proof fn lemma_occurs_through(part: Seq<char>, middle: Seq<char>, whole: Seq<char>)
    requires
        occurs(part, middle),
        occurs(middle, whole),
    ensures
        occurs(part, whole),
{
    let (from, to) = choose|from: int, to: int|
        0 <= from <= to <= whole.len() && middle == #[trigger] whole.subrange(from, to);
    lemma_occurs(
        part,
        whole.subrange(0, from),
        middle,
        whole.subrange(to, whole.len() as int),
    );
    assert(whole.subrange(0, from) + middle + whole.subrange(to, whole.len() as int) =~= whole);
}

proof fn lemma_list_markdown(results: Seq<SearxngResult>, i: int)
    requires
        0 <= i < results.len(),
    ensures
        occurs(result_markdown(results[i]), list_markdown(results)),
    decreases results.len(),
{
    let init = results.drop_last();
    let part = result_markdown(results[i]);
    let empty = Seq::<char>::empty();
    lemma_occurs_self(part);
    if i == results.len() - 1 {
        lemma_occurs(part, list_markdown(init), part, empty);
        assert(list_markdown(init) + part + empty =~= list_markdown(results));
    } else {
        lemma_list_markdown(init, i);
        lemma_occurs(part, empty, list_markdown(init), result_markdown(results.last()));
        assert(empty + list_markdown(init) + result_markdown(results.last()) =~= list_markdown(
            results,
        ));
    }
}

/// The section of every result within the limit occurs in the Markdown, and so does the query.
pub proof fn law_markdown_shows_each_result(
    results: Seq<SearxngResult>,
    query: Seq<char>,
    max_results: usize,
    i: int,
)
    requires
        0 <= i < results.len(),
        i < max_results,
    ensures
        occurs(result_markdown(results[i]), markdown(results, query, max_results)),
        occurs(query, markdown(results, query, max_results)),
{
    let list = listed(results, max_results);
    let empty = Seq::<char>::empty();
    let top = "# Search results: `"@ + query + "` (SearXNG)\n"@;
    let whole = markdown(results, query, max_results);
    lemma_list_markdown(list, i);
    lemma_occurs(result_markdown(results[i]), top, list_markdown(list), empty);
    assert(top + list_markdown(list) + empty =~= whole);
    lemma_occurs_self(query);
    lemma_occurs(
        query,
        "# Search results: `"@,
        query,
        "` (SearXNG)\n"@ + list_markdown(list),
    );
    assert("# Search results: `"@ + query + ("` (SearXNG)\n"@ + list_markdown(list)) =~= whole);
}

/// No results, and a limit of zero, in plain text and in Markdown.
pub proof fn law_nothing_to_list(results: Seq<SearxngResult>, query: Seq<char>, max_results: usize)
    ensures
        results.len() == 0 ==> plain_text(results, query, max_results) == "No results found for: "@
            + query,
        results.len() == 0 ==> markdown(results, query, max_results) == "_No results for `"@ + query
            + "`._"@,
        results.len() > 0 ==> plain_text(results, query, 0) == "Search results for: "@ + query
            + " (via SearXNG)"@,
        results.len() > 0 ==> markdown(results, query, 0) == "# Search results: `"@ + query
            + "` (SearXNG)\n"@,
{
    if results.len() > 0 {
        let heading = "Search results for: "@ + query + " (via SearXNG)"@;
        assert(listed(results, 0) =~= Seq::<SearxngResult>::empty());
        assert(seq![heading] + list_lines(listed(results, 0)) =~= seq![heading]);
        law_join(seq![heading], seq![heading], "\n"@, heading);
    }
}

/// The lines of a result, joined, with a line end before each.
proof fn lemma_result_text(result: SearxngResult, number: nat)
    ensures
        "\n"@ + join(result_lines(result, number), "\n"@) == "\n"@ + decimal(number) + ". "@ + (match result.title {
                Some(text) if trimmed(text@).len() > 0 => trimmed(text@),
                _ => "No title"@,
            }) + "\n"@ + "   "@ + trimmed(result.url@) + (match result.published_date {
                Some(date) if trimmed(date@).len() > 0 => "\n"@ + "   Published: "@ + trimmed(date@),
                _ => Seq::<char>::empty(),
            }) + (match result.content {
                Some(text) if trimmed(text@).len() > 500 => "\n"@ + "   "@ + trimmed(text@).take(500)
                    + "..."@,
                Some(text) if trimmed(text@).len() > 0 => "\n"@ + "   "@ + trimmed(text@),
                _ => Seq::<char>::empty(),
            }),
{
    let end = "\n"@;
    let title = title_or(result, "No title"@);
    let url = trimmed(result.url@);
    let first = decimal(number) + ". "@ + title;
    let second = "   "@ + url;
    let two = seq![first, second];
    law_join(seq![first], seq![second], end, first);
    law_join(seq![second], seq![second], end, second);
    assert(seq![first] + seq![second] =~= two);
    lemma_two_lines(end, decimal(number), ". "@, title, end, "   "@, url);
    let opening = end + decimal(number) + ". "@ + title + end + "   "@ + url;
    assert(end + join(two, end) == opening);

    let one_date = match shown(result.published_date) {
        None => Seq::<Seq<char>>::empty(),
        Some(date) => seq!["   Published: "@ + date],
    };
    let date_text = match shown(result.published_date) {
        Some(date) => end + "   Published: "@ + date,
        None => Seq::<char>::empty(),
    };
    let three = two + one_date;
    match shown(result.published_date) {
        Some(date) => {
            lemma_one_more_line(two, end, "   Published: "@, date);
        },
        None => {
            assert(three =~= two);
            assert(end + join(two, end) + date_text =~= end + join(two, end));
        },
    }
    assert(end + join(three, end) == opening + date_text);

    let one_text = match snippet(result) {
        None => Seq::<Seq<char>>::empty(),
        Some(text) => seq!["   "@ + text],
    };
    let text_text = match snippet(result) {
        Some(text) => end + "   "@ + text,
        None => Seq::<char>::empty(),
    };
    let four = three + one_text;
    match snippet(result) {
        Some(text) => {
            lemma_one_more_line(three, end, "   "@, text);
            if trimmed(result.content.unwrap()@).len() > 500 {
                let head = trimmed(result.content.unwrap()@).take(500);
                assert(end + "   "@ + (head + "..."@) =~= end + "   "@ + head + "..."@);
            }
        },
        None => {
            assert(four =~= three);
            assert(end + join(three, end) + text_text =~= end + join(three, end));
        },
    }
    assert(end + join(four, end) == opening + date_text + text_text);
    assert(result_lines(result, number) == four);
}

proof fn lemma_two_lines(
    a: Seq<char>,
    b: Seq<char>,
    c: Seq<char>,
    d: Seq<char>,
    e: Seq<char>,
    f: Seq<char>,
    g: Seq<char>,
)
    ensures
        a + ((b + c + d) + e + (f + g)) == a + b + c + d + e + f + g,
{
    assert(a + ((b + c + d) + e + (f + g)) =~= a + b + c + d + e + f + g);
}

/// One more line stands behind a line end.
proof fn lemma_one_more_line(
    lines: Seq<Seq<char>>,
    end: Seq<char>,
    indent: Seq<char>,
    text: Seq<char>,
)
    requires
        lines.len() > 0,
    ensures
        end + join(lines + seq![indent + text], end) == end + join(lines, end) + (end + indent
            + text),
{
    law_join(lines, seq![indent + text], end, indent + text);
    assert(end + (join(lines, end) + end + (indent + text)) =~= end + join(lines, end) + (end
        + indent + text));
}

/// One more result within the limit adds to the plain text, behind what was there before, its
/// number and title, its address, its date where it has one, and its text where it has one, cut
/// behind 500 characters, each on a line of its own. What a result adds depends on its place in
/// the number alone.
pub proof fn law_one_more_result_in_plain_text(
    results: Seq<SearxngResult>,
    result: SearxngResult,
    query: Seq<char>,
    max_results: usize,
)
    requires
        results.len() < max_results,
    ensures
        plain_text(results.push(result), query, max_results) == (if results.len() == 0 {
            "Search results for: "@ + query + " (via SearXNG)"@
        } else {
            plain_text(results, query, max_results)
        }) + ("\n"@ + decimal((results.len() + 1) as nat) + ". "@ + (match result.title {
                Some(text) if trimmed(text@).len() > 0 => trimmed(text@),
                _ => "No title"@,
            }) + "\n"@ + "   "@ + trimmed(result.url@) + (match result.published_date {
                Some(date) if trimmed(date@).len() > 0 => "\n"@ + "   Published: "@ + trimmed(date@),
                _ => Seq::<char>::empty(),
            }) + (match result.content {
                Some(text) if trimmed(text@).len() > 500 => "\n"@ + "   "@ + trimmed(text@).take(500)
                    + "..."@,
                Some(text) if trimmed(text@).len() > 0 => "\n"@ + "   "@ + trimmed(text@),
                _ => Seq::<char>::empty(),
            })),
{
    let heading = "Search results for: "@ + query + " (via SearXNG)"@;
    let number = (results.len() + 1) as nat;
    let before = seq![heading] + list_lines(results);
    let lines = result_lines(result, number);
    assert(results.push(result).drop_last() =~= results);
    assert(seq![heading] + list_lines(results.push(result)) =~= before + lines);
    law_join(before, lines, "\n"@, heading);
    lemma_result_text(result, number);
    if results.len() == 0 {
        assert(before =~= seq![heading]);
        law_join(before, lines, "\n"@, heading);
    }
    assert(join(before, "\n"@) + "\n"@ + join(lines, "\n"@) =~= join(before, "\n"@) + ("\n"@ + join(
        lines,
        "\n"@,
    )));
}

/// Every result within the limit, whatever its place, stands in the plain text with its number and
/// title, behind them its address, behind that its date where it has one, and behind that its text
/// where it has one, cut behind 500 characters, each on a line of its own.
pub proof fn law_plain_text_holds_each_result(
    results: Seq<SearxngResult>,
    query: Seq<char>,
    max_results: usize,
    i: int,
)
    requires
        0 <= i < results.len(),
        i < max_results,
    ensures
        occurs(
            "\n"@ + decimal((i + 1) as nat) + ". "@ + (match results[i].title {
                Some(text) if trimmed(text@).len() > 0 => trimmed(text@),
                _ => "No title"@,
            }) + "\n"@ + "   "@ + trimmed(results[i].url@) + (match results[i].published_date {
                Some(date) if trimmed(date@).len() > 0 => "\n"@ + "   Published: "@ + trimmed(date@),
                _ => Seq::<char>::empty(),
            }) + (match results[i].content {
                Some(text) if trimmed(text@).len() > 500 => "\n"@ + "   "@ + trimmed(text@).take(500)
                    + "..."@,
                Some(text) if trimmed(text@).len() > 0 => "\n"@ + "   "@ + trimmed(text@),
                _ => Seq::<char>::empty(),
            }),
            plain_text(results, query, max_results),
        ),
    decreases results.len(),
{
    let last = results.last();
    let init = results.drop_last();
    let entry = "\n"@ + decimal((i + 1) as nat) + ". "@ + (match results[i].title {
                Some(text) if trimmed(text@).len() > 0 => trimmed(text@),
                _ => "No title"@,
            }) + "\n"@ + "   "@ + trimmed(results[i].url@) + (match results[i].published_date {
                Some(date) if trimmed(date@).len() > 0 => "\n"@ + "   Published: "@ + trimmed(date@),
                _ => Seq::<char>::empty(),
            }) + (match results[i].content {
                Some(text) if trimmed(text@).len() > 500 => "\n"@ + "   "@ + trimmed(text@).take(500)
                    + "..."@,
                Some(text) if trimmed(text@).len() > 0 => "\n"@ + "   "@ + trimmed(text@),
                _ => Seq::<char>::empty(),
            });
    let empty = Seq::<char>::empty();
    assert(init.push(last) =~= results);
    if results.len() > max_results {
        assert(init + seq![last] =~= results);
        law_results_past_the_limit_are_not_shown(init, seq![last], query, max_results);
        assert(init[i] == results[i]);
        law_plain_text_holds_each_result(init, query, max_results, i);
    } else {
        law_one_more_result_in_plain_text(init, last, query, max_results);
        let before = if init.len() == 0 {
            "Search results for: "@ + query + " (via SearXNG)"@
        } else {
            plain_text(init, query, max_results)
        };
        let added = "\n"@ + decimal(results.len()) + ". "@ + (match last.title {
                Some(text) if trimmed(text@).len() > 0 => trimmed(text@),
                _ => "No title"@,
            }) + "\n"@ + "   "@ + trimmed(last.url@) + (match last.published_date {
                Some(date) if trimmed(date@).len() > 0 => "\n"@ + "   Published: "@ + trimmed(date@),
                _ => Seq::<char>::empty(),
            }) + (match last.content {
                Some(text) if trimmed(text@).len() > 500 => "\n"@ + "   "@ + trimmed(text@).take(500)
                    + "..."@,
                Some(text) if trimmed(text@).len() > 0 => "\n"@ + "   "@ + trimmed(text@),
                _ => Seq::<char>::empty(),
            });
        let whole = plain_text(results, query, max_results);
        assert(whole == before + added);
        if i == init.len() {
            lemma_occurs_self(entry);
            lemma_occurs(entry, before, entry, empty);
            assert(before + entry + empty =~= whole);
        } else {
            assert(init[i] == results[i]);
            law_plain_text_holds_each_result(init, query, max_results, i);
            lemma_occurs(entry, empty, before, added);
            assert(empty + before + added =~= whole);
        }
    }
}

/// The lines of a result are the same under every number, but for the number itself.
pub proof fn law_number_changes_only_the_number(result: SearxngResult, one: nat, other: nat)
    ensures
        result_lines(result, one).len() == result_lines(result, other).len(),
        forall|k: int|
            1 <= k < result_lines(result, one).len() ==> #[trigger] result_lines(result, one)[k]
                == result_lines(result, other)[k],
        result_lines(result, one)[0] == decimal(one) + result_lines(result, other)[0].skip(
            decimal(other).len() as int,
        ),
{
    let rest = ". "@ + title_or(result, "No title"@);
    assert(result_lines(result, one)[0] =~= decimal(one) + rest);
    assert(result_lines(result, other)[0] =~= decimal(other) + rest);
    assert((decimal(other) + rest).skip(decimal(other).len() as int) =~= rest);
}

/// One more result within the limit adds to the Markdown, behind what was there before, its
/// heading with title and address, then its date where it has one, and then its text where it has
/// one, cut behind 500 characters. Neither date nor text depends on the other.
pub proof fn law_one_more_result_in_markdown(
    results: Seq<SearxngResult>,
    result: SearxngResult,
    query: Seq<char>,
    max_results: usize,
)
    requires
        results.len() < max_results,
    ensures
        markdown(results.push(result), query, max_results) == (if results.len() == 0 {
            "# Search results: `"@ + query + "` (SearXNG)\n"@
        } else {
            markdown(results, query, max_results)
        }) + ("\n## ["@ + (match result.title {
                Some(text) if trimmed(text@).len() > 0 => trimmed(text@),
                _ => "Untitled"@,
            }) + "]("@ + trimmed(result.url@) + ")\n"@ + (match result.published_date {
                Some(date) if trimmed(date@).len() > 0 => "_Published: "@ + trimmed(date@)
                    + "_\n\n"@,
                _ => Seq::<char>::empty(),
            }) + (match result.content {
                Some(text) if trimmed(text@).len() > 500 => "> "@ + trimmed(text@).take(500)
                    + "..."@ + "\n"@,
                Some(text) if trimmed(text@).len() > 0 => "> "@ + trimmed(text@) + "\n"@,
                _ => Seq::<char>::empty(),
            })),
{
    let top = "# Search results: `"@ + query + "` (SearXNG)\n"@;
    assert(results.push(result).drop_last() =~= results);
    assert(result_markdown(result) =~= "\n## ["@ + (match result.title {
                Some(text) if trimmed(text@).len() > 0 => trimmed(text@),
                _ => "Untitled"@,
            }) + "]("@ + trimmed(result.url@) + ")\n"@ + (match result.published_date {
                Some(date) if trimmed(date@).len() > 0 => "_Published: "@ + trimmed(date@)
                    + "_\n\n"@,
                _ => Seq::<char>::empty(),
            }) + (match result.content {
                Some(text) if trimmed(text@).len() > 500 => "> "@ + trimmed(text@).take(500)
                    + "..."@ + "\n"@,
                Some(text) if trimmed(text@).len() > 0 => "> "@ + trimmed(text@) + "\n"@,
                _ => Seq::<char>::empty(),
            }));
    assert(top + list_markdown(results.push(result)) =~= (top + list_markdown(results))
        + result_markdown(result));
    if results.len() == 0 {
        assert(top + list_markdown(results) =~= top);
    }
}

/// Every result within the limit, whatever its place, stands in the Markdown with a heading of its
/// title and address, right behind it its date where it has one, and behind that its text where it
/// has one, cut behind 500 characters.
pub proof fn law_markdown_holds_each_result(
    results: Seq<SearxngResult>,
    query: Seq<char>,
    max_results: usize,
    i: int,
)
    requires
        0 <= i < results.len(),
        i < max_results,
    ensures
        occurs(
            "\n## ["@ + (match results[i].title {
                Some(text) if trimmed(text@).len() > 0 => trimmed(text@),
                _ => "Untitled"@,
            }) + "]("@ + trimmed(results[i].url@) + ")\n"@ + (match results[i].published_date {
                Some(date) if trimmed(date@).len() > 0 => "_Published: "@ + trimmed(date@)
                    + "_\n\n"@,
                _ => Seq::<char>::empty(),
            }) + (match results[i].content {
                Some(text) if trimmed(text@).len() > 500 => "> "@ + trimmed(text@).take(500)
                    + "..."@ + "\n"@,
                Some(text) if trimmed(text@).len() > 0 => "> "@ + trimmed(text@) + "\n"@,
                _ => Seq::<char>::empty(),
            }),
            markdown(results, query, max_results),
        ),
{
    law_markdown_shows_each_result(results, query, max_results, i);
    assert(result_markdown(results[i]) =~= "\n## ["@ + (match results[i].title {
                Some(text) if trimmed(text@).len() > 0 => trimmed(text@),
                _ => "Untitled"@,
            }) + "]("@ + trimmed(results[i].url@) + ")\n"@ + (match results[i].published_date {
                Some(date) if trimmed(date@).len() > 0 => "_Published: "@ + trimmed(date@)
                    + "_\n\n"@,
                _ => Seq::<char>::empty(),
            }) + (match results[i].content {
                Some(text) if trimmed(text@).len() > 500 => "> "@ + trimmed(text@).take(500)
                    + "..."@ + "\n"@,
                Some(text) if trimmed(text@).len() > 0 => "> "@ + trimmed(text@) + "\n"@,
                _ => Seq::<char>::empty(),
            }));
}

} // verus!
