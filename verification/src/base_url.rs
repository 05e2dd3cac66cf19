//! Which base URLs a tool sends requests to.
//!
//! An operator names the instance in the configuration, so loopback and private hosts are
//! accepted as any other host is. Refused are blank URLs, URLs that hold whitespace, schemes
//! other than `http` and `https`, userinfo, and IPv6 hosts in brackets.

use crate::text::contains_char;
use crate::text::contains_whitespace;
use crate::text::has_whitespace;
use crate::text::law_trimmed;
use crate::text::lemma_trim_end;
use crate::text::lemma_trimmed_append;
use crate::text::lemma_trimmed_blank;
use crate::text::lemma_trimmed_fixed;
use crate::text::lemma_trimmed_idempotent;
use crate::text::strip_prefix;
use crate::text::trim;
use crate::text::trim_end;
use crate::text::trimmed;
use crate::text::whitespace;
use crate::tool::SearxngSearchTool;
use vstd::prelude::*;

verus! {

/// Why a base URL is refused.
#[derive(Debug, Clone, Copy, PartialEq, Eq, Structural)]
pub enum BaseUrlError {
    /// Nothing but whitespace.
    Empty,
    /// Whitespace inside the URL.
    Whitespace,
    /// A scheme other than `http` and `https`.
    Scheme,
    /// `user@host` or `user:pass@host`.
    UserInfo,
    /// `[..]` as host.
    Ipv6Host,
}

impl BaseUrlError {
    /// The message for the operator.
    pub open spec fn text(self) -> Seq<char> {
        match self {
            BaseUrlError::Empty => "SearXNG base_url cannot be empty"@,
            BaseUrlError::Whitespace => "SearXNG base_url cannot contain whitespace"@,
            BaseUrlError::Scheme => "SearXNG base_url must start with http:// or https://"@,
            BaseUrlError::UserInfo => "SearXNG base_url must not include userinfo (user:pass@host)"@,
            BaseUrlError::Ipv6Host => "IPv6 hosts are not supported in searxng.base_url"@,
        }
    }

    /// The message for the operator.
    pub fn message(&self) -> (r: &'static str)
        ensures
            r@ == self.text(),
    {
        match self {
            BaseUrlError::Empty => "SearXNG base_url cannot be empty",
            BaseUrlError::Whitespace => "SearXNG base_url cannot contain whitespace",
            BaseUrlError::Scheme => "SearXNG base_url must start with http:// or https://",
            BaseUrlError::UserInfo => "SearXNG base_url must not include userinfo (user:pass@host)",
            BaseUrlError::Ipv6Host => "IPv6 hosts are not supported in searxng.base_url",
        }
    }
}

/// What follows the scheme, where it is `http` or `https`.
pub open spec fn after_scheme(url: Seq<char>) -> Option<Seq<char>> {
    if "http://"@.is_prefix_of(url) {
        Some(url.skip("http://"@.len() as int))
    } else if "https://"@.is_prefix_of(url) {
        Some(url.skip("https://"@.len() as int))
    } else {
        None
    }
}

/// Whether `c` ends the authority of a URL.
pub open spec fn ends_authority(c: char) -> bool {
    c == '/' || c == '?' || c == '#'
}

/// The number of characters before the first one that ends the authority.
pub open spec fn authority_len(rest: Seq<char>) -> nat
    decreases rest.len(),
{
    if rest.len() == 0 || ends_authority(rest.first()) {
        0
    } else {
        1 + authority_len(rest.drop_first())
    }
}

/// The authority (userinfo, host and port) at the head of what follows the scheme.
pub open spec fn authority(rest: Seq<char>) -> Seq<char> {
    rest.take(authority_len(rest) as int)
}

/// Whether the base URL is accepted, and else why not.
pub open spec fn verdict(base_url: Seq<char>) -> Result<(), BaseUrlError> {
    let url = trimmed(base_url);
    if url.len() == 0 {
        Err(BaseUrlError::Empty)
    } else if has_whitespace(url) {
        Err(BaseUrlError::Whitespace)
    } else {
        match after_scheme(url) {
            None => Err(BaseUrlError::Scheme),
            Some(rest) => if authority(rest).contains('@') {
                Err(BaseUrlError::UserInfo)
            } else if authority(rest).len() > 0 && authority(rest).first() == '[' {
                Err(BaseUrlError::Ipv6Host)
            } else {
                Ok(())
            },
        }
    }
}

/// The authority at the head of `rest`.
fn take_authority<'a>(rest: &'a str) -> (r: &'a str)
    ensures
        r@ == authority(rest@),
{
    let chars = crate::text::chars_of(rest);
    let mut n: usize = 0;
    assert(rest@.skip(0) =~= rest@);
    while n < chars.len() && chars[n] != '/' && chars[n] != '?' && chars[n] != '#'
        invariant
            n <= chars@.len(),
            chars@ == rest@,
            authority_len(rest@) == n + authority_len(rest@.skip(n as int)),
        decreases chars@.len() - n,
    {
        assert(rest@.skip(n as int).drop_first() =~= rest@.skip(n + 1));
        n = n + 1;
    }
    rest.substring_char(0, n)
}

impl SearxngSearchTool {
    /// Whether `url` is a base URL that requests may be sent to.
    pub fn validate_base_url(url: &str) -> (r: Result<(), BaseUrlError>)
        ensures
            r == verdict(url@),
    {
        let url = trim(url);
        if url.is_empty() {
            return Err(BaseUrlError::Empty);
        }
        if contains_whitespace(url) {
            return Err(BaseUrlError::Whitespace);
        }
        let rest = match strip_prefix(url, "http://") {
            Some(rest) => rest,
            None => match strip_prefix(url, "https://") {
                Some(rest) => rest,
                None => {
                    return Err(BaseUrlError::Scheme);
                },
            },
        };
        let authority = take_authority(rest);
        if contains_char(authority, '@') {
            return Err(BaseUrlError::UserInfo);
        }
        if !authority.is_empty() && authority.get_char(0) == '[' {
            return Err(BaseUrlError::Ipv6Host);
        }
        Ok(())
    }
}

// ---------------------------------------------------------------------------
// Laws
// ---------------------------------------------------------------------------

/// The two schemes differ where the shorter one ends, so at most one of them begins a URL.
proof fn lemma_schemes()
    ensures
        "http://"@.len() == 7,
        "https://"@.len() == 8,
        "http://"@[4] == ':',
        "https://"@[4] == 's',
        forall|i: int| 0 <= i < 7 ==> !whitespace(#[trigger] "http://"@[i]),
        forall|i: int| 0 <= i < 8 ==> !whitespace(#[trigger] "https://"@[i]),
{
    reveal_strlit("http://");
    reveal_strlit("https://");
}

proof fn lemma_after_scheme(scheme: Seq<char>, rest: Seq<char>)
    requires
        scheme == "http://"@ || scheme == "https://"@,
    ensures
        after_scheme(scheme + rest) == Some(rest),
{
    lemma_schemes();
    let url = scheme + rest;
    assert(url.skip(scheme.len() as int) =~= rest);
    assert(scheme.is_prefix_of(url)) by {
        assert(url.subrange(0, scheme.len() as int) =~= scheme);
    }
    if scheme == "https://"@ && "http://"@.is_prefix_of(url) {
        assert(url[4] == "http://"@[4]);
        assert(url[4] == "https://"@[4]);
    }
}

/// The authority ends where the first delimiter stands, or else at the end.
proof fn lemma_authority_len(host: Seq<char>, tail: Seq<char>)
    requires
        forall|i: int| 0 <= i < host.len() ==> !ends_authority(#[trigger] host[i]),
    ensures
        authority_len(host + tail) == host.len() + authority_len(tail),
    decreases host.len(),
{
    if host.len() == 0 {
        assert(host + tail =~= tail);
    } else {
        let rest = host.drop_first();
        assert forall|i: int| 0 <= i < rest.len() implies !ends_authority(#[trigger] rest[i]) by {
            assert(rest[i] == host[i + 1]);
        }
        lemma_authority_len(rest, tail);
        assert((host + tail).drop_first() =~= rest + tail);
        assert((host + tail).first() == host[0]);
    }
}

proof fn lemma_authority_bound(rest: Seq<char>)
    ensures
        authority_len(rest) <= rest.len(),
    decreases rest.len(),
{
    if rest.len() > 0 && !ends_authority(rest.first()) {
        lemma_authority_bound(rest.drop_first());
    }
}

/// A URL that begins with a scheme and holds no whitespace is judged by its authority alone.
proof fn lemma_verdict_by_authority(scheme: Seq<char>, rest: Seq<char>)
    requires
        scheme == "http://"@ || scheme == "https://"@,
        !has_whitespace(rest),
    ensures
        verdict(scheme + rest) == (if authority(rest).contains('@') {
            Err(BaseUrlError::UserInfo)
        } else if authority(rest).len() > 0 && authority(rest).first() == '[' {
            Err(BaseUrlError::Ipv6Host)
        } else {
            Ok(())
        }),
{
    let url = scheme + rest;
    lemma_schemes();
    lemma_after_scheme(scheme, rest);
    assert forall|i: int| 0 <= i < url.len() implies !whitespace(#[trigger] url[i]) by {
        if i >= scheme.len() {
            assert(rest[i - scheme.len()] == url[i]);
        }
    }
    lemma_trimmed_fixed(url);
}

/// A base URL is accepted exactly where, without the whitespace round it, it is not empty, holds
/// no whitespace, begins with `http://` or `https://`, and has an authority that neither holds
/// userinfo nor begins with a bracket.
pub proof fn law_accepted(base_url: Seq<char>)
    ensures
        verdict(base_url) is Ok <==> {
            let url = trimmed(base_url);
            &&& url.len() > 0
            &&& !has_whitespace(url)
            &&& after_scheme(url) matches Some(rest) && {
                &&& !authority(rest).contains('@')
                &&& authority(rest).len() > 0 ==> authority(rest).first() != '['
            }
        },
{
}

/// Every host is accepted, loopback and private ones included, under both schemes, with any port
/// and with any path, query or fragment behind it, as long as there is no whitespace, no userinfo
/// and no opening bracket at its head.
pub proof fn law_every_host_is_accepted(scheme: Seq<char>, host: Seq<char>, tail: Seq<char>)
    requires
        scheme == "http://"@ || scheme == "https://"@,
        !has_whitespace(host),
        !has_whitespace(tail),
        forall|i: int| 0 <= i < host.len() ==> !ends_authority(#[trigger] host[i]),
        !host.contains('@'),
        host.len() > 0 ==> host.first() != '[',
        tail.len() > 0 ==> ends_authority(tail.first()),
    ensures
        verdict(scheme + host + tail) == Ok::<(), BaseUrlError>(()),
{
    let rest = host + tail;
    assert forall|i: int| 0 <= i < rest.len() implies !whitespace(#[trigger] rest[i]) by {
        if i < host.len() {
            assert(host[i] == rest[i]);
        } else {
            assert(tail[i - host.len()] == rest[i]);
        }
    }
    lemma_authority_len(host, tail);
    assert(authority(rest) =~= host);
    lemma_verdict_by_authority(scheme, rest);
    assert(scheme + host + tail =~= scheme + rest);
}

/// Userinfo is refused, whatever user, host and path are. Only whitespace inside the URL changes
/// the reason.
pub proof fn law_userinfo_is_refused(scheme: Seq<char>, user: Seq<char>, rest: Seq<char>)
    requires
        scheme == "http://"@ || scheme == "https://"@,
        forall|i: int| 0 <= i < user.len() ==> !ends_authority(#[trigger] user[i]),
    ensures
        verdict(scheme + user + seq!['@'] + rest) == Err::<(), BaseUrlError>(
            BaseUrlError::UserInfo,
        ) || verdict(scheme + user + seq!['@'] + rest) == Err::<(), BaseUrlError>(
            BaseUrlError::Whitespace,
        ),
        !has_whitespace(user) && !has_whitespace(rest) ==> verdict(
            scheme + user + seq!['@'] + rest,
        ) == Err::<(), BaseUrlError>(BaseUrlError::UserInfo),
{
    lemma_schemes();
    let head = user.push('@');
    let kept = trim_end(rest);
    let url = scheme + head + kept;
    assert(scheme + user + seq!['@'] + rest =~= (scheme + head) + rest);
    lemma_trimmed_append(scheme + head, rest);
    lemma_trim_end(rest);
    if has_whitespace(url) {
        let i = choose|i: int| 0 <= i < url.len() && whitespace(#[trigger] url[i]);
        if !has_whitespace(user) && !has_whitespace(rest) {
            if i < scheme.len() {
                assert(scheme[i] == url[i]);
            } else if i < scheme.len() + user.len() {
                assert(user[i - scheme.len()] == url[i]);
            } else if i > scheme.len() + user.len() {
                assert(rest[i - scheme.len() - head.len()] == url[i]);
            }
        }
    } else {
        let all = head + kept;
        assert(url =~= scheme + all);
        assert forall|i: int| 0 <= i < head.len() implies !ends_authority(#[trigger] head[i]) by {
            if i < user.len() {
                assert(user[i] == head[i]);
            }
        }
        assert forall|i: int| 0 <= i < all.len() implies !whitespace(#[trigger] all[i]) by {
            assert(url[scheme.len() + i] == all[i]);
        }
        lemma_authority_len(head, kept);
        lemma_authority_bound(kept);
        assert(authority(all)[user.len() as int] == '@');
        lemma_verdict_by_authority(scheme, all);
        lemma_trimmed_fixed(url);
    }
}

/// A host in brackets is never accepted.
pub proof fn law_bracketed_host_is_refused(scheme: Seq<char>, rest: Seq<char>)
    requires
        scheme == "http://"@ || scheme == "https://"@,
    ensures
        verdict(scheme + seq!['['] + rest) is Err,
{
    lemma_schemes();
    let head = scheme + seq!['['];
    let kept = trim_end(rest);
    let url = head + kept;
    assert(head.first() == scheme[0]);
    lemma_trimmed_append(head, rest);
    if !has_whitespace(url) {
        let all = seq!['['] + kept;
        assert(url =~= scheme + all);
        assert forall|i: int| 0 <= i < all.len() implies !whitespace(#[trigger] all[i]) by {
            assert(url[scheme.len() + i] == all[i]);
        }
        lemma_authority_bound(all);
        lemma_verdict_by_authority(scheme, all);
        lemma_trimmed_fixed(url);
    }
}

/// A URL that is empty or whitespace throughout is refused as empty.
pub proof fn law_blank_url_is_refused(base_url: Seq<char>)
    requires
        forall|i: int| 0 <= i < base_url.len() ==> whitespace(#[trigger] base_url[i]),
    ensures
        verdict(base_url) == Err::<(), BaseUrlError>(BaseUrlError::Empty),
{
    lemma_trimmed_blank(base_url);
}

/// The whitespace round a base URL does not count.
pub proof fn law_surrounding_whitespace_does_not_count(base_url: Seq<char>)
    ensures
        verdict(trimmed(base_url)) == verdict(base_url),
{
    lemma_trimmed_idempotent(base_url);
}

/// A text without the whitespace round it decides: any whitespace before and after it leaves the
/// verdict as it is.
pub proof fn law_verdict_ignores_surroundings(
    before: Seq<char>,
    core: Seq<char>,
    after: Seq<char>,
)
    requires
        forall|i: int| 0 <= i < before.len() ==> whitespace(#[trigger] before[i]),
        forall|i: int| 0 <= i < after.len() ==> whitespace(#[trigger] after[i]),
        core.len() > 0 ==> !whitespace(core.first()) && !whitespace(core.last()),
    ensures
        verdict(before + core + after) == verdict(core),
{
    law_trimmed(before, core, after);
    lemma_trimmed_fixed(core);
}

/// Whitespace inside a URL is refused as such, whatever else the URL is.
pub proof fn law_whitespace_inside_is_refused(a: Seq<char>, c: char, b: Seq<char>)
    requires
        whitespace(c),
        a.len() > 0 && !whitespace(a.first()),
        b.len() > 0 && !whitespace(b.last()),
    ensures
        verdict(a.push(c) + b) == Err::<(), BaseUrlError>(BaseUrlError::Whitespace),
{
    let url = a.push(c) + b;
    assert(url.first() == a.first());
    assert(url.last() == b.last());
    lemma_trimmed_fixed(url);
    assert(url[a.len() as int] == c);
}

/// A base URL that, without the whitespace round it, begins neither with `http://` nor with
/// `https://` is refused; the scheme is the reason where the URL is not blank and holds no
/// whitespace.
pub proof fn law_other_beginnings_are_refused(base_url: Seq<char>)
    requires
        !"http://"@.is_prefix_of(trimmed(base_url)),
        !"https://"@.is_prefix_of(trimmed(base_url)),
    ensures
        verdict(base_url) is Err,
        trimmed(base_url).len() > 0 && (forall|i: int|
            0 <= i < trimmed(base_url).len() ==> !whitespace(#[trigger] trimmed(base_url)[i]))
            ==> verdict(base_url) == Err::<(), BaseUrlError>(BaseUrlError::Scheme),
{
}

/// Behind the scheme, what stands before the first `/`, `?` or `#` decides: with an `@` in it the
/// URL is refused for userinfo, else with `[` at its head for the host, and else it is accepted.
pub proof fn law_authority_decides(scheme: Seq<char>, head: Seq<char>, tail: Seq<char>)
    requires
        scheme == "http://"@ || scheme == "https://"@,
        forall|i: int| 0 <= i < head.len() ==> !whitespace(#[trigger] head[i]),
        forall|i: int| 0 <= i < tail.len() ==> !whitespace(#[trigger] tail[i]),
        forall|i: int|
            0 <= i < head.len() ==> #[trigger] head[i] != '/' && head[i] != '?' && head[i] != '#',
        tail.len() > 0 ==> tail.first() == '/' || tail.first() == '?' || tail.first() == '#',
    ensures
        verdict(scheme + head + tail) == (if head.contains('@') {
            Err(BaseUrlError::UserInfo)
        } else if head.len() > 0 && head.first() == '[' {
            Err(BaseUrlError::Ipv6Host)
        } else {
            Ok(())
        }),
{
    let rest = head + tail;
    assert forall|i: int| 0 <= i < rest.len() implies !whitespace(#[trigger] rest[i]) by {
        if i < head.len() {
            assert(head[i] == rest[i]);
        } else {
            assert(tail[i - head.len()] == rest[i]);
        }
    }
    lemma_authority_len(head, tail);
    assert(authority(rest) =~= head);
    lemma_verdict_by_authority(scheme, rest);
    assert(scheme + head + tail =~= scheme + rest);
}

proof fn lemma_authority_ends(rest: Seq<char>)
    ensures
        authority_len(rest) <= rest.len(),
        forall|i: int| 0 <= i < authority_len(rest) ==> !ends_authority(#[trigger] rest[i]),
        authority_len(rest) < rest.len() ==> ends_authority(rest[authority_len(rest) as int]),
    decreases rest.len(),
{
    if rest.len() > 0 && !ends_authority(rest.first()) {
        let next = rest.drop_first();
        lemma_authority_ends(next);
        assert forall|i: int| 0 <= i < authority_len(rest) implies !ends_authority(
            #[trigger] rest[i],
        ) by {
            if i > 0 {
                assert(next[i - 1] == rest[i]);
            }
        }
    }
}

/// An accepted base URL is, without the whitespace round it, `http://` or `https://`, then a host
/// without `/`, `?`, `#` and `@` that does not begin with `[`, and then nothing or what begins
/// with `/`, `?` or `#`; and there is no whitespace in it.
pub proof fn law_accepted_urls_have_the_form(base_url: Seq<char>)
    requires
        verdict(base_url) is Ok,
    ensures
        exists|scheme: Seq<char>, host: Seq<char>, tail: Seq<char>|
            {
                &&& trimmed(base_url) == #[trigger] (scheme + host + tail)
                &&& scheme == "http://"@ || scheme == "https://"@
                &&& !host.contains('/') && !host.contains('?') && !host.contains('#')
                &&& !host.contains('@')
                &&& host.len() > 0 ==> host.first() != '['
                &&& tail.len() > 0 ==> tail.first() == '/' || tail.first() == '?' || tail.first()
                    == '#'
            },
        forall|i: int|
            0 <= i < trimmed(base_url).len() ==> !whitespace(#[trigger] trimmed(base_url)[i]),
{
    let url = trimmed(base_url);
    let rest = after_scheme(url).unwrap();
    let scheme = url.take(url.len() - rest.len());
    let host = authority(rest);
    let tail = rest.skip(host.len() as int);
    lemma_authority_ends(rest);
    assert(scheme == "http://"@ || scheme == "https://"@) by {
        if "http://"@.is_prefix_of(url) {
            assert(scheme =~= "http://"@);
        } else {
            assert(scheme =~= "https://"@);
        }
    }
    assert forall|i: int| 0 <= i < host.len() implies !ends_authority(#[trigger] host[i]) by {
        assert(host[i] == rest[i]);
    }
    assert(url =~= scheme + host + tail);
}

/// The message for every reason.
pub proof fn law_reasons()
    ensures
        BaseUrlError::Empty.text() == "SearXNG base_url cannot be empty"@,
        BaseUrlError::Whitespace.text() == "SearXNG base_url cannot contain whitespace"@,
        BaseUrlError::Scheme.text() == "SearXNG base_url must start with http:// or https://"@,
        BaseUrlError::UserInfo.text()
            == "SearXNG base_url must not include userinfo (user:pass@host)"@,
        BaseUrlError::Ipv6Host.text() == "IPv6 hosts are not supported in searxng.base_url"@,
{
}

} // verus!
