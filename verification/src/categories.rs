//! Which search categories a call asks for.
//!
//! A call names categories in a comma-separated list. The known ones are kept, in the order in
//! which they are named; where none is left the configured default stands in.

use crate::text::join;
use crate::text::join_strings;
use crate::text::law_join;
use crate::text::law_split;
use crate::text::lemma_join_ends;
use crate::text::lemma_split_join;
use crate::text::lemma_trimmed;
use crate::text::lemma_trimmed_fixed;
use crate::text::optional_str_view;
use crate::text::same_text;
use crate::text::split;
use crate::text::split_on;
use crate::text::str_views;
use crate::text::trim;
use crate::text::trimmed;
use crate::text::views;
use crate::text::whitespace;
use crate::tool::SearxngSearchTool;
use vstd::prelude::*;

verus! {

/// Whether `name` is a category that SearXNG knows.
pub open spec fn known_category(name: Seq<char>) -> bool {
    ||| name == "general"@
    ||| name == "news"@
    ||| name == "images"@
    ||| name == "videos"@
    ||| name == "science"@
    ||| name == "social_media"@
    ||| name == "files"@
}

/// The known categories among `pieces`, each without the whitespace round it.
pub open spec fn known_among(pieces: Seq<Seq<char>>) -> Seq<Seq<char>> {
    pieces.map_values(|piece: Seq<char>| trimmed(piece)).filter(
        |name: Seq<char>| known_category(name),
    )
}

/// The known categories that the list `raw` names.
pub open spec fn named_categories(raw: Seq<char>) -> Seq<Seq<char>> {
    known_among(split_on(trimmed(raw), ','))
}

/// The categories to search in, where a call asks for `raw` and the default is `default`.
pub open spec fn chosen_categories(raw: Option<Seq<char>>, default: Seq<char>) -> Seq<char> {
    match raw {
        Some(list) if named_categories(list).len() > 0 => join(named_categories(list), ","@),
        _ => default,
    }
}

/// Whether `name` is a category that SearXNG knows.
pub fn is_known_category(name: &str) -> (r: bool)
    ensures
        r == known_category(name@),
{
    same_text(name, "general") || same_text(name, "news") || same_text(name, "images") || same_text(
        name,
        "videos",
    ) || same_text(name, "science") || same_text(name, "social_media") || same_text(name, "files")
}

impl SearxngSearchTool {
    /// The categories to search in: the known ones of the comma-separated list `raw`, or the
    /// configured default where it names none.
    pub fn parse_categories(&self, raw: Option<&str>) -> (r: String)
        ensures
            r@ == chosen_categories(optional_str_view(raw), self@.default_categories),
    {
        let list = match raw {
            Some(list) => list,
            None => {
                return self.default_categories().to_owned();
            },
        };
        let pieces = split(trim(list), ',');
        let ghost all = str_views(pieces@);
        let ghost trim_fn = |piece: Seq<char>| trimmed(piece);
        let ghost known_fn = |name: Seq<char>| known_category(name);
        let mut kept: Vec<String> = Vec::new();
        let mut i: usize = 0;
        assert(views(kept@) =~= known_among(all.take(0))) by {
            reveal(Seq::filter);
            assert(all.take(0).map_values(trim_fn) =~= Seq::<Seq<char>>::empty());
        }
        while i < pieces.len()
            invariant
                i <= pieces@.len(),
                all == str_views(pieces@),
                trim_fn == (|piece: Seq<char>| trimmed(piece)),
                known_fn == (|name: Seq<char>| known_category(name)),
                views(kept@) == known_among(all.take(i as int)),
            decreases pieces@.len() - i,
        {
            let ghost before = views(kept@);
            let name = trim(pieces[i]);
            proof {
                let mapped = all.take(i as int).map_values(trim_fn);
                assert(all.take(i + 1).map_values(trim_fn) =~= mapped.push(name@));
                mapped.lemma_filter_push(name@, known_fn);
            }
            if is_known_category(name) {
                kept.push(name.to_owned());
                assert(views(kept@) =~= before.push(name@));
            }
            i = i + 1;
        }
        assert(all.take(i as int) =~= all);
        if kept.len() == 0 {
            return self.default_categories().to_owned();
        }
        join_strings(&kept, ",")
    }
}

// ---------------------------------------------------------------------------
// Laws
// ---------------------------------------------------------------------------

/// A known category is not empty, and holds neither a comma nor whitespace at its ends.
proof fn lemma_known_category_chars(name: Seq<char>)
    requires
        known_category(name),
    ensures
        name.len() > 0,
        !name.contains(','),
        !whitespace(name.first()),
        !whitespace(name.last()),
{
    reveal_strlit("general");
    reveal_strlit("news");
    reveal_strlit("images");
    reveal_strlit("videos");
    reveal_strlit("science");
    reveal_strlit("social_media");
    reveal_strlit("files");
}

proof fn lemma_comma()
    ensures
        ","@ == seq![','],
{
    reveal_strlit(",");
    assert(","@ =~= seq![',']);
}

/// `known_among` keeps known categories only.
proof fn lemma_known_among(pieces: Seq<Seq<char>>)
    ensures
        forall|i: int| 0 <= i < known_among(pieces).len() ==> known_category(#[trigger] known_among(pieces)[i]),
{
    let known_fn = |name: Seq<char>| known_category(name);
    let names = pieces.map_values(|piece: Seq<char>| trimmed(piece));
    assert forall|i: int| 0 <= i < known_among(pieces).len() implies known_category(
        #[trigger] known_among(pieces)[i],
    ) by {
        names.lemma_filter_pred(known_fn, i);
    }
}

/// A call that asks for no categories, for a blank list, or for none that is known, searches in
/// the default categories.
pub proof fn law_default_categories(raw: Option<Seq<char>>, default: Seq<char>)
    requires
        raw matches Some(list) ==> trimmed(list).len() == 0 || forall|i: int|
            0 <= i < split_on(trimmed(list), ',').len() ==> !known_category(
                trimmed(#[trigger] split_on(trimmed(list), ',')[i]),
            ),
    ensures
        chosen_categories(raw, default) == default,
{
    if let Some(list) = raw {
        let pieces = split_on(trimmed(list), ',');
        let known_fn = |name: Seq<char>| known_category(name);
        let names = pieces.map_values(|piece: Seq<char>| trimmed(piece));
        lemma_known_among(pieces);
        if trimmed(list).len() == 0 {
            let empty = Seq::<char>::empty();
            assert(pieces =~= seq![empty]);
            assert(trimmed(empty) =~= empty);
            assert(!known_category(empty)) by {
                if known_category(empty) {
                    lemma_known_category_chars(empty);
                }
            }
        }
        assert forall|i: int| 0 <= i < pieces.len() implies !known_fn(#[trigger] names[i]) by {
            assert(names[i] == trimmed(pieces[i]));
        }
        names.lemma_all_neg_filter_empty(known_fn);
    }
}

/// What is searched in is the default, or a comma-separated list that is not empty and names
/// known categories only.
pub proof fn law_chosen_categories_are_known(raw: Option<Seq<char>>, default: Seq<char>)
    ensures
        ({
            let chosen = chosen_categories(raw, default);
            let parts = split_on(chosen, ',');
            chosen == default || parts.len() > 0 && forall|i: int|
                0 <= i < parts.len() ==> known_category(#[trigger] parts[i])
        }),
{
    if let Some(list) = raw {
        let kept = named_categories(list);
        if kept.len() > 0 {
            lemma_named_categories_split(list);
        }
    }
}

/// The pieces of the chosen list are the named known categories, in order.
proof fn lemma_named_categories_split(list: Seq<char>)
    requires
        named_categories(list).len() > 0,
    ensures
        split_on(join(named_categories(list), ","@), ',') == named_categories(list),
        forall|i: int|
            0 <= i < named_categories(list).len() ==> known_category(
                #[trigger] named_categories(list)[i],
            ),
{
    let kept = named_categories(list);
    lemma_known_among(split_on(trimmed(list), ','));
    assert forall|i: int| 0 <= i < kept.len() implies !(#[trigger] kept[i]).contains(',') by {
        lemma_known_category_chars(kept[i]);
    }
    lemma_comma();
    lemma_split_join(kept, ',');
}

/// A category is searched in exactly where it is known and some piece of the list names it.
pub proof fn law_named_categories(list: Seq<char>, name: Seq<char>)
    ensures
        named_categories(list).contains(name) <==> known_category(name) && exists|i: int|
            0 <= i < split_on(trimmed(list), ',').len() && trimmed(
                #[trigger] split_on(trimmed(list), ',')[i],
            ) == name,
{
    let pieces = split_on(trimmed(list), ',');
    let known_fn = |name: Seq<char>| known_category(name);
    let names = pieces.map_values(|piece: Seq<char>| trimmed(piece));
    if named_categories(list).contains(name) {
        names.lemma_filter_contains_rev(known_fn, name);
        let k = choose|k: int| 0 <= k < named_categories(list).len() && named_categories(list)[k] == name;
        lemma_known_among(pieces);
        let i = choose|i: int| 0 <= i < names.len() && names[i] == name;
        assert(trimmed(pieces[i]) == name);
    }
    if known_category(name) && exists|i: int|
        0 <= i < pieces.len() && trimmed(#[trigger] pieces[i]) == name {
        let i = choose|i: int| 0 <= i < pieces.len() && trimmed(#[trigger] pieces[i]) == name;
        assert(names[i] == name);
        names.lemma_filter_contains(known_fn, i);
    }
}

/// Asking for the categories that were chosen chooses the same again.
pub proof fn law_chosen_categories_are_stable(
    list: Seq<char>,
    default: Seq<char>,
    other_default: Seq<char>,
)
    requires
        named_categories(list).len() > 0,
    ensures
        chosen_categories(Some(chosen_categories(Some(list), default)), other_default)
            == chosen_categories(Some(list), default),
{
    let kept = named_categories(list);
    let chosen = chosen_categories(Some(list), default);
    let known_fn = |name: Seq<char>| known_category(name);
    lemma_named_categories_split(list);
    assert forall|i: int| 0 <= i < kept.len() implies (#[trigger] kept[i]).len() > 0 by {
        lemma_known_category_chars(kept[i]);
    }
    lemma_join_ends(kept, ","@);
    lemma_known_category_chars(kept[0]);
    lemma_known_category_chars(kept[kept.len() - 1]);
    lemma_trimmed_fixed(chosen);
    assert forall|i: int| 0 <= i < kept.len() implies trimmed(#[trigger] kept[i]) == kept[i] by {
        lemma_known_category_chars(kept[i]);
        lemma_trimmed_fixed(kept[i]);
    }
    assert(kept.map_values(|piece: Seq<char>| trimmed(piece)) =~= kept);
    lemma_filter_all(kept, known_fn);
}

/// A filter that every item passes keeps the sequence.
proof fn lemma_filter_all(s: Seq<Seq<char>>, pred: spec_fn(Seq<char>) -> bool)
    requires
        forall|i: int| 0 <= i < s.len() ==> pred(#[trigger] s[i]),
    ensures
        s.filter(pred) == s,
    decreases s.len(),
{
    reveal(Seq::filter);
    if s.len() > 0 {
        let init = s.drop_last();
        assert forall|i: int| 0 <= i < init.len() implies pred(#[trigger] init[i]) by {
            assert(init[i] == s[i]);
        }
        lemma_filter_all(init, pred);
        assert(pred(s[s.len() - 1]));
        assert(init.push(s.last()) =~= s);
    }
}

/// Where a list names a known category, splitting the chosen text at the commas gives exactly the
/// pieces of the list, without the whitespace round them, that are `general`, `news`, `images`,
/// `videos`, `science`, `social_media` or `files`: all of them, in order, and no others. Where it
/// names none, the default is chosen.
pub proof fn law_chosen_categories_are_all_that_are_named(list: Seq<char>, default: Seq<char>)
    ensures
        ({
            let names = split_on(trimmed(list), ',').map_values(
                |piece: Seq<char>| trimmed(piece),
            ).filter(
                |name: Seq<char>|
                    name == "general"@ || name == "news"@ || name == "images"@ || name == "videos"@
                        || name == "science"@ || name == "social_media"@ || name == "files"@,
            );
            let chosen = chosen_categories(Some(list), default);
            if names.len() > 0 {
                split_on(chosen, ',') == names && chosen == join(names, seq![','])
            } else {
                chosen == default
            }
        }),
        chosen_categories(None, default) == default,
{
    let known_fn = |name: Seq<char>| known_category(name);
    let literal_fn = |name: Seq<char>|
        name == "general"@ || name == "news"@ || name == "images"@ || name == "videos"@ || name
            == "science"@ || name == "social_media"@ || name == "files"@;
    assert(known_fn =~= literal_fn);
    lemma_comma();
    if named_categories(list).len() > 0 {
        lemma_named_categories_split(list);
    }
}

/// A piece of the list that is, without the whitespace round it, one of the seven categories, is a
/// piece of the chosen text, wherever it stands and whatever stands beside it.
pub proof fn law_each_named_category_is_chosen(list: Seq<char>, default: Seq<char>, i: int)
    requires
        0 <= i < split_on(trimmed(list), ',').len(),
        ({
            let name = trimmed(split_on(trimmed(list), ',')[i]);
            name == "general"@ || name == "news"@ || name == "images"@ || name == "videos"@ || name
                == "science"@ || name == "social_media"@ || name == "files"@
        }),
    ensures
        split_on(chosen_categories(Some(list), default), ',').contains(
            trimmed(split_on(trimmed(list), ',')[i]),
        ),
{
    let name = trimmed(split_on(trimmed(list), ',')[i]);
    law_named_categories(list, name);
    lemma_named_categories_split(list);
}

/// Of two lists that each name a known category, with a comma between, the categories of the first
/// are chosen and behind them those of the second.
pub proof fn law_categories_of_two_lists(a: Seq<char>, b: Seq<char>, default: Seq<char>)
    requires
        trimmed(a) == a,
        trimmed(b) == b,
        a.len() > 0,
        b.len() > 0,
        named_categories(a).len() > 0,
        named_categories(b).len() > 0,
    ensures
        chosen_categories(Some(a + seq![','] + b), default) == chosen_categories(Some(a), default)
            + seq![','] + chosen_categories(Some(b), default),
{
    let known_fn = |name: Seq<char>| known_category(name);
    let trim_fn = |piece: Seq<char>| trimmed(piece);
    let all = a + seq![','] + b;
    lemma_trimmed_ends(a);
    lemma_trimmed_ends(b);
    assert(all.first() == a.first());
    assert(all.last() == b.last());
    lemma_trimmed_fixed(all);
    lemma_split_two(a, b, ',');
    let x = split_on(a, ',');
    let y = split_on(b, ',');
    assert((x + y).map_values(trim_fn) =~= x.map_values(trim_fn) + y.map_values(trim_fn));
    Seq::filter_distributes_over_add(x.map_values(trim_fn), y.map_values(trim_fn), known_fn);
    lemma_comma();
    law_join(named_categories(a), named_categories(b), seq![','], a);
}

/// A text that trimming leaves as it is neither begins nor ends with whitespace.
proof fn lemma_trimmed_ends(s: Seq<char>)
    requires
        trimmed(s) == s,
        s.len() > 0,
    ensures
        !whitespace(s.first()),
        !whitespace(s.last()),
{
    lemma_trimmed(s);
}

/// The pieces of two texts with a separator between are those of the first and then those of the
/// second.
proof fn lemma_split_two(a: Seq<char>, b: Seq<char>, sep: char)
    ensures
        split_on(a + seq![sep] + b, sep) == split_on(a, sep) + split_on(b, sep),
{
    let x = split_on(a, sep);
    let y = split_on(b, sep);
    law_split(a, sep);
    law_split(b, sep);
    law_join(x, y, seq![sep], a);
    assert forall|i: int| 0 <= i < (x + y).len() implies !(#[trigger] (x + y)[i]).contains(
        sep,
    ) by {
        if i < x.len() {
            assert((x + y)[i] == x[i]);
        } else {
            assert((x + y)[i] == y[i - x.len()]);
        }
    }
    lemma_split_join(x + y, sep);
}

/// The known categories are these seven.
pub proof fn law_known_categories(name: Seq<char>)
    ensures
        known_category(name) <==> seq![
            "general"@,
            "news"@,
            "images"@,
            "videos"@,
            "science"@,
            "social_media"@,
            "files"@,
        ].contains(name),
{
    let names = seq![
        "general"@,
        "news"@,
        "images"@,
        "videos"@,
        "science"@,
        "social_media"@,
        "files"@,
    ];
    assert(names[0] == "general"@ && names[1] == "news"@ && names[2] == "images"@ && names[3]
        == "videos"@ && names[4] == "science"@ && names[5] == "social_media"@ && names[6]
        == "files"@);
}

} // verus!
