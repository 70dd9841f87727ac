//! Filters of the knowledge base: exact category match and a case-insensitive
//! keyword search over title, content and tags.
use vstd::prelude::*;
use crate::order::insights_view;
use crate::text::{contains_str, seq_contains, str_eq};
use crate::trusted::{lower_of, lowercase};
use crate::types::{Insight, InsightView, opt_str_view, strings_view};

verus! {

/// The case-folded keyword test: `kw` occurs in the title, the content or
/// one of the tags (all already folded).
pub open spec fn folded_hit(kw: Seq<char>, title: Seq<char>, content: Seq<char>, tags: Seq<Seq<char>>) -> bool {
    seq_contains(title, kw) || seq_contains(content, kw) || exists|j: int|
        0 <= j < tags.len() && seq_contains(#[trigger] tags[j], kw)
}

/// Each tag, lower-cased.
pub open spec fn folded_tags(tags: Seq<Seq<char>>) -> Seq<Seq<char>> {
    tags.map_values(|t: Seq<char>| lower_of(t))
}

/// An insight matches a keyword when the lower-cased keyword occurs in its
/// lower-cased title, content or one of its lower-cased tags.
pub open spec fn keyword_hit(i: InsightView, kw: Seq<char>) -> bool {
    folded_hit(lower_of(kw), lower_of(i.title), lower_of(i.content), folded_tags(i.tags))
}

/// An insight passes the filters: its category equals the category filter,
/// and it matches the keyword filter; an absent filter passes everything.
pub open spec fn insight_selected(i: InsightView, category: Option<Seq<char>>, keyword: Option<Seq<char>>) -> bool {
    (match category {
        Some(c) => i.category == c,
        None => true,
    }) && (match keyword {
        Some(k) => keyword_hit(i, k),
        None => true,
    })
}

/// The filter of a query, as a predicate.
pub open spec fn selected_by(category: Option<Seq<char>>, keyword: Option<Seq<char>>) -> spec_fn(InsightView) -> bool {
    |i: InsightView| insight_selected(i, category, keyword)
}

/// The keyword test on text that is already lower-cased.
pub fn keyword_hit_folded(kw: &str, title: &str, content: &str, tags: &Vec<String>) -> (r: bool)
    ensures
        r == folded_hit(kw@, title@, content@, strings_view(tags@)),
{
    if contains_str(title, kw) {
        return true;
    }
    if contains_str(content, kw) {
        return true;
    }
    let mut j: usize = 0;
    while j < tags.len()
        invariant
            j <= tags@.len(),
            !seq_contains(title@, kw@),
            !seq_contains(content@, kw@),
            forall|k: int| 0 <= k < j ==> !seq_contains(#[trigger] strings_view(tags@)[k], kw@),
        decreases tags@.len() - j,
    {
        if contains_str(tags[j].as_str(), kw) {
            assert(seq_contains(strings_view(tags@)[j as int], kw@));
            return true;
        }
        j = j + 1;
    }
    false
}

/// Does the insight match `keyword`, ignoring case?
pub fn matches_keyword(insight: &Insight, keyword: &str) -> (r: bool)
    ensures
        r == keyword_hit(insight@, keyword@),
{
    let kw = lowercase(keyword);
    let title = lowercase(insight.title.as_str());
    let content = lowercase(insight.content.as_str());
    let mut tags: Vec<String> = Vec::new();
    let mut j: usize = 0;
    while j < insight.tags.len()
        invariant
            j <= insight.tags@.len(),
            strings_view(tags@) == folded_tags(strings_view(insight.tags@)).subrange(0, j as int),
        decreases insight.tags@.len() - j,
    {
        let t = lowercase(insight.tags[j].as_str());
        let ghost prev = tags@;
        tags.push(t);
        assert(strings_view(tags@) =~= strings_view(prev).push(t@));
        assert(strings_view(tags@) =~= folded_tags(strings_view(insight.tags@)).subrange(0, j + 1));
        j = j + 1;
    }
    assert(strings_view(tags@) =~= folded_tags(strings_view(insight.tags@)));
    keyword_hit_folded(kw.as_str(), title.as_str(), content.as_str(), &tags)
}

/// Does the insight pass the category and keyword filters?
pub fn insight_matches(insight: &Insight, category: Option<&str>, keyword: Option<&str>) -> (r: bool)
    ensures
        r == insight_selected(insight@, opt_str_view(category), opt_str_view(keyword)),
{
    let cat_ok = match category {
        Some(c) => str_eq(insight.category.as_str(), c),
        None => true,
    };
    if !cat_ok {
        return false;
    }
    match keyword {
        Some(k) => matches_keyword(insight, k),
        None => true,
    }
}

/// The insights of `v` that pass the filters, in their order in `v`.
pub fn select_insights(v: &Vec<Insight>, category: Option<&str>, keyword: Option<&str>) -> (r: Vec<Insight>)
    ensures
        insights_view(r@) == insights_view(v@).filter(
            selected_by(opt_str_view(category), opt_str_view(keyword)),
        ),
{
    let ghost pred = selected_by(opt_str_view(category), opt_str_view(keyword));
    let ghost all = insights_view(v@);
    let mut out: Vec<Insight> = Vec::new();
    let mut i: usize = 0;
    while i < v.len()
        invariant
            i <= v@.len(),
            all == insights_view(v@),
            pred == selected_by(opt_str_view(category), opt_str_view(keyword)),
            insights_view(out@) == all.subrange(0, i as int).filter(pred),
        decreases v@.len() - i,
    {
        let ghost before = all.subrange(0, i as int);
        proof {
            assert(all.subrange(0, i + 1) =~= before.push(all[i as int]));
            before.lemma_filter_push(all[i as int], pred);
        }
        if insight_matches(&v[i], category, keyword) {
            let ghost prev = out@;
            out.push(v[i].duplicate());
            assert(insights_view(out@) =~= insights_view(prev).push(all[i as int]));
        }
        i = i + 1;
    }
    assert(all.subrange(0, v@.len() as int) =~= all);
    out
}

} // verus!
