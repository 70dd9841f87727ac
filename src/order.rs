//! Newest-first ordering of timestamped records, and the selection of the
//! newest few.
use vstd::prelude::*;
use crate::types::{Insight, InsightView, Message, MessageView};

verus! {

broadcast use vstd::seq_lib::group_to_multiset_ensures;

/// `s` is ordered by non-increasing `stamp`.
pub open spec fn newest_first_by<A>(s: Seq<A>, stamp: spec_fn(A) -> int) -> bool {
    forall|i: int, j: int| 0 <= i < j < s.len() ==> stamp(s[i]) >= stamp(s[j])
}

/// The smaller of `limit` and `n`.
pub open spec fn capped(limit: nat, n: nat) -> int {
    if limit < n { limit as int } else { n as int }
}

/// `r` is a newest-first selection of at most `limit` records of `all`: the
/// first `limit` records of some newest-first arrangement of all of them.
pub open spec fn newest_selection<A>(
    all: Seq<A>,
    r: Seq<A>,
    limit: nat,
    stamp: spec_fn(A) -> int,
) -> bool {
    exists|p: Seq<A>|
        #![trigger p.to_multiset(), newest_first_by(p, stamp)]
        p.to_multiset() == all.to_multiset() && newest_first_by(p, stamp) && r == p.take(
            capped(limit, p.len()),
        )
}

/// The timestamp of a message.
pub open spec fn message_stamp() -> spec_fn(MessageView) -> int {
    |m: MessageView| m.timestamp as int
}

/// The timestamp of an insight.
pub open spec fn insight_stamp() -> spec_fn(InsightView) -> int {
    |i: InsightView| i.timestamp as int
}

/// The views of a list of messages.
pub open spec fn messages_view(v: Seq<Message>) -> Seq<MessageView> {
    v.map_values(|m: Message| m@)
}

/// The views of a list of insights.
pub open spec fn insights_view(v: Seq<Insight>) -> Seq<InsightView> {
    v.map_values(|i: Insight| i@)
}

/// A newest-first selection never holds more than `limit` records, nor more
/// than there are, and is itself ordered newest first; when `limit` covers
/// every record, it holds each of them.
pub proof fn lemma_newest_selection<A>(all: Seq<A>, r: Seq<A>, limit: nat, stamp: spec_fn(A) -> int)
    requires
        newest_selection(all, r, limit, stamp),
    ensures
        r.len() <= limit,
        r.len() == capped(limit, all.len()),
        newest_first_by(r, stamp),
        limit >= all.len() ==> r.to_multiset() == all.to_multiset(),
{
    let p = choose|p: Seq<A>|
        #![trigger p.to_multiset(), newest_first_by(p, stamp)]
        p.to_multiset() == all.to_multiset() && newest_first_by(p, stamp) && r == p.take(
            capped(limit, p.len()),
        );
    assert(p.len() == all.len()) by {
        p.to_multiset_ensures();
        all.to_multiset_ensures();
    }
    if limit >= all.len() {
        assert(r =~= p);
    }
}

/// Inserting `x` at the first position whose record is not newer keeps a
/// newest-first sequence newest first.
proof fn lemma_insert_keeps_order<A>(prev: Seq<A>, j: int, x: A, stamp: spec_fn(A) -> int)
    requires
        newest_first_by(prev, stamp),
        0 <= j <= prev.len(),
        forall|k: int| 0 <= k < j ==> stamp(prev[k]) >= stamp(x),
        j < prev.len() ==> stamp(prev[j]) <= stamp(x),
    ensures
        newest_first_by(prev.insert(j, x), stamp),
{
    let q = prev.insert(j, x);
    assert forall|a: int, b: int| 0 <= a < b < q.len() implies stamp(q[a]) >= stamp(q[b]) by {
        if b < j {
        } else if b == j {
        } else if a < j {
            assert(q[b] == prev[b - 1]);
        } else if a == j {
            assert(q[b] == prev[b - 1]);
            assert(stamp(prev[j]) >= stamp(prev[b - 1]) || j == b - 1);
        } else {
            assert(q[a] == prev[a - 1]);
            assert(q[b] == prev[b - 1]);
        }
    }
}

/// The messages of `v`, rearranged newest first; among equal stamps the
/// later of `v` comes first.
pub fn sort_messages_newest_first(v: &Vec<Message>) -> (r: Vec<Message>)
    ensures
        messages_view(r@).to_multiset() == messages_view(v@).to_multiset(),
        newest_first_by(messages_view(r@), message_stamp()),
{
    let mut sorted: Vec<Message> = Vec::new();
    let mut i: usize = 0;
    while i < v.len()
        invariant
            i <= v@.len(),
            messages_view(sorted@).to_multiset() == messages_view(v@).subrange(0, i as int).to_multiset(),
            newest_first_by(messages_view(sorted@), message_stamp()),
        decreases v@.len() - i,
    {
        let x = v[i].duplicate();
        let ts = x.timestamp;
        let mut j: usize = 0;
        while j < sorted.len() && sorted[j].timestamp > ts
            invariant
                j <= sorted@.len(),
                forall|k: int| 0 <= k < j ==> sorted@[k].timestamp >= ts,
            decreases sorted@.len() - j,
        {
            j = j + 1;
        }
        let ghost prev = messages_view(sorted@);
        proof {
            lemma_insert_keeps_order(prev, j as int, x@, message_stamp());
            assert(messages_view(v@).subrange(0, i + 1) =~= messages_view(v@).subrange(0, i as int).push(
                v@[i as int]@,
            ));
        }
        sorted.insert(j, x);
        assert(messages_view(sorted@) =~= prev.insert(j as int, x@));
        i = i + 1;
    }
    assert(messages_view(v@).subrange(0, v@.len() as int) =~= messages_view(v@));
    sorted
}

/// The insights of `v`, rearranged newest first; among equal stamps the
/// later of `v` comes first.
pub fn sort_insights_newest_first(v: &Vec<Insight>) -> (r: Vec<Insight>)
    ensures
        insights_view(r@).to_multiset() == insights_view(v@).to_multiset(),
        newest_first_by(insights_view(r@), insight_stamp()),
{
    let mut sorted: Vec<Insight> = Vec::new();
    let mut i: usize = 0;
    while i < v.len()
        invariant
            i <= v@.len(),
            insights_view(sorted@).to_multiset() == insights_view(v@).subrange(0, i as int).to_multiset(),
            newest_first_by(insights_view(sorted@), insight_stamp()),
        decreases v@.len() - i,
    {
        let x = v[i].duplicate();
        let ts = x.timestamp;
        let mut j: usize = 0;
        while j < sorted.len() && sorted[j].timestamp > ts
            invariant
                j <= sorted@.len(),
                forall|k: int| 0 <= k < j ==> sorted@[k].timestamp >= ts,
            decreases sorted@.len() - j,
        {
            j = j + 1;
        }
        let ghost prev = insights_view(sorted@);
        proof {
            lemma_insert_keeps_order(prev, j as int, x@, insight_stamp());
            assert(insights_view(v@).subrange(0, i + 1) =~= insights_view(v@).subrange(0, i as int).push(
                v@[i as int]@,
            ));
        }
        sorted.insert(j, x);
        assert(insights_view(sorted@) =~= prev.insert(j as int, x@));
        i = i + 1;
    }
    assert(insights_view(v@).subrange(0, v@.len() as int) =~= insights_view(v@));
    sorted
}

/// The newest `limit` messages of `v`, newest first.
pub fn newest_messages(v: &Vec<Message>, limit: usize) -> (r: Vec<Message>)
    ensures
        newest_selection(messages_view(v@), messages_view(r@), limit as nat, message_stamp()),
{
    let mut sorted = sort_messages_newest_first(v);
    let ghost p = messages_view(sorted@);
    sorted.truncate(limit);
    proof {
        p.to_multiset_ensures();
        messages_view(v@).to_multiset_ensures();
        assert(messages_view(sorted@) =~= p.take(capped(limit as nat, p.len())));
    }
    sorted
}

/// The newest `limit` insights of `v`, newest first.
pub fn newest_insights(v: &Vec<Insight>, limit: usize) -> (r: Vec<Insight>)
    ensures
        newest_selection(insights_view(v@), insights_view(r@), limit as nat, insight_stamp()),
{
    let mut sorted = sort_insights_newest_first(v);
    let ghost p = insights_view(sorted@);
    sorted.truncate(limit);
    proof {
        p.to_multiset_ensures();
        insights_view(v@).to_multiset_ensures();
        assert(insights_view(sorted@) =~= p.take(capped(limit as nat, p.len())));
    }
    sorted
}

} // verus!
