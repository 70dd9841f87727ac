//! Properties that relate several operations of the relay, stated over the
//! model transitions that the operations' contracts use.
use vstd::prelude::*;
use crate::roles::{Role, is_worker, lemma_role_name_round_trip, role_name, targets_of};
use crate::store::{StoreModel, addressed_to, new_message, unread_for};
use crate::relay::{RelayError, after_send, after_broadcast, send_refusal, lemma_broadcast_messages};
use crate::order::{message_stamp, insight_stamp, newest_first_by, newest_selection, lemma_newest_selection};
use crate::knowledge::{selected_by, keyword_hit, folded_tags};
use crate::text::seq_contains;
use crate::trusted::lower_of;
use crate::types::{InsightView, MessageView, Priority};

verus! {

broadcast use vstd::seq_lib::group_to_multiset_ensures, vstd::seq_lib::group_filter_ensures;

/// A message appended to the store joins the unread messages of its target
/// at the end; other roles' unread messages stay as they were.
pub proof fn lemma_sent_unread(s: StoreModel, m: MessageView, r: Role)
    ensures
        s.sent(m).unread(r) == if m.to == r && !m.read {
            s.unread(r).push(m)
        } else {
            s.unread(r)
        },
{
    s.messages.lemma_filter_push(m, unread_for(r));
}

/// After a marking read of `r`'s mailbox, `r` has no unread message.
pub proof fn lemma_marked_has_no_unread(s: StoreModel, r: Role)
    ensures
        s.inbox_checked(r, true).unread(r).len() == 0,
{
    let ms = s.inbox_checked(r, true).messages;
    assert(ms.all(|x: MessageView| !unread_for(r)(x)));
    ms.lemma_all_neg_filter_empty(unread_for(r));
}

/// Sending a message to a role with no unread mail and then reading its
/// mailbox with marking returns exactly that message; a second read right
/// after returns nothing.
pub proof fn law_send_then_read_marked(
    s: StoreModel,
    from: Role,
    to: Role,
    subject: Seq<char>,
    body: Seq<char>,
    priority: Priority,
    ts: i64,
)
    requires
        s.well_formed(),
        s.unread(to).len() == 0,
    ensures
        ({
            let m = new_message(from, to, subject, body, priority, ts);
            let s1 = after_send(s, m);
            &&& s1.delivered(to, true).len() == 1
            &&& s1.delivered(to, true)[0].same_content(m)
            &&& s1.inbox_checked(to, true).delivered(to, true).len() == 0
        }),
{
    let m = new_message(from, to, subject, body, priority, ts);
    lemma_sent_unread(s, m, to);
    assert(after_send(s, m).unread(to) == s.sent(m).unread(to));
    lemma_marked_has_no_unread(after_send(s, m), to);
}

/// Reading a mailbox without marking returns a new message, and a later
/// marking read still returns it.
pub proof fn law_peek_then_read(
    s: StoreModel,
    from: Role,
    to: Role,
    subject: Seq<char>,
    body: Seq<char>,
    priority: Priority,
    ts: i64,
)
    requires
        s.well_formed(),
    ensures
        ({
            let m = new_message(from, to, subject, body, priority, ts);
            let s1 = after_send(s, m);
            let s2 = s1.inbox_checked(to, false);
            &&& s1.delivered(to, false).len() > 0
            &&& s1.delivered(to, false).last() == m
            &&& s2.delivered(to, true).len() > 0
            &&& s2.delivered(to, true).last().same_content(m)
        }),
{
    let m = new_message(from, to, subject, body, priority, ts);
    lemma_sent_unread(s, m, to);
    assert(after_send(s, m).unread(to) == s.unread(to).push(m));
    assert(after_send(s, m).inbox_checked(to, false).messages == after_send(s, m).messages);
}

/// Messages are never changed but for the read flag, which only goes from
/// false to true: reading a mailbox keeps every message in place with the
/// same content, and sending only appends.
pub proof fn law_messages_only_gain_read(s: StoreModel, r: Role, mark_read: bool, m: MessageView)
    ensures
        ({
            let c = s.inbox_checked(r, mark_read).messages;
            &&& c.len() == s.messages.len()
            &&& forall|i: int|
                0 <= i < c.len() ==> (#[trigger] c[i]).same_content(s.messages[i]) && (s.messages[i].read
                    ==> c[i].read)
        }),
        s.sent(m).messages.subrange(0, s.messages.len() as int) == s.messages,
{
    assert(s.sent(m).messages.subrange(0, s.messages.len() as int) =~= s.messages);
}

/// A status update overwrites the record of its own role and no other.
pub proof fn law_status_update_is_local(s: StoreModel, st: crate::types::StatusView, other: Role)
    requires
        s.well_formed(),
        other != st.role,
    ensures
        s.status_set(st).status(st.role) == Some(st),
        s.status_set(st).status(other) == s.status(other),
        s.status_set(st).messages == s.messages,
        s.status_set(st).pending == s.pending,
{
    crate::roles::lemma_role_index_injective(other, st.role);
}

/// Two `set_pending` calls in a row on a clear flag return true, then false.
pub proof fn law_set_pending_twice(s: StoreModel, r: Role)
    requires
        s.well_formed(),
        !s.flag(r),
    ensures
        !s.flag(r) == true,
        !s.flagged(r).flag(r) == false,
{
}

/// Reading a mailbox, with or without marking, leaves the reader's pending
/// flag clear, even when unread messages remain.
pub proof fn law_check_clears_pending(s: StoreModel, r: Role, mark_read: bool)
    requires
        s.well_formed(),
    ensures
        !s.inbox_checked(r, mark_read).flag(r),
        !mark_read ==> s.inbox_checked(r, mark_read).unread(r) == s.unread(r),
{
}

/// A broadcast from the mediator puts one message into the mailbox of the
/// coordinator and of each of the four workers, five in all, each with the
/// same subject and body and each unread in its own mailbox.
pub proof fn law_mediator_broadcast(
    s: StoreModel,
    subject: Seq<char>,
    body: Seq<char>,
    priority: Priority,
    ts: i64,
)
    requires
        s.well_formed(),
    ensures
        ({
            let f = after_broadcast(s, Role::Strategist, targets_of(Role::Strategist), subject, body, priority, ts);
            &&& f.messages.len() == s.messages.len() + 5
            &&& forall|t: Role| t != Role::Strategist ==> #[trigger] f.unread(t).contains(
                new_message(Role::Strategist, t, subject, body, priority, ts),
            )
            &&& forall|k: int| s.messages.len() <= k < f.messages.len() ==> (#[trigger] f.messages[k]).subject
                == subject && f.messages[k].body == body
        }),
{
    let tg = targets_of(Role::Strategist);
    let f = after_broadcast(s, Role::Strategist, tg, subject, body, priority, ts);
    lemma_broadcast_messages(s, Role::Strategist, tg, subject, body, priority, ts);
    let added = tg.map_values(|t: Role| new_message(Role::Strategist, t, subject, body, priority, ts));
    assert(f.messages == s.messages + added);
    assert forall|t: Role| t != Role::Strategist implies #[trigger] f.unread(t).contains(
        new_message(Role::Strategist, t, subject, body, priority, ts),
    ) by {
        let k: int = match t {
            Role::Overlord => 0,
            Role::Inferno => 1,
            Role::Glacier => 2,
            Role::Shadow => 3,
            _ => 4,
        };
        assert(tg[k] == t);
        let idx = s.messages.len() + k;
        assert(f.messages[idx] == new_message(Role::Strategist, t, subject, body, priority, ts));
        f.messages.lemma_filter_contains(unread_for(t), idx);
    }
}

/// A newest-first selection of the store's messages holds at most `limit`
/// of them, ordered by non-increasing timestamp.
pub proof fn law_recent_messages_bounded(s: StoreModel, r: Seq<MessageView>, limit: nat)
    requires
        newest_selection(s.messages, r, limit, message_stamp()),
    ensures
        r.len() <= limit,
        forall|i: int, j: int| 0 <= i < j < r.len() ==> r[i].timestamp >= r[j].timestamp,
{
    lemma_newest_selection(s.messages, r, limit, message_stamp());
}

/// Every insight that a query with a category filter returns has that
/// category.
pub proof fn law_category_filter(
    k: Seq<InsightView>,
    category: Seq<char>,
    keyword: Option<Seq<char>>,
    r: Seq<InsightView>,
    limit: nat,
)
    requires
        newest_selection(k.filter(selected_by(Some(category), keyword)), r, limit, insight_stamp()),
    ensures
        forall|i: int| 0 <= i < r.len() ==> (#[trigger] r[i]).category == category,
{
    let filtered = k.filter(selected_by(Some(category), keyword));
    let p = choose|p: Seq<InsightView>|
        #![trigger p.to_multiset(), newest_first_by(p, insight_stamp())]
        p.to_multiset() == filtered.to_multiset() && newest_first_by(p, insight_stamp()) && r == p.take(
            crate::order::capped(limit, p.len()),
        );
    assert forall|i: int| 0 <= i < r.len() implies (#[trigger] r[i]).category == category by {
        assert(r[i] == p[i]);
        assert(p.contains(p[i]));
        assert(p.to_multiset().count(p[i]) > 0);
        assert(filtered.to_multiset().count(p[i]) > 0);
        assert(filtered.contains(p[i]));
        let j = choose|j: int| 0 <= j < filtered.len() && filtered[j] == p[i];
        assert(selected_by(Some(category), keyword)(filtered[j]));
    }
}

/// A keyword query whose limit covers the knowledge base returns every
/// insight one of whose lower-cased tags contains the lower-cased keyword.
pub proof fn law_keyword_matches_tag(
    k: Seq<InsightView>,
    keyword: Seq<char>,
    insight: InsightView,
    tag: int,
    r: Seq<InsightView>,
    limit: nat,
)
    requires
        k.contains(insight),
        0 <= tag < insight.tags.len(),
        seq_contains(lower_of(insight.tags[tag]), lower_of(keyword)),
        limit >= k.len(),
        newest_selection(k.filter(selected_by(None, Some(keyword))), r, limit, insight_stamp()),
    ensures
        r.contains(insight),
{
    let pred = selected_by(None, Some(keyword));
    let filtered = k.filter(pred);
    assert(folded_tags(insight.tags)[tag] == lower_of(insight.tags[tag]));
    assert(keyword_hit(insight, keyword));
    assert(pred(insight));
    let j = choose|j: int| 0 <= j < k.len() && k[j] == insight;
    k.lemma_filter_contains(pred, j);
    lemma_newest_selection(filtered, r, limit, insight_stamp());
    assert(filtered.to_multiset().count(insight) > 0);
    assert(r.to_multiset().count(insight) > 0);
}

/// Cleanup leaves every role without a status record and every mailbox
/// empty and every flag clear, but keeps the knowledge base as it was.
pub proof fn law_cleanup_keeps_knowledge(s: StoreModel, r: Role)
    requires
        s.well_formed(),
    ensures
        s.cleared().status(r) is None,
        s.cleared().mailbox(r).len() == 0,
        !s.cleared().flag(r),
        s.cleared().knowledge == s.knowledge,
        s.cleared().well_formed(),
{
    let e = s.cleared().messages;
    assert(e.all(|x: MessageView| !addressed_to(r)(x)));
    e.lemma_all_neg_filter_empty(addressed_to(r));
    crate::roles::lemma_role_index_injective(r, r);
}

/// An insight stored before a cleanup is still returned afterwards by an
/// unfiltered query whose limit covers the knowledge base.
pub proof fn law_insight_survives_cleanup(
    s: StoreModel,
    insight: InsightView,
    r: Seq<InsightView>,
    limit: nat,
)
    requires
        s.well_formed(),
        s.knowledge is Some,
        s.knowledge->0.contains(insight),
        limit >= s.knowledge->0.len(),
        newest_selection(s.cleared().knowledge->0.filter(selected_by(None, None)), r, limit, insight_stamp()),
    ensures
        r.contains(insight),
{
    let k = s.cleared().knowledge->0;
    let pred = selected_by(None, None);
    let filtered = k.filter(pred);
    let j = choose|j: int| 0 <= j < k.len() && k[j] == insight;
    assert(pred(k[j]));
    k.lemma_filter_contains(pred, j);
    lemma_newest_selection(filtered, r, limit, insight_stamp());
    assert(filtered.to_multiset().count(insight) > 0);
    assert(r.to_multiset().count(insight) > 0);
}

/// Two sends to a role with a clear flag and no unread mail: the first sets
/// the flag (so it notifies), the second finds it set (so it does not), and
/// a read returns both messages in the order they were sent.
pub proof fn law_two_sends_then_read(s: StoreModel, m1: MessageView, m2: MessageView)
    requires
        s.well_formed(),
        m1.to == m2.to,
        !m1.read,
        !m2.read,
        !s.flag(m1.to),
        s.unread(m1.to).len() == 0,
    ensures
        ({
            let t = m1.to;
            let s1 = after_send(s, m1);
            let s2 = after_send(s1, m2);
            &&& !s.sent(m1).flag(t) == true
            &&& !s1.sent(m2).flag(t) == false
            &&& s2.delivered(t, true) == seq![m1.with_read(true), m2.with_read(true)]
        }),
{
    let t = m1.to;
    let s1 = after_send(s, m1);
    lemma_sent_unread(s, m1, t);
    assert(s1.unread(t) == s.sent(m1).unread(t));
    lemma_sent_unread(s1, m2, t);
    assert(after_send(s1, m2).unread(t) == s1.sent(m2).unread(t));
    assert(after_send(s1, m2).unread(t) =~= seq![m1, m2]);
    assert(after_send(s1, m2).delivered(t, true) =~= seq![m1.with_read(true), m2.with_read(true)]);
}

/// The coordinator cannot message a worker directly: the send is refused as
/// a forbidden route (and a refused send leaves the store unchanged).
pub proof fn law_coordinator_cannot_reach_worker(w: Role)
    requires
        is_worker(w),
    ensures
        send_refusal(Role::Overlord, role_name(w)) == Some(RelayError::RouteNotAllowed),
{
    lemma_role_name_round_trip(w);
}

} // verus!
