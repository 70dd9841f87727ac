//! The relay service: the one component an agent process talks to. It
//! validates requests against the routing policy and drives the store; the
//! caller dispatches the notifications it asks for.
use vstd::prelude::*;
use crate::roles::{Role, role_of, route_allowed, targets_of};
use crate::store::{
    MessageStore, StoreError, StoreModel, new_insight, new_message, recorded_statuses, statuses_of,
};
use crate::order::{insight_stamp, insights_view, messages_view, newest_selection};
use crate::knowledge::selected_by;
use crate::types::{
    Insight, Message, MessageView, Priority, RoleStatus, StatusView, opt_str_view,
    parse_priority, parse_status, priority_of_token, status_of_token, strings_view,
};
use crate::text::str_eq;
use crate::trusted::now_millis;

verus! {

/// Why a relay request was refused.
#[derive(Clone, Copy, Debug, PartialEq, Eq, Structural)]
pub enum RelayError {
    /// The target token names none of the six roles.
    UnknownRole,
    /// A role tried to message itself.
    SelfSend,
    /// The routing policy forbids the route.
    RouteNotAllowed,
    /// The status token is not one of idle, working, blocked, done.
    InvalidStatus,
    /// The store refused the operation.
    Storage(StoreError),
}

/// One enqueued message, and whether this send set the target's pending
/// flag, so that the caller must dispatch a notification to the target.
pub struct Delivery {
    pub message: Message,
    pub notify: bool,
}

/// The answer to a status query.
pub enum StatusReport {
    /// Every recorded status, in the stable role order.
    All(Vec<RoleStatus>),
    /// The record of one role; `None` is "unknown".
    One(Role, Option<RoleStatus>),
}

/// The meaning of a relay service: the acting role and its store.
pub struct RelayModel {
    pub role: Role,
    pub store: StoreModel,
}

/// The validation of a send from `from` to the token `to`: the error, if
/// the request is refused.
pub open spec fn send_refusal(from: Role, to: Seq<char>) -> Option<RelayError> {
    match role_of(to) {
        None => Some(RelayError::UnknownRole),
        Some(t) => if t == from {
            Some(RelayError::SelfSend)
        } else if !route_allowed(from, t) {
            Some(RelayError::RouteNotAllowed)
        } else {
            None
        },
    }
}

/// The store after one accepted send: the message is enqueued, then the
/// target's pending flag is set.
pub open spec fn after_send(s: StoreModel, m: MessageView) -> StoreModel {
    s.sent(m).flagged(m.to)
}

/// The store after a broadcast from `from` to each of `targets` in turn,
/// every message stamped `ts`.
pub open spec fn after_broadcast(
    s: StoreModel,
    from: Role,
    targets: Seq<Role>,
    subject: Seq<char>,
    body: Seq<char>,
    priority: Priority,
    ts: i64,
) -> StoreModel
    decreases targets.len(),
{
    if targets.len() == 0 {
        s
    } else {
        after_send(
            after_broadcast(s, from, targets.drop_last(), subject, body, priority, ts),
            new_message(from, targets.last(), subject, body, priority, ts),
        )
    }
}

/// A broadcast leaves every well-formed store well formed and sets exactly
/// the pending flags of its targets.
pub proof fn lemma_broadcast_flags(
    s: StoreModel,
    from: Role,
    targets: Seq<Role>,
    subject: Seq<char>,
    body: Seq<char>,
    priority: Priority,
    ts: i64,
)
    requires
        s.well_formed(),
    ensures
        after_broadcast(s, from, targets, subject, body, priority, ts).well_formed(),
        forall|t: Role|
            #[trigger] after_broadcast(s, from, targets, subject, body, priority, ts).flag(t) == (s.flag(t)
                || targets.contains(t)),
    decreases targets.len(),
{
    if targets.len() > 0 {
        let init = targets.drop_last();
        lemma_broadcast_flags(s, from, init, subject, body, priority, ts);
        assert forall|t: Role| #[trigger] targets.contains(t) == (init.contains(t) || t == targets.last()) by {
            if targets.contains(t) {
                let k = choose|k: int| 0 <= k < targets.len() && targets[k] == t;
                if k < targets.len() - 1 {
                    assert(init[k] == t);
                }
            }
            if init.contains(t) {
                let k = choose|k: int| 0 <= k < init.len() && init[k] == t;
                assert(targets[k] == t);
            }
        }
        let prev = after_broadcast(s, from, init, subject, body, priority, ts);
        assert forall|t: Role|
            #[trigger] after_broadcast(s, from, targets, subject, body, priority, ts).flag(t) == (s.flag(t)
                || targets.contains(t)) by {
            assert(prev.flag(t) == (s.flag(t) || init.contains(t)));
            crate::roles::lemma_role_index_injective(t, targets.last());
        }
    }
}

/// A broadcast appends one message per target, in target order, after the
/// messages already there.
pub proof fn lemma_broadcast_messages(
    s: StoreModel,
    from: Role,
    targets: Seq<Role>,
    subject: Seq<char>,
    body: Seq<char>,
    priority: Priority,
    ts: i64,
)
    ensures
        after_broadcast(s, from, targets, subject, body, priority, ts).messages == s.messages
            + targets.map_values(|t: Role| new_message(from, t, subject, body, priority, ts)),
        after_broadcast(s, from, targets, subject, body, priority, ts).knowledge == s.knowledge,
        after_broadcast(s, from, targets, subject, body, priority, ts).statuses == s.statuses,
    decreases targets.len(),
{
    if targets.len() > 0 {
        lemma_broadcast_messages(s, from, targets.drop_last(), subject, body, priority, ts);
        assert(targets.map_values(|t: Role| new_message(from, t, subject, body, priority, ts)) =~= targets.drop_last().map_values(
            |t: Role| new_message(from, t, subject, body, priority, ts),
        ).push(new_message(from, targets.last(), subject, body, priority, ts)));
        assert(after_broadcast(s, from, targets, subject, body, priority, ts).messages =~= s.messages
            + targets.map_values(|t: Role| new_message(from, t, subject, body, priority, ts)));
    }
}

/// The service of one acting role over its store.
pub struct RelayService {
    role: Role,
    store: MessageStore,
    session_name: String,
    plugin_path: String,
}

impl View for RelayService {
    type V = RelayModel;

    closed spec fn view(&self) -> RelayModel {
        RelayModel { role: self.role, store: self.store@ }
    }
}

impl RelayService {
    /// A service acting as `role` over `store`; the session name and plugin
    /// path address the notification dispatcher.
    pub fn new(role: Role, store: MessageStore, session_name: String, plugin_path: String) -> (r: RelayService)
        ensures
            r@ == (RelayModel { role, store: store@ }),
    {
        RelayService { role, store, session_name, plugin_path }
    }

    /// The acting role.
    pub fn role(&self) -> (r: Role)
        ensures
            r == self@.role,
    {
        self.role
    }

    /// The store behind the service.
    pub fn store(&self) -> (r: &MessageStore)
        ensures
            r@ == self@.store,
    {
        &self.store
    }

    /// Gives the store back.
    pub fn into_store(self) -> (r: MessageStore)
        ensures
            r@ == self@.store,
    {
        self.store
    }

    /// The session that the notification dispatcher addresses.
    pub fn session_name(&self) -> &String {
        &self.session_name
    }

    /// The dispatcher plugin's location.
    pub fn plugin_path(&self) -> &String {
        &self.plugin_path
    }

    /// Sends a message stamped `timestamp` to the role named `to`. Refused,
    /// with nothing stored, for an unknown token, a send to oneself, or a
    /// route the policy forbids. Otherwise the message is stored and the
    /// target's pending flag set; `notify` is true exactly when this call set
    /// the flag.
    pub fn send_message_at(
        &mut self,
        to: &str,
        subject: &str,
        body: &str,
        priority: Option<&str>,
        timestamp: i64,
    ) -> (r: Result<Delivery, RelayError>)
        requires
            old(self)@.store.well_formed(),
        ensures
            final(self)@.role == old(self)@.role,
            final(self)@.store.well_formed(),
            match send_refusal(old(self)@.role, to@) {
                Some(e) => r == Err::<Delivery, RelayError>(e) && final(self)@ == old(self)@,
                None => r is Ok && r->Ok_0.message@ == new_message(
                    old(self)@.role,
                    role_of(to@)->0,
                    subject@,
                    body@,
                    priority_of_token(opt_str_view(priority)),
                    timestamp,
                ) && r->Ok_0.notify == !old(self)@.store.flag(role_of(to@)->0)
                    && final(self)@.store == after_send(old(self)@.store, r->Ok_0.message@),
            },
    {
        let target = match Role::from_name(to) {
            Some(t) => t,
            None => return Err(RelayError::UnknownRole),
        };
        if target == self.role {
            return Err(RelayError::SelfSend);
        }
        if !self.role.can_send_to(target) {
            return Err(RelayError::RouteNotAllowed);
        }
        let p = parse_priority(priority);
        let message = self.store.send_message_at(self.role, target, subject, body, p, timestamp);
        let notify = self.store.set_pending_role(target);
        Ok(Delivery { message, notify })
    }

    /// Sends a message, stamped with the current time, to the role named
    /// `to`; see `send_message_at`.
    pub fn send_message(&mut self, to: &str, subject: &str, body: &str, priority: Option<&str>) -> (r: Result<
        Delivery,
        RelayError,
    >)
        requires
            old(self)@.store.well_formed(),
        ensures
            final(self)@.role == old(self)@.role,
            final(self)@.store.well_formed(),
            match send_refusal(old(self)@.role, to@) {
                Some(e) => r == Err::<Delivery, RelayError>(e) && final(self)@ == old(self)@,
                None => r is Ok && r->Ok_0.message@ == new_message(
                    old(self)@.role,
                    role_of(to@)->0,
                    subject@,
                    body@,
                    priority_of_token(opt_str_view(priority)),
                    r->Ok_0.message.timestamp,
                ) && r->Ok_0.notify == !old(self)@.store.flag(role_of(to@)->0)
                    && final(self)@.store == after_send(old(self)@.store, r->Ok_0.message@),
            },
    {
        let now = now_millis();
        self.send_message_at(to, subject, body, priority, now)
    }

    /// The unread messages of the acting role, oldest first; they are marked
    /// read unless `mark_read` is `Some(false)`. Clears the pending flag.
    pub fn check_inbox(&mut self, mark_read: Option<bool>) -> (r: Result<Vec<Message>, RelayError>)
        requires
            old(self)@.store.well_formed(),
        ensures
            r is Ok,
            final(self)@.role == old(self)@.role,
            final(self)@.store.well_formed(),
            messages_view(r->Ok_0@) == old(self)@.store.delivered(
                old(self)@.role,
                mark_read != Some(false),
            ),
            final(self)@.store == old(self)@.store.inbox_checked(old(self)@.role, mark_read != Some(false)),
    {
        let mark = match mark_read {
            Some(b) => b,
            None => true,
        };
        Ok(self.store.check_inbox_role(self.role, mark))
    }

    /// The status of the role named `role`, or of every role for "all".
    pub fn get_status(&self, role: &str) -> (r: Result<StatusReport, RelayError>)
        requires
            self@.store.well_formed(),
        ensures
            role@ == "all"@ ==> r is Ok && r->Ok_0 is All && statuses_of(r->Ok_0->All_0@) == recorded_statuses(
                self@.store.statuses,
            ),
            role@ != "all"@ ==> match role_of(role@) {
                Some(x) => r is Ok && r->Ok_0 is One && r->Ok_0->One_0 == x && match self@.store.status(x) {
                    Some(st) => r->Ok_0->One_1 is Some && r->Ok_0->One_1->Some_0@ == st,
                    None => r->Ok_0->One_1 is None,
                },
                None => r == Err::<StatusReport, RelayError>(RelayError::UnknownRole),
            },
    {
        if str_eq(role, "all") {
            return match self.store.get_all_statuses() {
                Ok(v) => Ok(StatusReport::All(v)),
                Err(e) => Err(RelayError::Storage(e)),
            };
        }
        match Role::from_name(role) {
            Some(x) => {
                match self.store.get_status(x.as_str()) {
                    Ok(st) => {
                        proof {
                            crate::roles::lemma_role_name_round_trip(x);
                        }
                        Ok(StatusReport::One(x, st))
                    },
                    Err(e) => Err(RelayError::Storage(e)),
                }
            },
            None => Err(RelayError::UnknownRole),
        }
    }

    /// Overwrites the acting role's status record, stamped `timestamp`.
    /// An unknown status token is refused and changes nothing.
    pub fn update_status_at(&mut self, status: &str, task: Option<&str>, timestamp: i64) -> (r: Result<
        (),
        RelayError,
    >)
        requires
            old(self)@.store.well_formed(),
        ensures
            final(self)@.role == old(self)@.role,
            final(self)@.store.well_formed(),
            match status_of_token(status@) {
                Some(st) => r is Ok && final(self)@.store == old(self)@.store.status_set(
                    StatusView { role: old(self)@.role, status: st, task: opt_str_view(task), updated_at: timestamp },
                ),
                None => r == Err::<(), RelayError>(RelayError::InvalidStatus) && final(self)@ == old(self)@,
            },
    {
        match parse_status(status) {
            Ok(st) => {
                self.store.update_status_at(self.role, st, task, timestamp);
                Ok(())
            },
            Err(_) => Err(RelayError::InvalidStatus),
        }
    }

    /// Overwrites the acting role's status record, stamped with the current
    /// time. An unknown status token is refused and changes nothing.
    pub fn update_status(&mut self, status: &str, task: Option<&str>) -> (r: Result<(), RelayError>)
        requires
            old(self)@.store.well_formed(),
        ensures
            final(self)@.role == old(self)@.role,
            final(self)@.store.well_formed(),
            match status_of_token(status@) {
                Some(st) => r is Ok && exists|now: i64| final(self)@.store == old(self)@.store.status_set(
                    StatusView { role: old(self)@.role, status: st, task: opt_str_view(task), updated_at: now },
                ),
                None => r == Err::<(), RelayError>(RelayError::InvalidStatus) && final(self)@ == old(self)@,
            },
    {
        let now = now_millis();
        self.update_status_at(status, task, now)
    }

    /// Sends the same message, stamped `timestamp`, to every role the acting
    /// role may message, in the stable role order, each with its own pending
    /// flag and notification decision.
    pub fn broadcast_at(&mut self, subject: &str, body: &str, priority: Option<&str>, timestamp: i64) -> (r: Result<
        Vec<Delivery>,
        RelayError,
    >)
        requires
            old(self)@.store.well_formed(),
        ensures
            r is Ok,
            final(self)@.role == old(self)@.role,
            final(self)@.store.well_formed(),
            r->Ok_0@.len() == targets_of(old(self)@.role).len(),
            forall|k: int|
                0 <= k < r->Ok_0@.len() ==> (#[trigger] r->Ok_0@[k]).message@ == new_message(
                    old(self)@.role,
                    targets_of(old(self)@.role)[k],
                    subject@,
                    body@,
                    priority_of_token(opt_str_view(priority)),
                    timestamp,
                ) && r->Ok_0@[k].notify == !old(self)@.store.flag(targets_of(old(self)@.role)[k]),
            final(self)@.store == after_broadcast(
                old(self)@.store,
                old(self)@.role,
                targets_of(old(self)@.role),
                subject@,
                body@,
                priority_of_token(opt_str_view(priority)),
                timestamp,
            ),
    {
        let p = parse_priority(priority);
        let targets = self.role.allowed_targets();
        let ghost tg = targets_of(self.role);
        let ghost s0 = self.store@;
        proof {
            crate::roles::lemma_targets_match_routes(self.role);
        }
        let mut out: Vec<Delivery> = Vec::new();
        let mut i: usize = 0;
        while i < targets.len()
            invariant
                targets@ == tg,
                tg == targets_of(self.role),
                tg.no_duplicates(),
                self.role == old(self)@.role,
                s0 == old(self)@.store,
                s0.well_formed(),
                p == priority_of_token(opt_str_view(priority)),
                i <= tg.len(),
                self.store@ == after_broadcast(s0, self.role, tg.take(i as int), subject@, body@, p, timestamp),
                self.store@.well_formed(),
                out@.len() == i,
                forall|k: int|
                    0 <= k < i ==> (#[trigger] out@[k]).message@ == new_message(
                        self.role,
                        tg[k],
                        subject@,
                        body@,
                        p,
                        timestamp,
                    ) && out@[k].notify == !s0.flag(tg[k]),
            decreases tg.len() - i,
        {
            let t = targets[i];
            proof {
                lemma_broadcast_flags(s0, self.role, tg.take(i as int), subject@, body@, p, timestamp);
                assert(!tg.take(i as int).contains(t)) by {
                    if tg.take(i as int).contains(t) {
                        let k = choose|k: int| 0 <= k < i && tg.take(i as int)[k] == t;
                        assert(tg[k] == tg[i as int]);
                    }
                }
                assert(tg.take(i + 1).drop_last() =~= tg.take(i as int));
            }
            let ghost before = self.store@;
            let message = self.store.send_message_at(self.role, t, subject, body, p, timestamp);
            let notify = self.store.set_pending_role(t);
            assert(notify == !before.flag(t));
            assert(before.flag(t) == s0.flag(t));
            let ghost prev_out = out@;
            out.push(Delivery { message, notify });
            assert forall|k: int|
                0 <= k < i + 1 implies (#[trigger] out@[k]).message@ == new_message(
                    self.role,
                    tg[k],
                    subject@,
                    body@,
                    p,
                    timestamp,
                ) && out@[k].notify == !s0.flag(tg[k]) by {
                if k < i {
                    assert(out@[k] == prev_out[k]);
                }
            }
            i = i + 1;
        }
        assert(tg.take(tg.len() as int) =~= tg);
        Ok(out)
    }

    /// Sends the same message, stamped with the current time, to every role
    /// the acting role may message; see `broadcast_at`.
    pub fn broadcast(&mut self, subject: &str, body: &str, priority: Option<&str>) -> (r: Result<
        Vec<Delivery>,
        RelayError,
    >)
        requires
            old(self)@.store.well_formed(),
        ensures
            r is Ok,
            final(self)@.role == old(self)@.role,
            final(self)@.store.well_formed(),
            r->Ok_0@.len() == targets_of(old(self)@.role).len(),
            exists|ts: i64|
                final(self)@.store == after_broadcast(
                    old(self)@.store,
                    old(self)@.role,
                    targets_of(old(self)@.role),
                    subject@,
                    body@,
                    priority_of_token(opt_str_view(priority)),
                    ts,
                ) && forall|k: int|
                    0 <= k < r->Ok_0@.len() ==> (#[trigger] r->Ok_0@[k]).message@ == new_message(
                        old(self)@.role,
                        targets_of(old(self)@.role)[k],
                        subject@,
                        body@,
                        priority_of_token(opt_str_view(priority)),
                        ts,
                    ) && r->Ok_0@[k].notify == !old(self)@.store.flag(targets_of(old(self)@.role)[k]),
    {
        let now = now_millis();
        self.broadcast_at(subject, body, priority, now)
    }

    /// Records an insight in the knowledge base; tags default to none.
    pub fn share_insight(
        &mut self,
        category: &str,
        title: &str,
        content: &str,
        tags: Option<Vec<String>>,
    ) -> (r: Result<Insight, RelayError>)
        requires
            old(self)@.store.well_formed(),
        ensures
            final(self)@.role == old(self)@.role,
            final(self)@.store.well_formed(),
            match old(self)@.store.knowledge {
                Some(k) => r is Ok && r->Ok_0@ == new_insight(
                    old(self)@.role,
                    category@,
                    title@,
                    content@,
                    match tags {
                        Some(t) => strings_view(t@),
                        None => Seq::empty(),
                    },
                    r->Ok_0.timestamp,
                ) && final(self)@.store == old(self)@.store.insight_added(r->Ok_0@),
                None => r == Err::<Insight, RelayError>(RelayError::Storage(StoreError::KnowledgeNotConfigured))
                    && final(self)@ == old(self)@,
            },
    {
        let t = match tags {
            Some(t) => t,
            None => Vec::new(),
        };
        proof {
            assert(strings_view(Seq::<String>::empty()) =~= Seq::<Seq<char>>::empty());
        }
        match self.store.store_insight(self.role, category, title, content, t) {
            Ok(i) => Ok(i),
            Err(e) => Err(RelayError::Storage(e)),
        }
    }

    /// Searches the knowledge base, newest first; at most `limit` results,
    /// ten when no limit is given.
    pub fn query_insights(&self, category: Option<&str>, keyword: Option<&str>, limit: Option<usize>) -> (r: Result<
        Vec<Insight>,
        RelayError,
    >)
        ensures
            r is Ok,
            match self@.store.knowledge {
                Some(k) => newest_selection(
                    k.filter(selected_by(opt_str_view(category), opt_str_view(keyword))),
                    insights_view(r->Ok_0@),
                    (match limit {
                        Some(n) => n,
                        None => 10,
                    }) as nat,
                    insight_stamp(),
                ),
                None => r->Ok_0@.len() == 0,
            },
    {
        let n: usize = match limit {
            Some(n) => n,
            None => 10,
        };
        match self.store.query_insights(category, keyword, n) {
            Ok(v) => Ok(v),
            Err(e) => Err(RelayError::Storage(e)),
        }
    }
}

} // verus!
