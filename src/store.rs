//! The relay store: per-role mailboxes, status records and pending flags,
//! plus the session-spanning knowledge base.
//!
//! The store is a value whose meaning is a `StoreModel`; every operation
//! states its effect as a transition of that model.
use vstd::prelude::*;
use std::path::PathBuf;
use crate::roles::{Role, all_roles, role_index, role_of};
use crate::types::{
    Insight, InsightView, Message, MessageView, Priority, RoleStatus, Status, StatusView,
    copy_strings, make_record_id, opt_str_view, own_opt, record_id, strings_view,
};
use crate::trusted::now_millis;
use crate::order::{
    insight_stamp, insights_view, message_stamp, messages_view, newest_insights, newest_messages,
    newest_selection,
};
use crate::knowledge::{select_insights, selected_by};

verus! {

broadcast use vstd::seq_lib::group_to_multiset_ensures;

/// Why a store operation was refused.
#[derive(Clone, Copy, Debug, PartialEq, Eq, Structural)]
pub enum StoreError {
    /// The token names none of the six roles.
    UnknownRole,
    /// No knowledge directory was configured for this store.
    KnowledgeNotConfigured,
}

/// The meaning of a store.
pub struct StoreModel {
    /// Every message of every mailbox, in the order of creation.
    pub messages: Seq<MessageView>,
    /// The status record of each role, by role index; `None` is "unknown".
    pub statuses: Seq<Option<StatusView>>,
    /// The pending-notification flag of each role, by role index.
    pub pending: Seq<bool>,
    /// The insights, or `None` when no knowledge directory is configured.
    pub knowledge: Option<Seq<InsightView>>,
}

/// Selects the unread messages addressed to `r`.
pub open spec fn unread_for(r: Role) -> spec_fn(MessageView) -> bool {
    |m: MessageView| m.to == r && !m.read
}

/// Selects the messages addressed to `r`.
pub open spec fn addressed_to(r: Role) -> spec_fn(MessageView) -> bool {
    |m: MessageView| m.to == r
}

/// Marks the messages addressed to `r` as read.
pub open spec fn mark_for(r: Role) -> spec_fn(MessageView) -> MessageView {
    |m: MessageView| if m.to == r { m.with_read(true) } else { m }
}

/// Sets the read flag of a message to `read`.
pub open spec fn read_as(read: bool) -> spec_fn(MessageView) -> MessageView {
    |m: MessageView| m.with_read(read)
}

/// The message that `send` creates.
pub open spec fn new_message(
    from: Role,
    to: Role,
    subject: Seq<char>,
    body: Seq<char>,
    priority: Priority,
    timestamp: i64,
) -> MessageView {
    MessageView {
        id: record_id(timestamp, from),
        from,
        to,
        subject,
        body,
        priority,
        timestamp,
        read: false,
    }
}

/// The status record that `init` gives a role that has none.
pub open spec fn idle_status(r: Role, now: i64) -> StatusView {
    StatusView { role: r, status: Status::Idle, task: None, updated_at: now }
}

/// A store with nothing in it and no knowledge directory.
pub open spec fn empty_model() -> StoreModel {
    StoreModel {
        messages: Seq::empty(),
        statuses: Seq::new(6, |i: int| None),
        pending: Seq::new(6, |i: int| false),
        knowledge: None,
    }
}

/// The insight that `store_insight` creates.
pub open spec fn new_insight(
    from: Role,
    category: Seq<char>,
    title: Seq<char>,
    content: Seq<char>,
    tags: Seq<Seq<char>>,
    timestamp: i64,
) -> InsightView {
    InsightView { id: record_id(timestamp, from), from, category, title, content, tags, timestamp }
}

impl StoreModel {
    /// One status slot and one pending flag per role.
    pub open spec fn well_formed(self) -> bool {
        self.statuses.len() == 6 && self.pending.len() == 6
    }

    /// The mailbox of `r`: every message addressed to it, oldest first.
    pub open spec fn mailbox(self, r: Role) -> Seq<MessageView> {
        self.messages.filter(addressed_to(r))
    }

    /// The unread messages addressed to `r`, oldest first.
    pub open spec fn unread(self, r: Role) -> Seq<MessageView> {
        self.messages.filter(unread_for(r))
    }

    /// The pending flag of `r`.
    pub open spec fn flag(self, r: Role) -> bool {
        self.pending[role_index(r)]
    }

    /// The status record of `r`, if any.
    pub open spec fn status(self, r: Role) -> Option<StatusView> {
        self.statuses[role_index(r)]
    }

    /// After `send`: the message is appended.
    pub open spec fn sent(self, m: MessageView) -> StoreModel {
        StoreModel { messages: self.messages.push(m), ..self }
    }

    /// After `check_inbox(r, mark_read)`: with `mark_read` every message of
    /// `r` is read; in any case the pending flag of `r` is clear.
    pub open spec fn inbox_checked(self, r: Role, mark_read: bool) -> StoreModel {
        StoreModel {
            messages: if mark_read {
                self.messages.map_values(mark_for(r))
            } else {
                self.messages
            },
            pending: self.pending.update(role_index(r), false),
            ..self
        }
    }

    /// What `check_inbox(r, mark_read)` returns: the unread messages of `r`,
    /// oldest first, with the read flag they now carry.
    pub open spec fn delivered(self, r: Role, mark_read: bool) -> Seq<MessageView> {
        self.unread(r).map_values(read_as(mark_read))
    }

    /// After `set_pending(r)`: the flag of `r` is set.
    pub open spec fn flagged(self, r: Role) -> StoreModel {
        StoreModel { pending: self.pending.update(role_index(r), true), ..self }
    }

    /// After `update_status`: the record of `st.role` is overwritten.
    pub open spec fn status_set(self, st: StatusView) -> StoreModel {
        StoreModel { statuses: self.statuses.update(role_index(st.role), Some(st)), ..self }
    }

    /// After `init` at time `now`: every role without a record is idle.
    pub open spec fn initialized(self, now: i64) -> StoreModel {
        StoreModel {
            statuses: Seq::new(
                6,
                |i: int|
                    if self.statuses[i] is Some {
                        self.statuses[i]
                    } else {
                        Some(idle_status(all_roles()[i], now))
                    },
            ),
            ..self
        }
    }

    /// After `cleanup`: no message, no record, no flag; knowledge is kept.
    pub open spec fn cleared(self) -> StoreModel {
        StoreModel {
            messages: Seq::empty(),
            statuses: Seq::new(6, |i: int| None),
            pending: Seq::new(6, |i: int| false),
            knowledge: self.knowledge,
        }
    }

    /// After a knowledge directory is configured.
    pub open spec fn with_knowledge(self) -> StoreModel {
        StoreModel {
            knowledge: Some(
                match self.knowledge {
                    Some(k) => k,
                    None => Seq::empty(),
                },
            ),
            ..self
        }
    }

    /// After `store_insight`: the insight is appended.
    pub open spec fn insight_added(self, i: InsightView) -> StoreModel {
        StoreModel { knowledge: Some(self.knowledge->0.push(i)), ..self }
    }
}

/// The relay store of one session, rooted at a base directory, with an
/// optional knowledge directory that outlives the session.
pub struct MessageStore {
    base_dir: PathBuf,
    knowledge_dir: Option<PathBuf>,
    messages: Vec<Message>,
    statuses: Vec<Option<RoleStatus>>,
    pending: Vec<bool>,
    insights: Vec<Insight>,
}

/// The view of one status slot.
pub open spec fn slot_view(o: Option<RoleStatus>) -> Option<StatusView> {
    match o {
        Some(s) => Some(s@),
        None => None,
    }
}

/// The views of a list of status slots.
pub open spec fn statuses_view(v: Seq<Option<RoleStatus>>) -> Seq<Option<StatusView>> {
    v.map_values(|o: Option<RoleStatus>| slot_view(o))
}

/// Selects the slots that hold a record.
pub open spec fn is_recorded() -> spec_fn(Option<StatusView>) -> bool {
    |o: Option<StatusView>| o is Some
}

/// Takes the record out of a slot that holds one.
pub open spec fn record_in() -> spec_fn(Option<StatusView>) -> StatusView {
    |o: Option<StatusView>| o->0
}

/// The records held by a list of slots, in slot order.
pub open spec fn recorded_statuses(s: Seq<Option<StatusView>>) -> Seq<StatusView> {
    s.filter(is_recorded()).map_values(record_in())
}

/// The views of a list of status records.
pub open spec fn statuses_of(v: Seq<RoleStatus>) -> Seq<StatusView> {
    v.map_values(|s: RoleStatus| s@)
}

impl View for MessageStore {
    type V = StoreModel;

    closed spec fn view(&self) -> StoreModel {
        StoreModel {
            messages: messages_view(self.messages@),
            statuses: statuses_view(self.statuses@),
            pending: self.pending@,
            knowledge: if self.knowledge_dir is Some {
                Some(insights_view(self.insights@))
            } else {
                None
            },
        }
    }
}

fn role_slot(r: Role) -> (i: usize)
    ensures
        i == role_index(r),
{
    r.pane_id() as usize
}

impl MessageStore {
    /// A store rooted at `base_dir`, empty, without a knowledge directory.
    pub fn new(base_dir: PathBuf) -> (r: MessageStore)
        ensures
            r@ == empty_model(),
    {
        let r = MessageStore {
            base_dir,
            knowledge_dir: None,
            messages: Vec::new(),
            statuses: vec![None, None, None, None, None, None],
            pending: vec![false, false, false, false, false, false],
            insights: Vec::new(),
        };
        assert(r@.statuses =~= empty_model().statuses);
        assert(r@.pending =~= empty_model().pending);
        assert(r@.messages =~= empty_model().messages);
        r
    }

    /// The same store with a knowledge directory.
    pub fn with_knowledge_dir(self, dir: PathBuf) -> (r: MessageStore)
        ensures
            r@ == self@.with_knowledge(),
    {
        let mut s = self;
        if s.knowledge_dir.is_none() {
            s.insights = Vec::new();
        }
        s.knowledge_dir = Some(dir);
        proof {
            if self.knowledge_dir is None {
                assert(insights_view(s.insights@) =~= Seq::<InsightView>::empty());
            }
        }
        s
    }

    /// The base directory of the relay data.
    pub fn base_dir(&self) -> &PathBuf {
        &self.base_dir
    }

    /// The knowledge directory, if one is configured.
    pub fn knowledge_dir(&self) -> (r: &Option<PathBuf>)
        ensures
            r is Some <==> self@.knowledge is Some,
    {
        &self.knowledge_dir
    }

    /// Gives every role without a status record an idle one stamped `now`.
    /// Calling it again changes nothing.
    pub fn init_at(&mut self, now: i64)
        requires
            old(self)@.well_formed(),
        ensures
            final(self)@ == old(self)@.initialized(now),
            final(self)@.well_formed(),
    {
        let roles = Role::all();
        let mut i: usize = 0;
        while i < 6
            invariant
                roles@ == all_roles(),
                i <= 6,
                self.statuses@.len() == 6,
                old(self).statuses@.len() == 6,
                self.messages == old(self).messages,
                self.pending == old(self).pending,
                self.insights == old(self).insights,
                self.knowledge_dir == old(self).knowledge_dir,
                forall|k: int| 0 <= k < i ==> slot_view(self.statuses@[k])
                    == old(self)@.initialized(now).statuses[k],
                forall|k: int| i <= k < 6 ==> self.statuses@[k] == old(self).statuses@[k],
            decreases 6 - i,
        {
            if self.statuses[i].is_none() {
                let st = RoleStatus { role: roles[i], status: Status::Idle, task: None, updated_at: now };
                self.statuses.set(i, Some(st));
            }
            assert(slot_view(self.statuses@[i as int]) == old(self)@.initialized(now).statuses[i as int]);
            i = i + 1;
        }
        assert(self@.statuses =~= old(self)@.initialized(now).statuses);
        assert(self@.messages =~= old(self)@.messages);
    }

    /// Creates the layout of the store: every role without a status record
    /// becomes idle, stamped with the current time. Idempotent.
    pub fn init(&mut self) -> (r: Result<(), StoreError>)
        requires
            old(self)@.well_formed(),
        ensures
            r is Ok,
            exists|now: i64| final(self)@ == old(self)@.initialized(now),
            final(self)@.well_formed(),
    {
        let now = now_millis();
        self.init_at(now);
        Ok(())
    }

    /// Puts a new unread message, stamped `timestamp`, into the mailbox of
    /// `to`. Routes are not checked here.
    pub fn send_message_at(
        &mut self,
        from: Role,
        to: Role,
        subject: &str,
        body: &str,
        priority: Priority,
        timestamp: i64,
    ) -> (r: Message)
        requires
            old(self)@.well_formed(),
        ensures
            r@ == new_message(from, to, subject@, body@, priority, timestamp),
            final(self)@ == old(self)@.sent(r@),
            final(self)@.well_formed(),
    {
        let msg = Message {
            id: make_record_id(timestamp, from),
            from,
            to,
            subject: subject.to_owned(),
            body: body.to_owned(),
            priority,
            timestamp,
            read: false,
        };
        self.messages.push(msg.duplicate());
        assert(self@.messages =~= old(self)@.messages.push(msg@));
        msg
    }

    /// Puts a new unread message, stamped with the current time, into the
    /// mailbox of `to`. Routes are not checked here.
    pub fn send_message(
        &mut self,
        from: Role,
        to: Role,
        subject: &str,
        body: &str,
        priority: Priority,
    ) -> (r: Result<Message, StoreError>)
        requires
            old(self)@.well_formed(),
        ensures
            r is Ok,
            r->Ok_0@ == new_message(from, to, subject@, body@, priority, r->Ok_0.timestamp),
            final(self)@ == old(self)@.sent(r->Ok_0@),
            final(self)@.well_formed(),
    {
        let now = now_millis();
        Ok(self.send_message_at(from, to, subject, body, priority, now))
    }

    /// Sets the pending flag of `role`; true only if this call changed it
    /// from clear to set.
    pub fn set_pending_role(&mut self, role: Role) -> (r: bool)
        requires
            old(self)@.well_formed(),
        ensures
            r == !old(self)@.flag(role),
            final(self)@ == old(self)@.flagged(role),
            final(self)@.well_formed(),
    {
        let i = role_slot(role);
        let was = self.pending[i];
        self.pending.set(i, true);
        assert(self@.pending =~= old(self)@.flagged(role).pending);
        assert(self@.messages =~= old(self)@.messages);
        !was
    }

    /// Sets the pending flag of the role named `role`: `Ok(true)` only if
    /// this call changed it from clear to set, `Ok(false)` if it was set.
    /// An unknown token is refused and changes nothing.
    pub fn set_pending(&mut self, role: &str) -> (r: Result<bool, StoreError>)
        requires
            old(self)@.well_formed(),
        ensures
            final(self)@.well_formed(),
            match role_of(role@) {
                Some(x) => r == Ok::<bool, StoreError>(!old(self)@.flag(x)) && final(self)@ == old(self)@.flagged(x),
                None => r == Err::<bool, StoreError>(StoreError::UnknownRole) && final(self)@ == old(self)@,
            },
    {
        match Role::from_name(role) {
            Some(x) => Ok(self.set_pending_role(x)),
            None => Err(StoreError::UnknownRole),
        }
    }

    /// Is the pending flag of the role named `role` set? False for an
    /// unknown token.
    pub fn has_pending(&self, role: &str) -> (r: bool)
        requires
            self@.well_formed(),
        ensures
            r == match role_of(role@) {
                Some(x) => self@.flag(x),
                None => false,
            },
    {
        match Role::from_name(role) {
            Some(x) => self.pending[role_slot(x)],
            None => false,
        }
    }

    /// Overwrites the status record of `role` with one stamped `now`.
    pub fn update_status_at(&mut self, role: Role, status: Status, task: Option<&str>, now: i64)
        requires
            old(self)@.well_formed(),
        ensures
            final(self)@ == old(self)@.status_set(
                StatusView { role, status, task: opt_str_view(task), updated_at: now },
            ),
            final(self)@.well_formed(),
    {
        let st = RoleStatus { role, status, task: own_opt(task), updated_at: now };
        self.statuses.set(role_slot(role), Some(st));
        assert(self@.statuses =~= old(self)@.status_set(
            StatusView { role, status, task: opt_str_view(task), updated_at: now },
        ).statuses);
        assert(self@.messages =~= old(self)@.messages);
    }

    /// Overwrites the status record of `role`, stamped with the current time.
    pub fn update_status(&mut self, role: Role, status: Status, task: Option<&str>) -> (r: Result<(), StoreError>)
        requires
            old(self)@.well_formed(),
        ensures
            r is Ok,
            exists|now: i64| final(self)@ == old(self)@.status_set(
                StatusView { role, status, task: opt_str_view(task), updated_at: now },
            ),
            final(self)@.well_formed(),
    {
        let now = now_millis();
        self.update_status_at(role, status, task, now);
        Ok(())
    }

    /// The status record of the role named `role`; `None` ("unknown") when
    /// it has none or the token names no role.
    pub fn get_status(&self, role: &str) -> (r: Result<Option<RoleStatus>, StoreError>)
        requires
            self@.well_formed(),
        ensures
            r is Ok,
            match role_of(role@) {
                Some(x) => match self@.status(x) {
                    Some(st) => r->Ok_0 is Some && r->Ok_0->Some_0@ == st,
                    None => r->Ok_0 is None,
                },
                None => r->Ok_0 is None,
            },
    {
        match Role::from_name(role) {
            Some(x) => {
                let i = role_slot(x);
                match &self.statuses[i] {
                    Some(st) => Ok(Some(st.duplicate())),
                    None => Ok(None),
                }
            },
            None => Ok(None),
        }
    }

    /// Returns the unread messages of `role`, oldest first; with `mark_read`
    /// they are marked read (and returned so). The pending flag of `role` is
    /// cleared in every case.
    pub fn check_inbox_role(&mut self, role: Role, mark_read: bool) -> (r: Vec<Message>)
        requires
            old(self)@.well_formed(),
        ensures
            messages_view(r@) == old(self)@.delivered(role, mark_read),
            final(self)@ == old(self)@.inbox_checked(role, mark_read),
            final(self)@.well_formed(),
    {
        let ghost old_msgs = old(self)@.messages;
        let mut out: Vec<Message> = Vec::new();
        let n = self.messages.len();
        let mut i: usize = 0;
        while i < n
            invariant
                n == old_msgs.len(),
                old_msgs == old(self)@.messages,
                i <= n,
                self.messages@.len() == n,
                self.statuses == old(self).statuses,
                self.pending == old(self).pending,
                self.insights == old(self).insights,
                self.knowledge_dir == old(self).knowledge_dir,
                forall|k: int| 0 <= k < i ==> self.messages@[k]@ == (if mark_read {
                    mark_for(role)(old_msgs[k])
                } else {
                    old_msgs[k]
                }),
                forall|k: int| i <= k < n ==> self.messages@[k]@ == old_msgs[k],
                messages_view(out@) == old_msgs.subrange(0, i as int).filter(unread_for(role)).map_values(
                    read_as(mark_read),
                ),
            decreases n - i,
        {
            let ghost before = old_msgs.subrange(0, i as int);
            proof {
                assert(old_msgs.subrange(0, i + 1) =~= before.push(old_msgs[i as int]));
                before.lemma_filter_push(old_msgs[i as int], unread_for(role));
            }
            let is_target = self.messages[i].to == role && !self.messages[i].read;
            if is_target {
                let mut m = self.messages[i].duplicate();
                if mark_read {
                    m.read = true;
                    self.messages.set(i, m.duplicate());
                }
                let ghost prev_out = out@;
                out.push(m);
                assert(messages_view(out@) =~= messages_view(prev_out).push(m@));
                assert(messages_view(out@) =~= old_msgs.subrange(0, i + 1).filter(unread_for(role)).map_values(
                    read_as(mark_read),
                ));
            } else {
                assert(old_msgs.subrange(0, i + 1).filter(unread_for(role)) == before.filter(unread_for(role)));
            }
            i = i + 1;
        }
        self.pending.set(role_slot(role), false);
        assert(old_msgs.subrange(0, n as int) =~= old_msgs);
        assert(self@.pending =~= old(self)@.inbox_checked(role, mark_read).pending);
        assert(self@.messages =~= old(self)@.inbox_checked(role, mark_read).messages);
        out
    }

    /// Returns the unread messages of the role named `role`, oldest first,
    /// marking them read with `mark_read`, and clears its pending flag. An
    /// unknown token has an empty mailbox and no flag: nothing changes.
    pub fn check_inbox(&mut self, role: &str, mark_read: bool) -> (r: Result<Vec<Message>, StoreError>)
        requires
            old(self)@.well_formed(),
        ensures
            r is Ok,
            final(self)@.well_formed(),
            match role_of(role@) {
                Some(x) => messages_view(r->Ok_0@) == old(self)@.delivered(x, mark_read)
                    && final(self)@ == old(self)@.inbox_checked(x, mark_read),
                None => r->Ok_0@.len() == 0 && final(self)@ == old(self)@,
            },
    {
        match Role::from_name(role) {
            Some(x) => Ok(self.check_inbox_role(x, mark_read)),
            None => Ok(Vec::new()),
        }
    }

    /// The status records that exist, in the stable role order.
    pub fn get_all_statuses(&self) -> (r: Result<Vec<RoleStatus>, StoreError>)
        requires
            self@.well_formed(),
        ensures
            r is Ok,
            statuses_of(r->Ok_0@) == recorded_statuses(self@.statuses),
    {
        let mut out: Vec<RoleStatus> = Vec::new();
        let mut i: usize = 0;
        let ghost all = self@.statuses;
        while i < 6
            invariant
                all == self@.statuses,
                all.len() == 6,
                self.statuses@.len() == 6,
                i <= 6,
                statuses_of(out@) == recorded_statuses(all.subrange(0, i as int)),
            decreases 6 - i,
        {
            let ghost before = all.subrange(0, i as int);
            proof {
                assert(all.subrange(0, i + 1) =~= before.push(all[i as int]));
                before.lemma_filter_push(all[i as int], is_recorded());
            }
            match &self.statuses[i] {
                Some(st) => {
                    let ghost prev = out@;
                    out.push(st.duplicate());
                    assert(statuses_of(out@) =~= statuses_of(prev).push(st@));
                    assert(statuses_of(out@) =~= recorded_statuses(all.subrange(0, i + 1)));
                },
                None => {
                    assert(recorded_statuses(all.subrange(0, i + 1)) =~= recorded_statuses(before));
                },
            }
            i = i + 1;
        }
        assert(all.subrange(0, 6) =~= all);
        Ok(out)
    }

    /// Every message of every mailbox, newest first, cut to `limit`. Read
    /// flags and pending flags are left as they are.
    pub fn recent_messages(&self, limit: usize) -> (r: Result<Vec<Message>, StoreError>)
        ensures
            r is Ok,
            newest_selection(self@.messages, messages_view(r->Ok_0@), limit as nat, message_stamp()),
    {
        Ok(newest_messages(&self.messages, limit))
    }

    /// Appends an insight stamped `timestamp` to the knowledge base; refused
    /// when no knowledge directory is configured.
    pub fn store_insight_at(
        &mut self,
        from: Role,
        category: &str,
        title: &str,
        content: &str,
        tags: Vec<String>,
        timestamp: i64,
    ) -> (r: Result<Insight, StoreError>)
        requires
            old(self)@.well_formed(),
        ensures
            final(self)@.well_formed(),
            match old(self)@.knowledge {
                Some(k) => r is Ok && r->Ok_0@ == new_insight(
                    from,
                    category@,
                    title@,
                    content@,
                    strings_view(tags@),
                    timestamp,
                ) && final(self)@ == old(self)@.insight_added(r->Ok_0@),
                None => r == Err::<Insight, StoreError>(StoreError::KnowledgeNotConfigured)
                    && final(self)@ == old(self)@,
            },
    {
        if self.knowledge_dir.is_none() {
            return Err(StoreError::KnowledgeNotConfigured);
        }
        let insight = Insight {
            id: make_record_id(timestamp, from),
            from,
            category: category.to_owned(),
            title: title.to_owned(),
            content: content.to_owned(),
            tags: copy_strings(&tags),
            timestamp,
        };
        self.insights.push(insight.duplicate());
        assert(self@.knowledge->0 =~= old(self)@.knowledge->0.push(insight@));
        assert(self@.messages =~= old(self)@.messages);
        Ok(insight)
    }

    /// Appends an insight, stamped with the current time, to the knowledge
    /// base; refused when no knowledge directory is configured.
    pub fn store_insight(
        &mut self,
        from: Role,
        category: &str,
        title: &str,
        content: &str,
        tags: Vec<String>,
    ) -> (r: Result<Insight, StoreError>)
        requires
            old(self)@.well_formed(),
        ensures
            final(self)@.well_formed(),
            match old(self)@.knowledge {
                Some(k) => r is Ok && r->Ok_0@ == new_insight(
                    from,
                    category@,
                    title@,
                    content@,
                    strings_view(tags@),
                    r->Ok_0.timestamp,
                ) && final(self)@ == old(self)@.insight_added(r->Ok_0@),
                None => r == Err::<Insight, StoreError>(StoreError::KnowledgeNotConfigured)
                    && final(self)@ == old(self)@,
            },
    {
        let now = now_millis();
        self.store_insight_at(from, category, title, content, tags, now)
    }

    /// The insights that pass the filters, newest first, cut to `limit`;
    /// empty when no knowledge directory is configured.
    pub fn query_insights(&self, category: Option<&str>, keyword: Option<&str>, limit: usize) -> (r: Result<
        Vec<Insight>,
        StoreError,
    >)
        ensures
            r is Ok,
            match self@.knowledge {
                Some(k) => newest_selection(
                    k.filter(selected_by(opt_str_view(category), opt_str_view(keyword))),
                    insights_view(r->Ok_0@),
                    limit as nat,
                    insight_stamp(),
                ),
                None => r->Ok_0@.len() == 0,
            },
    {
        if self.knowledge_dir.is_none() {
            return Ok(Vec::new());
        }
        let chosen = select_insights(&self.insights, category, keyword);
        Ok(newest_insights(&chosen, limit))
    }

    /// Every message of every mailbox, in the order of creation.
    pub fn all_messages(&self) -> (r: Vec<Message>)
        ensures
            messages_view(r@) == self@.messages,
    {
        let mut out: Vec<Message> = Vec::new();
        let mut i: usize = 0;
        while i < self.messages.len()
            invariant
                i <= self.messages@.len(),
                messages_view(out@) == messages_view(self.messages@).subrange(0, i as int),
            decreases self.messages@.len() - i,
        {
            let ghost prev = out@;
            out.push(self.messages[i].duplicate());
            assert(messages_view(out@) =~= messages_view(prev).push(self.messages@[i as int]@));
            assert(messages_view(out@) =~= messages_view(self.messages@).subrange(0, i + 1));
            i = i + 1;
        }
        assert(messages_view(self.messages@).subrange(0, self.messages@.len() as int) =~= messages_view(
            self.messages@,
        ));
        out
    }

    /// Every insight, in the order it was recorded; empty when no knowledge
    /// directory is configured.
    pub fn all_insights(&self) -> (r: Vec<Insight>)
        ensures
            match self@.knowledge {
                Some(k) => insights_view(r@) == k,
                None => r@.len() == 0,
            },
    {
        if self.knowledge_dir.is_none() {
            return Vec::new();
        }
        let mut out: Vec<Insight> = Vec::new();
        let mut i: usize = 0;
        while i < self.insights.len()
            invariant
                i <= self.insights@.len(),
                insights_view(out@) == insights_view(self.insights@).subrange(0, i as int),
            decreases self.insights@.len() - i,
        {
            let ghost prev = out@;
            out.push(self.insights[i].duplicate());
            assert(insights_view(out@) =~= insights_view(prev).push(self.insights@[i as int]@));
            assert(insights_view(out@) =~= insights_view(self.insights@).subrange(0, i + 1));
            i = i + 1;
        }
        assert(insights_view(self.insights@).subrange(0, self.insights@.len() as int) =~= insights_view(
            self.insights@,
        ));
        out
    }

    /// Puts back a message as it was persisted, identifier and read flag
    /// included, after the messages already there.
    pub fn restore_message(&mut self, m: Message)
        requires
            old(self)@.well_formed(),
        ensures
            final(self)@ == old(self)@.sent(m@),
            final(self)@.well_formed(),
    {
        let ghost v = m@;
        self.messages.push(m);
        assert(self@.messages =~= old(self)@.messages.push(v));
    }

    /// Puts back an insight as it was persisted; refused, with nothing
    /// changed, when no knowledge directory is configured.
    pub fn restore_insight(&mut self, i: Insight) -> (r: Result<(), StoreError>)
        requires
            old(self)@.well_formed(),
        ensures
            final(self)@.well_formed(),
            match old(self)@.knowledge {
                Some(k) => r is Ok && final(self)@ == old(self)@.insight_added(i@),
                None => r == Err::<(), StoreError>(StoreError::KnowledgeNotConfigured) && final(self)@ == old(self)@,
            },
    {
        if self.knowledge_dir.is_none() {
            return Err(StoreError::KnowledgeNotConfigured);
        }
        let ghost v = i@;
        self.insights.push(i);
        assert(self@.knowledge->0 =~= old(self)@.knowledge->0.push(v));
        assert(self@.messages =~= old(self)@.messages);
        Ok(())
    }

    /// Deletes every message, status record and pending flag. The knowledge
    /// base is not touched.
    pub fn cleanup(&mut self) -> (r: Result<(), StoreError>)
        requires
            old(self)@.well_formed(),
        ensures
            r is Ok,
            final(self)@ == old(self)@.cleared(),
            final(self)@.well_formed(),
    {
        self.messages = Vec::new();
        self.statuses = vec![None, None, None, None, None, None];
        self.pending = vec![false, false, false, false, false, false];
        assert(self@.statuses =~= old(self)@.cleared().statuses);
        assert(self@.pending =~= old(self)@.cleared().pending);
        assert(self@.messages =~= old(self)@.cleared().messages);
        Ok(())
    }
}

} // verus!
