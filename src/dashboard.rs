//! What the status dashboard shows and decides: status symbols, elapsed
//! times, stale roles, pending roles and the health check it sends.
use vstd::prelude::*;
use crate::roles::{Role, all_roles};
use crate::store::{MessageStore, StoreModel, new_message, statuses_of};
use crate::text::int_decimal;
use crate::types::{Priority, RoleStatus, Status, StatusView};

verus! {

/// The table symbol of a status.
pub open spec fn status_symbol_of(s: Status) -> Seq<char> {
    match s {
        Status::Idle => "[-]"@,
        Status::Working => "[*]"@,
        Status::Blocked => "[!]"@,
        Status::Done => "[v]"@,
    }
}

/// The table symbol of a status.
pub fn status_symbol(status: &Status) -> (r: &'static str)
    ensures
        r@ == status_symbol_of(*status),
{
    match status {
        Status::Idle => "[-]",
        Status::Working => "[*]",
        Status::Blocked => "[!]",
        Status::Done => "[v]",
    }
}

/// A duration in seconds, shown in its largest whole unit: seconds below a
/// minute, minutes below an hour, hours otherwise.
pub open spec fn elapsed_text(secs: i64) -> Seq<char> {
    if secs < 60 {
        int_decimal(secs as int) + "s"@
    } else if secs < 3600 {
        int_decimal(secs as int / 60) + "m"@
    } else {
        int_decimal(secs as int / 3600) + "h"@
    }
}

/// Shows a duration in seconds as `12s`, `5m` or `3h`.
pub fn format_elapsed(secs: i64) -> (r: String)
    ensures
        r@ == elapsed_text(secs),
{
    if secs < 60 {
        let mut s = crate::text::i64_decimal(secs);
        s.append("s");
        s
    } else if secs < 3600 {
        let mut s = crate::text::i64_decimal(secs / 60);
        s.append("m");
        s
    } else {
        let mut s = crate::text::i64_decimal(secs / 3600);
        s.append("h");
        s
    }
}

/// Whole seconds from `then` to `now` (both in milliseconds), rounded
/// toward zero.
pub open spec fn seconds_between(then: i64, now: i64) -> int {
    let d = now - then;
    if d >= 0 { d / 1000 } else { -((-d) / 1000) }
}

/// Whole seconds from `then` to `now` (both in milliseconds), rounded
/// toward zero.
pub fn elapsed_seconds(then: i64, now: i64) -> (r: i128)
    ensures
        r == seconds_between(then, now),
{
    let d: i128 = now as i128 - then as i128;
    if d >= 0 {
        d / 1000
    } else {
        -((-d) / 1000)
    }
}

/// A record is stale when its role is working and has not reported for
/// more than `threshold` seconds.
pub open spec fn stale(s: StatusView, now: i64, threshold: i64) -> bool {
    s.status == Status::Working && seconds_between(s.updated_at, now) > threshold
}

/// Selects the stale records.
pub open spec fn stale_at(now: i64, threshold: i64) -> spec_fn(StatusView) -> bool {
    |s: StatusView| stale(s, now, threshold)
}

/// The role of a record.
pub open spec fn role_in() -> spec_fn(StatusView) -> Role {
    |s: StatusView| s.role
}

/// The roles of the stale records, in their order.
pub fn stale_roles(statuses: &Vec<RoleStatus>, now: i64, threshold: i64) -> (r: Vec<Role>)
    ensures
        r@ == statuses_of(statuses@).filter(stale_at(now, threshold)).map_values(role_in()),
{
    let ghost all = statuses_of(statuses@);
    let mut out: Vec<Role> = Vec::new();
    let mut i: usize = 0;
    while i < statuses.len()
        invariant
            i <= statuses@.len(),
            all == statuses_of(statuses@),
            out@ == all.subrange(0, i as int).filter(stale_at(now, threshold)).map_values(role_in()),
        decreases statuses@.len() - i,
    {
        let ghost before = all.subrange(0, i as int);
        proof {
            assert(all.subrange(0, i + 1) =~= before.push(all[i as int]));
            before.lemma_filter_push(all[i as int], stale_at(now, threshold));
        }
        let st = &statuses[i];
        let working = match st.status {
            Status::Working => true,
            _ => false,
        };
        if working && elapsed_seconds(st.updated_at, now) > threshold as i128 {
            let ghost prev = out@;
            out.push(st.role);
            assert(out@ =~= all.subrange(0, i + 1).filter(stale_at(now, threshold)).map_values(role_in()));
        } else {
            assert(out@ =~= all.subrange(0, i + 1).filter(stale_at(now, threshold)).map_values(role_in()));
        }
        i = i + 1;
    }
    assert(all.subrange(0, statuses@.len() as int) =~= all);
    out
}

/// Selects the working records.
pub open spec fn is_working() -> spec_fn(StatusView) -> bool {
    |s: StatusView| s.status == Status::Working
}

/// How many records report `working`.
pub fn working_count(statuses: &Vec<RoleStatus>) -> (r: usize)
    ensures
        r == statuses_of(statuses@).filter(is_working()).len(),
{
    let ghost all = statuses_of(statuses@);
    let mut n: usize = 0;
    let mut i: usize = 0;
    while i < statuses.len()
        invariant
            i <= statuses@.len(),
            all == statuses_of(statuses@),
            n == all.subrange(0, i as int).filter(is_working()).len(),
            n <= i,
        decreases statuses@.len() - i,
    {
        let ghost before = all.subrange(0, i as int);
        proof {
            assert(all.subrange(0, i + 1) =~= before.push(all[i as int]));
            before.lemma_filter_push(all[i as int], is_working());
        }
        match statuses[i].status {
            Status::Working => {
                n = n + 1;
            },
            _ => {},
        }
        i = i + 1;
    }
    assert(all.subrange(0, statuses@.len() as int) =~= all);
    n
}

/// The roles whose pending flag is set, in the stable role order.
pub open spec fn pending_in(s: StoreModel) -> Seq<Role> {
    all_roles().filter(|r: Role| s.flag(r))
}

/// The roles whose pending flag is set, in the stable role order.
pub fn pending_roles(store: &MessageStore) -> (r: Vec<Role>)
    requires
        store@.well_formed(),
    ensures
        r@ == pending_in(store@),
{
    let roles = Role::all();
    let ghost pred = |r: Role| store@.flag(r);
    let mut out: Vec<Role> = Vec::new();
    let mut i: usize = 0;
    while i < roles.len()
        invariant
            roles@ == all_roles(),
            i <= 6,
            store@.well_formed(),
            pred == (|r: Role| store@.flag(r)),
            out@ == all_roles().subrange(0, i as int).filter(pred),
        decreases 6 - i,
    {
        let ghost before = all_roles().subrange(0, i as int);
        proof {
            assert(all_roles().subrange(0, i + 1) =~= before.push(all_roles()[i as int]));
            before.lemma_filter_push(all_roles()[i as int], pred);
        }
        let role = roles[i];
        proof {
            crate::roles::lemma_role_name_round_trip(role);
        }
        if store.has_pending(role.as_str()) {
            out.push(role);
        }
        i = i + 1;
    }
    assert(all_roles().subrange(0, 6) =~= all_roles());
    out
}

/// The subject of a health check.
pub open spec fn health_subject() -> Seq<char> {
    "[HEALTH CHECK] Report your status"@
}

/// The body of a health check for a threshold of `threshold` seconds.
pub open spec fn health_body(threshold: i64) -> Seq<char> {
    "Working status has exceeded "@ + int_decimal(threshold as int)
        + " seconds. Report current state via update_status."@
}

/// The body of a health check for a threshold of `threshold` seconds.
pub fn health_check_body(threshold: i64) -> (r: String)
    ensures
        r@ == health_body(threshold),
{
    let mut s = String::from_str("Working status has exceeded ");
    let n = crate::text::i64_decimal(threshold);
    s.append(n.as_str());
    s.append(" seconds. Report current state via update_status.");
    s
}

/// The health checks sent to `roles`, in order, stamped `ts`.
pub open spec fn health_checks(roles: Seq<Role>, threshold: i64, ts: i64) -> Seq<crate::types::MessageView> {
    roles.map_values(
        |r: Role| new_message(Role::Overlord, r, health_subject(), health_body(threshold), Priority::Urgent, ts),
    )
}

/// Sends an urgent health check from the coordinator to each of `roles`,
/// stamped `ts`. Pending flags are not touched.
pub fn send_health_checks_at(store: &mut MessageStore, roles: &Vec<Role>, threshold: i64, ts: i64)
    requires
        old(store)@.well_formed(),
    ensures
        final(store)@ == (StoreModel {
            messages: old(store)@.messages + health_checks(roles@, threshold, ts),
            ..old(store)@
        }),
        final(store)@.well_formed(),
{
    let subject = "[HEALTH CHECK] Report your status";
    let body = health_check_body(threshold);
    let mut i: usize = 0;
    while i < roles.len()
        invariant
            i <= roles@.len(),
            subject@ == health_subject(),
            body@ == health_body(threshold),
            store@.well_formed(),
            store@ == (StoreModel {
                messages: old(store)@.messages + health_checks(roles@.subrange(0, i as int), threshold, ts),
                ..old(store)@
            }),
        decreases roles@.len() - i,
    {
        store.send_message_at(Role::Overlord, roles[i], subject, body.as_str(), Priority::Urgent, ts);
        assert(health_checks(roles@.subrange(0, i + 1), threshold, ts) =~= health_checks(
            roles@.subrange(0, i as int),
            threshold,
            ts,
        ).push(new_message(Role::Overlord, roles@[i as int], health_subject(), health_body(threshold), Priority::Urgent, ts)));
        assert(store@.messages =~= old(store)@.messages + health_checks(roles@.subrange(0, i + 1), threshold, ts));
        i = i + 1;
    }
    assert(roles@.subrange(0, roles@.len() as int) =~= roles@);
}

} // verus!
