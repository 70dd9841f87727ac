//! Messages, role statuses, insights and their mathematical views.
use vstd::prelude::*;
use crate::roles::{Role, role_name};
use crate::text::{int_decimal, str_eq};

verus! {

/// How urgently a message asks for attention.
#[derive(Clone, Copy, Debug, PartialEq, Eq, Structural)]
pub enum Priority {
    Normal,
    Urgent,
}

/// What a role reports that it is doing.
#[derive(Clone, Copy, Debug, PartialEq, Eq, Structural)]
pub enum Status {
    Idle,
    Working,
    Blocked,
    Done,
}

/// The lower-case token of a priority.
pub open spec fn priority_name(p: Priority) -> Seq<char> {
    match p {
        Priority::Normal => "normal"@,
        Priority::Urgent => "urgent"@,
    }
}

/// The lower-case token of a status.
pub open spec fn status_name(s: Status) -> Seq<char> {
    match s {
        Status::Idle => "idle"@,
        Status::Working => "working"@,
        Status::Blocked => "blocked"@,
        Status::Done => "done"@,
    }
}

/// The status a token names, if any (tokens are case-sensitive).
pub open spec fn status_of_token(s: Seq<char>) -> Option<Status> {
    if s == "idle"@ {
        Some(Status::Idle)
    } else if s == "working"@ {
        Some(Status::Working)
    } else if s == "blocked"@ {
        Some(Status::Blocked)
    } else if s == "done"@ {
        Some(Status::Done)
    } else {
        None
    }
}

/// The priority a request asks for: `urgent` only for the exact token
/// "urgent", `normal` otherwise (also when none is given).
pub open spec fn priority_of_token(s: Option<Seq<char>>) -> Priority {
    match s {
        Some(t) => if t == "urgent"@ { Priority::Urgent } else { Priority::Normal },
        None => Priority::Normal,
    }
}

impl Default for Priority {
    fn default() -> (r: Priority)
        ensures
            r == Priority::Normal,
    {
        Priority::Normal
    }
}

impl Default for Status {
    fn default() -> (r: Status)
        ensures
            r == Status::Idle,
    {
        Status::Idle
    }
}

impl Priority {
    /// The lower-case token of the priority.
    pub fn as_str(&self) -> (r: &'static str)
        ensures
            r@ == priority_name(*self),
    {
        match self {
            Priority::Normal => "normal",
            Priority::Urgent => "urgent",
        }
    }

    /// The token as an owned string (what `Display` would print).
    pub fn to_text(&self) -> (r: String)
        ensures
            r@ == priority_name(*self),
    {
        self.as_str().to_owned()
    }
}

impl Status {
    /// The lower-case token of the status.
    pub fn as_str(&self) -> (r: &'static str)
        ensures
            r@ == status_name(*self),
    {
        match self {
            Status::Idle => "idle",
            Status::Working => "working",
            Status::Blocked => "blocked",
            Status::Done => "done",
        }
    }

    /// The token as an owned string (what `Display` would print).
    pub fn to_text(&self) -> (r: String)
        ensures
            r@ == status_name(*self),
    {
        self.as_str().to_owned()
    }
}

/// Reads the priority of a request: only "urgent" is urgent.
pub fn parse_priority(s: Option<&str>) -> (r: Priority)
    ensures
        r == priority_of_token(match s {
            Some(t) => Some(t@),
            None => None,
        }),
{
    match s {
        Some(t) => if str_eq(t, "urgent") { Priority::Urgent } else { Priority::Normal },
        None => Priority::Normal,
    }
}

/// A status token that is not one of idle, working, blocked, done.
#[derive(Clone, Debug, PartialEq, Eq)]
pub struct InvalidStatus {
    pub token: String,
}

/// Reads a status token; unknown tokens are rejected, never defaulted.
pub fn parse_status(s: &str) -> (r: Result<Status, InvalidStatus>)
    ensures
        match status_of_token(s@) {
            Some(st) => r == Ok::<Status, InvalidStatus>(st),
            None => r is Err && r->Err_0.token@ == s@,
        },
{
    if str_eq(s, "idle") {
        Ok(Status::Idle)
    } else if str_eq(s, "working") {
        Ok(Status::Working)
    } else if str_eq(s, "blocked") {
        Ok(Status::Blocked)
    } else if str_eq(s, "done") {
        Ok(Status::Done)
    } else {
        Err(InvalidStatus { token: s.to_owned() })
    }
}

/// The identifier of a message or insight made at `timestamp` (milliseconds
/// since the epoch) by `from`: the timestamp in decimal, `_`, the role token.
pub open spec fn record_id(timestamp: i64, from: Role) -> Seq<char> {
    int_decimal(timestamp as int) + "_"@ + role_name(from)
}

/// Builds the identifier `record_id(timestamp, from)`.
pub fn make_record_id(timestamp: i64, from: Role) -> (r: String)
    ensures
        r@ == record_id(timestamp, from),
{
    let mut id = crate::text::i64_decimal(timestamp);
    id.append("_");
    id.append(from.as_str());
    id
}

/// A task message in a role's mailbox. `timestamp` counts milliseconds since
/// the epoch.
#[derive(Clone, Debug)]
pub struct Message {
    pub id: String,
    pub from: Role,
    pub to: Role,
    pub subject: String,
    pub body: String,
    pub priority: Priority,
    pub timestamp: i64,
    pub read: bool,
}

/// The value of a message.
pub struct MessageView {
    pub id: Seq<char>,
    pub from: Role,
    pub to: Role,
    pub subject: Seq<char>,
    pub body: Seq<char>,
    pub priority: Priority,
    pub timestamp: i64,
    pub read: bool,
}

impl View for Message {
    type V = MessageView;

    open spec fn view(&self) -> MessageView {
        MessageView {
            id: self.id@,
            from: self.from,
            to: self.to,
            subject: self.subject@,
            body: self.body@,
            priority: self.priority,
            timestamp: self.timestamp,
            read: self.read,
        }
    }
}

impl MessageView {
    /// The same message with its read flag set to `read`.
    pub open spec fn with_read(self, read: bool) -> MessageView {
        MessageView { read, ..self }
    }

    /// Two messages agree on everything but the read flag.
    pub open spec fn same_content(self, other: MessageView) -> bool {
        self.with_read(false) == other.with_read(false)
    }
}

impl Message {
    /// A field-by-field copy.
    pub fn duplicate(&self) -> (r: Message)
        ensures
            r@ == self@,
    {
        Message {
            id: self.id.clone(),
            from: self.from,
            to: self.to,
            subject: self.subject.clone(),
            body: self.body.clone(),
            priority: self.priority,
            timestamp: self.timestamp,
            read: self.read,
        }
    }
}

/// The singleton status record of one role.
#[derive(Clone, Debug)]
pub struct RoleStatus {
    pub role: Role,
    pub status: Status,
    pub task: Option<String>,
    pub updated_at: i64,
}

/// The value of a status record.
pub struct StatusView {
    pub role: Role,
    pub status: Status,
    pub task: Option<Seq<char>>,
    pub updated_at: i64,
}

/// The view of an optional string.
pub open spec fn opt_view(o: Option<String>) -> Option<Seq<char>> {
    match o {
        Some(s) => Some(s@),
        None => None,
    }
}

/// The view of an optional string slice.
pub open spec fn opt_str_view(o: Option<&str>) -> Option<Seq<char>> {
    match o {
        Some(s) => Some(s@),
        None => None,
    }
}

impl View for RoleStatus {
    type V = StatusView;

    open spec fn view(&self) -> StatusView {
        StatusView {
            role: self.role,
            status: self.status,
            task: opt_view(self.task),
            updated_at: self.updated_at,
        }
    }
}

/// Copies an optional string.
pub fn copy_opt(o: &Option<String>) -> (r: Option<String>)
    ensures
        opt_view(r) == opt_view(*o),
{
    match o {
        Some(s) => Some(s.clone()),
        None => None,
    }
}

/// Copies an optional string slice into an owned one.
pub fn own_opt(o: Option<&str>) -> (r: Option<String>)
    ensures
        opt_view(r) == opt_str_view(o),
{
    match o {
        Some(s) => Some(s.to_owned()),
        None => None,
    }
}

impl RoleStatus {
    /// A field-by-field copy.
    pub fn duplicate(&self) -> (r: RoleStatus)
        ensures
            r@ == self@,
    {
        RoleStatus {
            role: self.role,
            status: self.status,
            task: copy_opt(&self.task),
            updated_at: self.updated_at,
        }
    }
}

/// A durable, session-spanning piece of knowledge.
#[derive(Clone, Debug)]
pub struct Insight {
    pub id: String,
    pub from: Role,
    pub category: String,
    pub title: String,
    pub content: String,
    pub tags: Vec<String>,
    pub timestamp: i64,
}

/// The value of an insight.
pub struct InsightView {
    pub id: Seq<char>,
    pub from: Role,
    pub category: Seq<char>,
    pub title: Seq<char>,
    pub content: Seq<char>,
    pub tags: Seq<Seq<char>>,
    pub timestamp: i64,
}

/// The views of a list of strings.
pub open spec fn strings_view(v: Seq<String>) -> Seq<Seq<char>> {
    v.map_values(|s: String| s@)
}

impl View for Insight {
    type V = InsightView;

    open spec fn view(&self) -> InsightView {
        InsightView {
            id: self.id@,
            from: self.from,
            category: self.category@,
            title: self.title@,
            content: self.content@,
            tags: strings_view(self.tags@),
            timestamp: self.timestamp,
        }
    }
}

/// Copies a list of strings.
pub fn copy_strings(v: &Vec<String>) -> (r: Vec<String>)
    ensures
        strings_view(r@) == strings_view(v@),
{
    let mut out: Vec<String> = Vec::new();
    let mut i: usize = 0;
    while i < v.len()
        invariant
            i <= v@.len(),
            strings_view(out@) == strings_view(v@.subrange(0, i as int)),
        decreases v@.len() - i,
    {
        out.push(v[i].clone());
        assert(strings_view(v@.subrange(0, i + 1)) =~= strings_view(v@.subrange(0, i as int)).push(v@[i as int]@));
        assert(strings_view(out@) =~= strings_view(v@.subrange(0, i as int)).push(v@[i as int]@));
        i = i + 1;
    }
    assert(v@.subrange(0, v@.len() as int) =~= v@);
    out
}

impl Insight {
    /// A field-by-field copy.
    pub fn duplicate(&self) -> (r: Insight)
        ensures
            r@ == self@,
    {
        Insight {
            id: self.id.clone(),
            from: self.from,
            category: self.category.clone(),
            title: self.title.clone(),
            content: self.content.clone(),
            tags: copy_strings(&self.tags),
            timestamp: self.timestamp,
        }
    }
}

} // verus!
