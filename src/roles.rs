//! The closed set of roles and the chain-of-command routing graph.
use vstd::prelude::*;
use crate::text::str_eq;

verus! {

/// A fixed identity in the hierarchy: one coordinator (`Overlord`), one
/// mediator (`Strategist`) and four workers.
#[derive(Clone, Copy, Debug, PartialEq, Eq, Hash, Structural)]
pub enum Role {
    Overlord,
    Strategist,
    Inferno,
    Glacier,
    Shadow,
    Storm,
}

/// The rank of a role in the hierarchy: coordinator 0, mediator 1, workers 2.
pub open spec fn tier(r: Role) -> int {
    match r {
        Role::Overlord => 0,
        Role::Strategist => 1,
        _ => 2,
    }
}

/// The worker roles (the four generals).
pub open spec fn is_worker(r: Role) -> bool {
    tier(r) == 2
}

/// A message may go from `from` to `to` exactly when the two roles stand in
/// adjacent tiers of the hierarchy.
pub open spec fn route_allowed(from: Role, to: Role) -> bool {
    tier(from) - tier(to) == 1 || tier(to) - tier(from) == 1
}

/// Every role, in the stable role order.
pub open spec fn all_roles() -> Seq<Role> {
    seq![Role::Overlord, Role::Strategist, Role::Inferno, Role::Glacier, Role::Shadow, Role::Storm]
}

/// The position of a role in the stable role order.
pub open spec fn role_index(r: Role) -> int {
    match r {
        Role::Overlord => 0,
        Role::Strategist => 1,
        Role::Inferno => 2,
        Role::Glacier => 3,
        Role::Shadow => 4,
        Role::Storm => 5,
    }
}

/// The roles that `r` may message, in the stable role order.
pub open spec fn targets_of(r: Role) -> Seq<Role> {
    match r {
        Role::Strategist => seq![Role::Overlord, Role::Inferno, Role::Glacier, Role::Shadow, Role::Storm],
        _ => seq![Role::Strategist],
    }
}

/// The lower-case token that names a role.
pub open spec fn role_name(r: Role) -> Seq<char> {
    match r {
        Role::Overlord => "overlord"@,
        Role::Strategist => "strategist"@,
        Role::Inferno => "inferno"@,
        Role::Glacier => "glacier"@,
        Role::Shadow => "shadow"@,
        Role::Storm => "storm"@,
    }
}

/// The role that a token names, if any (tokens are case-sensitive).
pub open spec fn role_of(s: Seq<char>) -> Option<Role> {
    if s == "overlord"@ {
        Some(Role::Overlord)
    } else if s == "strategist"@ {
        Some(Role::Strategist)
    } else if s == "inferno"@ {
        Some(Role::Inferno)
    } else if s == "glacier"@ {
        Some(Role::Glacier)
    } else if s == "shadow"@ {
        Some(Role::Shadow)
    } else if s == "storm"@ {
        Some(Role::Storm)
    } else {
        None
    }
}

/// The human-readable name of a role.
pub open spec fn display_name_of(r: Role) -> Seq<char> {
    match r {
        Role::Overlord => "魔王 (Overlord)"@,
        Role::Strategist => "軍師 (Strategist)"@,
        Role::Inferno => "業火の将 (Inferno)"@,
        Role::Glacier => "氷結の将 (Glacier)"@,
        Role::Shadow => "常闇の将 (Shadow)"@,
        Role::Storm => "疾風の将 (Storm)"@,
    }
}

/// The emoji of a role.
pub open spec fn icon_of(r: Role) -> Seq<char> {
    match r {
        Role::Overlord => "\u{1F451}"@,
        Role::Strategist => "\u{1F9E0}"@,
        Role::Inferno => "\u{1F525}"@,
        Role::Glacier => "\u{1F9CA}"@,
        Role::Shadow => "\u{1F311}"@,
        Role::Storm => "\u{1F4A8}"@,
    }
}

/// Each role's token is read back as that role.
pub proof fn lemma_role_name_round_trip(r: Role)
    ensures
        role_of(role_name(r)) == Some(r),
{
    reveal_strlit("overlord");
    reveal_strlit("strategist");
    reveal_strlit("inferno");
    reveal_strlit("glacier");
    reveal_strlit("shadow");
    reveal_strlit("storm");
    assert("overlord"@[0] != "strategist"@[0]);
    assert("inferno"@.len() != "overlord"@.len());
    assert("inferno"@[0] != "strategist"@[0]);
    assert("glacier"@[0] != "overlord"@[0]);
    assert("glacier"@[0] != "strategist"@[0]);
    assert("glacier"@[0] != "inferno"@[0]);
    assert("shadow"@.len() != "overlord"@.len());
    assert("shadow"@[1] != "strategist"@[1]);
    assert("shadow"@[0] != "inferno"@[0]);
    assert("shadow"@[0] != "glacier"@[0]);
    assert("storm"@.len() != "overlord"@.len());
    assert("storm"@[2] != "strategist"@[2]);
    assert("storm"@[0] != "inferno"@[0]);
    assert("storm"@[0] != "glacier"@[0]);
    assert("storm"@.len() != "shadow"@.len());
}

/// Different roles sit at different positions of the role order.
pub proof fn lemma_role_index_injective(a: Role, b: Role)
    ensures
        role_index(a) == role_index(b) <==> a == b,
        0 <= role_index(a) < 6,
        all_roles()[role_index(a)] == a,
{
}

/// The routing policy: a route is allowed exactly for the coordinator and
/// the mediator in either direction, and for the mediator and a worker in
/// either direction. No role may message itself, no worker another worker,
/// and the coordinator and the workers never message each other directly.
pub proof fn lemma_routing_policy(from: Role, to: Role)
    ensures
        route_allowed(from, to) <==> (
            (from == Role::Overlord && to == Role::Strategist)
            || (from == Role::Strategist && to == Role::Overlord)
            || (from == Role::Strategist && is_worker(to))
            || (is_worker(from) && to == Role::Strategist)
        ),
        !route_allowed(from, from),
        is_worker(from) && is_worker(to) ==> !route_allowed(from, to),
        from == Role::Overlord && is_worker(to) ==> !route_allowed(from, to) && !route_allowed(to, from),
        route_allowed(from, to) == route_allowed(to, from),
{
}

/// The target list of each role holds exactly the roles it may message,
/// each once.
pub proof fn lemma_targets_match_routes(r: Role)
    ensures
        forall|t: Role| targets_of(r).contains(t) <==> route_allowed(r, t),
        targets_of(r).no_duplicates(),
{
    assert forall|t: Role| targets_of(r).contains(t) <==> route_allowed(r, t) by {
        if route_allowed(r, t) {
            match r {
                Role::Strategist => {
                    match t {
                        Role::Overlord => assert(targets_of(r)[0] == t),
                        Role::Inferno => assert(targets_of(r)[1] == t),
                        Role::Glacier => assert(targets_of(r)[2] == t),
                        Role::Shadow => assert(targets_of(r)[3] == t),
                        Role::Storm => assert(targets_of(r)[4] == t),
                        Role::Strategist => {},
                    }
                },
                _ => assert(targets_of(r)[0] == t),
            }
        }
    }
}

impl Role {
    /// The lower-case token of the role.
    pub fn as_str(&self) -> (r: &'static str)
        ensures
            r@ == role_name(*self),
    {
        match self {
            Role::Overlord => "overlord",
            Role::Strategist => "strategist",
            Role::Inferno => "inferno",
            Role::Glacier => "glacier",
            Role::Shadow => "shadow",
            Role::Storm => "storm",
        }
    }

    /// The token of the role as an owned string (what `Display` would print).
    pub fn to_text(&self) -> (r: String)
        ensures
            r@ == role_name(*self),
    {
        self.as_str().to_owned()
    }

    /// The human-readable name of the role.
    pub fn display_name(&self) -> (r: &'static str)
        ensures
            r@ == display_name_of(*self),
    {
        match self {
            Role::Overlord => "魔王 (Overlord)",
            Role::Strategist => "軍師 (Strategist)",
            Role::Inferno => "業火の将 (Inferno)",
            Role::Glacier => "氷結の将 (Glacier)",
            Role::Shadow => "常闇の将 (Shadow)",
            Role::Storm => "疾風の将 (Storm)",
        }
    }

    /// Emoji icon for the role; each is two terminal cells wide.
    pub fn icon(&self) -> (r: &'static str)
        ensures
            r@ == icon_of(*self),
    {
        match self {
            Role::Overlord => "\u{1F451}",
            Role::Strategist => "\u{1F9E0}",
            Role::Inferno => "\u{1F525}",
            Role::Glacier => "\u{1F9CA}",
            Role::Shadow => "\u{1F311}",
            Role::Storm => "\u{1F4A8}",
        }
    }

    /// Is this one of the four worker roles?
    pub fn is_shitennoh(&self) -> (r: bool)
        ensures
            r == is_worker(*self),
    {
        match self {
            Role::Inferno | Role::Glacier | Role::Shadow | Role::Storm => true,
            _ => false,
        }
    }

    /// May this role send a message to `target`?
    pub fn can_send_to(&self, target: Role) -> (r: bool)
        ensures
            r == route_allowed(*self, target),
    {
        match (*self, target) {
            (Role::Overlord, Role::Strategist) | (Role::Strategist, Role::Overlord) => true,
            (Role::Strategist, t) => t.is_shitennoh(),
            (f, Role::Strategist) => f.is_shitennoh(),
            _ => false,
        }
    }

    /// The roles this role may message, in the stable role order.
    pub fn allowed_targets(&self) -> (r: Vec<Role>)
        ensures
            r@ == targets_of(*self),
            forall|t: Role| r@.contains(t) <==> route_allowed(*self, t),
    {
        proof {
            lemma_targets_match_routes(*self);
        }
        match self {
            Role::Strategist => vec![Role::Overlord, Role::Inferno, Role::Glacier, Role::Shadow, Role::Storm],
            _ => vec![Role::Strategist],
        }
    }

    /// The terminal pane of the role in the workspace layout.
    pub fn pane_id(&self) -> (r: u32)
        ensures
            r == role_index(*self),
    {
        match self {
            Role::Overlord => 0,
            Role::Strategist => 1,
            Role::Inferno => 2,
            Role::Glacier => 3,
            Role::Shadow => 4,
            Role::Storm => 5,
        }
    }

    /// Every role, in the stable role order.
    pub fn all() -> (r: Vec<Role>)
        ensures
            r@ == all_roles(),
    {
        vec![Role::Overlord, Role::Strategist, Role::Inferno, Role::Glacier, Role::Shadow, Role::Storm]
    }

    /// Reads a role token (case-sensitive).
    pub fn from_name(s: &str) -> (r: Option<Role>)
        ensures
            r == role_of(s@),
    {
        if str_eq(s, "overlord") {
            Some(Role::Overlord)
        } else if str_eq(s, "strategist") {
            Some(Role::Strategist)
        } else if str_eq(s, "inferno") {
            Some(Role::Inferno)
        } else if str_eq(s, "glacier") {
            Some(Role::Glacier)
        } else if str_eq(s, "shadow") {
            Some(Role::Shadow)
        } else if str_eq(s, "storm") {
            Some(Role::Storm)
        } else {
            None
        }
    }
}

/// The token of a role that is not one of the six.
#[derive(Clone, Debug, PartialEq, Eq)]
pub struct UnknownRole {
    pub token: String,
}

impl core::str::FromStr for Role {
    type Err = UnknownRole;

    fn from_str(s: &str) -> Result<Role, UnknownRole> {
        match Role::from_name(s) {
            Some(r) => Ok(r),
            None => Err(UnknownRole { token: s.to_owned() }),
        }
    }
}

/// Every role token, in the stable role order.
pub fn all_role_names() -> (r: Vec<&'static str>)
    ensures
        r@.len() == 6,
        forall|i: int| 0 <= i < 6 ==> r@[i]@ == role_name(all_roles()[i]),
{
    let v = vec!["overlord", "strategist", "inferno", "glacier", "shadow", "storm"];
    v
}

/// Is `role` the token of one of the six roles?
pub fn is_valid_role(role: &str) -> (r: bool)
    ensures
        r == role_of(role@).is_some(),
{
    Role::from_name(role).is_some()
}

/// Is the route between two role tokens allowed? False when either token
/// names no role.
pub fn is_allowed_route(from: &str, to: &str) -> (r: bool)
    ensures
        r == (match (role_of(from@), role_of(to@)) {
            (Some(f), Some(t)) => route_allowed(f, t),
            _ => false,
        }),
{
    match (Role::from_name(from), Role::from_name(to)) {
        (Some(f), Some(t)) => f.can_send_to(t),
        _ => false,
    }
}

/// The tokens of the roles that the role named `role` may message, in the
/// stable role order; empty when `role` names no role.
pub fn allowed_targets(role: &str) -> (r: Vec<&'static str>)
    ensures
        r@.len() == (match role_of(role@) {
            Some(x) => targets_of(x).len(),
            None => 0,
        }),
        forall|i: int| 0 <= i < r@.len() ==> r@[i]@ == role_name(targets_of(role_of(role@)->0)[i]),
{
    match Role::from_name(role) {
        Some(x) => {
            let targets = x.allowed_targets();
            let mut out: Vec<&'static str> = Vec::new();
            let mut i: usize = 0;
            while i < targets.len()
                invariant
                    targets@ == targets_of(x),
                    role_of(role@) == Some(x),
                    i <= targets@.len(),
                    out@.len() == i,
                    forall|k: int| 0 <= k < i ==> out@[k]@ == role_name(targets_of(x)[k]),
                decreases targets@.len() - i,
            {
                out.push(targets[i].as_str());
                i = i + 1;
            }
            out
        },
        None => Vec::new(),
    }
}

} // verus!
