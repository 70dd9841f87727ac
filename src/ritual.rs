//! The start-up prompt ("ritual") that each role's agent is given.
use vstd::prelude::*;
use std::path::PathBuf;
use crate::roles::{Role, all_roles, role_name};
use crate::text::{replace_all, replaced, str_eq};
use crate::types::strings_view;
use crate::zellij::PaneWriter;

verus! {

/// Injects the ritual prompts of the roles into their panes.
pub struct RitualInjector {
    pub rituals_dir: PathBuf,
    pub pane_writer: PaneWriter,
}

/// The ritual text made safe for one double-quoted shell argument: each `"`
/// escaped, each newline turned into a space.
pub open spec fn escaped_ritual(content: Seq<char>) -> Seq<char> {
    replaced(replaced(content, seq!['"'], seq!['\\', '"']), seq!['\n'], seq![' '])
}

/// The command line that starts the agent program `agent` with the ritual
/// as system prompt.
pub open spec fn ritual_command_of(agent: Seq<char>, content: Seq<char>) -> Seq<char> {
    agent + " --print-system-prompt \""@ + escaped_ritual(content) + "\""@
}

/// The ritual file of a role: its token and `.md`.
pub open spec fn ritual_file_of(r: Role) -> Seq<char> {
    role_name(r) + ".md"@
}

/// The ritual files of all roles, in the stable role order.
pub open spec fn ritual_files_spec() -> Seq<Seq<char>> {
    all_roles().map_values(|r: Role| ritual_file_of(r))
}

/// The ritual files of all roles, in the stable role order.
pub fn ritual_files() -> (r: Vec<String>)
    ensures
        strings_view(r@) == ritual_files_spec(),
{
    let roles = Role::all();
    let mut out: Vec<String> = Vec::new();
    let mut i: usize = 0;
    while i < roles.len()
        invariant
            roles@ == all_roles(),
            i <= 6,
            strings_view(out@) == ritual_files_spec().subrange(0, i as int),
        decreases 6 - i,
    {
        let mut name = roles[i].as_str().to_owned();
        name.append(".md");
        let ghost prev = out@;
        out.push(name);
        assert(strings_view(out@) =~= strings_view(prev).push(ritual_file_of(all_roles()[i as int])));
        assert(strings_view(out@) =~= ritual_files_spec().subrange(0, i + 1));
        i = i + 1;
    }
    assert(ritual_files_spec().subrange(0, 6) =~= ritual_files_spec());
    out
}

/// Selects the files that are not among `existing`.
pub open spec fn absent_from(existing: Seq<Seq<char>>) -> spec_fn(Seq<char>) -> bool {
    |f: Seq<char>| !existing.contains(f)
}

fn listed(existing: &Vec<String>, name: &str) -> (r: bool)
    ensures
        r == strings_view(existing@).contains(name@),
{
    let mut i: usize = 0;
    while i < existing.len()
        invariant
            i <= existing@.len(),
            forall|k: int| 0 <= k < i ==> (#[trigger] strings_view(existing@)[k]) != name@,
        decreases existing@.len() - i,
    {
        if str_eq(existing[i].as_str(), name) {
            assert(strings_view(existing@)[i as int] == name@);
            return true;
        }
        i = i + 1;
    }
    false
}

/// Checks that every ritual file is among the names `existing` found in the
/// rituals directory; otherwise returns the missing ones, in role order.
pub fn validate_rituals_dir(existing: &Vec<String>) -> (r: Result<(), Vec<String>>)
    ensures
        ritual_files_spec().filter(absent_from(strings_view(existing@))).len() == 0 ==> r is Ok,
        ritual_files_spec().filter(absent_from(strings_view(existing@))).len() > 0 ==> r is Err && strings_view(
            r->Err_0@,
        ) == ritual_files_spec().filter(absent_from(strings_view(existing@))),
{
    let files = ritual_files();
    let ghost all = ritual_files_spec();
    let ghost pred = absent_from(strings_view(existing@));
    let mut missing: Vec<String> = Vec::new();
    let mut i: usize = 0;
    while i < files.len()
        invariant
            strings_view(files@) == all,
            all == ritual_files_spec(),
            pred == absent_from(strings_view(existing@)),
            i <= files@.len(),
            strings_view(missing@) == all.subrange(0, i as int).filter(pred),
        decreases files@.len() - i,
    {
        let ghost before = all.subrange(0, i as int);
        proof {
            assert(all.subrange(0, i + 1) =~= before.push(all[i as int]));
            before.lemma_filter_push(all[i as int], pred);
        }
        if !listed(existing, files[i].as_str()) {
            let ghost prev = missing@;
            missing.push(files[i].clone());
            assert(strings_view(missing@) =~= strings_view(prev).push(all[i as int]));
        }
        i = i + 1;
    }
    assert(all.subrange(0, files@.len() as int) =~= all);
    if missing.len() == 0 {
        Ok(())
    } else {
        Err(missing)
    }
}

impl RitualInjector {
    /// An injector reading rituals from `rituals_dir`, typing into the
    /// session named `session_name`.
    pub fn new(rituals_dir: PathBuf, session_name: &str) -> (r: RitualInjector)
        ensures
            r.rituals_dir == rituals_dir,
            r.pane_writer.session_name@ == session_name@,
    {
        RitualInjector { rituals_dir, pane_writer: PaneWriter::new(session_name) }
    }

    /// The command line to type into a role's pane: the agent program
    /// `agent` started with the ritual text `content`.
    pub fn ritual_command(&self, agent: &str, content: &str) -> (r: String)
        ensures
            r@ == ritual_command_of(agent@, content@),
    {
        let quote = "\"";
        let escaped_quote = "\\\"";
        let newline = "\n";
        let space = " ";
        proof {
            reveal_strlit("\"");
            reveal_strlit("\\\"");
            reveal_strlit("\n");
            reveal_strlit(" ");
        }
        assert(quote@ =~= seq!['"']);
        assert(escaped_quote@ =~= seq!['\\', '"']);
        assert(newline@ =~= seq!['\n']);
        assert(space@ =~= seq![' ']);
        let step = replace_all(content, quote, escaped_quote);
        let escaped = replace_all(step.as_str(), newline, space);
        let mut cmd = agent.to_owned();
        cmd.append(" --print-system-prompt \"");
        cmd.append(escaped.as_str());
        cmd.append("\"");
        cmd
    }
}

} // verus!
