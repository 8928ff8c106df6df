//! What holds of the merge of command directories, in whatever order they
//! are walked.

use vstd::prelude::*;
use crate::command::{CommandScope, CommandView};
use crate::loader::{merge_root, merged};

verus! {

/// The entry under `name` is a project command.
pub open spec fn holds_project(commands: Map<Seq<char>, CommandView>, name: Seq<char>) -> bool {
    commands.contains_key(name) && commands[name].scope == CommandScope::Project
}

/// Merging more commands into a set leaves a project command in its place
/// or puts a project command there.
pub proof fn lemma_merge_root_keeps_project(
    gathered: Map<Seq<char>, CommandView>,
    commands: Seq<CommandView>,
    n: int,
    name: Seq<char>,
)
    requires
        holds_project(gathered, name),
    ensures
        holds_project(merge_root(gathered, commands, n), name),
    decreases n,
{
    if n <= 0 || n > commands.len() {
    } else {
        lemma_merge_root_keeps_project(gathered, commands, n - 1, name);
    }
}

/// A project command that is merged in is found under its name, unless a
/// later project command took its place.
pub proof fn lemma_merge_root_takes_project(
    gathered: Map<Seq<char>, CommandView>,
    commands: Seq<CommandView>,
    n: int,
    i: int,
)
    requires
        0 <= i < n <= commands.len(),
        commands[i].scope == CommandScope::Project,
    ensures
        holds_project(merge_root(gathered, commands, n), commands[i].name),
    decreases n,
{
    if i < n - 1 {
        lemma_merge_root_takes_project(gathered, commands, n - 1, i);
    }
}

/// A name that a project command has, in one of the first `n` directories,
/// stands for a project command after the merge of those directories.
pub proof fn lemma_merged_takes_project(roots: Seq<Seq<CommandView>>, n: int, r: int, i: int)
    requires
        0 <= r < n <= roots.len(),
        0 <= i < roots[r].len(),
        roots[r][i].scope == CommandScope::Project,
    ensures
        holds_project(merged(roots, n), roots[r][i].name),
    decreases n,
{
    if r == n - 1 {
        lemma_merge_root_takes_project(merged(roots, n - 1), roots[r], roots[r].len() as int, i);
    } else {
        lemma_merged_takes_project(roots, n - 1, r, i);
        lemma_merge_root_keeps_project(
            merged(roots, n - 1),
            roots[n - 1],
            roots[n - 1].len() as int,
            roots[r][i].name,
        );
    }
}

/// Where a project command and a global command have the same name, the
/// merged set holds a project command under that name, in whatever order
/// the directories come and wherever in them the two commands stand.
pub proof fn lemma_project_wins(
    roots: Seq<Seq<CommandView>>,
    project_root: int,
    project_at: int,
    global_root: int,
    global_at: int,
)
    requires
        0 <= project_root < roots.len(),
        0 <= project_at < roots[project_root].len(),
        0 <= global_root < roots.len(),
        0 <= global_at < roots[global_root].len(),
        roots[project_root][project_at].scope == CommandScope::Project,
        roots[global_root][global_at].scope == CommandScope::Global,
        roots[project_root][project_at].name == roots[global_root][global_at].name,
    ensures
        merged(roots, roots.len() as int).contains_key(roots[global_root][global_at].name),
        merged(roots, roots.len() as int)[roots[global_root][global_at].name].scope
            == CommandScope::Project,
{
    lemma_merged_takes_project(roots, roots.len() as int, project_root, project_at);
}

/// What a merge step holds under a name was there before or is one of the
/// commands merged in; and a name is there after the step exactly if it was
/// there before or one of the commands has it.
pub proof fn lemma_merge_root_members(
    gathered: Map<Seq<char>, CommandView>,
    commands: Seq<CommandView>,
    n: int,
    name: Seq<char>,
)
    requires
        0 <= n <= commands.len(),
    ensures
        merge_root(gathered, commands, n).contains_key(name) <==> gathered.contains_key(name) || (
        exists|i: int| 0 <= i < n && (#[trigger] commands[i]).name == name),
        merge_root(gathered, commands, n).contains_key(name) ==> (gathered.contains_key(name)
            && merge_root(gathered, commands, n)[name] == gathered[name]) || (exists|i: int|
            0 <= i < n && #[trigger] commands[i] == merge_root(gathered, commands, n)[name]
                && commands[i].name == name),
    decreases n,
{
    if n > 0 {
        lemma_merge_root_members(gathered, commands, n - 1, name);
        let rest = merge_root(gathered, commands, n - 1);
        let c = commands[n - 1];
        if exists|i: int| 0 <= i < n && (#[trigger] commands[i]).name == name {
            let i = choose|i: int| 0 <= i < n && (#[trigger] commands[i]).name == name;
            if i < n - 1 {
                assert(commands[i].name == name);
            }
        }
        if merge_root(gathered, commands, n).contains_key(name) {
            if c.name == name && (!rest.contains_key(c.name) || c.scope == CommandScope::Project) {
                assert(commands[n - 1] == merge_root(gathered, commands, n)[name]);
            } else {
                assert(rest.contains_key(name));
                assert(merge_root(gathered, commands, n)[name] == rest[name]);
                if !(gathered.contains_key(name) && rest[name] == gathered[name]) {
                    let i = choose|i: int|
                        0 <= i < n - 1 && #[trigger] commands[i] == rest[name] && commands[i].name
                            == name;
                    assert(commands[i] == merge_root(gathered, commands, n)[name]);
                }
            }
        }
    }
}

/// The merged set holds a name exactly if a command of one of the
/// directories has it, and holds under it one of the commands of that name.
pub proof fn lemma_merged_members(roots: Seq<Seq<CommandView>>, n: int, name: Seq<char>)
    requires
        0 <= n <= roots.len(),
    ensures
        merged(roots, n).contains_key(name) <==> exists|r: int, i: int|
            0 <= r < n && 0 <= i < roots[r].len() && (#[trigger] roots[r][i]).name == name,
        merged(roots, n).contains_key(name) ==> exists|r: int, i: int|
            0 <= r < n && 0 <= i < roots[r].len() && #[trigger] roots[r][i] == merged(
                roots,
                n,
            )[name] && roots[r][i].name == name,
    decreases n,
{
    if n > 0 {
        lemma_merged_members(roots, n - 1, name);
        let before = merged(roots, n - 1);
        let last = roots[n - 1];
        lemma_merge_root_members(before, last, last.len() as int, name);
        let after = merged(roots, n);
        if exists|r: int, i: int|
            0 <= r < n && 0 <= i < roots[r].len() && (#[trigger] roots[r][i]).name == name {
            let (r, i) = choose|r: int, i: int|
                0 <= r < n && 0 <= i < roots[r].len() && (#[trigger] roots[r][i]).name == name;
            if r < n - 1 {
                assert(roots[r][i].name == name);
                assert(before.contains_key(name));
            } else {
                assert(last[i].name == name);
            }
            assert(after.contains_key(name));
        }
        if after.contains_key(name) {
            if before.contains_key(name) && after[name] == before[name] {
                let (r, i) = choose|r: int, i: int|
                    0 <= r < n - 1 && 0 <= i < roots[r].len() && #[trigger] roots[r][i]
                        == before[name] && roots[r][i].name == name;
                assert(roots[r][i] == after[name] && roots[r][i].name == name);
            } else {
                let i = choose|i: int|
                    0 <= i < last.len() && #[trigger] last[i] == after[name] && last[i].name
                        == name;
                assert(roots[n - 1][i] == after[name] && roots[n - 1][i].name == name);
            }
        }
    }
}

} // verus!
