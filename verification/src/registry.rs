//! A set of commands in which each name occurs once.

use vstd::prelude::*;
use crate::command::{CommandView, CustomCommand};
use crate::text::same_text;

verus! {

/// No two of the commands have the same name.
pub open spec fn distinct_names(commands: Seq<CommandView>) -> bool {
    forall|i: int, j: int|
        0 <= i < commands.len() && 0 <= j < commands.len() && i != j ==> (
        #[trigger] commands[i]).name != (#[trigger] commands[j]).name
}

/// The commands by name. Of two commands with one name the later counts.
pub open spec fn by_name(commands: Seq<CommandView>) -> Map<Seq<char>, CommandView>
    decreases commands.len(),
{
    if commands.len() == 0 {
        Map::empty()
    } else {
        by_name(commands.drop_last()).insert(commands.last().name, commands.last())
    }
}

/// The views of the commands, in order.
pub open spec fn command_views(commands: Seq<CustomCommand>) -> Seq<CommandView> {
    Seq::new(commands.len(), |i: int| commands[i]@)
}

/// The names of the commands, in order.
pub open spec fn names_of(commands: Seq<CommandView>) -> Seq<Seq<char>> {
    Seq::new(commands.len(), |i: int| commands[i].name)
}

/// A name is among the keys exactly if one of the commands has it.
pub proof fn lemma_by_name_keys(commands: Seq<CommandView>, name: Seq<char>)
    ensures
        by_name(commands).contains_key(name) <==> exists|i: int|
            0 <= i < commands.len() && (#[trigger] commands[i]).name == name,
    decreases commands.len(),
{
    if commands.len() > 0 {
        let front = commands.drop_last();
        lemma_by_name_keys(front, name);
        if by_name(commands).contains_key(name) {
            if commands.last().name == name {
                assert(commands[commands.len() - 1].name == name);
            } else {
                let i = choose|i: int| 0 <= i < front.len() && (#[trigger] front[i]).name == name;
                assert(commands[i].name == name);
            }
        }
        if exists|i: int| 0 <= i < commands.len() && (#[trigger] commands[i]).name == name {
            let i = choose|i: int| 0 <= i < commands.len() && (#[trigger] commands[i]).name == name;
            if i < front.len() {
                assert(front[i].name == name);
            }
        }
    }
}

/// Where names are distinct, each command is the entry under its name.
pub proof fn lemma_by_name_entry(commands: Seq<CommandView>, i: int)
    requires
        distinct_names(commands),
        0 <= i < commands.len(),
    ensures
        by_name(commands).contains_key(commands[i].name),
        by_name(commands)[commands[i].name] == commands[i],
    decreases commands.len(),
{
    let front = commands.drop_last();
    if i < commands.len() - 1 {
        assert(distinct_names(front)) by {
            assert forall|a: int, b: int|
                0 <= a < front.len() && 0 <= b < front.len() && a != b implies (
            #[trigger] front[a]).name != (#[trigger] front[b]).name by {
                assert(commands[a].name != commands[b].name);
            }
        }
        lemma_by_name_entry(front, i);
        assert(front[i] == commands[i]);
        assert(commands[i].name != commands[commands.len() - 1].name);
    }
}

/// A set of commands, each under its name.
#[derive(Debug)]
pub struct CommandSet {
    commands: Vec<CustomCommand>,
}

impl View for CommandSet {
    type V = Map<Seq<char>, CommandView>;

    open spec fn view(&self) -> Map<Seq<char>, CommandView> {
        by_name(self.entries())
    }
}

impl CommandSet {
    /// The commands of the set, in the order in which their names came in.
    pub closed spec fn entries(&self) -> Seq<CommandView> {
        command_views(self.commands@)
    }

    /// No name occurs twice.
    #[verifier::type_invariant]
    pub closed spec fn wf(&self) -> bool {
        distinct_names(command_views(self.commands@))
    }

    /// The set without commands.
    pub fn new() -> (set: Self)
        ensures
            set.entries() == Seq::<CommandView>::empty(),
            set@ == Map::<Seq<char>, CommandView>::empty(),
    {
        let commands: Vec<CustomCommand> = Vec::new();
        proof {
            assert(command_views(commands@) =~= Seq::empty());
        }
        CommandSet { commands }
    }

    /// The number of commands.
    pub fn len(&self) -> (n: usize)
        ensures
            n == self.entries().len(),
            n == self@.dom().len(),
            self@.dom().finite(),
    {
        proof {
            use_type_invariant(self);
            lemma_by_name_size(self.entries());
        }
        self.commands.len()
    }

    /// The commands of the set.
    pub fn commands(&self) -> (commands: &Vec<CustomCommand>)
        ensures
            command_views(commands@) == self.entries(),
            distinct_names(self.entries()),
    {
        proof {
            use_type_invariant(self);
        }
        &self.commands
    }

    /// The commands of the set, which is given up.
    pub fn into_commands(self) -> (commands: Vec<CustomCommand>)
        ensures
            command_views(commands@) == self.entries(),
            distinct_names(self.entries()),
    {
        proof {
            use_type_invariant(&self);
        }
        self.commands
    }

    /// The position of the command called `name`.
    fn position(&self, name: &str) -> (at: Option<usize>)
        ensures
            match at {
                Some(i) => i < self.commands@.len() && self.commands@[i as int]@.name == name@,
                None => forall|i: int|
                    0 <= i < self.commands@.len() ==> (#[trigger] self.commands@[i])@.name
                        != name@,
            },
    {
        let mut i: usize = 0;
        while i < self.commands.len()
            invariant
                i <= self.commands.len(),
                forall|j: int| 0 <= j < i ==> (#[trigger] self.commands@[j])@.name != name@,
            decreases self.commands.len() - i,
        {
            if same_text(self.commands[i].name.as_str(), name) {
                return Some(i);
            }
            i += 1;
        }
        None
    }

    /// Whether the set holds a command called `name`.
    pub fn contains_key(&self, name: &str) -> (r: bool)
        ensures
            r == self@.contains_key(name@),
    {
        let at = self.position(name);
        proof {
            let views = command_views(self.commands@);
            lemma_by_name_keys(views, name@);
            match at {
                Some(i) => {
                    assert(views[i as int].name == name@);
                },
                None => {
                    assert forall|i: int| 0 <= i < views.len() implies (#[trigger] views[i]).name
                        != name@ by {
                        assert(self.commands@[i]@.name != name@);
                    }
                },
            }
        }
        at.is_some()
    }

    /// The command called `name`.
    pub fn get(&self, name: &str) -> (found: Option<&CustomCommand>)
        ensures
            match found {
                Some(command) => self@.contains_key(name@) && self@[name@] == command@,
                None => !self@.contains_key(name@),
            },
    {
        let at = self.position(name);
        proof {
            use_type_invariant(self);
            let views = command_views(self.commands@);
            lemma_by_name_keys(views, name@);
            match at {
                Some(i) => {
                    assert(views[i as int].name == name@);
                    lemma_by_name_entry(views, i as int);
                },
                None => {
                    assert forall|i: int| 0 <= i < views.len() implies (#[trigger] views[i]).name
                        != name@ by {
                        assert(self.commands@[i]@.name != name@);
                    }
                },
            }
        }
        match at {
            Some(i) => Some(&self.commands[i]),
            None => None,
        }
    }

    /// Puts `command` into the set, in place of the command of the same name
    /// if there is one.
    pub fn insert(&mut self, command: CustomCommand)
        ensures
            final(self)@ == old(self)@.insert(command@.name, command@),
    {
        let at = self.position(command.name.as_str());
        let ghost before = command_views(self.commands@);
        let ghost members = self.commands@;
        proof {
            use_type_invariant(&*self);
        }
        let mut commands: Vec<CustomCommand> = Vec::new();
        core::mem::swap(&mut self.commands, &mut commands);
        match at {
            Some(i) => {
                commands.set(i, command);
                proof {
                    lemma_update_entry(before, i as int, command@);
                    assert(command_views(commands@) =~= before.update(i as int, command@));
                }
            },
            None => {
                commands.push(command);
                proof {
                    assert forall|j: int| 0 <= j < before.len() implies (#[trigger] before[j]).name
                        != command@.name by {
                        assert(members[j]@.name != command@.name);
                    }
                    assert(command_views(commands@) =~= before.push(command@));
                    assert(before.push(command@).drop_last() =~= before);
                }
            },
        }
        self.commands = commands;
    }

    /// Takes the command called `name` out of the set and hands it back.
    pub fn remove(&mut self, name: &str) -> (removed: Option<CustomCommand>)
        ensures
            final(self)@ == old(self)@.remove(name@),
            match removed {
                Some(command) => old(self)@.contains_key(name@) && old(self)@[name@] == command@,
                None => !old(self)@.contains_key(name@),
            },
    {
        let at = self.position(name);
        let ghost before = command_views(self.commands@);
        let ghost members = self.commands@;
        proof {
            use_type_invariant(&*self);
            lemma_by_name_keys(before, name@);
        }
        match at {
            Some(i) => {
                proof {
                    assert(before[i as int].name == name@);
                    lemma_by_name_entry(before, i as int);
                    lemma_remove_entry(before, i as int);
                }
                let mut commands: Vec<CustomCommand> = Vec::new();
                core::mem::swap(&mut self.commands, &mut commands);
                let command = commands.remove(i);
                proof {
                    assert(command_views(commands@) =~= before.remove(i as int));
                }
                self.commands = commands;
                Some(command)
            },
            None => {
                proof {
                    assert forall|i: int| 0 <= i < before.len() implies (#[trigger] before[i]).name
                        != name@ by {
                        assert(members[i]@.name != name@);
                    }
                    assert(old(self)@.remove(name@) =~= old(self)@);
                }
                None
            },
        }
    }

    /// The names of the commands.
    pub fn names(&self) -> (names: Vec<String>)
        ensures
            names.deep_view() == names_of(self.entries()),
            names.deep_view().no_duplicates(),
            names.deep_view().to_set() == self@.dom(),
    {
        let mut names: Vec<String> = Vec::new();
        let mut i: usize = 0;
        while i < self.commands.len()
            invariant
                i <= self.commands.len(),
                names.deep_view() == names_of(command_views(self.commands@)).take(i as int),
            decreases self.commands.len() - i,
        {
            let ghost before = names;
            let name = self.commands[i].name.clone();
            names.push(name);
            proof {
                crate::text::lemma_push_text(before, names, name);
                assert(names.deep_view() =~= names_of(command_views(self.commands@)).take(i + 1));
            }
            i += 1;
        }
        proof {
            use_type_invariant(self);
            let all = names_of(command_views(self.commands@));
            assert(all.take(self.commands@.len() as int) =~= all);
            lemma_names(self.entries());
        }
        names
    }
}

/// Where names are distinct, the names of the commands are the keys, each
/// once.
pub proof fn lemma_names(commands: Seq<CommandView>)
    requires
        distinct_names(commands),
    ensures
        names_of(commands).no_duplicates(),
        names_of(commands).to_set() == by_name(commands).dom(),
{
    let names = names_of(commands);
    assert forall|n: Seq<char>| names.to_set().contains(n) <==> by_name(commands).dom().contains(
        n,
    ) by {
        lemma_by_name_keys(commands, n);
        if names.to_set().contains(n) {
            let i = choose|i: int| 0 <= i < names.len() && names[i] == n;
            assert(commands[i].name == n);
        }
        if by_name(commands).contains_key(n) {
            let i = choose|i: int| 0 <= i < commands.len() && (#[trigger] commands[i]).name == n;
            assert(names[i] == n);
        }
    }
    assert(names.to_set() =~= by_name(commands).dom());
}

/// Where names are distinct, there are as many entries as commands.
pub proof fn lemma_by_name_size(commands: Seq<CommandView>)
    requires
        distinct_names(commands),
    ensures
        by_name(commands).dom().finite(),
        by_name(commands).dom().len() == commands.len(),
    decreases commands.len(),
{
    if commands.len() == 0 {
    } else {
        let front = commands.drop_last();
        assert(distinct_names(front)) by {
            assert forall|a: int, b: int|
                0 <= a < front.len() && 0 <= b < front.len() && a != b implies (
            #[trigger] front[a]).name != (#[trigger] front[b]).name by {
                assert(commands[a].name != commands[b].name);
            }
        }
        lemma_by_name_size(front);
        lemma_by_name_keys(front, commands.last().name);
        if by_name(front).contains_key(commands.last().name) {
            let i = choose|i: int|
                0 <= i < front.len() && (#[trigger] front[i]).name == commands.last().name;
            assert(commands[i].name != commands[commands.len() - 1].name);
        }
        assert(by_name(commands).dom() =~= by_name(front).dom().insert(commands.last().name));
    }
}

/// Replacing a command by one of the same name replaces the entry.
pub proof fn lemma_update_entry(commands: Seq<CommandView>, i: int, c: CommandView)
    requires
        distinct_names(commands),
        0 <= i < commands.len(),
        commands[i].name == c.name,
    ensures
        distinct_names(commands.update(i, c)),
        by_name(commands.update(i, c)) == by_name(commands).insert(c.name, c),
{
    let after = commands.update(i, c);
    assert(distinct_names(after)) by {
        assert forall|a: int, b: int|
            0 <= a < after.len() && 0 <= b < after.len() && a != b implies (#[trigger] after[a]).name
            != (#[trigger] after[b]).name by {
            assert(commands[a].name != commands[b].name);
        }
    }
    let m1 = by_name(after);
    let m2 = by_name(commands).insert(c.name, c);
    assert forall|n: Seq<char>| m1.contains_key(n) <==> m2.contains_key(n) by {
        lemma_by_name_keys(after, n);
        lemma_by_name_keys(commands, n);
        if m1.contains_key(n) {
            let k = choose|k: int| 0 <= k < after.len() && (#[trigger] after[k]).name == n;
            assert(commands[k].name == n);
        }
        if m2.contains_key(n) && n != c.name {
            let k = choose|k: int| 0 <= k < commands.len() && (#[trigger] commands[k]).name == n;
            assert(after[k].name == n);
        }
        if n == c.name {
            assert(after[i].name == n);
        }
    }
    assert forall|n: Seq<char>| m1.contains_key(n) implies m1[n] == m2[n] by {
        lemma_by_name_keys(after, n);
        let k = choose|k: int| 0 <= k < after.len() && (#[trigger] after[k]).name == n;
        lemma_by_name_entry(after, k);
        if k != i {
            lemma_by_name_entry(commands, k);
            assert(commands[k].name != commands[i].name);
        }
    }
    assert(m1 =~= m2);
}

/// Taking a command out takes its entry out.
pub proof fn lemma_remove_entry(commands: Seq<CommandView>, i: int)
    requires
        distinct_names(commands),
        0 <= i < commands.len(),
    ensures
        distinct_names(commands.remove(i)),
        by_name(commands.remove(i)) == by_name(commands).remove(commands[i].name),
{
    let after = commands.remove(i);
    let name = commands[i].name;
    assert(distinct_names(after)) by {
        assert forall|a: int, b: int|
            0 <= a < after.len() && 0 <= b < after.len() && a != b implies (#[trigger] after[a]).name
            != (#[trigger] after[b]).name by {
            let a0 = if a < i { a } else { a + 1 };
            let b0 = if b < i { b } else { b + 1 };
            assert(commands[a0].name != commands[b0].name);
        }
    }
    let m1 = by_name(after);
    let m2 = by_name(commands).remove(name);
    assert forall|n: Seq<char>| m1.contains_key(n) <==> m2.contains_key(n) by {
        lemma_by_name_keys(after, n);
        lemma_by_name_keys(commands, n);
        if m1.contains_key(n) {
            let k = choose|k: int| 0 <= k < after.len() && (#[trigger] after[k]).name == n;
            let k0 = if k < i { k } else { k + 1 };
            assert(commands[k0].name == n);
            assert(commands[k0].name != commands[i].name);
        }
        if m2.contains_key(n) {
            let k = choose|k: int| 0 <= k < commands.len() && (#[trigger] commands[k]).name == n;
            let k1 = if k < i { k } else { k - 1 };
            assert(after[k1].name == n);
        }
    }
    assert forall|n: Seq<char>| m1.contains_key(n) implies m1[n] == m2[n] by {
        lemma_by_name_keys(after, n);
        let k = choose|k: int| 0 <= k < after.len() && (#[trigger] after[k]).name == n;
        let k0 = if k < i { k } else { k + 1 };
        lemma_by_name_entry(after, k);
        lemma_by_name_entry(commands, k0);
    }
    assert(m1 =~= m2);
}

} // verus!
