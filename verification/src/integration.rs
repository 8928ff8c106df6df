//! What the host of the commands is shown: summaries, help, previews and
//! clashes with its own commands.

use vstd::prelude::*;
use crate::command::{CommandScope, CommandView, CustomCommand};
use crate::error::{CustomCommandError, ErrorView};
use crate::executor::{
    is_settled, preview_lines, preview_of, started, CustomCommandExecutor, ExpansionState,
    SecurityMode,
};
use crate::loader::project_directory;
use crate::ordering::{sort_texts, sorted_texts};
use crate::paths::{join_path_chars, joined_path};
use crate::registry::{command_views, CommandSet};
use crate::security::SecurityValidationConfig;
use crate::text::{
    chars_of, concat2, concat3, copy_opt_string, is_space, is_space_char, join_strings, joined,
    push_line, push_str, same_chars, same_text, skip_spaces, slice_chars, string_of,
};

verus! {

/// What is shown of a command in a list.
#[derive(Debug)]
pub struct CustomCommandInfo {
    pub name: String,
    pub description: Option<String>,
    pub argument_hint: Option<String>,
    pub scope: CommandScope,
    pub namespace: Option<String>,
    pub phase: Option<String>,
}

/// A summary as plain texts.
pub struct InfoView {
    pub name: Seq<char>,
    pub description: Option<Seq<char>>,
    pub argument_hint: Option<Seq<char>>,
    pub scope: CommandScope,
    pub namespace: Option<Seq<char>>,
    pub phase: Option<Seq<char>>,
}

impl View for CustomCommandInfo {
    type V = InfoView;

    open spec fn view(&self) -> InfoView {
        InfoView {
            name: self.name@,
            description: self.description.deep_view(),
            argument_hint: self.argument_hint.deep_view(),
            scope: self.scope,
            namespace: self.namespace.deep_view(),
            phase: self.phase.deep_view(),
        }
    }
}

/// The summary of a command: its name, scope and namespace, and from its
/// metadata the description, the argument hint and the phase.
pub open spec fn summary_of(command: CommandView) -> InfoView {
    InfoView {
        name: command.name,
        description: match command.frontmatter {
            Some(metadata) => metadata.description,
            None => None,
        },
        argument_hint: match command.frontmatter {
            Some(metadata) => metadata.argument_hint,
            None => None,
        },
        scope: command.scope,
        namespace: command.namespace,
        phase: match command.frontmatter {
            Some(metadata) => metadata.phase,
            None => None,
        },
    }
}

/// The summaries of the commands, in order.
pub open spec fn summaries_of(commands: Seq<CommandView>) -> Seq<InfoView> {
    Seq::new(commands.len(), |i: int| summary_of(commands[i]))
}

/// The views of the summaries, in order.
pub open spec fn info_views(infos: Seq<CustomCommandInfo>) -> Seq<InfoView> {
    Seq::new(infos.len(), |i: int| infos[i]@)
}

impl CustomCommandInfo {
    /// The summary of `command`.
    pub fn from_command(command: &CustomCommand) -> (info: Self)
        ensures
            info@ == summary_of(command@),
    {
        let (description, argument_hint, phase) = match &command.frontmatter {
            Some(metadata) => (
                copy_opt_string(&metadata.description),
                copy_opt_string(&metadata.argument_hint),
                copy_opt_string(&metadata.phase),
            ),
            None => (None, None, None),
        };
        CustomCommandInfo {
            name: command.name.clone(),
            description,
            argument_hint,
            scope: command.scope,
            namespace: copy_opt_string(&command.namespace),
            phase,
        }
    }
}

/// The first position at or after `i` that holds no `/`.
pub open spec fn skip_slashes(s: Seq<char>, i: int) -> int
    decreases s.len() - i,
{
    if 0 <= i < s.len() && s[i] == '/' {
        skip_slashes(s, i + 1)
    } else {
        i
    }
}

/// The first position at or after `i` that holds white space, or the length
/// of `s`.
pub open spec fn skip_word(s: Seq<char>, i: int) -> int
    decreases s.len() - i,
{
    if 0 <= i < s.len() && !is_space(s[i]) {
        skip_word(s, i + 1)
    } else {
        i
    }
}

/// The name of a command of the host as it is called: the entry without
/// leading `/`, up to the first white space. White space before the name is
/// passed over.
pub open spec fn builtin_name(entry: Seq<char>) -> Seq<char> {
    let start = skip_spaces(entry, skip_slashes(entry, 0));
    entry.subrange(start, skip_word(entry, start))
}

/// One of the commands of the host is called `name`.
pub open spec fn clashes(name: Seq<char>, existing: Seq<Seq<char>>) -> bool {
    exists|k: int| 0 <= k < existing.len() && builtin_name(#[trigger] existing[k]) == name
}

/// The names among `names` that a command of the host has too, in order.
pub open spec fn clashing_names(names: Seq<Seq<char>>, existing: Seq<Seq<char>>) -> Seq<Seq<char>>
    decreases names.len(),
{
    if names.len() == 0 {
        Seq::empty()
    } else {
        let rest = clashing_names(names.drop_last(), existing);
        if clashes(names.last(), existing) {
            rest.push(names.last())
        } else {
            rest
        }
    }
}

/// The names of the summaries, in order.
pub open spec fn info_names(infos: Seq<InfoView>) -> Seq<Seq<char>> {
    Seq::new(infos.len(), |i: int| infos[i].name)
}

/// The words for a scope in the help of a command.
pub open spec fn scope_text(scope: CommandScope) -> Seq<char> {
    match scope {
        CommandScope::Project => "Project"@,
        CommandScope::Global => "Global"@,
    }
}

/// A line made of `prefix` and `value`, or nothing where there is no value.
pub open spec fn optional_line(prefix: Seq<char>, value: Option<Seq<char>>) -> Seq<Seq<char>> {
    match value {
        Some(v) => seq![prefix + v],
        None => Seq::empty(),
    }
}

/// The start of the template that the help shows: all of it up to two
/// hundred characters, else the first two hundred and three dots.
pub open spec fn content_preview(content: Seq<char>) -> Seq<char> {
    if content.len() > 200 {
        content.subrange(0, 200) + "..."@
    } else {
        content
    }
}

/// The lines that the metadata adds to the help of the command `name`.
pub open spec fn metadata_help_lines(name: Seq<char>, command: CommandView) -> Seq<Seq<char>> {
    match command.frontmatter {
        Some(metadata) => optional_line("📋 Description: "@, metadata.description)
            + optional_line("💡 Usage: /"@ + name + " "@, metadata.argument_hint) + optional_line(
            "🔄 Phase: "@,
            metadata.phase,
        ) + optional_line(
            "🔗 Dependencies: "@,
            match metadata.dependencies {
                Some(d) => Some(joined(d, ", "@)),
                None => None,
            },
        ),
        None => Seq::empty(),
    }
}

/// The lines of the help for a command.
pub open spec fn help_lines(command: CommandView) -> Seq<Seq<char>> {
    seq!["📝 Custom Command: "@ + command.name] + metadata_help_lines(command.name, command)
        + seq![
        "📁 Source: "@ + command.file_path,
        "🌐 Scope: "@ + scope_text(command.scope),
    ] + optional_line("🏷️  Namespace: "@, command.namespace) + seq![
        Seq::<char>::empty(),
        "📄 Content preview:"@,
        content_preview(command.content),
    ]
}

/// The heading under which a command is listed: its namespace, or
/// `General` where it has none.
pub open spec fn group_of(info: InfoView) -> Seq<char> {
    match info.namespace {
        Some(namespace) => namespace,
        None => "General"@,
    }
}

/// The headings of the commands, in order.
pub open spec fn groups_of(infos: Seq<InfoView>) -> Seq<Seq<char>> {
    Seq::new(infos.len(), |i: int| group_of(infos[i]))
}

/// The words for a scope in the list of commands.
pub open spec fn scope_mark(scope: CommandScope) -> Seq<char> {
    match scope {
        CommandScope::Project => "(project)"@,
        CommandScope::Global => "(user)"@,
    }
}

/// `prefix` and `value`, or nothing where there is no value.
pub open spec fn optional_part(prefix: Seq<char>, value: Option<Seq<char>>) -> Seq<char> {
    match value {
        Some(v) => prefix + v,
        None => Seq::empty(),
    }
}

/// The line for a command in the list: how it is called, its scope and its
/// description.
pub open spec fn entry_line(info: InfoView) -> Seq<char> {
    "  /"@ + info.name + optional_part(" "@, info.argument_hint) + " "@ + scope_mark(info.scope)
        + optional_part(" - "@, info.description)
}

/// The lines for the commands under the heading `group`, in order.
pub open spec fn group_entries(infos: Seq<InfoView>, group: Seq<char>) -> Seq<Seq<char>>
    decreases infos.len(),
{
    if infos.len() == 0 {
        Seq::empty()
    } else {
        let rest = group_entries(infos.drop_last(), group);
        if group_of(infos.last()) == group {
            rest.push(entry_line(infos.last()))
        } else {
            rest
        }
    }
}

/// The heading `group` with the lines of its commands.
pub open spec fn group_block(infos: Seq<InfoView>, group: Seq<char>) -> Seq<Seq<char>> {
    seq!["## "@ + group + " Commands"@, Seq::<char>::empty()] + group_entries(infos, group)
        + seq![Seq::<char>::empty()]
}

/// The blocks of the headings `groups`, in order.
pub open spec fn group_blocks(infos: Seq<InfoView>, groups: Seq<Seq<char>>) -> Seq<Seq<char>>
    decreases groups.len(),
{
    if groups.len() == 0 {
        Seq::empty()
    } else {
        group_blocks(infos, groups.drop_last()) + group_block(infos, groups.last())
    }
}

/// The lines of the list of commands: a title, the block of each heading
/// with the headings in the order of a dictionary, and a hint.
pub open spec fn list_lines(infos: Seq<InfoView>) -> Seq<Seq<char>> {
    seq!["🎯 Available Custom Commands:"@, Seq::<char>::empty()] + group_blocks(
        infos,
        sorted_texts(groups_of(infos)),
    ) + seq!["💡 Use '/help <command>' for detailed help on a specific command."@]
}

/// The list of commands as text, or a note where there are none.
pub open spec fn list_text(infos: Seq<InfoView>) -> Seq<char> {
    if infos.len() == 0 {
        "No custom commands available. Create .md files in .amazonq/commands/ to add custom commands."@
    } else {
        joined(list_lines(infos), "\n"@)
    }
}

/// The heading under which `info` is listed.
fn group_name(info: &CustomCommandInfo) -> (group: String)
    ensures
        group@ == group_of(info@),
{
    match &info.namespace {
        Some(namespace) => namespace.clone(),
        None => "General".to_string(),
    }
}

/// The line for `info` in the list.
fn entry_line_of(info: &CustomCommandInfo) -> (line: String)
    ensures
        line@ == entry_line(info@),
{
    let mut line = chars_of("  /");
    push_str(&mut line, info.name.as_str());
    if let Some(hint) = &info.argument_hint {
        push_str(&mut line, " ");
        push_str(&mut line, hint.as_str());
    }
    push_str(&mut line, " ");
    match info.scope {
        CommandScope::Project => push_str(&mut line, "(project)"),
        CommandScope::Global => push_str(&mut line, "(user)"),
    }
    if let Some(description) = &info.description {
        push_str(&mut line, " - ");
        push_str(&mut line, description.as_str());
    }
    proof {
        assert(line@ =~= entry_line(info@));
    }
    string_of(&line)
}

/// Appends the lines for the commands under the heading `group`.
fn push_group_entries(lines: &mut Vec<String>, commands: &[CustomCommandInfo], group: &str)
    ensures
        final(lines).deep_view() == old(lines).deep_view() + group_entries(
            info_views(commands@),
            group@,
        ),
{
    let ghost infos = info_views(commands@);
    let mut i: usize = 0;
    proof {
        assert(infos.take(0) =~= Seq::<InfoView>::empty());
        assert(lines.deep_view() + Seq::<Seq<char>>::empty() =~= lines.deep_view());
    }
    while i < commands.len()
        invariant
            i <= commands.len(),
            infos == info_views(commands@),
            lines.deep_view() == old(lines).deep_view() + group_entries(
                infos.take(i as int),
                group@,
            ),
        decreases commands.len() - i,
    {
        proof {
            assert(infos.take(i + 1).drop_last() =~= infos.take(i as int));
            assert(infos.take(i + 1).last() == commands@[i as int]@);
        }
        let own = group_name(&commands[i]);
        if same_text(own.as_str(), group) {
            push_line(lines, entry_line_of(&commands[i]));
            proof {
                assert(lines.deep_view() =~= old(lines).deep_view() + group_entries(
                    infos.take(i + 1),
                    group@,
                ));
            }
        }
        i += 1;
    }
    proof {
        assert(infos.take(commands@.len() as int) =~= infos);
    }
}

/// Appends a line made of `prefix` and `value`, where there is a value.
fn push_optional_line(lines: &mut Vec<String>, prefix: &str, value: &Option<String>)
    ensures
        final(lines).deep_view() == old(lines).deep_view() + optional_line(
            prefix@,
            value.deep_view(),
        ),
{
    match value {
        Some(v) => {
            push_line(lines, concat2(prefix, v.as_str()));
            proof {
                assert(lines.deep_view() =~= old(lines).deep_view() + seq![prefix@ + v@]);
            }
        },
        None => {
            proof {
                assert(lines.deep_view() =~= lines.deep_view() + Seq::<Seq<char>>::empty());
            }
        },
    }
}

/// The name of a command of the host as it is called.
fn builtin_name_chars(entry: &Vec<char>) -> (name: Vec<char>)
    ensures
        name@ == builtin_name(entry@),
{
    let mut i: usize = 0;
    while i < entry.len() && entry[i] == '/'
        invariant
            i <= entry.len(),
            skip_slashes(entry@, i as int) == skip_slashes(entry@, 0),
        decreases entry.len() - i,
    {
        i += 1;
    }
    let ghost from = i;
    while i < entry.len() && is_space_char(entry[i])
        invariant
            from <= i <= entry.len(),
            skip_spaces(entry@, i as int) == skip_spaces(entry@, from as int),
        decreases entry.len() - i,
    {
        i += 1;
    }
    let start = i;
    while i < entry.len() && !is_space_char(entry[i])
        invariant
            start <= i <= entry.len(),
            skip_word(entry@, i as int) == skip_word(entry@, start as int),
        decreases entry.len() - i,
    {
        i += 1;
    }
    slice_chars(entry, start, i)
}

/// The session's side of the commands: an engine, and the texts shown.
#[derive(Debug)]
pub struct CustomCommandIntegration {
    executor: CustomCommandExecutor,
}

impl CustomCommandIntegration {
    /// How the engine of the session treats findings.
    pub closed spec fn mode(&self) -> SecurityMode {
        self.executor.mode()
    }

    /// The time that the engine of the session allows to a shell snippet.
    pub closed spec fn timeout_ms(&self) -> u64 {
        self.executor.timeout_ms()
    }

    /// The session's side with an engine that warns of findings.
    pub fn new() -> (integration: Self)
        ensures
            integration.mode() == SecurityMode::Warning,
            integration.timeout_ms() == 30000,
    {
        CustomCommandIntegration {
            executor: CustomCommandExecutor::new().with_security_mode(SecurityMode::Warning),
        }
    }

    /// The session's side with another way to treat findings.
    pub fn with_security_mode(self, mode: SecurityMode) -> (integration: Self)
        ensures
            integration.mode() == mode,
            integration.timeout_ms() == self.timeout_ms(),
    {
        CustomCommandIntegration { executor: self.executor.with_security_mode(mode) }
    }

    /// The engine of the session.
    pub fn executor(&self) -> (executor: &CustomCommandExecutor)
        ensures
            executor.mode() == self.mode(),
            executor.timeout_ms() == self.timeout_ms(),
    {
        &self.executor
    }

    /// Whether `command_name` calls a command: the feature is switched on
    /// and `commands` holds the name.
    pub fn is_custom_command(&self, enabled: bool, commands: &CommandSet, command_name: &str) -> (r:
        bool)
        ensures
            r == (enabled && commands@.contains_key(command_name@)),
    {
        enabled && commands.contains_key(command_name)
    }

    /// Begins the expansion of the command called `command_name` under the
    /// policy `security_config`. A name that no command has is refused.
    pub fn execute_custom_command(
        &self,
        commands: &CommandSet,
        command_name: &str,
        args: &[String],
        security_config: &SecurityValidationConfig,
    ) -> (out: Result<ExpansionState, CustomCommandError>)
        ensures
            match out {
                Ok(state) => commands@.contains_key(command_name@) && state@ == started(
                    self.mode(),
                    commands@[command_name@],
                    args.deep_view(),
                    security_config@,
                ) && is_settled(state@),
                Err(e) => !commands@.contains_key(command_name@) && e@
                    == ErrorView::CommandNotFound(command_name@),
            },
    {
        match commands.get(command_name) {
            Some(command) => Ok(self.executor.execute_with_security(command, args, security_config)),
            None => Err(CustomCommandError::CommandNotFound(command_name.to_string())),
        }
    }

    /// The summaries of the commands.
    pub fn list_custom_commands(&self, commands: &CommandSet) -> (infos: Vec<CustomCommandInfo>)
        ensures
            info_views(infos@) == summaries_of(commands.entries()),
    {
        let all = commands.commands();
        let mut infos: Vec<CustomCommandInfo> = Vec::new();
        let mut i: usize = 0;
        while i < all.len()
            invariant
                i <= all.len(),
                info_views(infos@) == summaries_of(command_views(all@)).take(i as int),
            decreases all.len() - i,
        {
            let ghost before = info_views(infos@);
            let info = CustomCommandInfo::from_command(&all[i]);
            infos.push(info);
            proof {
                let target = summaries_of(command_views(all@));
                assert(info_views(infos@) =~= before.push(info@));
                assert(target[i as int] == summary_of(command_views(all@)[i as int]));
                assert(target.take(i + 1) =~= target.take(i as int).push(target[i as int]));
            }
            i += 1;
        }
        proof {
            let target = summaries_of(command_views(all@));
            assert(target.take(all@.len() as int) =~= target);
        }
        infos
    }

    /// Whether a command of the host is called `name`.
    fn name_clashes(name: &Vec<char>, existing: &[&str]) -> (r: bool)
        ensures
            r == clashes(name@, existing.deep_view()),
    {
        let mut k: usize = 0;
        while k < existing.len()
            invariant
                k <= existing.len(),
                forall|j: int|
                    0 <= j < k ==> builtin_name(#[trigger] existing.deep_view()[j]) != name@,
            decreases existing.len() - k,
        {
            let entry: &str = existing[k];
            proof {
                assert(existing.deep_view()[k as int] == entry@);
            }
            let builtin = builtin_name_chars(&chars_of(entry));
            if same_chars(&builtin, name) {
                return true;
            }
            k += 1;
        }
        false
    }

    /// The names among `custom_commands` that clash with a command of the
    /// host, in order. `existing` lists the commands of the host as they are
    /// typed, with or without a leading `/` and arguments.
    pub fn check_command_conflicts(
        &self,
        custom_commands: &[CustomCommandInfo],
        existing: &[&str],
    ) -> (conflicts: Vec<String>)
        ensures
            conflicts.deep_view() == clashing_names(
                info_names(info_views(custom_commands@)),
                existing.deep_view(),
            ),
    {
        let mut conflicts: Vec<String> = Vec::new();
        proof {
            assert(conflicts.deep_view() =~= Seq::empty());
        }
        let ghost names = info_names(info_views(custom_commands@));
        let mut i: usize = 0;
        while i < custom_commands.len()
            invariant
                i <= custom_commands.len(),
                names == info_names(info_views(custom_commands@)),
                conflicts.deep_view() == clashing_names(names.take(i as int), existing.deep_view()),
            decreases custom_commands.len() - i,
        {
            proof {
                assert(names.take(i + 1).drop_last() =~= names.take(i as int));
                assert(names.take(i + 1).last() == custom_commands@[i as int].name@);
            }
            if Self::name_clashes(&chars_of(custom_commands[i].name.as_str()), existing) {
                push_line(&mut conflicts, custom_commands[i].name.clone());
            }
            i += 1;
        }
        proof {
            assert(names.take(custom_commands@.len() as int) =~= names);
        }
        conflicts
    }

    /// Appends the lines that the metadata adds to the help of a command.
    fn push_metadata_help(lines: &mut Vec<String>, command: &CustomCommand)
        ensures
            final(lines).deep_view() == old(lines).deep_view() + metadata_help_lines(
                command@.name,
                command@,
            ),
    {
        match &command.frontmatter {
            Some(metadata) => {
                let ghost s0 = lines.deep_view();
                push_optional_line(lines, "📋 Description: ", &metadata.description);
                let ghost s1 = lines.deep_view();
                let usage = concat3("💡 Usage: /", command.name.as_str(), " ");
                push_optional_line(lines, usage.as_str(), &metadata.argument_hint);
                let ghost s2 = lines.deep_view();
                push_optional_line(lines, "🔄 Phase: ", &metadata.phase);
                let ghost s3 = lines.deep_view();
                let dependencies = match &metadata.dependencies {
                    Some(d) => Some(join_strings(d, ", ")),
                    None => None,
                };
                push_optional_line(lines, "🔗 Dependencies: ", &dependencies);
                proof {
                    let view = metadata@;
                    let l1 = optional_line("📋 Description: "@, view.description);
                    let l2 = optional_line(
                        "💡 Usage: /"@ + command@.name + " "@,
                        view.argument_hint,
                    );
                    let l3 = optional_line("🔄 Phase: "@, view.phase);
                    let l4 = optional_line(
                        "🔗 Dependencies: "@,
                        match view.dependencies {
                            Some(d) => Some(joined(d, ", "@)),
                            None => None,
                        },
                    );
                    assert(s1 == s0 + l1);
                    assert(s2 == s1 + l2);
                    assert(s3 == s2 + l3);
                    assert(lines.deep_view() == s3 + l4);
                    assert(s0 + l1 + l2 + l3 + l4 =~= s0 + (l1 + l2 + l3 + l4));
                }
            },
            None => {
                proof {
                    assert(lines.deep_view() + Seq::<Seq<char>>::empty() =~= lines.deep_view());
                }
            },
        }
    }

    /// The start of the template that the help shows.
    fn content_preview_of(content: &str) -> (shown: String)
        ensures
            shown@ == content_preview(content@),
    {
        let chars = chars_of(content);
        if chars.len() > 200 {
            let start = slice_chars(&chars, 0, 200);
            concat2(string_of(&start).as_str(), "...")
        } else {
            string_of(&chars)
        }
    }

    /// The help for a command: see [`help_lines`], one line below the other.
    pub fn format_command_help(command: &CustomCommand) -> (out: String)
        ensures
            out@ == joined(help_lines(command@), "\n"@),
    {
        let mut lines: Vec<String> = Vec::new();
        proof {
            assert(lines.deep_view() =~= Seq::empty());
        }
        push_line(&mut lines, concat2("📝 Custom Command: ", command.name.as_str()));
        let ghost s1 = lines.deep_view();
        proof {
            assert(s1 =~= seq!["📝 Custom Command: "@ + command@.name]);
        }
        Self::push_metadata_help(&mut lines, command);
        let ghost s2 = lines.deep_view();
        push_line(&mut lines, concat2("📁 Source: ", command.file_path.as_str()));
        let scope = match command.scope {
            CommandScope::Project => "Project",
            CommandScope::Global => "Global",
        };
        push_line(&mut lines, concat2("🌐 Scope: ", scope));
        let ghost s3 = lines.deep_view();
        proof {
            assert(s3 =~= s2 + seq![
                "📁 Source: "@ + command@.file_path,
                "🌐 Scope: "@ + scope_text(command@.scope),
            ]);
        }
        push_optional_line(&mut lines, "🏷️  Namespace: ", &command.namespace);
        let ghost s4 = lines.deep_view();
        push_line(&mut lines, String::new());
        push_line(&mut lines, "📄 Content preview:".to_string());
        push_line(&mut lines, Self::content_preview_of(command.content.as_str()));
        proof {
            assert(lines.deep_view() =~= s4 + seq![
                Seq::<char>::empty(),
                "📄 Content preview:"@,
                content_preview(command@.content),
            ]);
        }
        join_strings(&lines, "\n")
    }

    /// The list of the commands under their headings: see [`list_text`].
    pub fn format_commands_list(commands: &[CustomCommandInfo]) -> (out: String)
        ensures
            out@ == list_text(info_views(commands@)),
    {
        if commands.len() == 0 {
            return "No custom commands available. Create .md files in .amazonq/commands/ to add custom commands.".to_string();
        }
        let ghost infos = info_views(commands@);
        let mut headings: Vec<String> = Vec::new();
        let mut i: usize = 0;
        while i < commands.len()
            invariant
                i <= commands.len(),
                infos == info_views(commands@),
                headings.deep_view() == groups_of(infos).take(i as int),
            decreases commands.len() - i,
        {
            push_line(&mut headings, group_name(&commands[i]));
            proof {
                assert(headings.deep_view() =~= groups_of(infos).take(i + 1));
            }
            i += 1;
        }
        proof {
            assert(groups_of(infos).take(commands@.len() as int) =~= groups_of(infos));
        }
        let groups = sort_texts(&headings);
        let mut lines: Vec<String> = Vec::new();
        proof {
            assert(lines.deep_view() =~= Seq::empty());
        }
        push_line(&mut lines, "🎯 Available Custom Commands:".to_string());
        push_line(&mut lines, String::new());
        let ghost head = lines.deep_view();
        proof {
            assert(head =~= seq!["🎯 Available Custom Commands:"@, Seq::<char>::empty()]);
            assert(groups.deep_view().take(0) =~= Seq::<Seq<char>>::empty());
            assert(head + Seq::<Seq<char>>::empty() =~= head);
        }
        let mut g: usize = 0;
        while g < groups.len()
            invariant
                g <= groups.len(),
                infos == info_views(commands@),
                lines.deep_view() == head + group_blocks(infos, groups.deep_view().take(g as int)),
            decreases groups.len() - g,
        {
            let ghost before = lines.deep_view();
            let ghost seen = groups.deep_view().take(g + 1);
            proof {
                assert(seen.drop_last() =~= groups.deep_view().take(g as int));
                assert(seen.last() == groups[g as int]@);
            }
            push_line(&mut lines, concat3("## ", groups[g].as_str(), " Commands"));
            push_line(&mut lines, String::new());
            push_group_entries(&mut lines, commands, groups[g].as_str());
            push_line(&mut lines, String::new());
            proof {
                assert(lines.deep_view() =~= before + group_block(infos, groups[g as int]@));
                assert(before + group_block(infos, groups[g as int]@) =~= head + group_blocks(
                    infos,
                    seen,
                ));
            }
            g += 1;
        }
        proof {
            assert(groups.deep_view().take(groups.len() as int) =~= groups.deep_view());
        }
        push_line(
            &mut lines,
            "💡 Use '/help <command>' for detailed help on a specific command.".to_string(),
        );
        proof {
            assert(lines.deep_view() =~= list_lines(infos));
        }
        join_strings(&lines, "\n")
    }

    /// The help that is shown: for the command called `command_name`, or,
    /// without a name, the list of all commands. A name that no command has
    /// is refused.
    pub fn show_custom_command_help(&self, command_name: Option<&str>, commands: &CommandSet) -> (out:
        Result<String, CustomCommandError>)
        ensures
            match command_name {
                Some(name) => match out {
                    Ok(text) => commands@.contains_key(name@) && text@ == joined(
                        help_lines(commands@[name@]),
                        "\n"@,
                    ),
                    Err(e) => !commands@.contains_key(name@) && e@ == ErrorView::CommandNotFound(
                        name@,
                    ),
                },
                None => out matches Ok(text) && text@ == list_text(
                    summaries_of(commands.entries()),
                ),
            },
    {
        match command_name {
            Some(name) => match commands.get(name) {
                Some(command) => Ok(Self::format_command_help(command)),
                None => Err(CustomCommandError::CommandNotFound(name.to_string())),
            },
            None => {
                let infos = self.list_custom_commands(commands);
                Ok(Self::format_commands_list(infos.as_slice()))
            },
        }
    }

    /// What a call of the command called `command_name` with `args` would
    /// do, as text for a reader: the template with the arguments put in, the
    /// snippets that would run, the files that would be inlined and the
    /// findings, as the engine of the session previews them. Nothing is run
    /// and nothing is read. A name that no command has is refused.
    pub fn preview_command(&self, commands: &CommandSet, command_name: &str, args: &[String]) -> (out:
        Result<String, CustomCommandError>)
        ensures
            match out {
                Ok(text) => commands@.contains_key(command_name@) && text@ == joined(
                    preview_lines(
                        preview_of(self.mode(), commands@[command_name@], args.deep_view()),
                    ),
                    "\n"@,
                ),
                Err(e) => !commands@.contains_key(command_name@) && e@
                    == ErrorView::CommandNotFound(command_name@),
            },
    {
        match commands.get(command_name) {
            Some(command) => Ok(self.executor.preview(command, args).to_display_string()),
            None => Err(CustomCommandError::CommandNotFound(command_name.to_string())),
        }
    }
}

impl Default for CustomCommandIntegration {
    fn default() -> (integration: Self)
        ensures
            integration.mode() == SecurityMode::Warning,
            integration.timeout_ms() == 30000,
    {
        CustomCommandIntegration::new()
    }
}

/// What is to be done to set up the project's directory of commands.
#[derive(Debug)]
pub enum InstallStep {
    /// The directory is there; the text says so.
    AlreadyPresent { message: String },
    /// The directory is to be made and the sample command written into it;
    /// the text is shown once that is done.
    Create { directory: String, sample_file: String, sample_content: String, message: String },
}

/// A step of the setup as plain texts.
pub enum InstallView {
    AlreadyPresent { message: Seq<char> },
    Create {
        directory: Seq<char>,
        sample_file: Seq<char>,
        sample_content: Seq<char>,
        message: Seq<char>,
    },
}

impl View for InstallStep {
    type V = InstallView;

    open spec fn view(&self) -> InstallView {
        match self {
            InstallStep::AlreadyPresent { message } => InstallView::AlreadyPresent {
                message: message@,
            },
            InstallStep::Create { directory, sample_file, sample_content, message } =>
                InstallView::Create {
                    directory: directory@,
                    sample_file: sample_file@,
                    sample_content: sample_content@,
                    message: message@,
                },
        }
    }
}

/// The command that is written into a new directory of commands.
pub open spec fn sample_command_text() -> Seq<char> {
    "---\ndescription: \"Sample custom command\"\nargument-hint: \"[your-message]\"\n---\n\n# Sample Command\n\nThis is a sample custom command. You can edit this file or create new .md files in the .amazonq/commands/ directory.\n\n## Your input\n$ARGUMENTS\n\n## Example usage\n/sample-command \"Hello, World!\"\n"@
}

/// The setup of the project's directory of commands below `current_dir`.
pub open spec fn install_step(current_dir: Seq<char>, present: bool) -> InstallView {
    let directory = project_directory(current_dir);
    if present {
        InstallView::AlreadyPresent {
            message: "Custom commands directory already exists: "@ + directory,
        }
    } else {
        InstallView::Create {
            directory,
            sample_file: joined_path(directory, "sample-command.md"@),
            sample_content: sample_command_text(),
            message: "✅ Custom commands directory initialized: "@ + directory
                + "\n\n📝 Sample command created: sample-command.md\n\n💡 Create more .md files in this directory to add custom commands."@,
        }
    }
}

/// The setup of directories of commands.
#[derive(Debug)]
pub struct CustomCommandInstaller;

impl CustomCommandInstaller {
    /// What is to be done to set up the project's directory of commands
    /// below `current_dir`, given whether the directory is `present`: see
    /// [`install_step`].
    pub fn init_command_directory(current_dir: &str, present: bool) -> (step: InstallStep)
        ensures
            step@ == install_step(current_dir@, present),
    {
        let directory = crate::loader::CustomCommandLoader::project_directory_of(current_dir);
        if present {
            return InstallStep::AlreadyPresent {
                message: concat2("Custom commands directory already exists: ", directory.as_str()),
            };
        }
        let sample_file = string_of(
            &join_path_chars(&chars_of(directory.as_str()), &chars_of("sample-command.md")),
        );
        let message = concat3(
            "✅ Custom commands directory initialized: ",
            directory.as_str(),
            "\n\n📝 Sample command created: sample-command.md\n\n💡 Create more .md files in this directory to add custom commands.",
        );
        InstallStep::Create {
            directory,
            sample_file,
            sample_content: "---\ndescription: \"Sample custom command\"\nargument-hint: \"[your-message]\"\n---\n\n# Sample Command\n\nThis is a sample custom command. You can edit this file or create new .md files in the .amazonq/commands/ directory.\n\n## Your input\n$ARGUMENTS\n\n## Example usage\n/sample-command \"Hello, World!\"\n".to_string(),
            message,
        }
    }
}

/// The commands of the command line that manages custom commands.
#[derive(Debug, PartialEq)]
#[allow(inconsistent_fields)]
pub enum CustomCommandsArgs {
    /// List the commands.
    List,
    /// Show the help for one command, or the list.
    Show { command: Option<String> },
    /// Show what a call would give, without making it.
    Preview { command: String, args: Vec<String> },
    /// Make the project directory for commands.
    Init,
    /// Make findings block.
    SecureOn,
    /// Make findings count for nothing.
    SecureOff,
    /// Make findings warnings.
    SecureWarn,
    /// Show the policy in force.
    SecureStatus,
}

} // verus!
