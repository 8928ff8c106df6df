//! What holds of every expansion, whatever the template, the policy and the
//! outcomes of snippets and files.

use vstd::prelude::*;
use crate::command::CommandView;
use crate::executor::{
    action_of, after_file, after_shell, file_content, file_failure, file_inlined,
    permissions_of, settle_file, settle_shell, shell_failure, shell_inlined, shell_output,
    snippet_refusal, started, tagged, unsafe_reference, ActionView, FileOutcomeView,
    SecurityMode, ShellOutcomeView, StateView,
};
use crate::processor::{
    bash_commands, file_references, findings, is_unsafe_reference, substituted, validation,
};
use crate::security::ConfigView;

verus! {

/// A state that waits for a snippet or a file waits for one that is not
/// refused: a snippet that the permission list and the engine let through, a
/// reference that is neither absolute nor climbs to a parent directory.
pub open spec fn waits_for_nothing_refused(mode: SecurityMode, state: StateView) -> bool {
    match state {
        StateView::AwaitingShell { text, commands, index, allowed_tools } => 0 <= index
            < commands.len() && snippet_refusal(
            mode,
            commands[index],
            allowed_tools,
            findings(commands[index], Seq::empty()),
        ) is None,
        StateView::AwaitingFile { text, references, index } => 0 <= index < references.len()
            && !is_unsafe_reference(references[index]),
        _ => true,
    }
}

/// The references of a text are resolved only as far as they are safe.
pub proof fn lemma_settle_file_is_safe(
    mode: SecurityMode,
    text: Seq<char>,
    references: Seq<Seq<char>>,
    index: int,
)
    ensures
        waits_for_nothing_refused(mode, settle_file(text, references, index)),
{
}

/// The snippets of a text are resolved only as far as they are let through.
pub proof fn lemma_settle_shell_is_safe(
    mode: SecurityMode,
    text: Seq<char>,
    commands: Seq<Seq<char>>,
    index: int,
    allowed_tools: Option<Seq<Seq<char>>>,
)
    ensures
        waits_for_nothing_refused(mode, settle_shell(mode, text, commands, index, allowed_tools)),
{
    lemma_settle_file_is_safe(mode, text, file_references(text), 0);
}

/// An expansion does not begin by asking for a snippet or a file that is
/// refused.
pub proof fn lemma_start_asks_for_nothing_refused(
    mode: SecurityMode,
    command: CommandView,
    args: Seq<Seq<char>>,
    policy: ConfigView,
)
    ensures
        waits_for_nothing_refused(mode, started(mode, command, args, policy)),
{
    let text = substituted(command.content, args);
    lemma_settle_shell_is_safe(mode, text, bash_commands(text), 0, permissions_of(command));
}

/// An expansion that asks for nothing refused does not come to ask for it
/// after any outcome; and the file that it asks for is never one outside
/// the working directory.
pub proof fn lemma_step_asks_for_nothing_refused(
    mode: SecurityMode,
    timeout_ms: u64,
    state: StateView,
    ran: ShellOutcomeView,
    found: FileOutcomeView,
)
    requires
        waits_for_nothing_refused(mode, state),
    ensures
        waits_for_nothing_refused(mode, after_shell(mode, timeout_ms, state, ran)),
        waits_for_nothing_refused(mode, after_file(state, found)),
        match action_of(timeout_ms, state) {
            ActionView::ReadFile { reference } => !is_unsafe_reference(reference),
            _ => true,
        },
{
    match state {
        StateView::AwaitingShell { text, commands, index, allowed_tools } => {
            lemma_settle_shell_is_safe(
                mode,
                shell_inlined(text, commands[index], shell_output(ran)),
                commands,
                index + 1,
                allowed_tools,
            );
        },
        StateView::AwaitingFile { text, references, index } => {
            lemma_settle_file_is_safe(
                mode,
                file_inlined(text, references[index], file_content(found)),
                references,
                index + 1,
            );
        },
        _ => {},
    }
}

/// A reference that is absolute or climbs to a parent directory ends the
/// expansion with a security error as soon as its turn comes, whatever the
/// policy and the mode of the engine; its file is not asked for.
pub proof fn lemma_unsafe_reference_stops(
    text: Seq<char>,
    references: Seq<Seq<char>>,
    index: int,
)
    requires
        0 <= index < references.len(),
        is_unsafe_reference(references[index]),
    ensures
        settle_file(text, references, index) == StateView::Failed(
            unsafe_reference(references[index]),
        ),
{
}

/// A template whose text, with the arguments put in, holds no snippet and
/// refers first to a file outside the working directory fails with a
/// security error under every policy and every mode: the one for the
/// findings where they block, else the one for the reference.
pub proof fn lemma_unsafe_reference_fails(
    mode: SecurityMode,
    command: CommandView,
    args: Seq<Seq<char>>,
    policy: ConfigView,
)
    requires
        bash_commands(substituted(command.content, args)).len() == 0,
        file_references(substituted(command.content, args)).len() > 0,
        is_unsafe_reference(file_references(substituted(command.content, args))[0]),
    ensures
        started(mode, command, args, policy) matches StateView::Failed(failure)
            && failure is SecurityError,
        !validation(command.content, policy).should_error ==> started(
            mode,
            command,
            args,
            policy,
        ) == StateView::Failed(
            unsafe_reference(file_references(substituted(command.content, args))[0]),
        ),
{
}

/// A template whose text holds one snippet that is let through, and no
/// reference once the snippet's output is put in, expands in one step: the
/// snippet is asked for, and when it has run with success the expansion is
/// done with its marker replaced by what it wrote, trimmed.
pub proof fn lemma_one_snippet_expands(
    mode: SecurityMode,
    timeout_ms: u64,
    command: CommandView,
    args: Seq<Seq<char>>,
    policy: ConfigView,
    snippet: Seq<char>,
    stdout: Seq<char>,
    stderr: Seq<char>,
)
    requires
        !validation(command.content, policy).should_error,
        bash_commands(substituted(command.content, args)) == seq![snippet],
        snippet_refusal(mode, snippet, permissions_of(command), findings(snippet, Seq::empty()))
            is None,
        file_references(
            shell_inlined(substituted(command.content, args), snippet, stdout),
        ).len() == 0,
    ensures
        started(mode, command, args, policy) == (StateView::AwaitingShell {
            text: substituted(command.content, args),
            commands: seq![snippet],
            index: 0,
            allowed_tools: permissions_of(command),
        }),
        action_of(timeout_ms, started(mode, command, args, policy)) == (ActionView::RunShell {
            command: snippet,
            timeout_ms,
        }),
        after_shell(
            mode,
            timeout_ms,
            started(mode, command, args, policy),
            ShellOutcomeView::Exited { success: true, stdout, stderr },
        ) == StateView::Done(
            tagged(shell_inlined(substituted(command.content, args), snippet, stdout)),
        ),
{
}

/// A snippet that does not run to a successful end, and a file that cannot
/// be had, end the expansion: no step is tried again.
pub proof fn lemma_failures_end_the_expansion(
    mode: SecurityMode,
    timeout_ms: u64,
    state: StateView,
    ran: ShellOutcomeView,
    found: FileOutcomeView,
)
    ensures
        match state {
            StateView::AwaitingShell { text, commands, index, allowed_tools } => 0 <= index
                < commands.len() ==> match shell_failure(timeout_ms, commands[index], ran) {
                Some(failure) => after_shell(mode, timeout_ms, state, ran) == StateView::Failed(
                    failure,
                ),
                None => true,
            },
            StateView::AwaitingFile { text, references, index } => 0 <= index
                < references.len() ==> match file_failure(references[index], found) {
                Some(failure) => after_file(state, found) == StateView::Failed(failure),
                None => true,
            },
            _ => after_shell(mode, timeout_ms, state, ran) == state && after_file(state, found)
                == state && action_of(timeout_ms, state) == ActionView::Finish,
        },
{
}

} // verus!
