//! The expansion of a command into prompt text, step by step.
//!
//! Running a shell snippet and reading a file are left to the caller. The
//! executor says what is to be done next, and takes what came of it.

use vstd::prelude::*;
use crate::command::{CommandView, CustomCommand};
use crate::error::{CustomCommandError, ErrorView};
use crate::outside::{duration_text, format_duration};
use crate::processor::{
    asks_for_thinking, bash_commands, bash_permitted, blocked, file_references, findings,
    is_unsafe_reference, substituted, validation, PromptProcessor,
};
use crate::security::{ConfigView, SecurityValidationConfig};
use crate::text::{
    chars_of, concat2, concat3, concat4, contains_chars, copy_opt_strings, decimal,
    decimal_chars, join_strings, joined, push_line, replace_chars, replaced, starts_with_chars,
    string_of, trim_chars, trimmed,
};

verus! {

/// How the executor treats findings in a shell snippet or a template.
#[derive(Debug, Clone, Copy, PartialEq, Eq, Structural)]
pub enum SecurityMode {
    /// Dangerous constructs are refused.
    Strict,
    /// Dangerous constructs are let through with a warning.
    Warning,
    /// Nothing is looked for.
    Permissive,
}

/// What came of running a shell snippet.
#[derive(Debug)]
pub enum ShellOutcome {
    /// The snippet ran to its end: whether it exited with success, and what
    /// it wrote.
    Exited { success: bool, stdout: String, stderr: String },
    /// The snippet ran longer than allowed.
    TimedOut,
    /// The snippet could not be started; the text says why.
    SpawnFailed(String),
    /// The end of the snippet could not be awaited; the text says why.
    WaitFailed(String),
}

/// What came of looking for a referenced file below the working directory.
#[derive(Debug)]
pub enum FileOutcome {
    /// The working directory is not known; the text says why.
    NoWorkingDirectory(String),
    /// There is no such file.
    Missing,
    /// The file could not be examined; the text says why.
    Unreadable(String),
    /// The file is there: its size in bytes, and its text or why it could
    /// not be read. The text of a file above the size limit is not looked at.
    Found { size: u64, content: Result<String, String> },
}

/// How far the expansion of a command has come.
#[derive(Debug)]
pub enum ExpansionState {
    /// The shell snippet at `index` of `commands` is to be run.
    AwaitingShell {
        text: String,
        commands: Vec<String>,
        index: usize,
        allowed_tools: Option<Vec<String>>,
    },
    /// The file referred to at `index` of `references` is to be read.
    AwaitingFile { text: String, references: Vec<String>, index: usize },
    /// The expansion is done: the finished text.
    Done(String),
    /// The expansion has failed.
    Failed(CustomCommandError),
}

/// What the caller is to do next.
#[derive(Debug)]
pub enum ExpansionAction {
    /// Run the snippet through a shell, for no longer than the time given.
    RunShell { command: String, timeout_ms: u64 },
    /// Read the file below the working directory.
    ReadFile { reference: String },
    /// Nothing: the expansion is over.
    Finish,
}

/// The outcome of a shell snippet as plain texts.
pub enum ShellOutcomeView {
    Exited { success: bool, stdout: Seq<char>, stderr: Seq<char> },
    TimedOut,
    SpawnFailed(Seq<char>),
    WaitFailed(Seq<char>),
}

impl View for ShellOutcome {
    type V = ShellOutcomeView;

    open spec fn view(&self) -> ShellOutcomeView {
        match self {
            ShellOutcome::Exited { success, stdout, stderr } => ShellOutcomeView::Exited {
                success: *success,
                stdout: stdout@,
                stderr: stderr@,
            },
            ShellOutcome::TimedOut => ShellOutcomeView::TimedOut,
            ShellOutcome::SpawnFailed(reason) => ShellOutcomeView::SpawnFailed(reason@),
            ShellOutcome::WaitFailed(reason) => ShellOutcomeView::WaitFailed(reason@),
        }
    }
}

/// The outcome of looking for a file as plain texts.
pub enum FileOutcomeView {
    NoWorkingDirectory(Seq<char>),
    Missing,
    Unreadable(Seq<char>),
    Found { size: u64, content: Result<Seq<char>, Seq<char>> },
}

impl View for FileOutcome {
    type V = FileOutcomeView;

    open spec fn view(&self) -> FileOutcomeView {
        match self {
            FileOutcome::NoWorkingDirectory(reason) => FileOutcomeView::NoWorkingDirectory(
                reason@,
            ),
            FileOutcome::Missing => FileOutcomeView::Missing,
            FileOutcome::Unreadable(reason) => FileOutcomeView::Unreadable(reason@),
            FileOutcome::Found { size, content } => FileOutcomeView::Found {
                size: *size,
                content: match content {
                    Ok(text) => Ok(text@),
                    Err(reason) => Err(reason@),
                },
            },
        }
    }
}

/// A state of the expansion as plain texts.
pub enum StateView {
    AwaitingShell {
        text: Seq<char>,
        commands: Seq<Seq<char>>,
        index: int,
        allowed_tools: Option<Seq<Seq<char>>>,
    },
    AwaitingFile { text: Seq<char>, references: Seq<Seq<char>>, index: int },
    Done(Seq<char>),
    Failed(ErrorView),
}

impl View for ExpansionState {
    type V = StateView;

    open spec fn view(&self) -> StateView {
        match self {
            ExpansionState::AwaitingShell { text, commands, index, allowed_tools } =>
                StateView::AwaitingShell {
                    text: text@,
                    commands: commands.deep_view(),
                    index: *index as int,
                    allowed_tools: allowed_tools.deep_view(),
                },
            ExpansionState::AwaitingFile { text, references, index } => StateView::AwaitingFile {
                text: text@,
                references: references.deep_view(),
                index: *index as int,
            },
            ExpansionState::Done(text) => StateView::Done(text@),
            ExpansionState::Failed(error) => StateView::Failed(error@),
        }
    }
}

/// What the caller is to do next, as plain texts.
pub enum ActionView {
    RunShell { command: Seq<char>, timeout_ms: u64 },
    ReadFile { reference: Seq<char> },
    Finish,
}

impl View for ExpansionAction {
    type V = ActionView;

    open spec fn view(&self) -> ActionView {
        match self {
            ExpansionAction::RunShell { command, timeout_ms } => ActionView::RunShell {
                command: command@,
                timeout_ms: *timeout_ms,
            },
            ExpansionAction::ReadFile { reference } => ActionView::ReadFile {
                reference: reference@,
            },
            ExpansionAction::Finish => ActionView::Finish,
        }
    }
}

/// A state that waits for a snippet or a file names one of those it holds.
pub open spec fn is_settled(state: StateView) -> bool {
    match state {
        StateView::AwaitingShell { text, commands, index, allowed_tools } => 0 <= index
            < commands.len(),
        StateView::AwaitingFile { text, references, index } => 0 <= index < references.len(),
        _ => true,
    }
}

/// The largest file that is inlined, in bytes: one mebibyte.
pub const MAX_FILE_SIZE: u64 = 1048576;

/// The largest file that is inlined, in bytes: one mebibyte.
pub open spec fn max_file_size() -> u64 {
    MAX_FILE_SIZE
}

/// The marker of a shell snippet in a template.
pub open spec fn shell_marker(command: Seq<char>) -> Seq<char> {
    "!`"@ + command + "`"@
}

/// The marker of a file reference in a template.
pub open spec fn reference_marker(reference: Seq<char>) -> Seq<char> {
    "@"@ + reference
}

/// The text of a file as it is inlined, between fences.
pub open spec fn fenced(content: Seq<char>) -> Seq<char> {
    "```\n"@ + content + "\n```"@
}

/// The finished text, given whether it asks for extended reasoning: marked
/// where it does.
pub open spec fn tagged_given(text: Seq<char>, thinking: bool) -> Seq<char> {
    if thinking {
        "🤔 **Extended Thinking Mode Activated**\n\n"@ + text
    } else {
        text
    }
}

/// The finished text: marked where it asks for extended reasoning.
pub open spec fn tagged(text: Seq<char>) -> Seq<char> {
    tagged_given(text, asks_for_thinking(text))
}

/// The failure that refuses a snippet which the permission list does not
/// grant.
pub open spec fn not_permitted(command: Seq<char>) -> ErrorView {
    ErrorView::BashExecutionError {
        message: "Bash command '"@ + command + "' not permitted by allowed-tools"@,
    }
}

/// The failure that refuses a dangerous snippet.
pub open spec fn rejected(command: Seq<char>) -> ErrorView {
    ErrorView::BashExecutionError { message: "Dangerous command rejected: "@ + command }
}

/// The failure that refuses an unsafe reference.
pub open spec fn unsafe_reference(reference: Seq<char>) -> ErrorView {
    ErrorView::SecurityError {
        command: "file_reference"@,
        message: "Unsafe file reference: "@ + reference,
    }
}

/// Why a reference is refused before its file is looked for, if it is: it
/// is absolute or climbs to a parent directory.
pub open spec fn reference_refusal(reference: Seq<char>) -> Option<ErrorView> {
    if is_unsafe_reference(reference) {
        Some(unsafe_reference(reference))
    } else {
        None
    }
}

/// Why a snippet is refused before it is run, if it is, given the findings
/// in it: there is a permission list and no entry of it grants the snippet,
/// or, in strict mode, the snippet has a finding. Without a permission list
/// no grant is asked for.
pub open spec fn snippet_refusal(
    mode: SecurityMode,
    command: Seq<char>,
    allowed_tools: Option<Seq<Seq<char>>>,
    risks: Seq<Seq<char>>,
) -> Option<ErrorView> {
    if allowed_tools matches Some(tools) && !bash_permitted(command, tools) {
        Some(not_permitted(command))
    } else if mode == SecurityMode::Strict && risks.len() > 0 {
        Some(rejected(command))
    } else {
        None
    }
}

/// Why a snippet that was run ends the expansion, if it does: it ran too
/// long, could not be started or awaited, or exited without success.
pub open spec fn shell_failure(
    timeout_ms: u64,
    command: Seq<char>,
    outcome: ShellOutcomeView,
) -> Option<ErrorView> {
    match outcome {
        ShellOutcomeView::TimedOut => Some(ErrorView::TimeoutError { command, timeout_ms }),
        ShellOutcomeView::SpawnFailed(reason) => Some(
            ErrorView::BashExecutionError {
                message: "Failed to spawn command '"@ + command + "': "@ + reason,
            },
        ),
        ShellOutcomeView::WaitFailed(reason) => Some(
            ErrorView::BashExecutionError {
                message: "Command execution failed '"@ + command + "': "@ + reason,
            },
        ),
        ShellOutcomeView::Exited { success, stdout, stderr } => if success {
            None
        } else {
            Some(
                ErrorView::BashExecutionError {
                    message: "Command failed '"@ + command + "': "@ + stderr,
                },
            )
        },
    }
}

/// What a snippet wrote, where it ran with success.
pub open spec fn shell_output(outcome: ShellOutcomeView) -> Seq<char> {
    match outcome {
        ShellOutcomeView::Exited { success, stdout, stderr } => stdout,
        _ => Seq::empty(),
    }
}

/// Why a file that was looked for ends the expansion, if it does: the
/// working directory is not known, the file is missing, cannot be examined
/// or read, or is above the size limit.
pub open spec fn file_failure(file: Seq<char>, outcome: FileOutcomeView) -> Option<ErrorView> {
    match outcome {
        FileOutcomeView::NoWorkingDirectory(reason) => Some(
            ErrorView::ConfigError { message: "Failed to get current directory: "@ + reason },
        ),
        FileOutcomeView::Missing => Some(
            ErrorView::FileReferenceError { file, source: "File not found"@ },
        ),
        FileOutcomeView::Unreadable(reason) => Some(
            ErrorView::FileReferenceError { file, source: reason },
        ),
        FileOutcomeView::Found { size, content } => if size > max_file_size() {
            Some(
                ErrorView::FileReferenceError {
                    file,
                    source: "File too large: "@ + decimal(size as nat)
                        + " bytes (max: 1048576 bytes)"@,
                },
            )
        } else {
            match content {
                Ok(found) => None,
                Err(reason) => Some(ErrorView::FileReferenceError { file, source: reason }),
            }
        },
    }
}

/// The text of a file that was found and read.
pub open spec fn file_content(outcome: FileOutcomeView) -> Seq<char> {
    match outcome {
        FileOutcomeView::Found { size, content } => match content {
            Ok(found) => found,
            Err(_) => Seq::empty(),
        },
        _ => Seq::empty(),
    }
}

/// The text with each marker of the snippet `command` replaced by what the
/// snippet wrote, trimmed.
pub open spec fn shell_inlined(text: Seq<char>, command: Seq<char>, stdout: Seq<char>) -> Seq<
    char,
> {
    replaced(text, shell_marker(command), trimmed(stdout))
}

/// The text with each marker of the reference replaced by the text of the
/// file between fences.
pub open spec fn file_inlined(text: Seq<char>, reference: Seq<char>, content: Seq<char>) -> Seq<
    char,
> {
    replaced(text, reference_marker(reference), fenced(content))
}

/// The state once the references from `index` on are to be resolved: done
/// with the marked text where none is left, failed where the next one is
/// refused, else waiting for its file.
pub open spec fn settle_file(text: Seq<char>, references: Seq<Seq<char>>, index: int) -> StateView {
    if index < 0 || index >= references.len() {
        StateView::Done(tagged(text))
    } else {
        match reference_refusal(references[index]) {
            Some(refusal) => StateView::Failed(refusal),
            None => StateView::AwaitingFile { text, references, index },
        }
    }
}

/// The state once the snippets from `index` on are to be resolved. Where
/// none is left the references of the text are next. A snippet that is
/// refused ends the expansion. Else the snippet waits to be run.
pub open spec fn settle_shell(
    mode: SecurityMode,
    text: Seq<char>,
    commands: Seq<Seq<char>>,
    index: int,
    allowed_tools: Option<Seq<Seq<char>>>,
) -> StateView {
    if index < 0 || index >= commands.len() {
        settle_file(text, file_references(text), 0)
    } else {
        match snippet_refusal(
            mode,
            commands[index],
            allowed_tools,
            findings(commands[index], Seq::empty()),
        ) {
            Some(refusal) => StateView::Failed(refusal),
            None => StateView::AwaitingShell { text, commands, index, allowed_tools },
        }
    }
}

/// The permission list of a command: that of its metadata, where the
/// metadata has one.
pub open spec fn permissions_of(command: CommandView) -> Option<Seq<Seq<char>>> {
    match command.frontmatter {
        Some(metadata) => metadata.allowed_tools,
        None => None,
    }
}

/// The first state of an expansion. The template is checked under the
/// policy, and findings that block end the expansion. Else the arguments are
/// put in and the snippets of the text are next.
pub open spec fn started(
    mode: SecurityMode,
    command: CommandView,
    args: Seq<Seq<char>>,
    policy: ConfigView,
) -> StateView {
    let outcome = validation(command.content, policy);
    if outcome.should_error {
        StateView::Failed(blocked("content_validation"@, outcome.risks))
    } else {
        let text = substituted(command.content, args);
        settle_shell(mode, text, bash_commands(text), 0, permissions_of(command))
    }
}

/// The state after the snippet that `state` waits for has been run. A
/// snippet that ran with success has its marker replaced, wherever it
/// stands, by what it wrote, trimmed; the next snippet follows. Any other
/// outcome ends the expansion. A state that waits for no snippet stays.
pub open spec fn after_shell(
    mode: SecurityMode,
    timeout_ms: u64,
    state: StateView,
    outcome: ShellOutcomeView,
) -> StateView {
    match state {
        StateView::AwaitingShell { text, commands, index, allowed_tools } => if 0 <= index
            < commands.len() {
            match shell_failure(timeout_ms, commands[index], outcome) {
                Some(failure) => StateView::Failed(failure),
                None => settle_shell(
                    mode,
                    shell_inlined(text, commands[index], shell_output(outcome)),
                    commands,
                    index + 1,
                    allowed_tools,
                ),
            }
        } else {
            state
        },
        _ => state,
    }
}

/// The state after the file that `state` waits for has been looked for. A
/// file that is there, within the size limit and readable has its marker
/// replaced, wherever it stands, by its fenced text; the next reference
/// follows. Any other outcome ends the expansion. A state that waits for no
/// file stays.
pub open spec fn after_file(state: StateView, outcome: FileOutcomeView) -> StateView {
    match state {
        StateView::AwaitingFile { text, references, index } => if 0 <= index < references.len() {
            match file_failure(references[index], outcome) {
                Some(failure) => StateView::Failed(failure),
                None => settle_file(
                    file_inlined(text, references[index], file_content(outcome)),
                    references,
                    index + 1,
                ),
            }
        } else {
            state
        },
        _ => state,
    }
}

/// The view of a failure that may be absent.
pub open spec fn failure_view(failure: Option<CustomCommandError>) -> Option<ErrorView> {
    match failure {
        Some(e) => Some(e@),
        None => None,
    }
}

/// What the caller is to do in a state.
pub open spec fn action_of(timeout_ms: u64, state: StateView) -> ActionView {
    match state {
        StateView::AwaitingShell { text, commands, index, allowed_tools } => if 0 <= index
            < commands.len() {
            ActionView::RunShell { command: commands[index], timeout_ms }
        } else {
            ActionView::Finish
        },
        StateView::AwaitingFile { text, references, index } => if 0 <= index
            < references.len() {
            ActionView::ReadFile { reference: references[index] }
        } else {
            ActionView::Finish
        },
        _ => ActionView::Finish,
    }
}

/// The time that an expansion is expected to take, in milliseconds: a
/// hundred, five hundred for each snippet and fifty for each reference, and
/// no more than the largest number of its type.
pub open spec fn estimated_ms(snippets: nat, references: nat) -> u64 {
    let total = 100 + 500 * snippets + 50 * references;
    if total > u64::MAX {
        u64::MAX
    } else {
        total as u64
    }
}

/// What an expansion would do, found without running or reading anything.
#[derive(Debug)]
pub struct ExecutionPreview {
    /// The name of the command.
    pub command_name: String,
    /// The template with the arguments put in.
    pub processed_content: String,
    /// The shell snippets of the template.
    pub bash_commands: Vec<String>,
    /// The files that the template refers to.
    pub file_references: Vec<String>,
    /// The findings in the template.
    pub security_risks: Vec<String>,
    /// The time that the expansion is expected to take, in milliseconds.
    pub estimated_execution_time: u64,
}

/// A preview as plain texts.
pub struct PreviewView {
    pub command_name: Seq<char>,
    pub processed_content: Seq<char>,
    pub bash_commands: Seq<Seq<char>>,
    pub file_references: Seq<Seq<char>>,
    pub security_risks: Seq<Seq<char>>,
    pub estimated_execution_time: u64,
}

impl View for ExecutionPreview {
    type V = PreviewView;

    open spec fn view(&self) -> PreviewView {
        PreviewView {
            command_name: self.command_name@,
            processed_content: self.processed_content@,
            bash_commands: self.bash_commands.deep_view(),
            file_references: self.file_references.deep_view(),
            security_risks: self.security_risks.deep_view(),
            estimated_execution_time: self.estimated_execution_time,
        }
    }
}

/// Whether the engine refuses a command for the findings `risks` in its
/// template: in strict mode, where there is a finding.
pub open spec fn refuses(mode: SecurityMode, risks: Seq<Seq<char>>) -> bool {
    mode == SecurityMode::Strict && risks.len() > 0
}

/// The diagnostic text of the refusal of a command for its findings.
pub open spec fn refusal_text(name: Seq<char>, risks: Seq<Seq<char>>) -> Seq<char> {
    "Security violation in command '"@ + name + "': "@ + ("Security risks detected: "@ + joined(
        risks,
        ", "@,
    ))
}

/// The findings that a preview shows: those of the template, followed by
/// the refusal where the engine would refuse the command.
pub open spec fn shown_risks(mode: SecurityMode, name: Seq<char>, risks: Seq<Seq<char>>) -> Seq<
    Seq<char>,
> {
    if refuses(mode, risks) {
        risks.push(refusal_text(name, risks))
    } else {
        risks
    }
}

/// The preview of a command: the template with the arguments put in, the
/// snippets and references of the template itself, its findings, followed by
/// the refusal where the engine would refuse the command, and the time.
pub open spec fn preview_of(mode: SecurityMode, command: CommandView, args: Seq<Seq<char>>) -> PreviewView {
    PreviewView {
        command_name: command.name,
        processed_content: substituted(command.content, args),
        bash_commands: bash_commands(command.content),
        file_references: file_references(command.content),
        security_risks: shown_risks(mode, command.name, findings(command.content, Seq::empty())),
        estimated_execution_time: estimated_ms(
            bash_commands(command.content).len(),
            file_references(command.content).len(),
        ),
    }
}

/// Each of `items` as an entry of a list.
pub open spec fn bullets(items: Seq<Seq<char>>) -> Seq<Seq<char>> {
    Seq::new(items.len(), |i: int| "  - "@ + items[i])
}

/// A titled list of `items`, or nothing where there are none.
pub open spec fn section(title: Seq<char>, items: Seq<Seq<char>>) -> Seq<Seq<char>> {
    if items.len() == 0 {
        Seq::empty()
    } else {
        seq![title] + bullets(items)
    }
}

/// The lines in which a preview is shown, given how its time is written.
pub open spec fn preview_lines_with(preview: PreviewView, span: Seq<char>) -> Seq<Seq<char>> {
    seq![
        "📋 Command: "@ + preview.command_name,
        "⏱️  Estimated time: "@ + span,
    ] + section("🔧 Bash commands to execute:"@, preview.bash_commands) + section(
        "📁 Files to reference:"@,
        preview.file_references,
    ) + section("⚠️  Security warnings:"@, preview.security_risks) + seq![
        Seq::<char>::empty(),
        "📄 Processed content:"@,
        preview.processed_content,
    ]
}

/// The lines in which a preview is shown.
pub open spec fn preview_lines(preview: PreviewView) -> Seq<Seq<char>> {
    preview_lines_with(preview, duration_text(preview.estimated_execution_time))
}

/// Appends a titled list of `items` to `lines`, where there are any.
fn push_section(lines: &mut Vec<String>, title: &str, items: &Vec<String>)
    ensures
        final(lines).deep_view() == old(lines).deep_view() + section(title@, items.deep_view()),
{
    if items.len() == 0 {
        proof {
            assert(lines.deep_view() + Seq::<Seq<char>>::empty() =~= lines.deep_view());
        }
        return ;
    }
    push_line(lines, title.to_string());
    let mut i: usize = 0;
    while i < items.len()
        invariant
            i <= items.len(),
            lines.deep_view() == old(lines).deep_view() + seq![title@] + bullets(
                items.deep_view(),
            ).take(i as int),
        decreases items.len() - i,
    {
        push_line(lines, concat2("  - ", items[i].as_str()));
        proof {
            assert(bullets(items.deep_view()).take(i + 1) =~= bullets(items.deep_view()).take(
                i as int,
            ).push("  - "@ + items[i as int]@));
            assert(lines.deep_view() =~= old(lines).deep_view() + seq![title@] + bullets(
                items.deep_view(),
            ).take(i + 1));
        }
        i += 1;
    }
    proof {
        let all = bullets(items.deep_view());
        assert(all.take(items.len() as int) =~= all);
        assert(old(lines).deep_view() + seq![title@] + all =~= old(lines).deep_view() + (seq![
            title@,
        ] + all));
    }
}

impl ExecutionPreview {
    /// The preview as text for a reader, given how its time is written: see
    /// [`preview_lines_with`], one line below the other.
    pub fn display_with(&self, span: &str) -> (out: String)
        ensures
            out@ == joined(preview_lines_with(self@, span@), "\n"@),
    {
        let mut lines: Vec<String> = Vec::new();
        proof {
            assert(lines.deep_view() =~= Seq::empty());
        }
        push_line(&mut lines, concat2("📋 Command: ", self.command_name.as_str()));
        push_line(&mut lines, concat2("⏱️  Estimated time: ", span));
        proof {
            assert(lines.deep_view() =~= seq![
                "📋 Command: "@ + self@.command_name,
                "⏱️  Estimated time: "@ + span@,
            ]);
        }
        push_section(&mut lines, "🔧 Bash commands to execute:", &self.bash_commands);
        push_section(&mut lines, "📁 Files to reference:", &self.file_references);
        push_section(&mut lines, "⚠️  Security warnings:", &self.security_risks);
        let ghost head = lines.deep_view();
        push_line(&mut lines, String::new());
        push_line(&mut lines, "📄 Processed content:".to_string());
        push_line(&mut lines, self.processed_content.clone());
        proof {
            assert(lines.deep_view() =~= head + seq![
                Seq::<char>::empty(),
                "📄 Processed content:"@,
                self@.processed_content,
            ]);
        }
        join_strings(&lines, "\n")
    }

    /// The preview as text for a reader: see [`preview_lines`], one line
    /// below the other.
    pub fn to_display_string(&self) -> (out: String)
        ensures
            out@ == joined(preview_lines(self@), "\n"@),
    {
        let span = format_duration(self.estimated_execution_time);
        self.display_with(span.as_str())
    }
}

/// The engine that expands commands.
#[derive(Debug)]
pub struct CustomCommandExecutor {
    bash_timeout_ms: u64,
    security_mode: SecurityMode,
}

impl CustomCommandExecutor {
    /// The time allowed to a shell snippet, in milliseconds.
    pub closed spec fn timeout_ms(&self) -> u64 {
        self.bash_timeout_ms
    }

    /// How findings are treated.
    pub closed spec fn mode(&self) -> SecurityMode {
        self.security_mode
    }

    /// An engine that allows a snippet thirty seconds and is strict.
    pub fn new() -> (executor: Self)
        ensures
            executor.timeout_ms() == 30000,
            executor.mode() == SecurityMode::Strict,
    {
        CustomCommandExecutor { bash_timeout_ms: 30000, security_mode: SecurityMode::Strict }
    }

    /// The engine with another time allowed to a snippet.
    pub fn with_timeout(self, timeout_ms: u64) -> (executor: Self)
        ensures
            executor.timeout_ms() == timeout_ms,
            executor.mode() == self.mode(),
    {
        CustomCommandExecutor { bash_timeout_ms: timeout_ms, security_mode: self.security_mode }
    }

    /// The engine with another way to treat findings.
    pub fn with_security_mode(self, mode: SecurityMode) -> (executor: Self)
        ensures
            executor.timeout_ms() == self.timeout_ms(),
            executor.mode() == mode,
    {
        CustomCommandExecutor { bash_timeout_ms: self.bash_timeout_ms, security_mode: mode }
    }

    /// The time allowed to a shell snippet, in milliseconds.
    pub fn bash_timeout_ms(&self) -> (t: u64)
        ensures
            t == self.timeout_ms(),
    {
        self.bash_timeout_ms
    }

    /// How findings are treated.
    pub fn security_mode(&self) -> (mode: SecurityMode)
        ensures
            mode == self.mode(),
    {
        self.security_mode
    }

    /// The finished text, marked where it is said to ask for extended
    /// reasoning.
    pub fn finished_text(text: String, thinking: bool) -> (out: String)
        ensures
            out@ == tagged_given(text@, thinking),
    {
        if thinking {
            concat2("🤔 **Extended Thinking Mode Activated**\n\n", text.as_str())
        } else {
            text
        }
    }

    /// Why `reference` is refused before its file is looked for, if it is:
    /// see [`reference_refusal`].
    pub fn check_reference(reference: &str) -> (refusal: Option<CustomCommandError>)
        ensures
            failure_view(refusal) == reference_refusal(reference@),
    {
        let path = chars_of(reference);
        if starts_with_chars(&path, &chars_of("/")) || contains_chars(&path, &chars_of("..")) {
            Some(
                CustomCommandError::security_error(
                    "file_reference".to_string(),
                    concat2("Unsafe file reference: ", reference),
                ),
            )
        } else {
            None
        }
    }

    /// Why the snippet `command` is refused before it is run, if it is,
    /// given the findings in it: see [`snippet_refusal`].
    pub fn check_snippet(
        &self,
        command: &str,
        allowed_tools: &Option<Vec<String>>,
        risks: &Vec<String>,
    ) -> (refusal: Option<CustomCommandError>)
        ensures
            failure_view(refusal) == snippet_refusal(
                self.mode(),
                command@,
                allowed_tools.deep_view(),
                risks.deep_view(),
            ),
    {
        if let Some(tools) = allowed_tools {
            if !PromptProcessor::validate_bash_permissions(command, tools.as_slice()) {
                return Some(
                    CustomCommandError::bash_execution_error(
                        concat3("Bash command '", command, "' not permitted by allowed-tools"),
                    ),
                );
            }
        }
        if self.security_mode == SecurityMode::Strict && risks.len() > 0 {
            return Some(
                CustomCommandError::bash_execution_error(
                    concat2("Dangerous command rejected: ", command),
                ),
            );
        }
        None
    }

    /// Why the snippet `command`, which was run, ends the expansion, if it
    /// does: see [`shell_failure`].
    pub fn shell_failure_of(&self, command: &str, outcome: &ShellOutcome) -> (failure: Option<
        CustomCommandError,
    >)
        ensures
            failure_view(failure) == shell_failure(self.timeout_ms(), command@, outcome@),
    {
        match outcome {
            ShellOutcome::TimedOut => Some(
                CustomCommandError::timeout_error(command.to_string(), self.bash_timeout_ms),
            ),
            ShellOutcome::SpawnFailed(reason) => Some(
                CustomCommandError::bash_execution_error(
                    concat4("Failed to spawn command '", command, "': ", reason.as_str()),
                ),
            ),
            ShellOutcome::WaitFailed(reason) => Some(
                CustomCommandError::bash_execution_error(
                    concat4("Command execution failed '", command, "': ", reason.as_str()),
                ),
            ),
            ShellOutcome::Exited { success, stdout, stderr } => {
                if *success {
                    None
                } else {
                    Some(
                        CustomCommandError::bash_execution_error(
                            concat4("Command failed '", command, "': ", stderr.as_str()),
                        ),
                    )
                }
            },
        }
    }

    /// Why the file `file`, which was looked for, ends the expansion, if it
    /// does: see [`file_failure`].
    pub fn file_failure_of(file: &str, outcome: &FileOutcome) -> (failure: Option<CustomCommandError>)
        ensures
            failure_view(failure) == file_failure(file@, outcome@),
    {
        match outcome {
            FileOutcome::NoWorkingDirectory(reason) => Some(
                CustomCommandError::config_error(
                    concat2("Failed to get current directory: ", reason.as_str()),
                ),
            ),
            FileOutcome::Missing => Some(
                CustomCommandError::file_reference_error(
                    file.to_string(),
                    "File not found".to_string(),
                ),
            ),
            FileOutcome::Unreadable(reason) => Some(
                CustomCommandError::file_reference_error(file.to_string(), reason.clone()),
            ),
            FileOutcome::Found { size, content } => {
                if *size > MAX_FILE_SIZE {
                    let digits = string_of(&decimal_chars(*size));
                    return Some(
                        CustomCommandError::file_reference_error(
                            file.to_string(),
                            concat3(
                                "File too large: ",
                                digits.as_str(),
                                " bytes (max: 1048576 bytes)",
                            ),
                        ),
                    );
                }
                match content {
                    Ok(_) => None,
                    Err(reason) => Some(
                        CustomCommandError::file_reference_error(file.to_string(), reason.clone()),
                    ),
                }
            },
        }
    }

    /// The text with each marker of the snippet `command` replaced by what
    /// the snippet wrote, trimmed.
    pub fn inline_shell_output(text: &str, command: &str, stdout: &str) -> (out: String)
        ensures
            out@ == shell_inlined(text@, command@, stdout@),
    {
        let marker = chars_of(concat3("!`", command, "`").as_str());
        let output = trim_chars(&chars_of(stdout));
        string_of(&replace_chars(&chars_of(text), &marker, &output))
    }

    /// The text with each marker of `reference` replaced by `content`
    /// between fences.
    pub fn inline_file(text: &str, reference: &str, content: &str) -> (out: String)
        ensures
            out@ == file_inlined(text@, reference@, content@),
    {
        let marker = chars_of(concat2("@", reference).as_str());
        let block = chars_of(concat3("```\n", content, "\n```").as_str());
        string_of(&replace_chars(&chars_of(text), &marker, &block))
    }

    /// The state once the references from `index` on are to be resolved.
    fn settle_file_state(text: String, references: Vec<String>, index: usize) -> (state:
        ExpansionState)
        ensures
            state@ == settle_file(text@, references.deep_view(), index as int),
            is_settled(state@),
    {
        if index >= references.len() {
            let thinking = PromptProcessor::detect_thinking_keywords(text.as_str());
            return ExpansionState::Done(Self::finished_text(text, thinking));
        }
        match Self::check_reference(references[index].as_str()) {
            Some(refusal) => ExpansionState::Failed(refusal),
            None => ExpansionState::AwaitingFile { text, references, index },
        }
    }

    /// The state once the snippets from `index` on are to be resolved.
    fn settle_shell_state(
        &self,
        text: String,
        commands: Vec<String>,
        index: usize,
        allowed_tools: Option<Vec<String>>,
    ) -> (state: ExpansionState)
        ensures
            state@ == settle_shell(
                self.mode(),
                text@,
                commands.deep_view(),
                index as int,
                allowed_tools.deep_view(),
            ),
            is_settled(state@),
    {
        if index >= commands.len() {
            let references = PromptProcessor::extract_file_references(text.as_str());
            return Self::settle_file_state(text, references, 0);
        }
        let risks = PromptProcessor::check_security_risks(commands[index].as_str());
        match self.check_snippet(commands[index].as_str(), &allowed_tools, &risks) {
            Some(refusal) => ExpansionState::Failed(refusal),
            None => ExpansionState::AwaitingShell { text, commands, index, allowed_tools },
        }
    }

    /// Begins the expansion of `command` with the arguments `args` under the
    /// policy `security_config`: see [`started`].
    pub fn execute_with_security(
        &self,
        command: &CustomCommand,
        args: &[String],
        security_config: &SecurityValidationConfig,
    ) -> (state: ExpansionState)
        ensures
            state@ == started(self.mode(), command@, args.deep_view(), security_config@),
            is_settled(state@),
    {
        let outcome = PromptProcessor::validate_security_with_config(
            command.content.as_str(),
            security_config,
        );
        if let Err(blocking) = PromptProcessor::verdict_of(&outcome) {
            return ExpansionState::Failed(blocking);
        }
        let text = PromptProcessor::substitute_arguments(command.content.as_str(), args);
        let commands = PromptProcessor::extract_bash_commands(text.as_str());
        let allowed_tools = match &command.frontmatter {
            Some(metadata) => copy_opt_strings(&metadata.allowed_tools),
            None => None,
        };
        self.settle_shell_state(text, commands, 0, allowed_tools)
    }

    /// Begins the expansion of `command` under the default policy, for which
    /// findings block.
    pub fn execute(&self, command: &CustomCommand, args: &[String]) -> (state: ExpansionState)
        ensures
            state@ == started(
                self.mode(),
                command@,
                args.deep_view(),
                crate::security::default_policy(),
            ),
            is_settled(state@),
    {
        let policy = SecurityValidationConfig::default();
        self.execute_with_security(command, args, &policy)
    }

    /// What the caller is to do in `state`: see [`action_of`].
    pub fn next_action(&self, state: &ExpansionState) -> (action: ExpansionAction)
        ensures
            action@ == action_of(self.timeout_ms(), state@),
    {
        match state {
            ExpansionState::AwaitingShell { text, commands, index, allowed_tools } => {
                if *index < commands.len() {
                    ExpansionAction::RunShell {
                        command: commands[*index].clone(),
                        timeout_ms: self.bash_timeout_ms,
                    }
                } else {
                    ExpansionAction::Finish
                }
            },
            ExpansionState::AwaitingFile { text, references, index } => {
                if *index < references.len() {
                    ExpansionAction::ReadFile { reference: references[*index].clone() }
                } else {
                    ExpansionAction::Finish
                }
            },
            _ => ExpansionAction::Finish,
        }
    }

    /// Takes what came of the snippet that `state` waits for: see
    /// [`after_shell`].
    pub fn resume_after_shell(&self, state: ExpansionState, outcome: ShellOutcome) -> (next:
        ExpansionState)
        ensures
            next@ == after_shell(self.mode(), self.timeout_ms(), state@, outcome@),
            is_settled(state@) ==> is_settled(next@),
    {
        match state {
            ExpansionState::AwaitingShell { text, commands, index, allowed_tools } => {
                if index >= commands.len() {
                    return ExpansionState::AwaitingShell { text, commands, index, allowed_tools };
                }
                match self.shell_failure_of(commands[index].as_str(), &outcome) {
                    Some(failure) => ExpansionState::Failed(failure),
                    None => {
                        let stdout = match outcome {
                            ShellOutcome::Exited { success, stdout, stderr } => stdout,
                            _ => String::new(),
                        };
                        let inlined = Self::inline_shell_output(
                            text.as_str(),
                            commands[index].as_str(),
                            stdout.as_str(),
                        );
                        self.settle_shell_state(inlined, commands, index + 1, allowed_tools)
                    },
                }
            },
            other => other,
        }
    }

    /// Takes what came of looking for the file that `state` waits for: see
    /// [`after_file`].
    pub fn resume_after_file(&self, state: ExpansionState, outcome: FileOutcome) -> (next:
        ExpansionState)
        ensures
            next@ == after_file(state@, outcome@),
            is_settled(state@) ==> is_settled(next@),
    {
        match state {
            ExpansionState::AwaitingFile { text, references, index } => {
                if index >= references.len() {
                    return ExpansionState::AwaitingFile { text, references, index };
                }
                match Self::file_failure_of(references[index].as_str(), &outcome) {
                    Some(failure) => ExpansionState::Failed(failure),
                    None => {
                        let content = match outcome {
                            FileOutcome::Found { size, content: Ok(found) } => found,
                            _ => String::new(),
                        };
                        let inlined = Self::inline_file(
                            text.as_str(),
                            references[index].as_str(),
                            content.as_str(),
                        );
                        Self::settle_file_state(inlined, references, index + 1)
                    },
                }
            },
            other => other,
        }
    }

    /// Whether the engine lets the command called `name` through, given the
    /// findings in its template: it refuses, in strict mode, a command with
    /// a finding.
    pub fn check_risks(&self, name: &str, risks: &Vec<String>) -> (out: Result<
        (),
        CustomCommandError,
    >)
        ensures
            match out {
                Ok(_) => !refuses(self.mode(), risks.deep_view()),
                Err(e) => refuses(self.mode(), risks.deep_view()) && e@ == blocked(
                    name@,
                    risks.deep_view(),
                ),
            },
    {
        if self.security_mode == SecurityMode::Strict && risks.len() > 0 {
            return Err(PromptProcessor::risk_error(name, risks));
        }
        Ok(())
    }

    /// Whether the engine lets `command` through: it refuses, in strict
    /// mode, a command whose template has a finding.
    pub fn security_check(&self, command: &CustomCommand) -> (out: Result<(), CustomCommandError>)
        ensures
            match out {
                Ok(_) => !refuses(self.mode(), findings(command@.content, Seq::empty())),
                Err(e) => refuses(self.mode(), findings(command@.content, Seq::empty())) && e@
                    == blocked(command@.name, findings(command@.content, Seq::empty())),
            },
    {
        match self.security_mode {
            SecurityMode::Permissive => Ok(()),
            SecurityMode::Warning => Ok(()),
            SecurityMode::Strict => {
                let risks = PromptProcessor::check_security_risks(command.content.as_str());
                self.check_risks(command.name.as_str(), &risks)
            },
        }
    }

    /// The time that an expansion with so many snippets and references is
    /// expected to take, in milliseconds: see [`estimated_ms`].
    pub fn estimate_for(snippets: usize, references: usize) -> (millis: u64)
        ensures
            millis == estimated_ms(snippets as nat, references as nat),
    {
        let total: u128 = 100 + 500 * (snippets as u128) + 50 * (references as u128);
        if total > u64::MAX as u128 {
            u64::MAX
        } else {
            total as u64
        }
    }

    /// The time that the expansion of `command` is expected to take, in
    /// milliseconds.
    pub fn estimate_execution_time(command: &CustomCommand) -> (millis: u64)
        ensures
            millis == estimated_ms(
                bash_commands(command@.content).len(),
                file_references(command@.content).len(),
            ),
    {
        let snippets = PromptProcessor::extract_bash_commands(command.content.as_str());
        let references = PromptProcessor::extract_file_references(command.content.as_str());
        Self::estimate_for(snippets.len(), references.len())
    }

    /// The findings that a preview of the command called `name` shows,
    /// given the findings in its template: see [`shown_risks`].
    pub fn risks_shown(&self, name: &str, risks: Vec<String>) -> (shown: Vec<String>)
        ensures
            shown.deep_view() == shown_risks(self.mode(), name@, risks.deep_view()),
    {
        let mut shown = risks;
        if self.security_mode == SecurityMode::Strict && shown.len() > 0 {
            let listed = join_strings(&shown, ", ");
            let reason = concat2("Security risks detected: ", listed.as_str());
            let refusal = concat4("Security violation in command '", name, "': ", reason.as_str());
            push_line(&mut shown, refusal);
        }
        shown
    }

    /// What the expansion of `command` with `args` would do: see
    /// [`preview_of`]. Nothing is run and nothing is read.
    pub fn preview(&self, command: &CustomCommand, args: &[String]) -> (preview: ExecutionPreview)
        ensures
            preview@ == preview_of(self.mode(), command@, args.deep_view()),
    {
        let content = command.content.as_str();
        let risks = PromptProcessor::check_security_risks(content);
        ExecutionPreview {
            command_name: command.name.clone(),
            processed_content: PromptProcessor::substitute_arguments(content, args),
            bash_commands: PromptProcessor::extract_bash_commands(content),
            file_references: PromptProcessor::extract_file_references(content),
            security_risks: self.risks_shown(command.name.as_str(), risks),
            estimated_execution_time: Self::estimate_execution_time(command),
        }
    }
}

impl Default for CustomCommandExecutor {
    fn default() -> (executor: Self)
        ensures
            executor.timeout_ms() == 30000,
            executor.mode() == SecurityMode::Strict,
    {
        CustomCommandExecutor::new()
    }
}

} // verus!
