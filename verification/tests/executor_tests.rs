use custom_commands::command::{CommandFrontmatter, CommandScope, CustomCommand};
use custom_commands::error::CustomCommandError;
use custom_commands::executor::{
    CustomCommandExecutor, ExecutionPreview, ExpansionAction, ExpansionState, FileOutcome,
    SecurityMode, ShellOutcome,
};
use custom_commands::security::{SecurityValidationConfig, SecurityValidationLevel};

fn command(name: &str, body: &str) -> CustomCommand {
    CustomCommand {
        name: name.to_string(),
        content: body.to_string(),
        frontmatter: None,
        scope: CommandScope::Project,
        file_path: format!("{}.md", name),
        namespace: None,
    }
}

fn with_tools(mut command: CustomCommand, tools: &[&str]) -> CustomCommand {
    command.frontmatter = Some(CommandFrontmatter {
        allowed_tools: Some(tools.iter().map(|s| s.to_string()).collect()),
        argument_hint: None,
        description: None,
        model: None,
        phase: None,
        dependencies: None,
        output_format: None,
    });
    command
}

fn policy(level: SecurityValidationLevel) -> SecurityValidationConfig {
    SecurityValidationConfig { level, ignored_patterns: Vec::new() }
}

fn ran(stdout: &str) -> ShellOutcome {
    ShellOutcome::Exited { success: true, stdout: stdout.to_string(), stderr: String::new() }
}

fn done(state: ExpansionState) -> String {
    match state {
        ExpansionState::Done(text) => text,
        other => panic!("unexpected {:?}", other),
    }
}

fn failed(state: ExpansionState) -> CustomCommandError {
    match state {
        ExpansionState::Failed(e) => e,
        other => panic!("unexpected {:?}", other),
    }
}

#[test]
fn test_security_mode() {
    let command = command("dangerous", "Execute: !`rm -rf /`");

    let strict_executor = CustomCommandExecutor::new().with_security_mode(SecurityMode::Strict);
    assert!(strict_executor.security_check(&command).is_err());

    let permissive_executor = CustomCommandExecutor::new().with_security_mode(SecurityMode::Permissive);
    assert!(permissive_executor.security_check(&command).is_ok());
}

#[test]
fn security_check_names_the_command_and_its_findings() {
    let executor = CustomCommandExecutor::new();
    match executor.security_check(&command("dangerous", "Execute: !`rm -rf /`")) {
        Err(CustomCommandError::SecurityError { command, message }) => {
            assert_eq!(command, "dangerous");
            assert_eq!(message, "Security risks detected: Potentially dangerous pattern detected: rm\\s+-rf");
        }
        other => panic!("unexpected {:?}", other),
    }
    let warning = CustomCommandExecutor::new().with_security_mode(SecurityMode::Warning);
    assert!(warning.security_check(&command("dangerous", "Execute: !`rm -rf /`")).is_ok());
    assert!(executor.security_check(&command("safe", "git status")).is_ok());
}

#[test]
fn expansion_puts_the_arguments_in() {
    let executor = CustomCommandExecutor::new();
    let hi = command("hi", "# Hi\n\nArgs: $ARGUMENTS");
    let state = executor.execute_with_security(&hi, &["123".to_string()], &policy(SecurityValidationLevel::Off));
    assert!(matches!(executor.next_action(&state), ExpansionAction::Finish));
    let text = done(state);
    assert!(text.contains("Args: 123"));
    assert!(!text.contains("$ARGUMENTS"));
    assert_eq!(text, "# Hi\n\nArgs: 123");
}

#[test]
fn expansion_inlines_the_output_of_a_snippet() {
    let executor = CustomCommandExecutor::new();
    let doc = command("echo", "Result: !`echo ok` end");
    let state = executor.execute_with_security(&doc, &[], &policy(SecurityValidationLevel::Error));
    match executor.next_action(&state) {
        ExpansionAction::RunShell { command, timeout_ms } => {
            assert_eq!(command, "echo ok");
            assert_eq!(timeout_ms, 30000);
        }
        other => panic!("unexpected {:?}", other),
    }
    let state = executor.resume_after_shell(state, ran("ok\n"));
    assert_eq!(done(state), "Result: ok end");
}

#[test]
fn expansion_refuses_a_reference_to_a_parent_directory_under_every_level() {
    let executor = CustomCommandExecutor::new().with_security_mode(SecurityMode::Permissive);
    let doc = command("leak", "Read @../secret.txt now");
    for level in [SecurityValidationLevel::Off, SecurityValidationLevel::Warn, SecurityValidationLevel::Error] {
        let state = executor.execute_with_security(&doc, &[], &policy(level));
        assert!(matches!(executor.next_action(&state), ExpansionAction::Finish));
        match failed(state) {
            CustomCommandError::SecurityError { .. } => {}
            other => panic!("unexpected {:?}", other),
        }
    }
    let state = executor.execute_with_security(&doc, &[], &policy(SecurityValidationLevel::Off));
    match failed(state) {
        CustomCommandError::SecurityError { command, message } => {
            assert_eq!(command, "file_reference");
            assert_eq!(message, "Unsafe file reference: ../secret.txt");
        }
        other => panic!("unexpected {:?}", other),
    }
    let absolute = command("abs", "Read @/etc/passwd");
    let state = executor.execute_with_security(&absolute, &[], &policy(SecurityValidationLevel::Warn));
    match failed(state) {
        CustomCommandError::SecurityError { message, .. } => assert_eq!(message, "Unsafe file reference: /etc/passwd"),
        other => panic!("unexpected {:?}", other),
    }
}

#[test]
fn expansion_fails_first_on_findings_that_block() {
    let executor = CustomCommandExecutor::new();
    let doc = command("danger", "Do !`rm -rf /tmp/x`");
    let state = executor.execute(&doc, &[]);
    match failed(state) {
        CustomCommandError::SecurityError { command, message } => {
            assert_eq!(command, "content_validation");
            assert_eq!(message, "Security risks detected: Potentially dangerous pattern detected: rm\\s+-rf");
        }
        other => panic!("unexpected {:?}", other),
    }
}

#[test]
fn strict_engine_rejects_a_dangerous_snippet_that_the_policy_lets_through() {
    let doc = command("danger", "Do !`rm -rf /tmp/x`");
    let strict = CustomCommandExecutor::new();
    let state = strict.execute_with_security(&doc, &[], &policy(SecurityValidationLevel::Warn));
    match failed(state) {
        CustomCommandError::BashExecutionError { message } => {
            assert_eq!(message, "Dangerous command rejected: rm -rf /tmp/x")
        }
        other => panic!("unexpected {:?}", other),
    }
    let warning = CustomCommandExecutor::new().with_security_mode(SecurityMode::Warning);
    let state = warning.execute_with_security(&doc, &[], &policy(SecurityValidationLevel::Warn));
    assert!(matches!(warning.next_action(&state), ExpansionAction::RunShell { .. }));
}

#[test]
fn snippets_are_checked_against_the_permission_list() {
    let executor = CustomCommandExecutor::new();
    let doc = with_tools(command("git", "A !`git status` B !`git push`"), &["Bash(git status:*)"]);
    let state = executor.execute(&doc, &[]);
    match executor.next_action(&state) {
        ExpansionAction::RunShell { command, .. } => assert_eq!(command, "git status"),
        other => panic!("unexpected {:?}", other),
    }
    let state = executor.resume_after_shell(state, ran(" clean \n"));
    match failed(state) {
        CustomCommandError::BashExecutionError { message } => {
            assert_eq!(message, "Bash command 'git push' not permitted by allowed-tools")
        }
        other => panic!("unexpected {:?}", other),
    }
    let other_tools = with_tools(command("git", "A !`git push`"), &["fs_read"]);
    assert!(matches!(executor.execute(&other_tools, &[]), ExpansionState::Failed(_)));
}

#[test]
fn a_permission_list_that_grants_nothing_denies_every_snippet() {
    let executor = CustomCommandExecutor::new().with_security_mode(SecurityMode::Permissive);
    for tools in [vec!["Bash(git status:*)"], Vec::new()] {
        let doc = with_tools(command("hi", "Say !`echo hi`"), &tools);
        let state = executor.execute_with_security(&doc, &[], &policy(SecurityValidationLevel::Off));
        assert!(matches!(executor.next_action(&state), ExpansionAction::Finish));
        match failed(state) {
            CustomCommandError::BashExecutionError { message } => {
                assert_eq!(message, "Bash command 'echo hi' not permitted by allowed-tools")
            }
            other => panic!("unexpected {:?}", other),
        }
    }
}

#[test]
fn without_a_permission_list_no_grant_is_asked_for() {
    let executor = CustomCommandExecutor::new();
    let bare = command("hi", "Say !`echo hi`");
    assert!(matches!(executor.next_action(&executor.execute(&bare, &[])), ExpansionAction::RunShell { .. }));
    let mut described = command("hi", "Say !`echo hi`");
    described.frontmatter = Some(CommandFrontmatter {
        allowed_tools: None,
        argument_hint: None,
        description: Some("d".to_string()),
        model: None,
        phase: None,
        dependencies: None,
        output_format: None,
    });
    assert!(matches!(
        executor.next_action(&executor.execute(&described, &[])),
        ExpansionAction::RunShell { .. }
    ));
}

#[test]
fn snippets_run_in_order_and_each_marker_is_replaced() {
    let executor = CustomCommandExecutor::new().with_timeout(1500);
    let doc = command("two", "!`one` and !`two` and !`one`");
    let state = executor.execute(&doc, &[]);
    match executor.next_action(&state) {
        ExpansionAction::RunShell { command, timeout_ms } => {
            assert_eq!(command, "one");
            assert_eq!(timeout_ms, 1500);
        }
        other => panic!("unexpected {:?}", other),
    }
    let state = executor.resume_after_shell(state, ran("1"));
    match executor.next_action(&state) {
        ExpansionAction::RunShell { command, .. } => assert_eq!(command, "two"),
        other => panic!("unexpected {:?}", other),
    }
    let state = executor.resume_after_shell(state, ran("2"));
    match executor.next_action(&state) {
        ExpansionAction::RunShell { command, .. } => assert_eq!(command, "one"),
        other => panic!("unexpected {:?}", other),
    }
    let state = executor.resume_after_shell(state, ran("ignored"));
    assert_eq!(done(state), "1 and 2 and 1");
}

#[test]
fn a_snippet_that_fails_ends_the_expansion() {
    let executor = CustomCommandExecutor::new().with_timeout(250);
    let doc = command("x", "!`make`");
    let state = executor.execute(&doc, &[]);
    let outcome = ShellOutcome::Exited { success: false, stdout: "out".to_string(), stderr: "boom".to_string() };
    match failed(executor.resume_after_shell(state, outcome)) {
        CustomCommandError::BashExecutionError { message } => assert_eq!(message, "Command failed 'make': boom"),
        other => panic!("unexpected {:?}", other),
    }
    let state = executor.execute(&doc, &[]);
    match failed(executor.resume_after_shell(state, ShellOutcome::TimedOut)) {
        CustomCommandError::TimeoutError { command, timeout_ms } => {
            assert_eq!(command, "make");
            assert_eq!(timeout_ms, 250);
        }
        other => panic!("unexpected {:?}", other),
    }
    let state = executor.execute(&doc, &[]);
    match failed(executor.resume_after_shell(state, ShellOutcome::SpawnFailed("no shell".to_string()))) {
        CustomCommandError::BashExecutionError { message } => {
            assert_eq!(message, "Failed to spawn command 'make': no shell")
        }
        other => panic!("unexpected {:?}", other),
    }
    let state = executor.execute(&doc, &[]);
    match failed(executor.resume_after_shell(state, ShellOutcome::WaitFailed("lost".to_string()))) {
        CustomCommandError::BashExecutionError { message } => {
            assert_eq!(message, "Command execution failed 'make': lost")
        }
        other => panic!("unexpected {:?}", other),
    }
}

#[test]
fn files_are_inlined_between_fences() {
    let executor = CustomCommandExecutor::new();
    let doc = command("files", "See @a.txt and @dir/b.txt");
    let state = executor.execute(&doc, &[]);
    match executor.next_action(&state) {
        ExpansionAction::ReadFile { reference } => assert_eq!(reference, "a.txt"),
        other => panic!("unexpected {:?}", other),
    }
    let state = executor.resume_after_file(state, FileOutcome::Found { size: 3, content: Ok("AAA".to_string()) });
    match executor.next_action(&state) {
        ExpansionAction::ReadFile { reference } => assert_eq!(reference, "dir/b.txt"),
        other => panic!("unexpected {:?}", other),
    }
    let state = executor.resume_after_file(
        state,
        FileOutcome::Found { size: 1048576, content: Ok("B".to_string()) },
    );
    assert_eq!(done(state), "See ```\nAAA\n``` and ```\nB\n```");
}

#[test]
fn a_file_that_cannot_be_had_ends_the_expansion() {
    let executor = CustomCommandExecutor::new();
    let doc = command("files", "See @a.txt");
    let start = || executor.execute(&doc, &[]);
    match failed(executor.resume_after_file(start(), FileOutcome::Missing)) {
        CustomCommandError::FileReferenceError { file, source } => {
            assert_eq!(file, "a.txt");
            assert_eq!(source, "File not found");
        }
        other => panic!("unexpected {:?}", other),
    }
    match failed(executor.resume_after_file(
        start(),
        FileOutcome::Found { size: 1048577, content: Ok("never read".to_string()) },
    )) {
        CustomCommandError::FileReferenceError { file, source } => {
            assert_eq!(file, "a.txt");
            assert_eq!(source, "File too large: 1048577 bytes (max: 1048576 bytes)");
        }
        other => panic!("unexpected {:?}", other),
    }
    match failed(executor.resume_after_file(
        start(),
        FileOutcome::Found { size: 10, content: Err("not text".to_string()) },
    )) {
        CustomCommandError::FileReferenceError { source, .. } => assert_eq!(source, "not text"),
        other => panic!("unexpected {:?}", other),
    }
    match failed(executor.resume_after_file(start(), FileOutcome::Unreadable("denied".to_string()))) {
        CustomCommandError::FileReferenceError { source, .. } => assert_eq!(source, "denied"),
        other => panic!("unexpected {:?}", other),
    }
    match failed(executor.resume_after_file(start(), FileOutcome::NoWorkingDirectory("gone".to_string()))) {
        CustomCommandError::ConfigError { message } => assert_eq!(message, "Failed to get current directory: gone"),
        other => panic!("unexpected {:?}", other),
    }
}

#[test]
fn outcomes_that_nothing_waits_for_change_nothing() {
    let executor = CustomCommandExecutor::new();
    let state = executor.execute(&command("plain", "text"), &[]);
    let state = executor.resume_after_shell(state, ran("x"));
    let state = executor.resume_after_file(state, FileOutcome::Missing);
    assert_eq!(done(state), "text");
    let waiting = executor.execute(&command("f", "@a.txt"), &[]);
    let waiting = executor.resume_after_shell(waiting, ran("x"));
    assert!(matches!(executor.next_action(&waiting), ExpansionAction::ReadFile { .. }));
}

#[test]
fn finished_text_is_marked_where_it_asks_for_reasoning() {
    let executor = CustomCommandExecutor::new();
    let state = executor.execute(&command("t", "Please Think Through $ARGUMENTS"), &["it".to_string()]);
    assert_eq!(done(state), "🤔 **Extended Thinking Mode Activated**\n\nPlease Think Through it");
    let state = executor.execute(&command("t", "Say !`hint`"), &[]);
    let state = executor.resume_after_shell(state, ran("go step by step"));
    assert_eq!(done(state), "🤔 **Extended Thinking Mode Activated**\n\nSay go step by step");
}

#[test]
fn references_are_looked_for_after_the_snippets_have_run() {
    let executor = CustomCommandExecutor::new();
    let state = executor.execute(&command("t", "Out: !`where`"), &[]);
    let state = executor.resume_after_shell(state, ran("see @notes.md"));
    match executor.next_action(&state) {
        ExpansionAction::ReadFile { reference } => assert_eq!(reference, "notes.md"),
        other => panic!("unexpected {:?}", other),
    }
}

#[test]
fn default_engine_is_strict_with_thirty_seconds() {
    let executor = CustomCommandExecutor::default();
    assert_eq!(executor.bash_timeout_ms(), 30000);
    assert_eq!(executor.security_mode(), SecurityMode::Strict);
    let changed = executor.with_timeout(5).with_security_mode(SecurityMode::Permissive);
    assert_eq!(changed.bash_timeout_ms(), 5);
    assert_eq!(changed.security_mode(), SecurityMode::Permissive);
}

#[test]
fn preview_reports_without_running_anything() {
    let executor = CustomCommandExecutor::new();
    let doc = command("look", "Use $ARGUMENTS with !`git status` and @notes.md and !`rm -rf x`");
    let preview = executor.preview(&doc, &["a b".to_string()]);
    assert_eq!(preview.command_name, "look");
    assert_eq!(preview.processed_content, "Use 'a b' with !`git status` and @notes.md and !`rm -rf x`");
    assert_eq!(preview.bash_commands, vec!["git status", "rm -rf x"]);
    assert_eq!(preview.file_references, vec!["notes.md"]);
    assert_eq!(
        preview.security_risks,
        vec![
            "Potentially dangerous pattern detected: rm\\s+-rf",
            "Security violation in command 'look': Security risks detected: Potentially dangerous pattern detected: rm\\s+-rf",
        ]
    );
    assert_eq!(preview.estimated_execution_time, 1150);
    let lenient = CustomCommandExecutor::new().with_security_mode(SecurityMode::Warning);
    assert_eq!(lenient.preview(&doc, &[]).security_risks.len(), 1);
    assert_eq!(CustomCommandExecutor::estimate_execution_time(&command("n", "nothing")), 100);
}

#[test]
fn preview_is_shown_line_by_line() {
    let preview = ExecutionPreview {
        command_name: "look".to_string(),
        processed_content: "Body".to_string(),
        bash_commands: vec!["git status".to_string()],
        file_references: Vec::new(),
        security_risks: vec!["r1".to_string(), "r2".to_string()],
        estimated_execution_time: 600,
    };
    assert_eq!(
        preview.to_display_string(),
        "📋 Command: look\n⏱️  Estimated time: 600ms\n🔧 Bash commands to execute:\n  - git status\n⚠️  Security warnings:\n  - r1\n  - r2\n\n📄 Processed content:\nBody"
    );
    let bare = ExecutionPreview {
        command_name: "n".to_string(),
        processed_content: String::new(),
        bash_commands: Vec::new(),
        file_references: vec!["a".to_string()],
        security_risks: Vec::new(),
        estimated_execution_time: 1500,
    };
    assert_eq!(
        bare.to_display_string(),
        "📋 Command: n\n⏱️  Estimated time: 1.5s\n📁 Files to reference:\n  - a\n\n📄 Processed content:\n"
    );
}

#[test]
fn pieces_of_the_expansion_on_given_values() {
    let strict = CustomCommandExecutor::new().with_timeout(77);
    let lenient = CustomCommandExecutor::new().with_security_mode(SecurityMode::Warning);
    let risks = vec!["finding".to_string()];
    let tools = Some(vec!["Bash(git status:*)".to_string()]);

    assert!(strict.check_snippet("git status", &tools, &Vec::new()).is_none());
    assert!(strict.check_snippet("git status", &Some(Vec::new()), &Vec::new()).is_some());
    match strict.check_snippet("git push", &tools, &Vec::new()) {
        Some(CustomCommandError::BashExecutionError { message }) => {
            assert_eq!(message, "Bash command 'git push' not permitted by allowed-tools")
        }
        other => panic!("unexpected {:?}", other),
    }
    match strict.check_snippet("git status", &None, &risks) {
        Some(CustomCommandError::BashExecutionError { message }) => {
            assert_eq!(message, "Dangerous command rejected: git status")
        }
        other => panic!("unexpected {:?}", other),
    }
    assert!(lenient.check_snippet("git status", &None, &risks).is_none());

    assert!(CustomCommandExecutor::check_reference("docs/a.md").is_none());
    assert!(CustomCommandExecutor::check_reference("a..b").is_some());
    assert!(CustomCommandExecutor::check_reference("/a").is_some());

    assert_eq!(CustomCommandExecutor::finished_text("t".to_string(), false), "t");
    assert_eq!(
        CustomCommandExecutor::finished_text("t".to_string(), true),
        "🤔 **Extended Thinking Mode Activated**\n\nt"
    );
    assert_eq!(CustomCommandExecutor::inline_shell_output("a !`x` b !`x`", "x", " out \n"), "a out b out");
    assert_eq!(CustomCommandExecutor::inline_file("see @f.txt.", "f.txt", "body"), "see ```\nbody\n```.");

    assert!(strict.shell_failure_of("c", &ran("x")).is_none());
    match strict.shell_failure_of("c", &ShellOutcome::TimedOut) {
        Some(CustomCommandError::TimeoutError { command, timeout_ms }) => {
            assert_eq!(command, "c");
            assert_eq!(timeout_ms, 77);
        }
        other => panic!("unexpected {:?}", other),
    }
    assert!(CustomCommandExecutor::file_failure_of("f", &FileOutcome::Found { size: 0, content: Ok(String::new()) }).is_none());
    assert!(CustomCommandExecutor::file_failure_of("f", &FileOutcome::Missing).is_some());

    assert_eq!(CustomCommandExecutor::estimate_for(0, 0), 100);
    assert_eq!(CustomCommandExecutor::estimate_for(2, 3), 1250);
    assert_eq!(CustomCommandExecutor::estimate_for(usize::MAX, usize::MAX), u64::MAX);

    assert!(strict.check_risks("n", &Vec::new()).is_ok());
    assert!(strict.check_risks("n", &risks).is_err());
    assert!(lenient.check_risks("n", &risks).is_ok());
    assert_eq!(
        strict.risks_shown("n", risks.clone()),
        vec!["finding", "Security violation in command 'n': Security risks detected: finding"]
    );
    assert_eq!(lenient.risks_shown("n", risks), vec!["finding"]);
}

#[test]
fn preview_display_with_a_given_time() {
    let preview = ExecutionPreview {
        command_name: "c".to_string(),
        processed_content: "p".to_string(),
        bash_commands: Vec::new(),
        file_references: Vec::new(),
        security_risks: Vec::new(),
        estimated_execution_time: 100,
    };
    assert_eq!(
        preview.display_with("soon"),
        "📋 Command: c\n⏱️  Estimated time: soon\n\n📄 Processed content:\np"
    );
}
