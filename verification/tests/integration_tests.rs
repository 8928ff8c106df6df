use custom_commands::cache::{CustomCommandCache, CustomCommandManager};
use custom_commands::command::{CommandFrontmatter, CommandScope, CustomCommand};
use custom_commands::error::CustomCommandError;
use custom_commands::executor::{ExpansionState, SecurityMode};
use custom_commands::integration::{
    CustomCommandInfo, CustomCommandInstaller, CustomCommandIntegration, InstallStep,
};
use custom_commands::registry::CommandSet;
use custom_commands::security::{SecurityValidationConfig, SecurityValidationLevel};

fn metadata() -> CommandFrontmatter {
    CommandFrontmatter {
        allowed_tools: Some(vec!["Bash".to_string()]),
        argument_hint: Some("[message]".to_string()),
        description: Some("Test workflow command".to_string()),
        model: None,
        phase: Some("test".to_string()),
        dependencies: Some(vec!["first".to_string(), "second".to_string()]),
        output_format: None,
    }
}

fn workflow() -> CustomCommand {
    CustomCommand {
        name: "test-workflow".to_string(),
        content: "Your message: $ARGUMENTS\nContents: @test.txt\nStatus: !`echo \"mock git status\"`".to_string(),
        frontmatter: Some(metadata()),
        scope: CommandScope::Project,
        file_path: ".amazonq/commands/test-workflow.md".to_string(),
        namespace: Some("utils".to_string()),
    }
}

fn plain(name: &str, body: &str) -> CustomCommand {
    CustomCommand {
        name: name.to_string(),
        content: body.to_string(),
        frontmatter: None,
        scope: CommandScope::Global,
        file_path: format!("{}.md", name),
        namespace: None,
    }
}

fn commands() -> CommandSet {
    let mut set = CommandSet::new();
    set.insert(workflow());
    set.insert(plain("simple", "Just text"));
    set
}

fn info(name: &str, namespace: Option<&str>, scope: CommandScope, hint: Option<&str>, description: Option<&str>) -> CustomCommandInfo {
    CustomCommandInfo {
        name: name.to_string(),
        description: description.map(|s| s.to_string()),
        argument_hint: hint.map(|s| s.to_string()),
        scope,
        namespace: namespace.map(|s| s.to_string()),
        phase: None,
    }
}

#[test]
fn known_commands_need_the_feature_switched_on() {
    let integration = CustomCommandIntegration::new();
    let set = commands();
    assert!(integration.is_custom_command(true, &set, "test-workflow"));
    assert!(!integration.is_custom_command(true, &set, "nonexistent-command"));
    assert!(!integration.is_custom_command(false, &set, "test-workflow"));
}

#[test]
fn summaries_follow_the_commands() {
    let integration = CustomCommandIntegration::new();
    let infos = integration.list_custom_commands(&commands());
    assert_eq!(infos.len(), 2);
    assert_eq!(infos[0].name, "test-workflow");
    assert_eq!(infos[0].description, Some("Test workflow command".to_string()));
    assert_eq!(infos[0].namespace, Some("utils".to_string()));
    assert_eq!(infos[0].phase, Some("test".to_string()));
    assert_eq!(infos[1].name, "simple");
    assert_eq!(infos[1].description, None);
}

#[test]
fn preview_reports_what_a_call_would_do() {
    let integration = CustomCommandIntegration::new();
    let preview = integration
        .preview_command(&commands(), "test-workflow", &["Hello".to_string(), "World".to_string()])
        .unwrap();
    assert!(preview.contains("Hello World"));
    assert!(preview.contains("test.txt"));
    assert!(preview.contains("echo \"mock git status\""));
    assert_eq!(
        preview,
        "📋 Command: test-workflow\n⏱️  Estimated time: 650ms\n🔧 Bash commands to execute:\n  - echo \"mock git status\"\n📁 Files to reference:\n  - test.txt\n\n📄 Processed content:\nYour message: Hello World\nContents: @test.txt\nStatus: !`echo \"mock git status\"`"
    );
    let simple = integration.preview_command(&commands(), "simple", &[]).unwrap();
    assert_eq!(simple, "📋 Command: simple\n⏱️  Estimated time: 100ms\n\n📄 Processed content:\nJust text");
    match integration.preview_command(&commands(), "nonexistent", &[]) {
        Err(CustomCommandError::CommandNotFound(name)) => assert_eq!(name, "nonexistent"),
        other => panic!("unexpected {:?}", other),
    }
}

#[test]
fn preview_shows_the_findings_of_a_dangerous_command() {
    let mut set = CommandSet::new();
    set.insert(plain("dangerous", "# Dangerous Command\n\nExecute: !`rm -rf /`"));

    let strict = CustomCommandIntegration::new().with_security_mode(SecurityMode::Strict);
    let preview = strict.preview_command(&set, "dangerous", &[]).unwrap();
    assert!(preview.contains("Security warnings"));
    assert!(preview.contains("rm -rf"));
    assert!(preview.contains("  - Security violation in command 'dangerous': Security risks detected: "));

    let permissive = CustomCommandIntegration::new().with_security_mode(SecurityMode::Permissive);
    let permissive_preview = permissive.preview_command(&set, "dangerous", &[]).unwrap();
    assert!(permissive_preview.contains("dangerous"));
    assert!(permissive_preview.contains("Security warnings"));
    assert!(!permissive_preview.contains("Security violation"));
    assert!(permissive_preview.contains("🔧 Bash commands to execute:\n  - rm -rf /"));
}

#[test]
fn help_for_a_command_is_exact() {
    let help = CustomCommandIntegration::format_command_help(&workflow());
    assert_eq!(
        help,
        "📝 Custom Command: test-workflow\n📋 Description: Test workflow command\n💡 Usage: /test-workflow [message]\n🔄 Phase: test\n🔗 Dependencies: first, second\n📁 Source: .amazonq/commands/test-workflow.md\n🌐 Scope: Project\n🏷️  Namespace: utils\n\n📄 Content preview:\nYour message: $ARGUMENTS\nContents: @test.txt\nStatus: !`echo \"mock git status\"`"
    );
    let bare = CustomCommandIntegration::format_command_help(&plain("simple", "Just text"));
    assert_eq!(
        bare,
        "📝 Custom Command: simple\n📁 Source: simple.md\n🌐 Scope: Global\n\n📄 Content preview:\nJust text"
    );
}

#[test]
fn help_cuts_a_long_template_after_two_hundred_characters() {
    let long: String = "é".repeat(201);
    let help = CustomCommandIntegration::format_command_help(&plain("long", &long));
    let expected = format!("{}...", "é".repeat(200));
    assert!(help.ends_with(&format!("📄 Content preview:\n{}", expected)));
    let exact: String = "x".repeat(200);
    let help = CustomCommandIntegration::format_command_help(&plain("exact", &exact));
    assert!(help.ends_with(&format!("📄 Content preview:\n{}", exact)));
}

#[test]
fn command_list_groups_by_namespace_in_order() {
    let infos = vec![
        info("deploy", Some("ops"), CommandScope::Global, None, Some("Ship it")),
        info("review", None, CommandScope::Project, Some("<pr>"), Some("Review command")),
        info("lint", Some("Dev"), CommandScope::Project, None, None),
        info("rollback", Some("ops"), CommandScope::Project, Some("[tag]"), None),
    ];
    assert_eq!(
        CustomCommandIntegration::format_commands_list(&infos),
        "🎯 Available Custom Commands:\n\n## Dev Commands\n\n  /lint (project)\n\n## General Commands\n\n  /review <pr> (project) - Review command\n\n## ops Commands\n\n  /deploy (user) - Ship it\n  /rollback [tag] (project)\n\n💡 Use '/help <command>' for detailed help on a specific command."
    );
}

#[test]
fn help_without_a_name_lists_the_commands() {
    let integration = CustomCommandIntegration::new();
    let empty = CommandSet::new();
    let help_text = integration.show_custom_command_help(None, &empty).unwrap();
    assert!(help_text.contains("No custom commands available"));
    assert_eq!(
        help_text,
        "No custom commands available. Create .md files in .amazonq/commands/ to add custom commands."
    );
    assert!(integration.list_custom_commands(&empty).is_empty());
    let help_result = integration.show_custom_command_help(Some("nonexistent"), &empty);
    assert!(help_result.is_err());
    let listed = integration.show_custom_command_help(None, &commands()).unwrap();
    assert!(listed.contains("## utils Commands"));
    assert!(listed.contains("  /test-workflow [message] (project) - Test workflow command"));
    let one = integration.show_custom_command_help(Some("simple"), &commands()).unwrap();
    assert!(one.starts_with("📝 Custom Command: simple"));
}

#[test]
fn session_engine_warns_unless_told_otherwise() {
    let integration = CustomCommandIntegration::new();
    assert_eq!(integration.executor().security_mode(), SecurityMode::Warning);
    assert_eq!(integration.executor().bash_timeout_ms(), 30000);
    let strict = CustomCommandIntegration::default().with_security_mode(SecurityMode::Strict);
    assert_eq!(strict.executor().security_mode(), SecurityMode::Strict);
}

#[test]
fn session_begins_an_expansion_under_the_policy() {
    let integration = CustomCommandIntegration::new();
    let policy = SecurityValidationConfig { level: SecurityValidationLevel::Off, ignored_patterns: Vec::new() };
    let state = integration
        .execute_custom_command(&commands(), "simple", &["x".to_string()], &policy)
        .unwrap();
    match state {
        ExpansionState::Done(text) => assert!(text.starts_with("Just text\n\n---\n\n**Command Arguments:**")),
        other => panic!("unexpected {:?}", other),
    }
    match integration.execute_custom_command(&commands(), "none", &[], &policy) {
        Err(CustomCommandError::CommandNotFound(name)) => assert_eq!(name, "none"),
        other => panic!("unexpected {:?}", other),
    }
}

#[test]
fn setup_of_the_project_directory() {
    match CustomCommandInstaller::init_command_directory("/work", true) {
        InstallStep::AlreadyPresent { message } => {
            assert_eq!(message, "Custom commands directory already exists: /work/.amazonq/commands")
        }
        other => panic!("unexpected {:?}", other),
    }
    match CustomCommandInstaller::init_command_directory("/work", false) {
        InstallStep::Create { directory, sample_file, sample_content, message } => {
            assert_eq!(directory, "/work/.amazonq/commands");
            assert_eq!(sample_file, "/work/.amazonq/commands/sample-command.md");
            assert!(sample_content.starts_with("---\ndescription: \"Sample custom command\"\n"));
            assert!(sample_content.contains("## Your input\n$ARGUMENTS\n"));
            assert_eq!(
                message,
                "✅ Custom commands directory initialized: /work/.amazonq/commands\n\n📝 Sample command created: sample-command.md\n\n💡 Create more .md files in this directory to add custom commands."
            );
        }
        other => panic!("unexpected {:?}", other),
    }
}

#[test]
fn cache_goes_stale_after_thirty_seconds() {
    let mut cache = CustomCommandCache::new(1000);
    assert!(!cache.needs_rescan(1000));
    assert!(!cache.needs_rescan(31000));
    assert!(cache.needs_rescan(31001));
    assert!(!cache.needs_rescan(0));
    assert!(cache.command_names().is_empty());
    cache.add_command(plain("a", "one"));
    cache.add_command(plain("b", "two"));
    cache.add_command(plain("a", "three"));
    assert_eq!(cache.command_names(), vec!["a", "b"]);
    assert_eq!(cache.get_command("a").unwrap().content, "three");
    assert!(cache.get_command("c").is_none());
    assert_eq!(cache.remove_command("a").unwrap().content, "three");
    assert!(cache.remove_command("a").is_none());
    cache.refresh(commands(), 50000);
    assert!(!cache.needs_rescan(80000));
    assert!(cache.needs_rescan(80001));
    assert_eq!(cache.command_names(), vec!["test-workflow", "simple"]);
}

#[test]
fn manager_looks_commands_up_by_name() {
    let mut manager = CustomCommandManager::new(0);
    assert!(manager.list_commands().is_empty());
    assert!(!manager.needs_rescan(30000));
    assert!(manager.needs_rescan(30001));
    manager.refresh(commands(), 10);
    assert_eq!(manager.list_commands(), vec!["test-workflow", "simple"]);
    assert_eq!(manager.get_command_info("simple").unwrap().content, "Just text");
    match manager.get_command_info("missing") {
        Err(CustomCommandError::CommandNotFound(name)) => assert_eq!(name, "missing"),
        other => panic!("unexpected {:?}", other),
    }
    match manager.execute_command("simple", &[]) {
        Ok(ExpansionState::Done(text)) => assert_eq!(text, "Just text"),
        other => panic!("unexpected {:?}", other),
    }
    match manager.execute_command("missing", &[]) {
        Err(e) => {
            assert!(!e.is_fatal());
            assert_eq!(e.message(), "Custom command 'missing' not found");
            assert_eq!(e.user_message(), "Command 'missing' not found. Run '/help' to see available commands.");
        }
        other => panic!("unexpected {:?}", other),
    }
}

#[test]
fn cache_and_manager_hand_out_the_scanned_commands() {
    let mut cache = CustomCommandCache::new(0);
    assert_eq!(cache.commands().len(), 0);
    cache.refresh(commands(), 5);
    assert_eq!(cache.commands().len(), 2);
    assert!(cache.commands().contains_key("simple"));
    let mut manager = CustomCommandManager::new(0);
    manager.refresh(commands(), 5);
    assert_eq!(manager.commands().names(), vec!["test-workflow", "simple"]);
}
