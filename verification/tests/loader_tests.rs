use custom_commands::command::{CommandFrontmatter, CommandScope, CustomCommand};
use custom_commands::error::CustomCommandError;
use custom_commands::loader::{CustomCommandLoader, DiscoveredFile};
use custom_commands::parser::ParsedMarkdown;
use custom_commands::registry::CommandSet;

fn parsed(body: &str) -> ParsedMarkdown {
    ParsedMarkdown { frontmatter: None, content: body.to_string(), raw_content: body.to_string() }
}

fn metadata_with_tools(tools: &[&str]) -> CommandFrontmatter {
    CommandFrontmatter {
        allowed_tools: Some(tools.iter().map(|s| s.to_string()).collect()),
        argument_hint: None,
        description: Some("Test command".to_string()),
        model: None,
        phase: None,
        dependencies: None,
        output_format: None,
    }
}

fn command(name: &str, body: &str, scope: CommandScope) -> CustomCommand {
    CustomCommand {
        name: name.to_string(),
        content: body.to_string(),
        frontmatter: None,
        scope,
        file_path: format!("{}.md", name),
        namespace: None,
    }
}

fn set_of(commands: Vec<CustomCommand>) -> CommandSet {
    let mut set = CommandSet::new();
    for c in commands {
        set.insert(c);
    }
    set
}

#[test]
fn test_extract_command_name() {
    let loader = CustomCommandLoader::new();

    let name = loader.extract_command_name("/path/to/my-command.md").unwrap();
    assert_eq!(name, "my-command");
}

#[test]
fn test_extract_namespace() {
    let loader = CustomCommandLoader::new();

    let namespace = loader.extract_namespace("/commands/utils/helper.md", "/commands");
    assert_eq!(namespace, Some("utils".to_string()));
}

#[test]
fn test_load_command_from_file() {
    let loader = CustomCommandLoader::new();
    let document = ParsedMarkdown {
        frontmatter: Some(CommandFrontmatter {
            allowed_tools: None,
            argument_hint: None,
            description: Some("Test command".to_string()),
            model: None,
            phase: None,
            dependencies: None,
            output_format: None,
        }),
        content: "# Test Command\nThis is a test command.".to_string(),
        raw_content: "---\ndescription: \"Test command\"\n---\n\n# Test Command\nThis is a test command.".to_string(),
    };
    let result = loader
        .load_command_from_file("/tmp/x/test-command.md", "/tmp/x", CommandScope::Project, Ok(document))
        .unwrap();

    assert!(result.is_some());
    let command = result.unwrap();
    assert_eq!(command.name, "test-command");
    assert!(command.frontmatter.is_some());
}

#[test]
fn command_name_is_the_stem_of_the_file_name() {
    let loader = CustomCommandLoader::new();
    assert_eq!(loader.extract_command_name("a.b.md").unwrap(), "a.b");
    assert_eq!(loader.extract_command_name("dir.d/plain").unwrap(), "plain");
    assert_eq!(loader.extract_command_name(".hidden").unwrap(), ".hidden");
    assert_eq!(loader.extract_command_name("x/.hidden.md").unwrap(), ".hidden");
}

#[test]
fn command_name_needs_a_file_name() {
    let loader = CustomCommandLoader::new();
    for path in ["", "dir/", "a/..", ".."] {
        match loader.extract_command_name(path) {
            Err(CustomCommandError::MarkdownParseError { path: p, message }) => {
                assert_eq!(p, path);
                assert_eq!(message, "Invalid file name for command");
            }
            other => panic!("unexpected {:?}", other),
        }
    }
}

#[test]
fn namespace_is_the_first_directory_below_the_root() {
    let loader = CustomCommandLoader::new();
    assert_eq!(loader.extract_namespace("/commands/helper.md", "/commands"), None);
    assert_eq!(loader.extract_namespace("/commands/a/b/helper.md", "/commands"), Some("a".to_string()));
    assert_eq!(loader.extract_namespace("/commands/a/helper.md", "/commands/"), Some("a".to_string()));
    assert_eq!(loader.extract_namespace("/commandsx/a/helper.md", "/commands"), None);
    assert_eq!(loader.extract_namespace("/other/a/helper.md", "/commands"), None);
    assert_eq!(loader.extract_namespace("rel/a/helper.md", "rel"), Some("a".to_string()));
}

#[test]
fn validate_command_names_each_defect() {
    let loader = CustomCommandLoader::new();
    match loader.validate_command(&command("", "body", CommandScope::Project)) {
        Err(CustomCommandError::ConfigError { message }) => assert_eq!(message, "Command name cannot be empty"),
        other => panic!("unexpected {:?}", other),
    }
    match loader.validate_command(&command("two words", "body", CommandScope::Project)) {
        Err(CustomCommandError::ConfigError { message }) => {
            assert_eq!(message, "Invalid characters in command name: 'two words'")
        }
        other => panic!("unexpected {:?}", other),
    }
    match loader.validate_command(&command("a/b", "body", CommandScope::Project)) {
        Err(CustomCommandError::ConfigError { message }) => {
            assert_eq!(message, "Invalid characters in command name: 'a/b'")
        }
        other => panic!("unexpected {:?}", other),
    }
    match loader.validate_command(&command("empty", " \n\t ", CommandScope::Project)) {
        Err(CustomCommandError::ConfigError { message }) => assert_eq!(message, "Command 'empty' has empty content"),
        other => panic!("unexpected {:?}", other),
    }
    assert!(loader.validate_command(&command("fine", "body", CommandScope::Global)).is_ok());
}

#[test]
fn validate_command_checks_the_template_where_the_shell_is_granted() {
    let loader = CustomCommandLoader::new();
    let mut dangerous = command("danger", "Execute: !`rm -rf /`", CommandScope::Project);
    assert!(loader.validate_command(&dangerous).is_ok());
    dangerous.frontmatter = Some(metadata_with_tools(&["fs_read"]));
    assert!(loader.validate_command(&dangerous).is_ok());
    dangerous.frontmatter = Some(metadata_with_tools(&["BASH(git:*)"]));
    match loader.validate_command(&dangerous) {
        Err(CustomCommandError::SecurityError { command, message }) => {
            assert_eq!(command, "content_validation");
            assert_eq!(
                message,
                "Security risks detected: Potentially dangerous pattern detected: rm\\s+-rf"
            );
        }
        other => panic!("unexpected {:?}", other),
    }
    let mut safe = command("safe", "Status: !`git status`", CommandScope::Project);
    safe.frontmatter = Some(metadata_with_tools(&["Bash"]));
    assert!(loader.validate_command(&safe).is_ok());
}

#[test]
fn load_command_from_file_builds_the_command() {
    let loader = CustomCommandLoader::new();
    let made = loader
        .load_command_from_file("/root/utils/helper.md", "/root", CommandScope::Global, Ok(parsed("Body")))
        .unwrap()
        .unwrap();
    assert_eq!(made.name, "helper");
    assert_eq!(made.content, "Body");
    assert!(made.frontmatter.is_none());
    assert_eq!(made.scope, CommandScope::Global);
    assert_eq!(made.file_path, "/root/utils/helper.md");
    assert_eq!(made.namespace, Some("utils".to_string()));
}

#[test]
fn load_command_from_file_hands_on_the_failure_of_the_document() {
    let loader = CustomCommandLoader::new();
    let failure = CustomCommandError::file_read_error("/root/a.md".to_string(), "denied".to_string());
    match loader.load_command_from_file("/root/a.md", "/root", CommandScope::Project, Err(failure)) {
        Err(CustomCommandError::FileReadError { path, source }) => {
            assert_eq!(path, "/root/a.md");
            assert_eq!(source, "denied");
        }
        other => panic!("unexpected {:?}", other),
    }
    let failure = CustomCommandError::file_read_error("x".to_string(), "denied".to_string());
    match loader.load_command_from_file("/root/", "/root", CommandScope::Project, Err(failure)) {
        Err(CustomCommandError::MarkdownParseError { .. }) => {}
        other => panic!("unexpected {:?}", other),
    }
    match loader.load_command_from_file("/root/a.md", "/root", CommandScope::Project, Ok(parsed("  "))) {
        Err(CustomCommandError::ConfigError { message }) => assert_eq!(message, "Command 'a' has empty content"),
        other => panic!("unexpected {:?}", other),
    }
}

#[test]
fn directory_load_skips_failures_and_lets_the_later_file_win() {
    let loader = CustomCommandLoader::new();
    let files = vec![
        DiscoveredFile { path: "/r/one.md".to_string(), parsed: Ok(parsed("first")) },
        DiscoveredFile { path: "/r/notes.txt".to_string(), parsed: Ok(parsed("not a command")) },
        DiscoveredFile {
            path: "/r/broken.md".to_string(),
            parsed: Err(CustomCommandError::file_read_error("/r/broken.md".to_string(), "io".to_string())),
        },
        DiscoveredFile { path: "/r/blank.md".to_string(), parsed: Ok(parsed("   ")) },
        DiscoveredFile { path: "/r/sub/one.md".to_string(), parsed: Ok(parsed("second")) },
        DiscoveredFile { path: "/r/sub/two.markdown".to_string(), parsed: Ok(parsed("other")) },
    ];
    let set = loader.load_commands_from_directory("/r", CommandScope::Project, files);
    assert_eq!(set.len(), 2);
    let one = set.get("one").unwrap();
    assert_eq!(one.content, "second");
    assert_eq!(one.namespace, Some("sub".to_string()));
    assert_eq!(one.file_path, "/r/sub/one.md");
    assert_eq!(set.get("two").unwrap().content, "other");
    assert!(set.get("notes").is_none());
    assert!(set.get("broken").is_none());
    assert!(set.get("blank").is_none());
}

#[test]
fn merge_prefers_the_project_command_in_either_order() {
    let loader = CustomCommandLoader::new();
    let project = || set_of(vec![command("shared", "project body", CommandScope::Project), command("p", "p", CommandScope::Project)]);
    let global = || set_of(vec![command("shared", "global body", CommandScope::Global), command("g", "g", CommandScope::Global)]);

    let merged = loader.load_all_commands(vec![project(), global()]);
    assert_eq!(merged.len(), 3);
    assert_eq!(merged.get("shared").unwrap().scope, CommandScope::Project);
    assert_eq!(merged.get("shared").unwrap().content, "project body");

    let merged = loader.load_all_commands(vec![global(), project()]);
    assert_eq!(merged.len(), 3);
    assert_eq!(merged.get("shared").unwrap().scope, CommandScope::Project);
    assert_eq!(merged.get("shared").unwrap().content, "project body");
    assert_eq!(merged.get("g").unwrap().scope, CommandScope::Global);
    assert_eq!(merged.get("p").unwrap().scope, CommandScope::Project);
}

#[test]
fn merge_keeps_the_first_of_two_global_commands() {
    let loader = CustomCommandLoader::new();
    let first = set_of(vec![command("x", "first", CommandScope::Global)]);
    let second = set_of(vec![command("x", "second", CommandScope::Global)]);
    let merged = loader.load_all_commands(vec![first, second]);
    assert_eq!(merged.get("x").unwrap().content, "first");
    let none = loader.load_all_commands(Vec::new());
    assert_eq!(none.len(), 0);
}

#[test]
fn command_directories_are_the_project_then_the_user() {
    let loader = CustomCommandLoader::new();
    let both = loader.get_command_directories("/work", Some("/home/me"), true, true);
    assert_eq!(
        both,
        vec![
            ("/work/.amazonq/commands".to_string(), CommandScope::Project),
            ("/home/me/.aws/amazonq/commands".to_string(), CommandScope::Global),
        ]
    );
    let only_user = loader.get_command_directories("/work/", Some("/home/me/"), false, true);
    assert_eq!(only_user, vec![("/home/me/.aws/amazonq/commands".to_string(), CommandScope::Global)]);
    assert!(loader.get_command_directories("/work", None, false, true).is_empty());
    assert_eq!(CustomCommandLoader::project_directory_of("/work/"), "/work/.amazonq/commands");
    assert_eq!(CustomCommandLoader::global_directory_of(""), ".aws/amazonq/commands");
    assert_eq!(CustomCommandLoader::command_file_of("/d", "review"), "/d/review.md");
}

#[test]
fn reload_takes_the_first_directory_that_has_the_file() {
    let loader = CustomCommandLoader::new();
    let directories = vec![
        ("/work/.amazonq/commands".to_string(), CommandScope::Project),
        ("/home/.aws/amazonq/commands".to_string(), CommandScope::Global),
    ];
    let target = loader.reload_command("review", &directories, &vec![false, true]);
    assert_eq!(
        target,
        Some((
            "/home/.aws/amazonq/commands/review.md".to_string(),
            "/home/.aws/amazonq/commands".to_string(),
            CommandScope::Global
        ))
    );
    let target = loader.reload_command("review", &directories, &vec![true, true]);
    assert_eq!(target.unwrap().2, CommandScope::Project);
    assert_eq!(loader.reload_command("review", &directories, &vec![false, false]), None);
    assert_eq!(loader.reload_command("review", &directories, &vec![false]), None);
}

#[test]
fn available_commands_are_sorted_and_listed_once() {
    let loader = CustomCommandLoader::new();
    let paths = vec![
        "/p/zeta.md".to_string(),
        "/p/alpha.md".to_string(),
        "/p/readme.txt".to_string(),
        "/g/alpha.md".to_string(),
        "/g/sub/Beta.markdown".to_string(),
        "/g/beta.md".to_string(),
    ];
    assert_eq!(loader.list_available_commands(&paths), vec!["Beta", "alpha", "beta", "zeta"]);
    assert!(loader.list_available_commands(&Vec::new()).is_empty());
}

#[test]
fn command_set_holds_each_name_once() {
    let mut set = CommandSet::new();
    assert_eq!(set.len(), 0);
    set.insert(command("a", "one", CommandScope::Global));
    set.insert(command("b", "two", CommandScope::Global));
    set.insert(command("a", "three", CommandScope::Project));
    assert_eq!(set.len(), 2);
    assert!(set.contains_key("a"));
    assert!(!set.contains_key("c"));
    assert_eq!(set.get("a").unwrap().content, "three");
    assert_eq!(set.names(), vec!["a", "b"]);
    let removed = set.remove("a").unwrap();
    assert_eq!(removed.content, "three");
    assert!(set.remove("a").is_none());
    assert_eq!(set.names(), vec!["b"]);
    assert_eq!(set.commands().len(), 1);
    assert_eq!(set.into_commands().len(), 1);
}

#[test]
fn validate_given_goes_by_the_findings_given() {
    let loader = CustomCommandLoader::new();
    let fine = command("fine", "body", CommandScope::Project);
    let risks = vec!["r1".to_string(), "r2".to_string()];
    assert!(loader.validate_given(&fine, false, &risks).is_ok());
    assert!(loader.validate_given(&fine, true, &Vec::new()).is_ok());
    match loader.validate_given(&fine, true, &risks) {
        Err(CustomCommandError::SecurityError { command, message }) => {
            assert_eq!(command, "content_validation");
            assert_eq!(message, "Security risks detected: r1, r2");
        }
        other => panic!("unexpected {:?}", other),
    }
    match loader.validate_given(&command("", "body", CommandScope::Project), true, &risks) {
        Err(CustomCommandError::ConfigError { message }) => assert_eq!(message, "Command name cannot be empty"),
        other => panic!("unexpected {:?}", other),
    }
    assert!(CustomCommandLoader::entry_names_shell("bash(git:*)"));
    assert!(!CustomCommandLoader::entry_names_shell("Bash"));
    assert!(!CustomCommandLoader::entry_names_shell("fs_read"));
}
