use custom_commands::command::CommandFrontmatter;
use custom_commands::error::CustomCommandError;
use custom_commands::parser::{MarkdownParser, ParseStep, ParsedMarkdown};

fn decode(yaml: &str) -> Result<CommandFrontmatter, String> {
    let value: serde_yaml::Value = serde_yaml::from_str(yaml).map_err(|e| e.to_string())?;
    if !value.is_mapping() {
        return Err("metadata is not a mapping".to_string());
    }
    let text = |key: &str| value.get(key).and_then(|v| v.as_str()).map(|s| s.to_string());
    let list = |key: &str| {
        value.get(key).and_then(|v| v.as_sequence()).map(|items| {
            items.iter().filter_map(|v| v.as_str().map(|s| s.to_string())).collect::<Vec<String>>()
        })
    };
    Ok(CommandFrontmatter {
        allowed_tools: list("allowed-tools"),
        argument_hint: text("argument-hint"),
        description: text("description"),
        model: text("model"),
        phase: text("phase"),
        dependencies: list("dependencies"),
        output_format: text("output-format"),
    })
}

fn parse_fully(parser: &MarkdownParser, content: &str, path: &str) -> Result<ParsedMarkdown, CustomCommandError> {
    match parser.parse(content) {
        ParseStep::Complete(parsed) => Ok(parsed),
        ParseStep::NeedsMetadata(pending) => {
            let decoded = decode(&pending.metadata_source);
            parser.complete(pending, path, decoded)
        }
    }
}

#[test]
fn test_parse_markdown_with_frontmatter() {
    let content = "---\ndescription: Test command\nallowed-tools: [\"Bash\"]\n---\n\n# Test Command\n\nThis is a test command content.";

    let parser = MarkdownParser::new();
    let result = parse_fully(&parser, content, "test.md").unwrap();

    assert!(result.frontmatter.is_some());
    let fm = result.frontmatter.unwrap();
    assert_eq!(fm.description, Some("Test command".to_string()));
    assert!(result.content.starts_with("# Test Command"));
}

#[test]
fn test_parse_markdown_without_frontmatter() {
    let content = "# Simple Command\n\nJust markdown content without frontmatter.";

    let parser = MarkdownParser::new();
    let result = parse_fully(&parser, content, "test.md").unwrap();

    assert!(result.frontmatter.is_none());
    assert!(result.content.starts_with("# Simple Command"));
}

#[test]
fn parse_cuts_the_block_out_of_the_body() {
    let parser = MarkdownParser::new();
    let content = "\n\n---\ndescription: d\nphase: p\n---\n\n  Body line\nsecond  \n\n";
    match parser.parse(content) {
        ParseStep::NeedsMetadata(pending) => {
            assert_eq!(pending.metadata_source, "description: d\nphase: p");
            assert_eq!(pending.content, "Body line\nsecond");
            assert_eq!(pending.raw_content, "---\ndescription: d\nphase: p\n---\n\n  Body line\nsecond");
        }
        other => panic!("unexpected {:?}", other),
    }
}

#[test]
fn parse_without_block_gives_the_trimmed_document() {
    let parser = MarkdownParser::new();
    match parser.parse("  \n# Hi\n\nArgs: $ARGUMENTS \u{a0}\n") {
        ParseStep::Complete(parsed) => {
            assert!(parsed.frontmatter.is_none());
            assert_eq!(parsed.content, "# Hi\n\nArgs: $ARGUMENTS");
            assert_eq!(parsed.raw_content, "# Hi\n\nArgs: $ARGUMENTS");
        }
        other => panic!("unexpected {:?}", other),
    }
}

#[test]
fn parse_treats_a_blank_block_as_no_metadata() {
    let parser = MarkdownParser::new();
    match parser.parse("---\n   \n---\nBody") {
        ParseStep::Complete(parsed) => {
            assert!(parsed.frontmatter.is_none());
            assert_eq!(parsed.content, "Body");
        }
        other => panic!("unexpected {:?}", other),
    }
}

#[test]
fn parse_ignores_a_delimiter_later_in_the_body() {
    let parser = MarkdownParser::new();
    match parser.parse("Intro\n---\nkey: value\n---\nrest") {
        ParseStep::Complete(parsed) => {
            assert!(parsed.frontmatter.is_none());
            assert_eq!(parsed.content, "Intro\n---\nkey: value\n---\nrest");
        }
        other => panic!("unexpected {:?}", other),
    }
}

#[test]
fn parse_keeps_later_delimiters_in_the_body() {
    let parser = MarkdownParser::new();
    match parser.parse("---\na: b\n---\nfirst\n---\nsecond") {
        ParseStep::NeedsMetadata(pending) => {
            assert_eq!(pending.metadata_source, "a: b");
            assert_eq!(pending.content, "first\n---\nsecond");
        }
        other => panic!("unexpected {:?}", other),
    }
}

#[test]
fn parse_takes_a_block_that_ends_the_document() {
    let parser = MarkdownParser::new();
    for content in ["---\ndescription: x\n---\n", "---\ndescription: x\n---", "---\ndescription: x\n---  \n\n"] {
        match parser.parse(content) {
            ParseStep::NeedsMetadata(pending) => {
                assert_eq!(pending.metadata_source, "description: x");
                assert_eq!(pending.content, "");
            }
            other => panic!("unexpected {:?}", other),
        }
        let parsed = parse_fully(&parser, content, "end.md").unwrap();
        assert_eq!(parsed.frontmatter.unwrap().description, Some("x".to_string()));
        assert_eq!(parsed.content, "");
    }
}

#[test]
fn parse_needs_the_closing_delimiter_on_a_line_of_its_own() {
    let parser = MarkdownParser::new();
    match parser.parse("---\na: b\n---junk\nBody") {
        ParseStep::Complete(parsed) => {
            assert!(parsed.frontmatter.is_none());
            assert_eq!(parsed.content, "---\na: b\n---junk\nBody");
        }
        other => panic!("unexpected {:?}", other),
    }
    match parser.parse("---\na: b") {
        ParseStep::Complete(parsed) => assert_eq!(parsed.content, "---\na: b"),
        other => panic!("unexpected {:?}", other),
    }
}

#[test]
fn complete_reports_metadata_that_does_not_decode() {
    let parser = MarkdownParser::new();
    let pending = match parser.parse("---\ndescription: [unclosed\n---\nBody") {
        ParseStep::NeedsMetadata(pending) => pending,
        other => panic!("unexpected {:?}", other),
    };
    let decoded = decode(&pending.metadata_source);
    assert!(decoded.is_err());
    let reason = decoded.clone().err().unwrap();
    match parser.complete(pending, "dir/bad.md", decoded) {
        Err(CustomCommandError::FrontmatterParseError { path, source }) => {
            assert_eq!(path, "dir/bad.md");
            assert_eq!(source, reason);
        }
        other => panic!("unexpected {:?}", other),
    }
}

#[test]
fn complete_carries_the_decoded_metadata() {
    let parser = MarkdownParser::new();
    let content = "---\ndescription: \"Test workflow command\"\nargument-hint: \"[message]\"\nallowed-tools: [\"Bash\"]\nphase: \"test\"\n---\n\n# Body";
    let parsed = parse_fully(&parser, content, "w.md").unwrap();
    let metadata = parsed.frontmatter.unwrap();
    assert_eq!(metadata.description, Some("Test workflow command".to_string()));
    assert_eq!(metadata.argument_hint, Some("[message]".to_string()));
    assert_eq!(metadata.allowed_tools, Some(vec!["Bash".to_string()]));
    assert_eq!(metadata.phase, Some("test".to_string()));
    assert_eq!(metadata.model, None);
    assert_eq!(parsed.content, "# Body");
}

#[test]
fn extract_frontmatter_gives_the_text_of_the_block() {
    let parser = MarkdownParser::new();
    assert_eq!(
        parser.extract_frontmatter("---\ndescription: x\n---\nBody"),
        Some("description: x".to_string())
    );
    assert_eq!(parser.extract_frontmatter("---\n \n---\nBody"), None);
    assert_eq!(parser.extract_frontmatter("Body only"), None);
    assert_eq!(parser.extract_frontmatter("\n---\ndescription: x\n---\nBody"), None);
}

#[test]
fn extract_content_gives_the_trimmed_body() {
    let parser = MarkdownParser::new();
    assert_eq!(parser.extract_content("---\ndescription: x\n---\n\n  Body \n"), "Body");
    assert_eq!(parser.extract_content("  plain  "), "plain");
    assert_eq!(parser.extract_content("---\ndescription: x\n---\n"), "");
    assert_eq!(parser.extract_frontmatter("---\ndescription: x\n---\n"), Some("description: x".to_string()));
}

#[test]
fn has_frontmatter_looks_at_the_start_of_the_document() {
    let parser = MarkdownParser::new();
    assert!(parser.has_frontmatter("---\na: b\n---\nBody"));
    assert!(!parser.has_frontmatter(" ---\na: b\n---\nBody"));
    assert!(!parser.has_frontmatter("Body"));
    assert!(parser.has_frontmatter("---\na: b\n---"));
}

#[test]
fn is_markdown_file_goes_by_the_extension() {
    assert!(MarkdownParser::is_markdown_file("a/b/command.md"));
    assert!(MarkdownParser::is_markdown_file("command.MD"));
    assert!(MarkdownParser::is_markdown_file("command.MarkDown"));
    assert!(MarkdownParser::is_markdown_file("a.b/c.d.markdown"));
    assert!(!MarkdownParser::is_markdown_file("command.txt"));
    assert!(!MarkdownParser::is_markdown_file("command"));
    assert!(!MarkdownParser::is_markdown_file(".md"));
    assert!(!MarkdownParser::is_markdown_file("dir.md/file"));
    assert!(!MarkdownParser::is_markdown_file("command.mdx"));
}

#[test]
fn split_goes_by_the_block_given() {
    match MarkdownParser::split("whole".to_string(), None) {
        ParseStep::Complete(parsed) => {
            assert_eq!(parsed.content, "whole");
            assert_eq!(parsed.raw_content, "whole");
            assert!(parsed.frontmatter.is_none());
        }
        other => panic!("unexpected {:?}", other),
    }
    match MarkdownParser::split("whole".to_string(), Some((" \n".to_string(), " rest ".to_string()))) {
        ParseStep::Complete(parsed) => {
            assert_eq!(parsed.content, "rest");
            assert_eq!(parsed.raw_content, "whole");
        }
        other => panic!("unexpected {:?}", other),
    }
    match MarkdownParser::split("whole".to_string(), Some(("a: b".to_string(), "\nrest\n".to_string()))) {
        ParseStep::NeedsMetadata(pending) => {
            assert_eq!(pending.metadata_source, "a: b");
            assert_eq!(pending.content, "rest");
            assert_eq!(pending.raw_content, "whole");
        }
        other => panic!("unexpected {:?}", other),
    }
}

#[test]
fn block_is_made_of_groups_one_and_two() {
    assert_eq!(MarkdownParser::block_from(None), None);
    let groups = vec![Some("all".to_string()), Some("one".to_string()), Some("two".to_string())];
    assert_eq!(MarkdownParser::block_from(Some(groups)), Some(("one".to_string(), "two".to_string())));
    let partial = vec![Some("all".to_string()), None];
    assert_eq!(MarkdownParser::block_from(Some(partial)), Some((String::new(), String::new())));
    assert_eq!(MarkdownParser::source_from(Some(("a".to_string(), "b".to_string()))), Some("a".to_string()));
    assert_eq!(MarkdownParser::source_from(Some(("  ".to_string(), "b".to_string()))), None);
    assert_eq!(MarkdownParser::source_from(None), None);
    assert_eq!(MarkdownParser::body_from(" doc ", None), "doc");
    assert_eq!(MarkdownParser::body_from(" doc ", Some(("a".to_string(), " b ".to_string()))), "b");
}
