//! The failures of the command pipeline.

use vstd::prelude::*;
use crate::text::{concat2, concat3, concat4, concat5, decimal, decimal_chars, string_of};

verus! {

/// Why a command could not be found, read, checked or expanded.
///
/// Failures of the file system and of decoders are carried as their text.
#[derive(Debug)]
pub enum CustomCommandError {
    /// No command has this name.
    CommandNotFound(String),
    /// A command file could not be read.
    FileReadError { path: String, source: String },
    /// A command directory could not be visited.
    DirectoryError { path: String, source: String },
    /// A document is not a command template.
    MarkdownParseError { path: String, message: String },
    /// The metadata block of a document could not be decoded.
    FrontmatterParseError { path: String, source: String },
    /// A command could not be carried out.
    ExecutionError { command: String, message: String },
    /// The arguments of a call are malformed.
    ArgumentError { command: String, message: String },
    /// A referenced file is missing, too large or unreadable.
    FileReferenceError { file: String, source: String },
    /// A shell snippet was refused or failed.
    BashExecutionError { message: String },
    /// A denylisted pattern or an unsafe path was found.
    SecurityError { command: String, message: String },
    /// A command that this one depends on is missing.
    DependencyError { command: String, dependency: String },
    /// The stored policy could not be read or written.
    ConfigError { message: String },
    /// A shell snippet ran longer than allowed.
    TimeoutError { command: String, timeout_ms: u64 },
    /// An input or output operation failed.
    IoError(String),
    /// A JSON text could not be decoded.
    JsonError(String),
    /// A YAML text could not be decoded.
    YamlError(String),
    /// Anything else.
    Other(String),
}

/// A failure as plain texts.
pub enum ErrorView {
    CommandNotFound(Seq<char>),
    FileReadError { path: Seq<char>, source: Seq<char> },
    DirectoryError { path: Seq<char>, source: Seq<char> },
    MarkdownParseError { path: Seq<char>, message: Seq<char> },
    FrontmatterParseError { path: Seq<char>, source: Seq<char> },
    ExecutionError { command: Seq<char>, message: Seq<char> },
    ArgumentError { command: Seq<char>, message: Seq<char> },
    FileReferenceError { file: Seq<char>, source: Seq<char> },
    BashExecutionError { message: Seq<char> },
    SecurityError { command: Seq<char>, message: Seq<char> },
    DependencyError { command: Seq<char>, dependency: Seq<char> },
    ConfigError { message: Seq<char> },
    TimeoutError { command: Seq<char>, timeout_ms: u64 },
    IoError(Seq<char>),
    JsonError(Seq<char>),
    YamlError(Seq<char>),
    Other(Seq<char>),
}

impl View for CustomCommandError {
    type V = ErrorView;

    open spec fn view(&self) -> ErrorView {
        match self {
            CustomCommandError::CommandNotFound(name) => ErrorView::CommandNotFound(name@),
            CustomCommandError::FileReadError { path, source } => ErrorView::FileReadError {
                path: path@,
                source: source@,
            },
            CustomCommandError::DirectoryError { path, source } => ErrorView::DirectoryError {
                path: path@,
                source: source@,
            },
            CustomCommandError::MarkdownParseError { path, message } =>
                ErrorView::MarkdownParseError { path: path@, message: message@ },
            CustomCommandError::FrontmatterParseError { path, source } =>
                ErrorView::FrontmatterParseError { path: path@, source: source@ },
            CustomCommandError::ExecutionError { command, message } => ErrorView::ExecutionError {
                command: command@,
                message: message@,
            },
            CustomCommandError::ArgumentError { command, message } => ErrorView::ArgumentError {
                command: command@,
                message: message@,
            },
            CustomCommandError::FileReferenceError { file, source } =>
                ErrorView::FileReferenceError { file: file@, source: source@ },
            CustomCommandError::BashExecutionError { message } => ErrorView::BashExecutionError {
                message: message@,
            },
            CustomCommandError::SecurityError { command, message } => ErrorView::SecurityError {
                command: command@,
                message: message@,
            },
            CustomCommandError::DependencyError { command, dependency } =>
                ErrorView::DependencyError { command: command@, dependency: dependency@ },
            CustomCommandError::ConfigError { message } => ErrorView::ConfigError {
                message: message@,
            },
            CustomCommandError::TimeoutError { command, timeout_ms } => ErrorView::TimeoutError {
                command: command@,
                timeout_ms: *timeout_ms,
            },
            CustomCommandError::IoError(source) => ErrorView::IoError(source@),
            CustomCommandError::JsonError(source) => ErrorView::JsonError(source@),
            CustomCommandError::YamlError(source) => ErrorView::YamlError(source@),
            CustomCommandError::Other(text) => ErrorView::Other(text@),
        }
    }
}

impl CustomCommandError {
    /// A file could not be read.
    pub fn file_read_error(path: String, source: String) -> (e: Self)
        ensures
            e == (CustomCommandError::FileReadError { path, source }),
    {
        CustomCommandError::FileReadError { path, source }
    }

    /// A directory could not be visited.
    pub fn directory_error(path: String, source: String) -> (e: Self)
        ensures
            e == (CustomCommandError::DirectoryError { path, source }),
    {
        CustomCommandError::DirectoryError { path, source }
    }

    /// A document is not a command template.
    pub fn markdown_parse_error(path: String, message: String) -> (e: Self)
        ensures
            e == (CustomCommandError::MarkdownParseError { path, message }),
    {
        CustomCommandError::MarkdownParseError { path, message }
    }

    /// A metadata block could not be decoded.
    pub fn frontmatter_parse_error(path: String, source: String) -> (e: Self)
        ensures
            e == (CustomCommandError::FrontmatterParseError { path, source }),
    {
        CustomCommandError::FrontmatterParseError { path, source }
    }

    /// A command could not be carried out.
    pub fn execution_error(command: String, message: String) -> (e: Self)
        ensures
            e == (CustomCommandError::ExecutionError { command, message }),
    {
        CustomCommandError::ExecutionError { command, message }
    }

    /// The arguments of a call are malformed.
    pub fn argument_error(command: String, message: String) -> (e: Self)
        ensures
            e == (CustomCommandError::ArgumentError { command, message }),
    {
        CustomCommandError::ArgumentError { command, message }
    }

    /// A referenced file could not be had.
    pub fn file_reference_error(file: String, source: String) -> (e: Self)
        ensures
            e == (CustomCommandError::FileReferenceError { file, source }),
    {
        CustomCommandError::FileReferenceError { file, source }
    }

    /// A shell snippet was refused or failed.
    pub fn bash_execution_error(message: String) -> (e: Self)
        ensures
            e == (CustomCommandError::BashExecutionError { message }),
    {
        CustomCommandError::BashExecutionError { message }
    }

    /// A denylisted pattern or an unsafe path was found.
    pub fn security_error(command: String, message: String) -> (e: Self)
        ensures
            e == (CustomCommandError::SecurityError { command, message }),
    {
        CustomCommandError::SecurityError { command, message }
    }

    /// A command that another depends on is missing.
    pub fn dependency_error(command: String, dependency: String) -> (e: Self)
        ensures
            e == (CustomCommandError::DependencyError { command, dependency }),
    {
        CustomCommandError::DependencyError { command, dependency }
    }

    /// The stored policy could not be read or written.
    pub fn config_error(message: String) -> (e: Self)
        ensures
            e == (CustomCommandError::ConfigError { message }),
    {
        CustomCommandError::ConfigError { message }
    }

    /// A shell snippet ran longer than `timeout_ms` milliseconds.
    pub fn timeout_error(command: String, timeout_ms: u64) -> (e: Self)
        ensures
            e == (CustomCommandError::TimeoutError { command, timeout_ms }),
    {
        CustomCommandError::TimeoutError { command, timeout_ms }
    }

    /// Security and configuration failures are fatal; all others are not.
    pub open spec fn fatal(self) -> bool {
        self is SecurityError || self is ConfigError
    }

    /// Whether nothing can be done about the failure by calling again.
    pub fn is_fatal(&self) -> (r: bool)
        ensures
            r == self.fatal(),
    {
        match self {
            CustomCommandError::SecurityError { .. } => true,
            CustomCommandError::ConfigError { .. } => true,
            _ => false,
        }
    }

    /// The diagnostic text of the failure.
    pub open spec fn message_text(self) -> Seq<char> {
        match self {
            CustomCommandError::CommandNotFound(name) => "Custom command '"@ + name@
                + "' not found"@,
            CustomCommandError::FileReadError { path, source } => "Failed to read command file '"@
                + path@ + "': "@ + source@,
            CustomCommandError::DirectoryError { path, source } => "Failed to access directory '"@
                + path@ + "': "@ + source@,
            CustomCommandError::MarkdownParseError { path, message } =>
                "Failed to parse markdown file '"@ + path@ + "': "@ + message@,
            CustomCommandError::FrontmatterParseError { path, source } =>
                "Failed to parse frontmatter in '"@ + path@ + "': "@ + source@,
            CustomCommandError::ExecutionError { command, message } =>
                "Failed to execute custom command '"@ + command@ + "': "@ + message@,
            CustomCommandError::ArgumentError { command, message } =>
                "Invalid arguments for command '"@ + command@ + "': "@ + message@,
            CustomCommandError::FileReferenceError { file, source } =>
                "Failed to resolve file reference '"@ + file@ + "': "@ + source@,
            CustomCommandError::BashExecutionError { message } => "Failed to execute bash command: "@
                + message@,
            CustomCommandError::SecurityError { command, message } =>
                "Security violation in command '"@ + command@ + "': "@ + message@,
            CustomCommandError::DependencyError { command, dependency } =>
                "Dependency error for command '"@ + command@ + "': missing '"@ + dependency@
                    + "'"@,
            CustomCommandError::ConfigError { message } => "Configuration error: "@ + message@,
            CustomCommandError::TimeoutError { command, timeout_ms } => "Command '"@ + command@
                + "' timed out after "@ + decimal(timeout_ms as nat) + "ms"@,
            CustomCommandError::IoError(source) => "I/O error: "@ + source@,
            CustomCommandError::JsonError(source) => "JSON parse error: "@ + source@,
            CustomCommandError::YamlError(source) => "YAML parse error: "@ + source@,
            CustomCommandError::Other(text) => "Unknown error: "@ + text@,
        }
    }

    /// The text shown to the person who made the call.
    pub open spec fn user_text(self) -> Seq<char> {
        match self {
            CustomCommandError::CommandNotFound(name) => "Command '"@ + name@
                + "' not found. Run '/help' to see available commands."@,
            CustomCommandError::ArgumentError { command, message } =>
                "Invalid arguments for command '"@ + command@ + "': "@ + message@,
            CustomCommandError::FileReferenceError { file, source } => "Failed to read file '"@
                + file@ + "'. Please check the file path."@,
            CustomCommandError::SecurityError { command, message } => "Cannot execute command '"@
                + command@ + "' for security reasons: "@ + message@,
            _ => self.message_text(),
        }
    }

    /// The diagnostic text of the failure.
    pub fn message(&self) -> (out: String)
        ensures
            out@ == self.message_text(),
    {
        match self {
            CustomCommandError::CommandNotFound(name) => concat3(
                "Custom command '",
                name.as_str(),
                "' not found",
            ),
            CustomCommandError::FileReadError { path, source } => concat4(
                "Failed to read command file '",
                path.as_str(),
                "': ",
                source.as_str(),
            ),
            CustomCommandError::DirectoryError { path, source } => concat4(
                "Failed to access directory '",
                path.as_str(),
                "': ",
                source.as_str(),
            ),
            CustomCommandError::MarkdownParseError { path, message } => concat4(
                "Failed to parse markdown file '",
                path.as_str(),
                "': ",
                message.as_str(),
            ),
            CustomCommandError::FrontmatterParseError { path, source } => concat4(
                "Failed to parse frontmatter in '",
                path.as_str(),
                "': ",
                source.as_str(),
            ),
            CustomCommandError::ExecutionError { command, message } => concat4(
                "Failed to execute custom command '",
                command.as_str(),
                "': ",
                message.as_str(),
            ),
            CustomCommandError::ArgumentError { command, message } => concat4(
                "Invalid arguments for command '",
                command.as_str(),
                "': ",
                message.as_str(),
            ),
            CustomCommandError::FileReferenceError { file, source } => concat4(
                "Failed to resolve file reference '",
                file.as_str(),
                "': ",
                source.as_str(),
            ),
            CustomCommandError::BashExecutionError { message } => concat2(
                "Failed to execute bash command: ",
                message.as_str(),
            ),
            CustomCommandError::SecurityError { command, message } => concat4(
                "Security violation in command '",
                command.as_str(),
                "': ",
                message.as_str(),
            ),
            CustomCommandError::DependencyError { command, dependency } => concat5(
                "Dependency error for command '",
                command.as_str(),
                "': missing '",
                dependency.as_str(),
                "'",
            ),
            CustomCommandError::ConfigError { message } => concat2(
                "Configuration error: ",
                message.as_str(),
            ),
            CustomCommandError::TimeoutError { command, timeout_ms } => {
                let digits = string_of(&decimal_chars(*timeout_ms));
                concat5("Command '", command.as_str(), "' timed out after ", digits.as_str(), "ms")
            },
            CustomCommandError::IoError(source) => concat2("I/O error: ", source.as_str()),
            CustomCommandError::JsonError(source) => concat2(
                "JSON parse error: ",
                source.as_str(),
            ),
            CustomCommandError::YamlError(source) => concat2(
                "YAML parse error: ",
                source.as_str(),
            ),
            CustomCommandError::Other(text) => concat2("Unknown error: ", text.as_str()),
        }
    }

    /// The text shown to the person who made the call.
    pub fn user_message(&self) -> (out: String)
        ensures
            out@ == self.user_text(),
    {
        match self {
            CustomCommandError::CommandNotFound(name) => concat3(
                "Command '",
                name.as_str(),
                "' not found. Run '/help' to see available commands.",
            ),
            CustomCommandError::ArgumentError { command, message } => concat4(
                "Invalid arguments for command '",
                command.as_str(),
                "': ",
                message.as_str(),
            ),
            CustomCommandError::FileReferenceError { file, .. } => concat3(
                "Failed to read file '",
                file.as_str(),
                "'. Please check the file path.",
            ),
            CustomCommandError::SecurityError { command, message } => concat4(
                "Cannot execute command '",
                command.as_str(),
                "' for security reasons: ",
                message.as_str(),
            ),
            _ => self.message(),
        }
    }
}

} // verus!
