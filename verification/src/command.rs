//! What a command is: its definition, its metadata and where it was found.

use vstd::prelude::*;
use crate::paths::{find_char, first_index_from};
use crate::text::{
    chars_of, copy_opt_string, copy_opt_strings, slice_chars, starts_with, starts_with_chars,
    string_of,
};

verus! {

/// Where a command was found. A project command hides a global one of the
/// same name.
#[derive(Debug, Clone, Copy, PartialEq, Eq, Structural)]
pub enum CommandScope {
    /// In the project directory.
    Project,
    /// In the directory of the user.
    Global,
}

/// The metadata block of a command document.
#[derive(Debug)]
pub struct CommandFrontmatter {
    /// The invocations that the command may make.
    pub allowed_tools: Option<Vec<String>>,
    /// What arguments the command expects, for display.
    pub argument_hint: Option<String>,
    /// What the command does.
    pub description: Option<String>,
    /// The model that the command asks for.
    pub model: Option<String>,
    /// The development phase that the command belongs to.
    pub phase: Option<String>,
    /// The commands that this one builds on.
    pub dependencies: Option<Vec<String>>,
    /// The form of the answer that the command asks for.
    pub output_format: Option<String>,
}

/// A metadata block as plain texts.
pub struct FrontmatterView {
    pub allowed_tools: Option<Seq<Seq<char>>>,
    pub argument_hint: Option<Seq<char>>,
    pub description: Option<Seq<char>>,
    pub model: Option<Seq<char>>,
    pub phase: Option<Seq<char>>,
    pub dependencies: Option<Seq<Seq<char>>>,
    pub output_format: Option<Seq<char>>,
}

impl View for CommandFrontmatter {
    type V = FrontmatterView;

    open spec fn view(&self) -> FrontmatterView {
        FrontmatterView {
            allowed_tools: self.allowed_tools.deep_view(),
            argument_hint: self.argument_hint.deep_view(),
            description: self.description.deep_view(),
            model: self.model.deep_view(),
            phase: self.phase.deep_view(),
            dependencies: self.dependencies.deep_view(),
            output_format: self.output_format.deep_view(),
        }
    }
}

impl Clone for CommandFrontmatter {
    fn clone(&self) -> (out: Self)
        ensures
            out@ == self@,
    {
        CommandFrontmatter {
            allowed_tools: copy_opt_strings(&self.allowed_tools),
            argument_hint: copy_opt_string(&self.argument_hint),
            description: copy_opt_string(&self.description),
            model: copy_opt_string(&self.model),
            phase: copy_opt_string(&self.phase),
            dependencies: copy_opt_strings(&self.dependencies),
            output_format: copy_opt_string(&self.output_format),
        }
    }
}

/// The view of metadata that may be absent.
pub open spec fn frontmatter_view(f: Option<CommandFrontmatter>) -> Option<FrontmatterView> {
    match f {
        Some(f) => Some(f@),
        None => None,
    }
}

/// A command: a named template with its metadata and origin.
#[derive(Debug)]
pub struct CustomCommand {
    /// The name by which the command is called: the stem of its file name.
    pub name: String,
    /// The template, without the metadata block.
    pub content: String,
    /// The metadata block, where the document has one.
    pub frontmatter: Option<CommandFrontmatter>,
    /// Where the command was found.
    pub scope: CommandScope,
    /// The file that holds the command.
    pub file_path: String,
    /// The directory below the root under which the file lies.
    pub namespace: Option<String>,
}

/// A command as plain texts.
pub struct CommandView {
    pub name: Seq<char>,
    pub content: Seq<char>,
    pub frontmatter: Option<FrontmatterView>,
    pub scope: CommandScope,
    pub file_path: Seq<char>,
    pub namespace: Option<Seq<char>>,
}

impl View for CustomCommand {
    type V = CommandView;

    open spec fn view(&self) -> CommandView {
        CommandView {
            name: self.name@,
            content: self.content@,
            frontmatter: frontmatter_view(self.frontmatter),
            scope: self.scope,
            file_path: self.file_path@,
            namespace: self.namespace.deep_view(),
        }
    }
}

impl Clone for CustomCommand {
    fn clone(&self) -> (out: Self)
        ensures
            out@ == self@,
    {
        let frontmatter = match &self.frontmatter {
            Some(f) => Some(f.clone()),
            None => None,
        };
        CustomCommand {
            name: self.name.clone(),
            content: self.content.clone(),
            frontmatter,
            scope: self.scope,
            file_path: self.file_path.clone(),
            namespace: copy_opt_string(&self.namespace),
        }
    }
}

/// The group that a command belongs to by the prefix of its name.
#[derive(Debug, Clone, PartialEq)]
pub enum CommandNamespace {
    /// Names that begin with `kairo-`.
    Kairo,
    /// Names that begin with `tdd-`.
    Tdd,
    /// Names that begin with `rev-`.
    Rev,
    /// Another prefix before the first hyphen.
    Custom(String),
    /// The name has no hyphen.
    Unprefixed,
}

/// A namespace as plain text.
pub enum NamespaceView {
    Kairo,
    Tdd,
    Rev,
    Custom(Seq<char>),
    Unprefixed,
}

impl View for CommandNamespace {
    type V = NamespaceView;

    open spec fn view(&self) -> NamespaceView {
        match self {
            CommandNamespace::Kairo => NamespaceView::Kairo,
            CommandNamespace::Tdd => NamespaceView::Tdd,
            CommandNamespace::Rev => NamespaceView::Rev,
            CommandNamespace::Custom(prefix) => NamespaceView::Custom(prefix@),
            CommandNamespace::Unprefixed => NamespaceView::Unprefixed,
        }
    }
}

/// The namespace that a command name falls into.
pub open spec fn namespace_of(name: Seq<char>) -> NamespaceView {
    let hyphen = first_index_from(name, '-', 0);
    if starts_with(name, "kairo-"@) {
        NamespaceView::Kairo
    } else if starts_with(name, "tdd-"@) {
        NamespaceView::Tdd
    } else if starts_with(name, "rev-"@) {
        NamespaceView::Rev
    } else if hyphen < name.len() {
        NamespaceView::Custom(name.subrange(0, hyphen))
    } else {
        NamespaceView::Unprefixed
    }
}

impl CommandNamespace {
    /// The namespace that `name` falls into: one of the three known
    /// prefixes, else the text before the first hyphen, else none.
    pub fn from_command_name(name: &str) -> (ns: Self)
        ensures
            ns@ == namespace_of(name@),
    {
        let chars = chars_of(name);
        if starts_with_chars(&chars, &chars_of("kairo-")) {
            CommandNamespace::Kairo
        } else if starts_with_chars(&chars, &chars_of("tdd-")) {
            CommandNamespace::Tdd
        } else if starts_with_chars(&chars, &chars_of("rev-")) {
            CommandNamespace::Rev
        } else {
            let hyphen = find_char(&chars, '-', 0);
            if hyphen < chars.len() {
                CommandNamespace::Custom(string_of(&slice_chars(&chars, 0, hyphen)))
            } else {
                CommandNamespace::Unprefixed
            }
        }
    }

    /// The name under which the namespace is shown.
    pub open spec fn display_text(self) -> Seq<char> {
        match self {
            CommandNamespace::Kairo => "kairo"@,
            CommandNamespace::Tdd => "tdd"@,
            CommandNamespace::Rev => "rev"@,
            CommandNamespace::Custom(prefix) => prefix@,
            CommandNamespace::Unprefixed => ""@,
        }
    }

    /// The name under which the namespace is shown.
    pub fn display_name(&self) -> (out: &str)
        ensures
            out@ == self.display_text(),
    {
        match self {
            CommandNamespace::Kairo => "kairo",
            CommandNamespace::Tdd => "tdd",
            CommandNamespace::Rev => "rev",
            CommandNamespace::Custom(prefix) => prefix.as_str(),
            CommandNamespace::Unprefixed => "",
        }
    }
}

/// A command together with the namespace of its name.
#[derive(Debug)]
pub struct NamespacedCommand {
    pub namespace: CommandNamespace,
    pub base_name: String,
    pub command: CustomCommand,
}

} // verus!
