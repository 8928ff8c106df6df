//! Making commands of the documents found under the command directories.

use vstd::prelude::*;
use crate::command::{CommandScope, CommandView, CustomCommand};
use crate::error::{CustomCommandError, ErrorView};
use crate::ordering::{sort_texts, sorted_texts, strictly_sorted};
use crate::outside::{lowercase, to_lowercase};
use crate::parser::{names_markdown_file, MarkdownParser, ParsedMarkdown, ParsedView};
use crate::paths::{
    file_stem, file_stem_chars, first_directory, first_directory_chars, join_path_chars,
    joined_path,
};
use crate::processor::{findings, PromptProcessor};
use crate::registry::{command_views, CommandSet};
use crate::text::{
    chars_of, concat2, concat3, contains, contains_chars, is_blank, is_blank_chars, is_space,
    is_space_char, joined, push_line, string_of,
};

verus! {

/// What is wrong with a command.
pub enum Defect {
    /// The command is not well formed; the text says how.
    Malformed(Seq<char>),
    /// The template holds dangerous constructs; the text lists them.
    Dangerous(Seq<char>),
}

/// The name holds white space or a `/`.
pub open spec fn has_invalid_character(name: Seq<char>) -> bool {
    exists|i: int| 0 <= i < name.len() && (is_space(#[trigger] name[i]) || name[i] == '/')
}

/// The permission entry `lowered`, which is taken to be in lower case,
/// names the shell.
pub open spec fn names_shell(lowered: Seq<char>) -> bool {
    contains(lowered, "bash"@)
}

/// One of the permission entries names the shell, in whatever case.
pub open spec fn grants_shell(tools: Seq<Seq<char>>) -> bool {
    exists|k: int| 0 <= k < tools.len() && names_shell(lowercase(#[trigger] tools[k]))
}

/// Whether the template of the command is searched for dangerous constructs
/// when the command is loaded: where its metadata grants the shell.
pub open spec fn is_checked_on_load(command: CommandView) -> bool {
    command.frontmatter matches Some(metadata) && metadata.allowed_tools matches Some(tools)
        && grants_shell(tools)
}

/// The first thing that is wrong with a command, if anything is, given
/// whether its metadata grants the shell and the findings in its template:
/// an empty name, a name with white space or `/`, a blank template, or,
/// where the shell is granted, a finding.
pub open spec fn defect_given(
    command: CommandView,
    shell_granted: bool,
    risks: Seq<Seq<char>>,
) -> Option<Defect> {
    if command.name.len() == 0 {
        Some(Defect::Malformed("Command name cannot be empty"@))
    } else if has_invalid_character(command.name) {
        Some(Defect::Malformed("Invalid characters in command name: '"@ + command.name + "'"@))
    } else if is_blank(command.content) {
        Some(Defect::Malformed("Command '"@ + command.name + "' has empty content"@))
    } else if shell_granted && risks.len() > 0 {
        Some(Defect::Dangerous("Security risks detected: "@ + joined(risks, ", "@)))
    } else {
        None
    }
}

/// The first thing that is wrong with a command, if anything is.
pub open spec fn command_defect(command: CommandView) -> Option<Defect> {
    defect_given(command, is_checked_on_load(command), findings(command.content, Seq::empty()))
}

/// The failure that reports a defect.
pub open spec fn defect_error(defect: Defect) -> ErrorView {
    match defect {
        Defect::Malformed(text) => ErrorView::ConfigError { message: text },
        Defect::Dangerous(text) => ErrorView::SecurityError {
            command: "content_validation"@,
            message: text,
        },
    }
}

/// The command that a document gives: named by the stem of its file and
/// filed under the directory below `base` in which the file lies.
pub open spec fn command_from(
    path: Seq<char>,
    base: Seq<char>,
    scope: CommandScope,
    parsed: ParsedView,
) -> CommandView {
    CommandView {
        name: file_stem(path).unwrap_or(Seq::empty()),
        content: parsed.content,
        frontmatter: parsed.frontmatter,
        scope,
        file_path: path,
        namespace: first_directory(path, base),
    }
}

/// The command that a file gives, where it gives one: its path names a file,
/// its document could be split, and nothing is wrong with the command.
pub open spec fn loaded(
    path: Seq<char>,
    base: Seq<char>,
    scope: CommandScope,
    parsed: Option<ParsedView>,
) -> Option<CommandView> {
    if file_stem(path) is Some && parsed is Some && command_defect(
        command_from(path, base, scope, parsed->0),
    ) is None {
        Some(command_from(path, base, scope, parsed->0))
    } else {
        None
    }
}

/// A file found under a command directory, with what came of reading and
/// splitting it.
#[derive(Debug)]
pub struct DiscoveredFile {
    /// The path of the file.
    pub path: String,
    /// The split document, or why there is none.
    pub parsed: Result<ParsedMarkdown, CustomCommandError>,
}

/// The split document of a file, where there is one.
pub open spec fn parsed_view(parsed: Result<ParsedMarkdown, CustomCommandError>) -> Option<
    ParsedView,
> {
    match parsed {
        Ok(p) => Some(p@),
        Err(_) => None,
    }
}

/// The commands that the first `n` of `files` give: each markdown file that
/// gives a command puts it under its name, in place of an earlier one.
pub open spec fn collected(
    files: Seq<DiscoveredFile>,
    base: Seq<char>,
    scope: CommandScope,
    n: int,
) -> Map<Seq<char>, CommandView>
    decreases n,
{
    if n <= 0 || n > files.len() {
        Map::empty()
    } else {
        let rest = collected(files, base, scope, n - 1);
        let file = files[n - 1];
        match loaded(file.path@, base, scope, parsed_view(file.parsed)) {
            Some(command) => if names_markdown_file(file.path@) {
                rest.insert(command.name, command)
            } else {
                rest
            },
            None => rest,
        }
    }
}

/// The commands of one directory taken into what has been gathered: a
/// command goes in unless one of its name is there already, and a project
/// command goes in regardless.
pub open spec fn merge_root(
    gathered: Map<Seq<char>, CommandView>,
    commands: Seq<CommandView>,
    n: int,
) -> Map<Seq<char>, CommandView>
    decreases n,
{
    if n <= 0 || n > commands.len() {
        gathered
    } else {
        let rest = merge_root(gathered, commands, n - 1);
        let c = commands[n - 1];
        if !rest.contains_key(c.name) || c.scope == CommandScope::Project {
            rest.insert(c.name, c)
        } else {
            rest
        }
    }
}

/// The commands of the first `n` directories merged, the first directory
/// first.
pub open spec fn merged(roots: Seq<Seq<CommandView>>, n: int) -> Map<Seq<char>, CommandView>
    decreases n,
{
    if n <= 0 || n > roots.len() {
        Map::empty()
    } else {
        merge_root(merged(roots, n - 1), roots[n - 1], roots[n - 1].len() as int)
    }
}

/// The commands of each directory, as views.
pub open spec fn root_views(roots: Seq<CommandSet>) -> Seq<Seq<CommandView>> {
    Seq::new(roots.len(), |i: int| roots[i].entries())
}

/// The directory of the project's commands below the working directory.
pub open spec fn project_directory(current_dir: Seq<char>) -> Seq<char> {
    joined_path(joined_path(current_dir, ".amazonq"@), "commands"@)
}

/// The directory of the user's commands below the home directory.
pub open spec fn global_directory(home: Seq<char>) -> Seq<char> {
    joined_path(joined_path(joined_path(home, ".aws"@), "amazonq"@), "commands"@)
}

/// The directories as plain texts, each with its scope.
pub open spec fn directory_views(directories: Seq<(String, CommandScope)>) -> Seq<
    (Seq<char>, CommandScope),
> {
    Seq::new(directories.len(), |i: int| (directories[i].0@, directories[i].1))
}

/// The directories in which commands are looked for, given which of them
/// are present: that of the project below the working directory, then that
/// of the user below the home directory, each only where it is present.
pub open spec fn directories_given(
    current_dir: Seq<char>,
    home: Option<Seq<char>>,
    project_present: bool,
    global_present: bool,
) -> Seq<(Seq<char>, CommandScope)> {
    (if project_present {
        seq![(project_directory(current_dir), CommandScope::Project)]
    } else {
        Seq::empty()
    }) + (match home {
        Some(h) => if global_present {
            seq![(global_directory(h), CommandScope::Global)]
        } else {
            Seq::empty()
        },
        None => Seq::empty(),
    })
}

/// The file in `directory` that holds the command called `name`.
pub open spec fn command_file(directory: Seq<char>, name: Seq<char>) -> Seq<char> {
    joined_path(directory, name + ".md"@)
}

/// `k` is the first position below `n` at which `present` holds.
pub open spec fn is_first_present(present: Seq<bool>, n: int, k: int) -> bool {
    0 <= k < n && k < present.len() && present[k] && forall|j: int|
        0 <= j < k ==> !#[trigger] present[j]
}

/// The names of the commands that the markdown files among `paths` hold,
/// in the order of the paths.
pub open spec fn markdown_stems(paths: Seq<Seq<char>>) -> Seq<Seq<char>>
    decreases paths.len(),
{
    if paths.len() == 0 {
        Seq::empty()
    } else {
        let rest = markdown_stems(paths.drop_last());
        let path = paths.last();
        if names_markdown_file(path) && file_stem(path) is Some {
            rest.push(file_stem(path)->0)
        } else {
            rest
        }
    }
}

/// The maker of commands.
#[derive(Debug)]
pub struct CustomCommandLoader {
    parser: MarkdownParser,
}

impl CustomCommandLoader {
    /// A maker of commands.
    pub fn new() -> (loader: Self) {
        CustomCommandLoader { parser: MarkdownParser::new() }
    }

    /// The splitter of documents that the loader works with.
    pub fn parser(&self) -> (parser: &MarkdownParser) {
        &self.parser
    }

    /// The name of the command that the file `file_path` holds: the stem of
    /// the file name. A path that names no file is refused.
    pub fn extract_command_name(&self, file_path: &str) -> (out: Result<
        String,
        CustomCommandError,
    >)
        ensures
            match file_stem(file_path@) {
                Some(stem) => out matches Ok(name) && name@ == stem,
                None => out matches Err(e) && e@ == (ErrorView::MarkdownParseError {
                    path: file_path@,
                    message: "Invalid file name for command"@,
                }),
            },
    {
        match file_stem_chars(&chars_of(file_path)) {
            Some(stem) => {
                proof {
                    assert(stem.deep_view() =~= stem@);
                }
                Ok(string_of(&stem))
            },
            None => Err(
                CustomCommandError::markdown_parse_error(
                    file_path.to_string(),
                    "Invalid file name for command".to_string(),
                ),
            ),
        }
    }

    /// The namespace of the command that the file `file_path` holds: the
    /// first directory below `base_dir` on the way to the file. A file that
    /// lies in `base_dir` itself, or outside it, has none.
    pub fn extract_namespace(&self, file_path: &str, base_dir: &str) -> (out: Option<String>)
        ensures
            out.deep_view() == first_directory(file_path@, base_dir@),
    {
        match first_directory_chars(&chars_of(file_path), &chars_of(base_dir)) {
            Some(dir) => {
                proof {
                    assert(dir.deep_view() =~= dir@);
                }
                Some(string_of(&dir))
            },
            None => None,
        }
    }

    /// Whether the name holds white space or a `/`.
    fn name_has_invalid_character(name: &Vec<char>) -> (r: bool)
        ensures
            r == has_invalid_character(name@),
    {
        let mut i: usize = 0;
        while i < name.len()
            invariant
                i <= name.len(),
                forall|j: int|
                    0 <= j < i ==> !(is_space(#[trigger] name@[j]) || name@[j] == '/'),
            decreases name.len() - i,
        {
            if is_space_char(name[i]) || name[i] == '/' {
                return true;
            }
            i += 1;
        }
        false
    }

    /// Whether the permission entry `lowered`, a text in lower case, names
    /// the shell.
    pub fn entry_names_shell(lowered: &str) -> (r: bool)
        ensures
            r == names_shell(lowered@),
    {
        contains_chars(&chars_of(lowered), &chars_of("bash"))
    }

    /// Whether one of the permission entries names the shell.
    fn tools_grant_shell(tools: &Vec<String>) -> (r: bool)
        ensures
            r == grants_shell(tools.deep_view()),
    {
        let mut k: usize = 0;
        while k < tools.len()
            invariant
                k <= tools.len(),
                forall|j: int|
                    0 <= j < k ==> !names_shell(lowercase(#[trigger] tools.deep_view()[j])),
            decreases tools.len() - k,
        {
            let lower = to_lowercase(tools[k].as_str());
            if Self::entry_names_shell(lower.as_str()) {
                proof {
                    assert(names_shell(lowercase(tools.deep_view()[k as int])));
                }
                return true;
            }
            k += 1;
        }
        false
    }

    /// Checks a command, given whether its metadata grants the shell and the
    /// findings in its template: see [`defect_given`].
    pub fn validate_given(
        &self,
        command: &CustomCommand,
        shell_granted: bool,
        risks: &Vec<String>,
    ) -> (out: Result<(), CustomCommandError>)
        ensures
            match defect_given(command@, shell_granted, risks.deep_view()) {
                None => out is Ok,
                Some(defect) => out matches Err(e) && e@ == defect_error(defect),
            },
    {
        let name = chars_of(command.name.as_str());
        if name.len() == 0 {
            return Err(
                CustomCommandError::config_error("Command name cannot be empty".to_string()),
            );
        }
        if Self::name_has_invalid_character(&name) {
            return Err(
                CustomCommandError::config_error(
                    concat3("Invalid characters in command name: '", command.name.as_str(), "'"),
                ),
            );
        }
        if is_blank_chars(&chars_of(command.content.as_str())) {
            return Err(
                CustomCommandError::config_error(
                    concat3("Command '", command.name.as_str(), "' has empty content"),
                ),
            );
        }
        if shell_granted && risks.len() > 0 {
            return Err(PromptProcessor::risk_error("content_validation", risks));
        }
        Ok(())
    }

    /// Checks that a command is well formed, and, where its metadata grants
    /// the shell, that its template holds no dangerous construct, whatever
    /// the policy in force.
    pub fn validate_command(&self, command: &CustomCommand) -> (out: Result<
        (),
        CustomCommandError,
    >)
        ensures
            match command_defect(command@) {
                None => out is Ok,
                Some(defect) => out matches Err(e) && e@ == defect_error(defect),
            },
    {
        let shell_granted = match &command.frontmatter {
            Some(metadata) => match &metadata.allowed_tools {
                Some(tools) => Self::tools_grant_shell(tools),
                None => false,
            },
            None => false,
        };
        let risks = if shell_granted {
            PromptProcessor::check_security_risks(command.content.as_str())
        } else {
            Vec::new()
        };
        self.validate_given(command, shell_granted, &risks)
    }

    /// Makes the command of the file `file_path` under the directory
    /// `base_dir` from its split document. A path that names no file is
    /// refused first; then a document that could not be read or split gives
    /// its own failure; then the command is checked.
    pub fn load_command_from_file(
        &self,
        file_path: &str,
        base_dir: &str,
        scope: CommandScope,
        parsed: Result<ParsedMarkdown, CustomCommandError>,
    ) -> (out: Result<Option<CustomCommand>, CustomCommandError>)
        ensures
            match file_stem(file_path@) {
                None => out matches Err(e) && e@ == (ErrorView::MarkdownParseError {
                    path: file_path@,
                    message: "Invalid file name for command"@,
                }),
                Some(stem) => match parsed {
                    Err(failure) => out matches Err(e) && e == failure,
                    Ok(p) => match command_defect(
                        command_from(file_path@, base_dir@, scope, p@),
                    ) {
                        None => out matches Ok(Some(command)) && command@ == command_from(
                            file_path@,
                            base_dir@,
                            scope,
                            p@,
                        ),
                        Some(defect) => out matches Err(e) && e@ == defect_error(defect),
                    },
                },
            },
            match loaded(file_path@, base_dir@, scope, parsed_view(parsed)) {
                Some(view) => out matches Ok(Some(command)) && command@ == view,
                None => out is Err,
            },
    {
        let name = self.extract_command_name(file_path)?;
        let document = parsed?;
        let namespace = self.extract_namespace(file_path, base_dir);
        let command = CustomCommand {
            name,
            content: document.content,
            frontmatter: document.frontmatter,
            scope,
            file_path: file_path.to_string(),
            namespace,
        };
        self.validate_command(&command)?;
        Ok(Some(command))
    }

    /// Gathers the commands of the files found under the directory
    /// `dir_path`: see [`collected`]. A file that gives no command is passed
    /// over; of two files that give the same name the later counts.
    pub fn load_commands_from_directory(
        &self,
        dir_path: &str,
        scope: CommandScope,
        files: Vec<DiscoveredFile>,
    ) -> (set: CommandSet)
        ensures
            set@ == collected(files@, dir_path@, scope, files@.len() as int),
    {
        let mut set = CommandSet::new();
        let ghost all = files@;
        for file in iter: files
            invariant
                iter.seq() == all,
                set@ == collected(all, dir_path@, scope, iter.index() as int),
        {
            if MarkdownParser::is_markdown_file(file.path.as_str()) {
                match self.load_command_from_file(file.path.as_str(), dir_path, scope, file.parsed) {
                    Ok(Some(command)) => {
                        set.insert(command);
                    },
                    _ => {},
                }
            }
        }
        set
    }

    /// Merges the commands of the directories, the first directory first:
    /// see [`merged`]. A project command takes the place of a global one of
    /// the same name, in whatever order the two are met.
    pub fn load_all_commands(&self, roots: Vec<CommandSet>) -> (set: CommandSet)
        ensures
            set@ == merged(root_views(roots@), roots@.len() as int),
    {
        let mut set = CommandSet::new();
        let ghost all = roots@;
        for root in outer: roots
            invariant
                outer.seq() == all,
                set@ == merged(root_views(all), outer.index() as int),
        {
            let ghost gathered = set@;
            let ghost views = root.entries();
            proof {
                assert(root_views(all)[outer.index() as int] == views);
            }
            let commands = root.into_commands();
            let ghost members = commands@;
            for command in inner: commands
                invariant
                    inner.seq() == members,
                    views == command_views(members),
                    set@ == merge_root(gathered, views, inner.index() as int),
            {
                proof {
                    assert(views[inner.index() as int] == command@);
                }
                let known = set.contains_key(command.name.as_str());
                if !known || command.scope == CommandScope::Project {
                    set.insert(command);
                }
            }
        }
        set
    }

    /// The directories in which commands are looked for: see
    /// [`directories_given`].
    pub fn get_command_directories(
        &self,
        current_dir: &str,
        home: Option<&str>,
        project_present: bool,
        global_present: bool,
    ) -> (directories: Vec<(String, CommandScope)>)
        ensures
            directory_views(directories@) == directories_given(
                current_dir@,
                match home {
                    Some(h) => Some(h@),
                    None => None,
                },
                project_present,
                global_present,
            ),
    {
        let mut directories: Vec<(String, CommandScope)> = Vec::new();
        if project_present {
            directories.push((Self::project_directory_of(current_dir), CommandScope::Project));
        }
        if let Some(home_dir) = home {
            if global_present {
                directories.push((Self::global_directory_of(home_dir), CommandScope::Global));
            }
        }
        proof {
            assert(directory_views(directories@) =~= directories_given(
                current_dir@,
                match home {
                    Some(h) => Some(h@),
                    None => None,
                },
                project_present,
                global_present,
            ));
        }
        directories
    }

    /// The directory of the project's commands below `current_dir`.
    pub fn project_directory_of(current_dir: &str) -> (directory: String)
        ensures
            directory@ == project_directory(current_dir@),
    {
        let first = join_path_chars(&chars_of(current_dir), &chars_of(".amazonq"));
        string_of(&join_path_chars(&first, &chars_of("commands")))
    }

    /// The directory of the user's commands below `home`.
    pub fn global_directory_of(home: &str) -> (directory: String)
        ensures
            directory@ == global_directory(home@),
    {
        let first = join_path_chars(&chars_of(home), &chars_of(".aws"));
        let second = join_path_chars(&first, &chars_of("amazonq"));
        string_of(&join_path_chars(&second, &chars_of("commands")))
    }

    /// The file in `directory` that holds the command called `command_name`.
    pub fn command_file_of(directory: &str, command_name: &str) -> (path: String)
        ensures
            path@ == command_file(directory@, command_name@),
    {
        let file = concat2(command_name, ".md");
        string_of(&join_path_chars(&chars_of(directory), &chars_of(file.as_str())))
    }

    /// Where the command called `command_name` is to be read anew: the first
    /// of `directories` whose file for the command is present, with that
    /// file. `present` says of each directory whether the file is there; a
    /// directory that it says nothing of counts as without the file.
    pub fn reload_command(
        &self,
        command_name: &str,
        directories: &Vec<(String, CommandScope)>,
        present: &Vec<bool>,
    ) -> (target: Option<(String, String, CommandScope)>)
        ensures
            match target {
                Some((path, directory, scope)) => exists|k: int|
                    #![trigger directories@[k]]
                    is_first_present(present@, directories@.len() as int, k) && directory@
                        == directories@[k].0@ && scope == directories@[k].1 && path@
                        == command_file(directories@[k].0@, command_name@),
                None => forall|k: int|
                    0 <= k < directories@.len() && k < present@.len() ==> !#[trigger] present@[k],
            },
    {
        let mut k: usize = 0;
        while k < directories.len() && k < present.len()
            invariant
                k <= directories.len(),
                k <= present.len(),
                forall|j: int| 0 <= j < k ==> !#[trigger] present@[j],
            decreases directories.len() - k,
        {
            if present[k] {
                let directory = directories[k].0.clone();
                let path = Self::command_file_of(directory.as_str(), command_name);
                proof {
                    assert(is_first_present(present@, directories@.len() as int, k as int));
                }
                return Some((path, directory, directories[k].1));
            }
            k += 1;
        }
        None
    }

    /// The names of the commands that the markdown files among `paths`
    /// hold, in the order of a dictionary and each once. No file is read.
    pub fn list_available_commands(&self, paths: &Vec<String>) -> (names: Vec<String>)
        ensures
            names.deep_view() == sorted_texts(markdown_stems(paths.deep_view())),
            strictly_sorted(names.deep_view()),
            names.deep_view().no_duplicates(),
    {
        let mut stems: Vec<String> = Vec::new();
        proof {
            assert(stems.deep_view() =~= Seq::empty());
        }
        let mut i: usize = 0;
        while i < paths.len()
            invariant
                i <= paths.len(),
                stems.deep_view() == markdown_stems(paths.deep_view().take(i as int)),
            decreases paths.len() - i,
        {
            proof {
                let seen = paths.deep_view().take(i + 1);
                assert(seen.drop_last() =~= paths.deep_view().take(i as int));
                assert(seen.last() == paths[i as int]@);
            }
            if MarkdownParser::is_markdown_file(paths[i].as_str()) {
                match self.extract_command_name(paths[i].as_str()) {
                    Ok(name) => {
                        push_line(&mut stems, name);
                    },
                    Err(_) => {},
                }
            }
            i += 1;
        }
        proof {
            assert(paths.deep_view().take(paths.len() as int) =~= paths.deep_view());
        }
        sort_texts(&stems)
    }
}

impl Default for CustomCommandLoader {
    fn default() -> (loader: Self) {
        CustomCommandLoader::new()
    }
}

} // verus!
