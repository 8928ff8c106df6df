//! Work on the text of a template: placeholders, references to files, shell
//! snippets and the search for dangerous constructs.

use vstd::prelude::*;
use crate::error::{CustomCommandError, ErrorView};
use crate::outside::{
    all_captures, is_match, lowercase, regex_all_captures, regex_is_match, shell_join,
    shell_joined, to_lowercase,
};
use crate::security::{
    ConfigView, OutcomeView, SecurityValidationConfig, SecurityValidationLevel,
    SecurityValidationResult,
};
use crate::text::{
    chars_of, concat2, contains, contains_chars, decimal, decimal_chars, ends_with,
    ends_with_chars, join_strings, joined, lemma_push_text, push_chars, push_str, replace_chars,
    replaced, same_chars, slice_chars, starts_with, starts_with_chars, string_of,
};

verus! {

/// The operations on template text.
pub struct PromptProcessor;

/// The regular expression that finds a reference to a file: an `@` at the
/// start, after white space, after `>` or after `'`, then the path.
pub open spec fn file_reference_pattern() -> Seq<char> {
    r"(?:^|[\s\n\r>'])\s*@([a-zA-Z0-9._/-]+)"@
}

/// The regular expression that finds a shell snippet: `!` and the command
/// between backticks.
pub open spec fn bash_command_pattern() -> Seq<char> {
    r"!`([^`]+)`"@
}

/// The texts that capture group `group` took in each of `matches`, in order;
/// a match in which the group took no part gives none.
pub open spec fn group_texts(matches: Seq<Seq<Option<Seq<char>>>>, group: int) -> Seq<Seq<char>>
    decreases matches.len(),
{
    if matches.len() == 0 {
        Seq::empty()
    } else {
        let rest = group_texts(matches.drop_last(), group);
        let m = matches.last();
        if 0 <= group < m.len() && m[group] is Some {
            rest.push(m[group]->0)
        } else {
            rest
        }
    }
}

/// What capture group 1 of `pattern` took in each match in `text`.
pub open spec fn captured(pattern: Seq<char>, text: Seq<char>) -> Seq<Seq<char>> {
    match regex_all_captures(pattern, text) {
        Some(matches) => group_texts(matches, 1),
        None => Seq::empty(),
    }
}

/// The paths of the files that `text` refers to, in order.
pub open spec fn file_references(text: Seq<char>) -> Seq<Seq<char>> {
    captured(file_reference_pattern(), text)
}

/// The shell snippets that `text` holds, in order.
pub open spec fn bash_commands(text: Seq<char>) -> Seq<Seq<char>> {
    captured(bash_command_pattern(), text)
}

/// The regular expressions for constructs that a template should not hold.
pub open spec fn dangerous_patterns() -> Seq<Seq<char>> {
    seq![
        r"rm\s+-rf"@,
        r"sudo\s+rm"@,
        r">\s*/dev/null"@,
        r"curl.*\|\s*bash"@,
        r"wget.*\|\s*bash"@,
        r"eval\s*\$"@,
        r"exec\s+"@,
        r"nc\s+-l"@,
        r"python.*-c"@,
        r"perl.*-e"@,
    ]
}

/// The regular expressions for constructs that a template should not hold.
fn dangerous_pattern_list() -> (list: Vec<&'static str>)
    ensures
        list.deep_view() == dangerous_patterns(),
{
    let mut list: Vec<&'static str> = Vec::new();
    list.push(r"rm\s+-rf");
    list.push(r"sudo\s+rm");
    list.push(r">\s*/dev/null");
    list.push(r"curl.*\|\s*bash");
    list.push(r"wget.*\|\s*bash");
    list.push(r"eval\s*\$");
    list.push(r"exec\s+");
    list.push(r"nc\s+-l");
    list.push(r"python.*-c");
    list.push(r"perl.*-e");
    proof {
        assert(list.deep_view() =~= dangerous_patterns());
    }
    list
}

/// An exemption covers a dangerous pattern where the pattern holds the
/// exemption with each blank written as `\s+`, or the exemption holds the
/// pattern with each `\s+` written as a blank.
pub open spec fn exempts_pattern(exemption: Seq<char>, pattern: Seq<char>) -> bool {
    contains(pattern, replaced(exemption, " "@, r"\s+"@)) || contains(
        exemption,
        replaced(pattern, r"\s+"@, " "@),
    )
}

/// One of the exemptions covers the pattern.
pub open spec fn pattern_exempted(pattern: Seq<char>, exemptions: Seq<Seq<char>>) -> bool {
    exists|k: int| 0 <= k < exemptions.len() && exempts_pattern(#[trigger] exemptions[k], pattern)
}

/// The finding that names a dangerous pattern.
pub open spec fn pattern_finding(pattern: Seq<char>) -> Seq<char> {
    "Potentially dangerous pattern detected: "@ + pattern
}

/// Whether each of the dangerous patterns matches in `text`, in the order
/// of the patterns.
pub open spec fn pattern_matches(text: Seq<char>) -> Seq<Option<bool>> {
    Seq::new(dangerous_patterns().len(), |i: int| regex_is_match(dangerous_patterns()[i], text))
}

/// The findings for the first `n` dangerous patterns, given of each whether
/// it matched: one for each pattern that is not exempted and matched. A
/// pattern of which `matched` says nothing counts as not matched.
pub open spec fn pattern_findings(
    matched: Seq<Option<bool>>,
    exemptions: Seq<Seq<char>>,
    n: int,
) -> Seq<Seq<char>>
    decreases n,
{
    if n <= 0 || n > dangerous_patterns().len() {
        Seq::empty()
    } else {
        let rest = pattern_findings(matched, exemptions, n - 1);
        let p = dangerous_patterns()[n - 1];
        if !pattern_exempted(p, exemptions) && n - 1 < matched.len() && matched[n - 1] == Some(
            true,
        ) {
            rest.push(pattern_finding(p))
        } else {
            rest
        }
    }
}

/// A reference is unsafe where it is absolute or climbs to a parent
/// directory.
pub open spec fn is_unsafe_reference(path: Seq<char>) -> bool {
    starts_with(path, "/"@) || contains(path, ".."@)
}

/// One of the exemptions occurs in the path.
pub open spec fn reference_exempted(path: Seq<char>, exemptions: Seq<Seq<char>>) -> bool {
    exists|k: int| 0 <= k < exemptions.len() && contains(path, #[trigger] exemptions[k])
}

/// The finding that names an unsafe reference.
pub open spec fn reference_finding(path: Seq<char>) -> Seq<char> {
    "Potentially unsafe file reference: "@ + path
}

/// The findings for `refs`: one for each unsafe reference that is not
/// exempted, in order.
pub open spec fn reference_findings(refs: Seq<Seq<char>>, exemptions: Seq<Seq<char>>) -> Seq<
    Seq<char>,
>
    decreases refs.len(),
{
    if refs.len() == 0 {
        Seq::empty()
    } else {
        let rest = reference_findings(refs.drop_last(), exemptions);
        let r = refs.last();
        if is_unsafe_reference(r) && !reference_exempted(r, exemptions) {
            rest.push(reference_finding(r))
        } else {
            rest
        }
    }
}

/// All findings under `exemptions`, given which patterns matched and which
/// files are referred to: those for dangerous patterns, then those for
/// unsafe references.
pub open spec fn findings_given(
    matched: Seq<Option<bool>>,
    refs: Seq<Seq<char>>,
    exemptions: Seq<Seq<char>>,
) -> Seq<Seq<char>> {
    pattern_findings(matched, exemptions, dangerous_patterns().len() as int) + reference_findings(
        refs,
        exemptions,
    )
}

/// All findings in `text` under `exemptions`.
pub open spec fn findings(text: Seq<char>, exemptions: Seq<Seq<char>>) -> Seq<Seq<char>> {
    findings_given(pattern_matches(text), file_references(text), exemptions)
}

/// The outcome for the findings `risks` under `level`: a warning where the
/// level is `Warn` and an error where it is `Error`, each only if there is a
/// finding.
pub open spec fn outcome_given(risks: Seq<Seq<char>>, level: SecurityValidationLevel) -> OutcomeView {
    OutcomeView {
        risks,
        should_warn: level == SecurityValidationLevel::Warn && risks.len() > 0,
        should_error: level == SecurityValidationLevel::Error && risks.len() > 0,
    }
}

/// The outcome of checking `text` under `policy`.
pub open spec fn validation(text: Seq<char>, policy: ConfigView) -> OutcomeView {
    outcome_given(findings(text, policy.ignored_patterns), policy.level)
}

/// The failure that reports the findings `risks` in `subject`.
pub open spec fn blocked(subject: Seq<char>, risks: Seq<Seq<char>>) -> ErrorView {
    ErrorView::SecurityError {
        command: subject,
        message: "Security risks detected: "@ + joined(risks, ", "@),
    }
}

/// Whether one of `exemptions` covers `pattern`.
fn is_pattern_exempted(pattern: &str, exemptions: &Vec<String>) -> (r: bool)
    ensures
        r == pattern_exempted(pattern@, exemptions.deep_view()),
{
    let p = chars_of(pattern);
    let blank = chars_of(" ");
    let spaces = chars_of(r"\s+");
    let relaxed = replace_chars(&p, &spaces, &blank);
    let mut k: usize = 0;
    while k < exemptions.len()
        invariant
            k <= exemptions.len(),
            p@ == pattern@,
            blank@ == " "@,
            spaces@ == r"\s+"@,
            relaxed@ == replaced(pattern@, r"\s+"@, " "@),
            forall|j: int|
                0 <= j < k ==> !exempts_pattern(#[trigger] exemptions.deep_view()[j], pattern@),
        decreases exemptions.len() - k,
    {
        let e = chars_of(exemptions[k].as_str());
        let strict = replace_chars(&e, &blank, &spaces);
        if contains_chars(&p, &strict) || contains_chars(&e, &relaxed) {
            proof {
                assert(exempts_pattern(exemptions.deep_view()[k as int], pattern@));
            }
            return true;
        }
        k += 1;
    }
    false
}

/// Whether one of `exemptions` occurs in `path`.
fn is_reference_exempted(path: &Vec<char>, exemptions: &Vec<String>) -> (r: bool)
    ensures
        r == reference_exempted(path@, exemptions.deep_view()),
{
    let mut k: usize = 0;
    while k < exemptions.len()
        invariant
            k <= exemptions.len(),
            forall|j: int| 0 <= j < k ==> !contains(path@, #[trigger] exemptions.deep_view()[j]),
        decreases exemptions.len() - k,
    {
        let e = chars_of(exemptions[k].as_str());
        if contains_chars(path, &e) {
            proof {
                assert(contains(path@, exemptions.deep_view()[k as int]));
            }
            return true;
        }
        k += 1;
    }
    false
}

/// Whether each of the dangerous patterns matches in `content`.
fn match_patterns(content: &str) -> (matched: Vec<Option<bool>>)
    ensures
        matched@ == pattern_matches(content@),
{
    let patterns = dangerous_pattern_list();
    let mut matched: Vec<Option<bool>> = Vec::new();
    let mut i: usize = 0;
    while i < patterns.len()
        invariant
            i <= patterns.len(),
            patterns.deep_view() == dangerous_patterns(),
            matched@ == pattern_matches(content@).take(i as int),
        decreases patterns.len() - i,
    {
        let p: &str = patterns[i];
        proof {
            assert(patterns.deep_view()[i as int] == p@);
        }
        matched.push(is_match(p, content));
        proof {
            assert(matched@ =~= pattern_matches(content@).take(i + 1));
        }
        i += 1;
    }
    proof {
        assert(pattern_matches(content@).take(patterns.len() as int) =~= pattern_matches(
            content@,
        ));
    }
    matched
}

/// What an entry of the permission list grants to shell snippets: the text
/// between `Bash(` and `)`, everything (`*`) for the bare entry `Bash`, and
/// nothing for any other entry.
pub open spec fn bash_grant(tool: Seq<char>) -> Option<Seq<char>> {
    if starts_with(tool, "Bash("@) && ends_with(tool, ")"@) {
        Some(tool.subrange(5, tool.len() - 1))
    } else if tool == "Bash"@ {
        Some("*"@)
    } else {
        None
    }
}

/// A grant allows a command where it is `*`, where it ends in `:*` and the
/// command begins with what stands before that, or where it is the command.
pub open spec fn grant_allows(grant: Seq<char>, command: Seq<char>) -> bool {
    grant == "*"@ || if ends_with(grant, ":*"@) {
        starts_with(command, grant.subrange(0, grant.len() - 2))
    } else {
        grant == command
    }
}

/// The entry grants the command.
pub open spec fn tool_allows(tool: Seq<char>, command: Seq<char>) -> bool {
    match bash_grant(tool) {
        Some(grant) => grant_allows(grant, command),
        None => false,
    }
}

/// One of the entries grants the command.
pub open spec fn bash_permitted(command: Seq<char>, tools: Seq<Seq<char>>) -> bool {
    exists|k: int| 0 <= k < tools.len() && tool_allows(#[trigger] tools[k], command)
}

/// The phrases by which a template asks for extended reasoning.
pub open spec fn thinking_keywords() -> Seq<Seq<char>> {
    seq![
        "think through"@,
        "reason about"@,
        "analyze carefully"@,
        "consider deeply"@,
        "extended thinking"@,
        "step by step"@,
        "break down"@,
        "reasoning process"@,
    ]
}

/// The phrases by which a template asks for extended reasoning.
fn thinking_keyword_list() -> (list: Vec<&'static str>)
    ensures
        list.deep_view() == thinking_keywords(),
{
    let mut list: Vec<&'static str> = Vec::new();
    list.push("think through");
    list.push("reason about");
    list.push("analyze carefully");
    list.push("consider deeply");
    list.push("extended thinking");
    list.push("step by step");
    list.push("break down");
    list.push("reasoning process");
    proof {
        assert(list.deep_view() =~= thinking_keywords());
    }
    list
}

/// The text, which is taken to be in lower case, holds one of the phrases.
pub open spec fn holds_thinking_keyword(lowered: Seq<char>) -> bool {
    exists|k: int|
        0 <= k < thinking_keywords().len() && contains(lowered, #[trigger] thinking_keywords()[k])
}

/// The text holds one of the phrases, in whatever case.
pub open spec fn asks_for_thinking(text: Seq<char>) -> bool {
    holds_thinking_keyword(lowercase(text))
}

/// The placeholder that stands for all arguments.
pub open spec fn arguments_token() -> Seq<char> {
    "$ARGUMENTS"@
}

/// The placeholder that stands for argument number `n`, counted from one.
pub open spec fn positional_token(n: nat) -> Seq<char> {
    "$"@ + decimal(n)
}

/// `text` with the placeholders of the first `n` arguments filled in, the
/// first argument first.
pub open spec fn fill_positional(text: Seq<char>, args: Seq<Seq<char>>, n: int) -> Seq<char>
    decreases n,
{
    if n <= 0 || n > args.len() {
        text
    } else {
        replaced(fill_positional(text, args, n - 1), positional_token(n as nat), args[n - 1])
    }
}

/// `text` with the placeholders of arguments one to `n` taken out.
pub open spec fn clear_positional(text: Seq<char>, n: int) -> Seq<char>
    decreases n,
{
    if n <= 0 {
        text
    } else {
        replaced(clear_positional(text, n - 1), positional_token(n as nat), Seq::empty())
    }
}

/// The block that carries the arguments of a call behind a template that has
/// no place for them.
pub open spec fn argument_block(rendered: Seq<char>) -> Seq<char> {
    "\n\n---\n\n**Command Arguments:**\n```\n"@ + rendered
        + "\n```\n\nPlease execute the process considering the above arguments."@
}

/// The template `body` with the arguments of a call put in, given their
/// rendering for the placeholder for all arguments.
///
/// Without arguments every placeholder is taken out: the one for all
/// arguments, then those of arguments one to ten. With arguments, the
/// positional placeholders are filled in; then a body that holds the
/// placeholder for all arguments has that placeholder replaced by the
/// rendering, and a body without it is followed by the argument block, so
/// that no argument is lost.
pub open spec fn substituted_with(
    body: Seq<char>,
    args: Seq<Seq<char>>,
    rendering: Seq<char>,
) -> Seq<char> {
    if args.len() == 0 {
        clear_positional(replaced(body, arguments_token(), Seq::empty()), 10)
    } else if contains(body, arguments_token()) {
        replaced(fill_positional(body, args, args.len() as int), arguments_token(), rendering)
    } else {
        fill_positional(body, args, args.len() as int) + argument_block(rendering)
    }
}

/// The template `body` with the arguments of a call put in, the arguments
/// quoted for a shell and joined where they stand for the placeholder for
/// all arguments.
pub open spec fn substituted(body: Seq<char>, args: Seq<Seq<char>>) -> Seq<char> {
    substituted_with(body, args, shell_joined(args))
}

/// The placeholder of argument number `n`.
fn positional_chars(n: u64) -> (out: Vec<char>)
    ensures
        out@ == positional_token(n as nat),
{
    let mut out = chars_of("$");
    let digits = decimal_chars(n);
    push_chars(&mut out, &digits);
    out
}

/// Whether the permission entry `tool` grants `command`.
fn entry_allows(tool: &Vec<char>, command: &Vec<char>) -> (r: bool)
    ensures
        r == tool_allows(tool@, command@),
{
    let star = chars_of("*");
    let grant: Vec<char>;
    if starts_with_chars(tool, &chars_of("Bash(")) && ends_with_chars(tool, &chars_of(")")) {
        proof {
            reveal_strlit("Bash(");
            reveal_strlit(")");
            if tool@.len() < 6 {
                assert(tool@.subrange(0, 5)[4] == '(');
                assert(tool@.subrange(tool@.len() - 1, tool@.len() as int)[0] == ')');
            }
        }
        grant = slice_chars(tool, 5, tool.len() - 1);
    } else if same_chars(tool, &chars_of("Bash")) {
        grant = chars_of("*");
    } else {
        return false;
    }
    if same_chars(&grant, &star) {
        return true;
    }
    if ends_with_chars(&grant, &chars_of(":*")) {
        proof {
            reveal_strlit(":*");
        }
        let prefix = slice_chars(&grant, 0, grant.len() - 2);
        starts_with_chars(command, &prefix)
    } else {
        same_chars(&grant, command)
    }
}

impl PromptProcessor {
    /// The texts that capture group `group` took in each of `matches`, in
    /// order: see [`group_texts`].
    pub fn captured_group(matches: &Vec<Vec<Option<String>>>, group: usize) -> (out: Vec<String>)
        ensures
            out.deep_view() == group_texts(matches.deep_view(), group as int),
    {
        let mut out: Vec<String> = Vec::new();
        proof {
            assert(out.deep_view() =~= Seq::empty());
        }
        let mut i: usize = 0;
        while i < matches.len()
            invariant
                i <= matches.len(),
                out.deep_view() == group_texts(matches.deep_view().take(i as int), group as int),
            decreases matches.len() - i,
        {
            let ghost before = out;
            let ghost seen = matches.deep_view().take(i + 1);
            proof {
                assert(seen.drop_last() =~= matches.deep_view().take(i as int));
                assert(seen.last() == matches[i as int].deep_view());
            }
            let m = &matches[i];
            if group < m.len() {
                match &m[group] {
                    Some(s) => {
                        let copy = s.clone();
                        out.push(copy);
                        proof {
                            lemma_push_text(before, out, copy);
                        }
                    },
                    None => {},
                }
            }
            i += 1;
        }
        proof {
            assert(matches.deep_view().take(matches.len() as int) =~= matches.deep_view());
        }
        out
    }

    /// What capture group 1 of `pattern` took in each match in `text`.
    fn capture_first_group(pattern: &str, text: &str) -> (out: Vec<String>)
        ensures
            out.deep_view() == captured(pattern@, text@),
    {
        match all_captures(pattern, text) {
            None => {
                let out: Vec<String> = Vec::new();
                proof {
                    assert(out.deep_view() =~= Seq::empty());
                }
                out
            },
            Some(matches) => Self::captured_group(&matches, 1),
        }
    }

    /// The paths of the files that `content` refers to with `@path`, in
    /// order. An `@` inside a word, as in a mail address, is no reference.
    pub fn extract_file_references(content: &str) -> (refs: Vec<String>)
        ensures
            refs.deep_view() == file_references(content@),
    {
        Self::capture_first_group(r"(?:^|[\s\n\r>'])\s*@([a-zA-Z0-9._/-]+)", content)
    }

    /// The shell snippets that `content` holds as `!` and a command between
    /// backticks, in order.
    pub fn extract_bash_commands(content: &str) -> (commands: Vec<String>)
        ensures
            commands.deep_view() == bash_commands(content@),
    {
        Self::capture_first_group(r"!`([^`]+)`", content)
    }

    /// The findings under `exemptions`, given of each dangerous pattern
    /// whether it matched and the files referred to: see [`findings_given`].
    pub fn findings_from(
        matched: &Vec<Option<bool>>,
        references: &Vec<String>,
        exemptions: &Vec<String>,
    ) -> (risks: Vec<String>)
        ensures
            risks.deep_view() == findings_given(
                matched@,
                references.deep_view(),
                exemptions.deep_view(),
            ),
    {
        let mut risks: Vec<String> = Vec::new();
        proof {
            assert(risks.deep_view() =~= Seq::empty());
        }
        let patterns = dangerous_pattern_list();
        let mut i: usize = 0;
        while i < patterns.len()
            invariant
                i <= patterns.len(),
                patterns.deep_view() == dangerous_patterns(),
                risks.deep_view() == pattern_findings(matched@, exemptions.deep_view(), i as int),
            decreases patterns.len() - i,
        {
            let p: &str = patterns[i];
            proof {
                assert(patterns.deep_view()[i as int] == p@);
            }
            if i < matched.len() && !is_pattern_exempted(p, exemptions) {
                if let Some(true) = matched[i] {
                    let ghost before = risks;
                    let finding = concat2("Potentially dangerous pattern detected: ", p);
                    risks.push(finding);
                    proof {
                        lemma_push_text(before, risks, finding);
                    }
                }
            }
            i += 1;
        }
        let ghost from_patterns = risks.deep_view();
        let slash = chars_of("/");
        let dots = chars_of("..");
        let mut j: usize = 0;
        while j < references.len()
            invariant
                j <= references.len(),
                slash@ == "/"@,
                dots@ == ".."@,
                risks.deep_view() == from_patterns + reference_findings(
                    references.deep_view().take(j as int),
                    exemptions.deep_view(),
                ),
            decreases references.len() - j,
        {
            let ghost seen = references.deep_view().take(j + 1);
            proof {
                assert(seen.drop_last() =~= references.deep_view().take(j as int));
                assert(seen.last() == references[j as int]@);
            }
            let r = chars_of(references[j].as_str());
            if (starts_with_chars(&r, &slash) || contains_chars(&r, &dots))
                && !is_reference_exempted(&r, exemptions) {
                let ghost before = risks;
                let finding = concat2(
                    "Potentially unsafe file reference: ",
                    references[j].as_str(),
                );
                risks.push(finding);
                proof {
                    lemma_push_text(before, risks, finding);
                    assert(risks.deep_view() =~= from_patterns + reference_findings(
                        seen,
                        exemptions.deep_view(),
                    ));
                }
            }
            j += 1;
        }
        proof {
            assert(references.deep_view().take(references.len() as int)
                =~= references.deep_view());
        }
        risks
    }

    /// The findings in `content` under `exemptions`.
    fn collect_findings(content: &str, exemptions: &Vec<String>) -> (risks: Vec<String>)
        ensures
            risks.deep_view() == findings(content@, exemptions.deep_view()),
    {
        let matched = match_patterns(content);
        let references = Self::extract_file_references(content);
        Self::findings_from(&matched, &references, exemptions)
    }

    /// The findings in `content`: one for each dangerous pattern that
    /// matches, then one for each unsafe reference.
    pub fn check_security_risks(content: &str) -> (risks: Vec<String>)
        ensures
            risks.deep_view() == findings(content@, Seq::empty()),
    {
        let none: Vec<String> = Vec::new();
        proof {
            assert(none.deep_view() =~= Seq::empty());
        }
        Self::collect_findings(content, &none)
    }

    /// The outcome for the findings `risks` under `level`: see
    /// [`outcome_given`].
    pub fn outcome_for(risks: Vec<String>, level: SecurityValidationLevel) -> (out:
        SecurityValidationResult)
        ensures
            out@ == outcome_given(risks.deep_view(), level),
    {
        let any = risks.len() > 0;
        let should_warn = level == SecurityValidationLevel::Warn && any;
        let should_error = level == SecurityValidationLevel::Error && any;
        SecurityValidationResult { risks, should_warn, should_error }
    }

    /// Checks `content` under `config`. Exempted patterns and references are
    /// passed over; what is left is reported, as a warning or as an error
    /// according to the level.
    pub fn validate_security_with_config(content: &str, config: &SecurityValidationConfig) -> (out:
        SecurityValidationResult)
        ensures
            out@ == validation(content@, config@),
    {
        let risks = Self::collect_findings(content, &config.ignored_patterns);
        Self::outcome_for(risks, config.level)
    }

    /// The failure that reports the findings `risks` in `subject`.
    pub fn risk_error(subject: &str, risks: &Vec<String>) -> (e: CustomCommandError)
        ensures
            e@ == blocked(subject@, risks.deep_view()),
    {
        let listed = join_strings(risks, ", ");
        CustomCommandError::security_error(
            subject.to_string(),
            concat2("Security risks detected: ", listed.as_str()),
        )
    }

    /// Whether the outcome of a check lets the content through: findings
    /// that block are a security error that lists them.
    pub fn verdict_of(outcome: &SecurityValidationResult) -> (out: Result<(), CustomCommandError>)
        ensures
            match out {
                Ok(_) => !outcome@.should_error,
                Err(e) => outcome@.should_error && e@ == blocked(
                    "content_validation"@,
                    outcome@.risks,
                ),
            },
    {
        if outcome.should_error {
            return Err(Self::risk_error("content_validation", &outcome.risks));
        }
        Ok(())
    }

    /// Checks `content` under `config` and fails where the findings block.
    pub fn validate_content_with_config(content: &str, config: &SecurityValidationConfig) -> (out:
        Result<(), CustomCommandError>)
        ensures
            match out {
                Ok(_) => !validation(content@, config@).should_error,
                Err(e) => validation(content@, config@).should_error && e@ == blocked(
                    "content_validation"@,
                    validation(content@, config@).risks,
                ),
            },
    {
        let outcome = Self::validate_security_with_config(content, config);
        Self::verdict_of(&outcome)
    }

    /// Checks `content` under the default policy, for which findings block.
    pub fn validate_content(content: &str) -> (out: Result<(), CustomCommandError>)
        ensures
            match out {
                Ok(_) => findings(content@, Seq::empty()).len() == 0,
                Err(e) => findings(content@, Seq::empty()).len() > 0 && e@ == blocked(
                    "content_validation"@,
                    findings(content@, Seq::empty()),
                ),
            },
    {
        let config = SecurityValidationConfig::default();
        Self::validate_content_with_config(content, &config)
    }

    /// Whether the permission list `allowed_tools` grants the shell snippet
    /// `command`. An entry `Bash` grants every snippet, `Bash(prefix:*)`
    /// those that begin with the prefix, `Bash(text)` the snippet `text`.
    pub fn validate_bash_permissions(command: &str, allowed_tools: &[String]) -> (r: bool)
        ensures
            r == bash_permitted(command@, allowed_tools.deep_view()),
    {
        let c = chars_of(command);
        let mut k: usize = 0;
        while k < allowed_tools.len()
            invariant
                k <= allowed_tools.len(),
                c@ == command@,
                forall|j: int|
                    0 <= j < k ==> !tool_allows(#[trigger] allowed_tools.deep_view()[j], command@),
            decreases allowed_tools.len() - k,
        {
            let tool = chars_of(allowed_tools[k].as_str());
            if entry_allows(&tool, &c) {
                proof {
                    assert(tool_allows(allowed_tools.deep_view()[k as int], command@));
                }
                return true;
            }
            k += 1;
        }
        false
    }

    /// Whether `lowered`, a text in lower case, holds one of the phrases
    /// that ask for extended reasoning.
    pub fn has_thinking_keyword(lowered: &str) -> (r: bool)
        ensures
            r == holds_thinking_keyword(lowered@),
    {
        let text = chars_of(lowered);
        let keywords = thinking_keyword_list();
        let mut k: usize = 0;
        while k < keywords.len()
            invariant
                k <= keywords.len(),
                keywords.deep_view() == thinking_keywords(),
                text@ == lowered@,
                forall|j: int| 0 <= j < k ==> !contains(lowered@, #[trigger] thinking_keywords()[j]),
            decreases keywords.len() - k,
        {
            let word: &str = keywords[k];
            proof {
                assert(keywords.deep_view()[k as int] == word@);
            }
            if contains_chars(&text, &chars_of(word)) {
                return true;
            }
            k += 1;
        }
        false
    }

    /// Whether `content` asks for extended reasoning by one of the known
    /// phrases, in whatever case.
    pub fn detect_thinking_keywords(content: &str) -> (r: bool)
        ensures
            r == asks_for_thinking(content@),
    {
        let lower = to_lowercase(content);
        Self::has_thinking_keyword(lower.as_str())
    }

    /// Puts the arguments of a call into the template `content`, given the
    /// rendering of the arguments: see [`substituted_with`].
    pub fn substitute_rendered(content: &str, args: &[String], rendering: &str) -> (out: String)
        ensures
            out@ == substituted_with(content@, args.deep_view(), rendering@),
    {
        let body = chars_of(content);
        let token = chars_of("$ARGUMENTS");
        if args.len() == 0 {
            let nothing: Vec<char> = Vec::new();
            let mut result = replace_chars(&body, &token, &nothing);
            let mut n: u64 = 1;
            while n <= 10
                invariant
                    1 <= n <= 11,
                    nothing@ == Seq::<char>::empty(),
                    result@ == clear_positional(
                        replaced(content@, arguments_token(), Seq::empty()),
                        n - 1,
                    ),
                decreases 11 - n,
            {
                let placeholder = positional_chars(n);
                result = replace_chars(&result, &placeholder, &nothing);
                n += 1;
            }
            return string_of(&result);
        }
        let holds_token = contains_chars(&body, &token);
        let mut result = body;
        let mut i: usize = 0;
        while i < args.len()
            invariant
                i <= args.len(),
                result@ == fill_positional(content@, args.deep_view(), i as int),
            decreases args.len() - i,
        {
            let placeholder = positional_chars((i + 1) as u64);
            let value = chars_of(args[i].as_str());
            result = replace_chars(&result, &placeholder, &value);
            i += 1;
        }
        if !holds_token {
            push_str(&mut result, "\n\n---\n\n**Command Arguments:**\n```\n");
            push_str(&mut result, rendering);
            push_str(
                &mut result,
                "\n```\n\nPlease execute the process considering the above arguments.",
            );
            return string_of(&result);
        }
        let all = chars_of(rendering);
        string_of(&replace_chars(&result, &token, &all))
    }

    /// Puts the arguments of a call into the template `content`: see
    /// [`substituted`].
    pub fn substitute_arguments(content: &str, args: &[String]) -> (out: String)
        ensures
            out@ == substituted(content@, args.deep_view()),
    {
        if args.len() == 0 {
            return Self::substitute_rendered(content, args, "");
        }
        let rendering = shell_join(args);
        Self::substitute_rendered(content, args, rendering.as_str())
    }
}

} // verus!
