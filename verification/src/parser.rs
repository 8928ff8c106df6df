//! Splitting a command document into its metadata block and its body.

use vstd::prelude::*;
use crate::command::{frontmatter_view, CommandFrontmatter, FrontmatterView};
use crate::error::{CustomCommandError, ErrorView};
use crate::outside::{captures, is_match, regex_captures, regex_is_match};
use crate::paths::{extension, extension_chars};
use crate::text::{chars_of, is_blank, is_blank_chars, string_of, trim_chars, trimmed};

verus! {

/// A document split into metadata and body.
#[derive(Debug)]
pub struct ParsedMarkdown {
    /// The decoded metadata block, where the document has one that is not
    /// blank.
    pub frontmatter: Option<CommandFrontmatter>,
    /// The body: the document without the metadata block, trimmed.
    pub content: String,
    /// The whole document, trimmed.
    pub raw_content: String,
}

/// A split document as plain texts.
pub struct ParsedView {
    pub frontmatter: Option<FrontmatterView>,
    pub content: Seq<char>,
    pub raw_content: Seq<char>,
}

impl View for ParsedMarkdown {
    type V = ParsedView;

    open spec fn view(&self) -> ParsedView {
        ParsedView {
            frontmatter: frontmatter_view(self.frontmatter),
            content: self.content@,
            raw_content: self.raw_content@,
        }
    }
}

/// A document whose metadata block is still to be decoded.
#[derive(Debug)]
pub struct PendingMarkdown {
    /// The text of the metadata block, between the two delimiter lines.
    pub metadata_source: String,
    /// The body: the document without the metadata block, trimmed.
    pub content: String,
    /// The whole document, trimmed.
    pub raw_content: String,
}

/// A document with an undecoded metadata block as plain texts.
pub struct PendingView {
    pub metadata_source: Seq<char>,
    pub content: Seq<char>,
    pub raw_content: Seq<char>,
}

impl View for PendingMarkdown {
    type V = PendingView;

    open spec fn view(&self) -> PendingView {
        PendingView {
            metadata_source: self.metadata_source@,
            content: self.content@,
            raw_content: self.raw_content@,
        }
    }
}

/// How far the splitting of a document has come.
#[derive(Debug)]
pub enum ParseStep {
    /// The document has no metadata to decode.
    Complete(ParsedMarkdown),
    /// The metadata block has been cut out and waits to be decoded.
    NeedsMetadata(PendingMarkdown),
}

/// A step as plain texts.
pub enum StepView {
    Complete(ParsedView),
    NeedsMetadata(PendingView),
}

impl View for ParseStep {
    type V = StepView;

    open spec fn view(&self) -> StepView {
        match self {
            ParseStep::Complete(parsed) => StepView::Complete(parsed@),
            ParseStep::NeedsMetadata(pending) => StepView::NeedsMetadata(pending@),
        }
    }
}

/// The regular expression for a document that begins with a metadata block:
/// a line `---`, the block, a line `---`, and the rest, if there is any, from
/// the next line on. The block may span lines.
pub open spec fn frontmatter_pattern() -> Seq<char> {
    r"(?s)^---\s*\n(.*?)\n---\s*(?:\n(.*))?$"@
}

/// What a capture group took, or the empty text where it took no part.
pub open spec fn group_text(groups: Seq<Option<Seq<char>>>, group: int) -> Seq<char> {
    if 0 <= group < groups.len() && groups[group] is Some {
        groups[group]->0
    } else {
        Seq::empty()
    }
}

/// The metadata block and the rest that the capture groups of a match of
/// the metadata pattern give: groups one and two.
pub open spec fn block_of(groups: Option<Seq<Option<Seq<char>>>>) -> Option<
    (Seq<char>, Seq<char>),
> {
    match groups {
        Some(groups) => Some((group_text(groups, 1), group_text(groups, 2))),
        None => None,
    }
}

/// The metadata block and the rest of a text that begins with a delimited
/// block; `None` for a text that does not.
pub open spec fn leading_block(text: Seq<char>) -> Option<(Seq<char>, Seq<char>)> {
    block_of(regex_captures(frontmatter_pattern(), text))
}

/// The split of the trimmed document `whole`, given its leading block.
/// Without a leading block the whole of it is the body. With one, the body
/// is the trimmed rest, and the block waits to be decoded unless it is
/// blank.
pub open spec fn split_given(whole: Seq<char>, block: Option<(Seq<char>, Seq<char>)>) -> StepView {
    match block {
        None => StepView::Complete(
            ParsedView { frontmatter: None, content: whole, raw_content: whole },
        ),
        Some((block, rest)) => if is_blank(block) {
            StepView::Complete(
                ParsedView { frontmatter: None, content: trimmed(rest), raw_content: whole },
            )
        } else {
            StepView::NeedsMetadata(
                PendingView { metadata_source: block, content: trimmed(rest), raw_content: whole },
            )
        },
    }
}

/// The split of a document, which is trimmed first.
pub open spec fn split_document(document: Seq<char>) -> StepView {
    split_given(trimmed(document), leading_block(trimmed(document)))
}

/// The text of a metadata block that is to be decoded: `None` without a
/// block, and for a blank one.
pub open spec fn source_given(block: Option<(Seq<char>, Seq<char>)>) -> Option<Seq<char>> {
    match block {
        Some((block, rest)) => if is_blank(block) {
            None
        } else {
            Some(block)
        },
        None => None,
    }
}

/// The text of the metadata block of a document that is taken as it stands.
pub open spec fn metadata_source(document: Seq<char>) -> Option<Seq<char>> {
    source_given(leading_block(document))
}

/// The body of a document, given its leading block: the trimmed rest behind
/// the block, else the trimmed document.
pub open spec fn body_given(document: Seq<char>, block: Option<(Seq<char>, Seq<char>)>) -> Seq<
    char,
> {
    match block {
        Some((block, rest)) => trimmed(rest),
        None => trimmed(document),
    }
}

/// The body of a document that is taken as it stands.
pub open spec fn body_of(document: Seq<char>) -> Seq<char> {
    body_given(document, leading_block(document))
}

/// A document without a leading block has no metadata, and its body is the
/// whole of it, trimmed.
pub proof fn lemma_document_without_block(document: Seq<char>)
    requires
        leading_block(trimmed(document)) is None,
    ensures
        split_document(document) == StepView::Complete(
            ParsedView {
                frontmatter: None,
                content: trimmed(document),
                raw_content: trimmed(document),
            },
        ),
{
}

/// A document with a leading block has the trimmed rest behind the block as
/// its body, and the block as the source of its metadata unless the block
/// is blank.
pub proof fn lemma_document_with_block(document: Seq<char>, block: Seq<char>, rest: Seq<char>)
    requires
        leading_block(trimmed(document)) == Some((block, rest)),
    ensures
        match split_document(document) {
            StepView::Complete(parsed) => is_blank(block) && parsed.frontmatter is None
                && parsed.content == trimmed(rest),
            StepView::NeedsMetadata(pending) => !is_blank(block) && pending.metadata_source
                == block && pending.content == trimmed(rest),
        },
{
}

/// The letter in lower case, for the letters `A` to `Z`; any other character
/// as it is.
pub open spec fn ascii_lower(c: char) -> char {
    if 'A' <= c && c <= 'Z' {
        ((c as u8) + 32) as char
    } else {
        c
    }
}

/// The two texts are the same but for the case of the letters `a` to `z`.
pub open spec fn same_ignoring_ascii_case(a: Seq<char>, b: Seq<char>) -> bool {
    a.len() == b.len() && forall|i: int|
        0 <= i < a.len() ==> ascii_lower(#[trigger] a[i]) == ascii_lower(b[i])
}

/// A path names a markdown file where its extension is `md` or `markdown`,
/// in whatever case.
pub open spec fn names_markdown_file(path: Seq<char>) -> bool {
    match extension(path) {
        Some(ext) => same_ignoring_ascii_case(ext, "md"@) || same_ignoring_ascii_case(
            ext,
            "markdown"@,
        ),
        None => false,
    }
}

/// The letter in lower case.
fn ascii_lower_char(c: char) -> (r: char)
    ensures
        r == ascii_lower(c),
{
    if 'A' <= c && c <= 'Z' {
        ((c as u8) + 32) as char
    } else {
        c
    }
}

/// Whether the two texts are the same but for the case of ASCII letters.
fn same_ignoring_ascii_case_chars(a: &Vec<char>, b: &Vec<char>) -> (r: bool)
    ensures
        r == same_ignoring_ascii_case(a@, b@),
{
    if a.len() != b.len() {
        return false;
    }
    let mut i: usize = 0;
    while i < a.len()
        invariant
            i <= a.len(),
            a.len() == b.len(),
            forall|j: int| 0 <= j < i ==> ascii_lower(#[trigger] a@[j]) == ascii_lower(b@[j]),
        decreases a.len() - i,
    {
        if ascii_lower_char(a[i]) != ascii_lower_char(b[i]) {
            return false;
        }
        i += 1;
    }
    true
}

/// The first match of the metadata pattern in `text`.
fn find_leading_block(text: &str) -> (block: Option<(String, String)>)
    ensures
        block.deep_view() == leading_block(text@),
{
    MarkdownParser::block_from(captures(r"(?s)^---\s*\n(.*?)\n---\s*(?:\n(.*))?$", text))
}

/// The splitter of command documents.
#[derive(Debug)]
pub struct MarkdownParser {}

impl MarkdownParser {
    /// A splitter.
    pub fn new() -> (parser: Self) {
        MarkdownParser {  }
    }

    /// The metadata block and the rest that the capture groups of a match of
    /// the metadata pattern give; a group that took no part gives the empty
    /// text.
    pub fn block_from(groups: Option<Vec<Option<String>>>) -> (block: Option<(String, String)>)
        ensures
            block.deep_view() == block_of(groups.deep_view()),
    {
        match groups {
            None => None,
            Some(groups) => {
                let first = match groups.get(1) {
                    Some(Some(s)) => s.clone(),
                    _ => String::new(),
                };
                let second = match groups.get(2) {
                    Some(Some(s)) => s.clone(),
                    _ => String::new(),
                };
                Some((first, second))
            },
        }
    }

    /// Splits the trimmed document `whole`, given its leading block: see
    /// [`split_given`].
    pub fn split(whole: String, block: Option<(String, String)>) -> (step: ParseStep)
        ensures
            step@ == split_given(whole@, block.deep_view()),
    {
        match block {
            None => ParseStep::Complete(
                ParsedMarkdown { frontmatter: None, content: whole.clone(), raw_content: whole },
            ),
            Some((block, rest)) => {
                let body = string_of(&trim_chars(&chars_of(rest.as_str())));
                if is_blank_chars(&chars_of(block.as_str())) {
                    ParseStep::Complete(
                        ParsedMarkdown { frontmatter: None, content: body, raw_content: whole },
                    )
                } else {
                    ParseStep::NeedsMetadata(
                        PendingMarkdown { metadata_source: block, content: body, raw_content: whole },
                    )
                }
            },
        }
    }

    /// Splits a document into metadata and body: see [`split_document`]. A
    /// metadata block that is not blank is handed back as text, to be decoded
    /// and given to [`MarkdownParser::complete`].
    pub fn parse(&self, content: &str) -> (step: ParseStep)
        ensures
            step@ == split_document(content@),
    {
        let whole = string_of(&trim_chars(&chars_of(content)));
        let block = find_leading_block(whole.as_str());
        Self::split(whole, block)
    }

    /// Ends the splitting of a document once its metadata block has been
    /// decoded. Metadata that decoded well goes into the result; a failure
    /// to decode becomes a `FrontmatterParseError` that names `file_path`.
    pub fn complete(
        &self,
        pending: PendingMarkdown,
        file_path: &str,
        decoded: Result<CommandFrontmatter, String>,
    ) -> (out: Result<ParsedMarkdown, CustomCommandError>)
        ensures
            match decoded {
                Ok(metadata) => out matches Ok(parsed) && parsed@ == (ParsedView {
                    frontmatter: Some(metadata@),
                    content: pending@.content,
                    raw_content: pending@.raw_content,
                }),
                Err(reason) => out matches Err(e) && e@ == (ErrorView::FrontmatterParseError {
                    path: file_path@,
                    source: reason@,
                }),
            },
    {
        match decoded {
            Ok(metadata) => Ok(
                ParsedMarkdown {
                    frontmatter: Some(metadata),
                    content: pending.content,
                    raw_content: pending.raw_content,
                },
            ),
            Err(reason) => Err(
                CustomCommandError::frontmatter_parse_error(file_path.to_string(), reason),
            ),
        }
    }

    /// The text of a metadata block that is to be decoded: see
    /// [`source_given`].
    pub fn source_from(block: Option<(String, String)>) -> (source: Option<String>)
        ensures
            source.deep_view() == source_given(block.deep_view()),
    {
        match block {
            None => None,
            Some((block, rest)) => {
                if is_blank_chars(&chars_of(block.as_str())) {
                    None
                } else {
                    Some(block)
                }
            },
        }
    }

    /// The body of `content`, given its leading block: see [`body_given`].
    pub fn body_from(content: &str, block: Option<(String, String)>) -> (body: String)
        ensures
            body@ == body_given(content@, block.deep_view()),
    {
        match block {
            None => string_of(&trim_chars(&chars_of(content))),
            Some((block, rest)) => string_of(&trim_chars(&chars_of(rest.as_str()))),
        }
    }

    /// The text of the metadata block of `content`, taken as it stands:
    /// `None` where it has no leading block or a blank one.
    pub fn extract_frontmatter(&self, content: &str) -> (source: Option<String>)
        ensures
            source.deep_view() == metadata_source(content@),
    {
        Self::source_from(find_leading_block(content))
    }

    /// The body of `content`, taken as it stands.
    pub fn extract_content(&self, content: &str) -> (body: String)
        ensures
            body@ == body_of(content@),
    {
        Self::body_from(content, find_leading_block(content))
    }

    /// Whether `content`, taken as it stands, begins with a metadata block.
    pub fn has_frontmatter(&self, content: &str) -> (r: bool)
        ensures
            r == (regex_is_match(frontmatter_pattern(), content@) == Some(true)),
    {
        match is_match(r"(?s)^---\s*\n(.*?)\n---\s*(?:\n(.*))?$", content) {
            Some(found) => found,
            None => false,
        }
    }

    /// Whether `file_path` names a markdown file.
    pub fn is_markdown_file(file_path: &str) -> (r: bool)
        ensures
            r == names_markdown_file(file_path@),
    {
        match extension_chars(&chars_of(file_path)) {
            Some(ext) => {
                proof {
                    assert(ext.deep_view() =~= ext@);
                }
                same_ignoring_ascii_case_chars(&ext, &chars_of("md"))
                    || same_ignoring_ascii_case_chars(&ext, &chars_of("markdown"))
            },
            None => false,
        }
    }
}

impl Default for MarkdownParser {
    fn default() -> (parser: Self) {
        MarkdownParser::new()
    }
}

} // verus!
