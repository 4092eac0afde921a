//! Preparing a recursive file search: the directory named by a line of
//! input, the search pattern made from it, the search that the `glob` crate
//! starts for the pattern, and what is reported of each entry that its lazy
//! sequence of matches yields.

use vstd::prelude::*;
use vstd::string::*;
use crate::text::{decimal, decimal_text, is_space, lemma_trimmed_ends, trim, trimmed};

verus! {

/// The lazy, finite sequence of match attempts that `glob` hands out. It is
/// walked once, outside this library; nothing is known here of what it will
/// yield, which depends on the file system at the time of the walk.
#[verifier::external_type_specification]
#[verifier::external_body]
pub struct ExPaths(glob::Paths);

/// The failure that `glob` reports for one entry that it could not read. The
/// sequence's items hold it; this library looks at none of it.
#[verifier::external_type_specification]
#[verifier::external_body]
pub struct ExGlobError(glob::GlobError);

/// The standard library's owned path, which the sequence's items hold for a
/// match; this library looks at none of it.
#[verifier::external_type_specification]
#[verifier::external_body]
pub struct ExPathBuf(std::path::PathBuf);

/// The fault that `glob::glob_with` finds in a pattern, if it finds one: the
/// place and the message of the `PatternError` that it returns, `None` where
/// it returns a sequence. The pattern's text alone decides it, whatever the
/// match options and whatever is on disk. It holds for one build target: which
/// characters separate the components of a path is fixed when `glob` is built.
pub uninterp spec fn pattern_fault(pattern: Seq<char>) -> Option<(usize, Seq<char>)>;

/// The text that `Path::display` writes for a path.
pub uninterp spec fn path_text(path: std::path::PathBuf) -> Seq<char>;

/// The text that `Path::display` writes for the path that `GlobError::path`
/// gives: the entry that could not be read.
pub uninterp spec fn failed_path_text(failure: glob::GlobError) -> Seq<char>;

/// A search that has been started: the pattern it looks for, whether it tells
/// upper case from lower case, and the sequence of match attempts that `glob`
/// made for the two.
pub struct Search {
    /// The pattern that is searched for.
    pub pattern: String,
    /// Whether upper and lower case differ in the search.
    pub case_sensitive: bool,
    /// The match attempts, to be walked once.
    pub paths: glob::Paths,
}

/// A path that matched the search pattern.
#[derive(Clone, Debug)]
pub struct PathEntry {
    /// The path as text.
    pub path: String,
}

/// Why an enumeration, or one entry of it, failed. Each variant carries its
/// cause as text.
#[derive(Clone, Debug)]
pub enum EnumerationError {
    /// Reading the input or the file system failed.
    Io { message: String },
    /// The search pattern is malformed near the character at `position`.
    Pattern { position: usize, message: String },
    /// An entry at `path` could not be read while looking for matches.
    Glob { path: String, message: String },
    /// A time could not be computed.
    SystemTime { message: String },
}

/// A direct child of a directory, with what a plain listing shows of it.
#[derive(Clone, Debug)]
pub struct ChildEntry {
    /// Whether the child may not be written to.
    pub read_only: bool,
    /// The child's size in bytes.
    pub size: u64,
    /// The child's file name.
    pub name: String,
}

/// One item of an enumeration: a match, or the reason why an entry could not
/// be examined.
pub type Entry = Result<PathEntry, EnumerationError>;

/// The search pattern for a directory: the directory's path with the suffix
/// appended, nothing between them.
pub open spec fn search_pattern(dir: Seq<char>, suffix: Seq<char>) -> Seq<char> {
    dir + suffix
}

impl EnumerationError {
    /// The message that describes this error.
    pub open spec fn description(self) -> Seq<char> {
        match self {
            EnumerationError::Io { message } => message@,
            EnumerationError::Pattern { position, message } => {
                "Pattern syntax error near position "@ + decimal_text(position as nat) + ": "@
                    + message@
            },
            EnumerationError::Glob { path, message } => {
                "attempting to read `"@ + path@ + "` resulted in an error: "@ + message@
            },
            EnumerationError::SystemTime { message } => message@,
        }
    }

    /// Writes the message that describes this error.
    pub fn describe(&self) -> (r: String)
        ensures
            r@ == self.description(),
    {
        match self {
            EnumerationError::Io { message } => message.clone(),
            EnumerationError::Pattern { position, message } => {
                let mut r: String = String::from_str("Pattern syntax error near position ");
                r.append(decimal(*position as u64).as_str());
                r.append(": ");
                r.append(message.as_str());
                r
            },
            EnumerationError::Glob { path, message } => {
                let mut r: String = String::from_str("attempting to read `");
                r.append(path.as_str());
                r.append("` resulted in an error: ");
                r.append(message.as_str());
                r
            },
            EnumerationError::SystemTime { message } => message.clone(),
        }
    }
}

/// The line that reports one item of an enumeration: the path of a match,
/// the description of a failure.
pub open spec fn entry_line_spec(entry: Entry) -> Seq<char> {
    match entry {
        Ok(found) => found.path@,
        Err(e) => e.description(),
    }
}

/// How a truth value is written.
pub open spec fn bool_text(b: bool) -> Seq<char> {
    if b {
        "true"@
    } else {
        "false"@
    }
}

impl ChildEntry {
    /// The line that a plain listing shows for this child.
    pub open spec fn listing(self) -> Seq<char> {
        "is read only: "@ + bool_text(self.read_only) + ", size: "@ + decimal_text(
            self.size as nat,
        ) + " bytes, filename: "@ + self.name@
    }

    /// Writes the line that a plain listing shows for this child.
    pub fn listing_line(&self) -> (r: String)
        ensures
            r@ == self.listing(),
    {
        let mut r: String = String::from_str("is read only: ");
        r.append(if self.read_only { "true" } else { "false" });
        r.append(", size: ");
        r.append(decimal(self.size).as_str());
        r.append(" bytes, filename: ");
        r.append(self.name.as_str());
        r
    }
}

/// The directory that a line of input names: the line without the white
/// space at its ends. What is left is one stretch of the line, empty only if
/// the line is blank, with no white space at its start or its end.
pub fn directory_path(line: &str) -> (r: String)
    ensures
        r@ == trimmed(line@),
        r@.len() > 0 ==> !is_space(r@[0]) && !is_space(r@.last()),
        r@.len() == 0 <==> (forall|i: int| 0 <= i < line@.len() ==> is_space(#[trigger] line@[i])),
{
    proof {
        lemma_trimmed_ends(line@);
    }
    String::from_str(trim(line))
}

/// Appends the suffix `extension` to the directory's path, which gives the
/// search pattern.
pub fn add_extension(current_dir: String, extension: &str) -> (r: String)
    ensures
        r@ == search_pattern(current_dir@, extension@),
{
    let mut pattern: String = current_dir;
    pattern.append(extension);
    pattern
}

/// Calls `glob::glob_with` with the pattern and with match options that are
/// `MatchOptions::default()` but for `case_sensitive`. That function compiles
/// the pattern, and each of its components, before anything else, and fails
/// on nothing but a pattern that does not compile. The claim is that it hands
/// back a sequence exactly where the pattern has no fault, and otherwise the
/// place and the message of the fault, as `PatternError` holds them. Nothing
/// is claimed of the sequence, nor of which patterns have a fault.
#[verifier::external_body]
fn glob_search(pattern: &str, case_sensitive: bool) -> (r: Result<glob::Paths, (usize, String)>)
    ensures
        match pattern_fault(pattern@) {
            None => r is Ok,
            Some(fault) => r matches Err(e) && e.0 == fault.0 && e.1@ == fault.1,
        },
{
    let options = glob::MatchOptions { case_sensitive, ..Default::default() };
    match glob::glob_with(pattern, options) {
        Ok(paths) => Ok(paths),
        Err(e) => Err((e.pos, e.msg.to_string())),
    }
}

/// Turns what the pattern compiler answered into the library's result: a
/// sequence becomes a search that records the pattern and the case
/// sensitivity it was asked with, a fault becomes a `Pattern` error with the
/// same place and message.
pub fn search_outcome(
    pattern: String,
    case_sensitive: bool,
    answer: Result<glob::Paths, (usize, String)>,
) -> (r: Result<Search, EnumerationError>)
    ensures
        match answer {
            Ok(paths) => r matches Ok(search) && search.pattern@ == pattern@
                && search.case_sensitive == case_sensitive && search.paths == paths,
            Err(fault) => r matches Err(EnumerationError::Pattern { position, message })
                && position == fault.0 && message@ == fault.1@,
        },
{
    match answer {
        Ok(paths) => Ok(Search { pattern, case_sensitive, paths }),
        Err(fault) => Err(EnumerationError::Pattern { position: fault.0, message: fault.1 }),
    }
}

/// Starts the enumeration of the entries under `path` that match
/// `pattern_suffix`. The pattern is `path` followed by `pattern_suffix`. Where
/// it has no fault, the search for it is handed back, with the case
/// sensitivity asked for; where it has one, the fault comes back as a
/// `Pattern` error. Nothing else fails: a directory that is missing or cannot
/// be read shows only when the sequence is walked.
pub fn enumerate(path: &str, pattern_suffix: &str, case_sensitive: bool) -> (r: Result<
    Search,
    EnumerationError,
>)
    ensures
        match pattern_fault(search_pattern(path@, pattern_suffix@)) {
            None => r matches Ok(search) && search.pattern@ == search_pattern(
                path@,
                pattern_suffix@,
            ) && search.case_sensitive == case_sensitive,
            Some(fault) => r matches Err(EnumerationError::Pattern { position, message })
                && position == fault.0 && message@ == fault.1,
        },
{
    let pattern: String = add_extension(String::from_str(path), pattern_suffix);
    let answer = glob_search(pattern.as_str(), case_sensitive);
    search_outcome(pattern, case_sensitive, answer)
}

/// Takes one item of `glob`'s sequence apart into texts: for a match the
/// path as `Path::display` writes it, for a failure the path from
/// `GlobError::path`, written the same way, and the text of the cause from
/// `GlobError::error`. A match stays a match and a failure a failure, and the
/// path's text is the one named above. Nothing is claimed of the cause's
/// text, which is the system's wording.
#[verifier::external_body]
fn glob_item_texts(item: Result<std::path::PathBuf, glob::GlobError>) -> (r: Result<
    String,
    (String, String),
>)
    ensures
        match item {
            Ok(path) => r matches Ok(text) && text@ == path_text(path),
            Err(failure) => r matches Err(texts) && texts.0@ == failed_path_text(failure),
        },
{
    match item {
        Ok(path) => Ok(path.display().to_string()),
        Err(e) => Err((e.path().display().to_string(), e.error().to_string())),
    }
}

/// Makes an entry of the texts of one item: a match keeps its path, a failure
/// becomes a `Glob` error with the path and the cause.
pub fn entry_of_texts(texts: Result<String, (String, String)>) -> (r: Entry)
    ensures
        match texts {
            Ok(path) => r matches Ok(found) && found.path@ == path@,
            Err(cause) => r matches Err(EnumerationError::Glob { path, message })
                && path@ == cause.0@ && message@ == cause.1@,
        },
{
    match texts {
        Ok(path) => Ok(PathEntry { path }),
        Err(cause) => Err(EnumerationError::Glob { path: cause.0, message: cause.1 }),
    }
}

/// Makes an entry of one item that the sequence yielded: a match gives a path
/// entry with the path's text, a failure gives a `Glob` error with the text
/// of the path that could not be read, never anything else.
pub fn entry_of(item: Result<std::path::PathBuf, glob::GlobError>) -> (r: Entry)
    ensures
        match item {
            Ok(path) => r matches Ok(found) && found.path@ == path_text(path),
            Err(failure) => r matches Err(EnumerationError::Glob { path, message })
                && path@ == failed_path_text(failure),
        },
{
    entry_of_texts(glob_item_texts(item))
}

/// Writes the line that reports one item of an enumeration.
pub fn entry_line(entry: &Entry) -> (r: String)
    ensures
        r@ == entry_line_spec(*entry),
{
    match entry {
        Ok(found) => found.path.clone(),
        Err(e) => e.describe(),
    }
}

/// Writes the report of a whole enumeration: one line for each item, in the
/// order of the items. A failed item gives its line like any other and
/// nothing after it is left out.
pub fn report(entries: &Vec<Entry>) -> (lines: Vec<String>)
    ensures
        lines.len() == entries.len(),
        forall|i: int|
            0 <= i < entries.len() ==> (#[trigger] lines[i])@ == entry_line_spec(entries[i]),
{
    let mut lines: Vec<String> = Vec::new();
    let mut i: usize = 0;
    while i < entries.len()
        invariant
            i <= entries.len(),
            lines.len() == i,
            forall|j: int| 0 <= j < i ==> (#[trigger] lines[j])@ == entry_line_spec(entries[j]),
        decreases entries.len() - i,
    {
        lines.push(entry_line(&entries[i]));
        i += 1;
    }
    lines
}

} // verus!
