//! Path patterns that name the log files to follow.
//!
//! A pattern is a path with at most one `*` in it. Without a wildcard it
//! names one file. With the wildcard inside the last segment it names the
//! files of one directory whose names begin and end as the segment does.
//! With the wildcard as a whole segment it names one file in each
//! subdirectory of a directory. In both wildcard forms the text that the
//! wildcard stands for becomes the label of the file.

use path_slash::PathExt;
use std::path::Path;
use vstd::prelude::*;

use crate::text::blank;
use crate::text::chars_of;
use crate::text::ends_with_from;
use crate::text::find_first;
use crate::text::find_last;
use crate::text::is_blank;
use crate::text::slice_of;
use crate::text::starts_with;

verus! {

/// Why a text is not a pattern.
#[derive(Debug, Clone, Copy, PartialEq, Eq, Structural)]
pub enum PatternError {
    /// The path cannot be written as a string with `/` as its separator.
    /// No path that is given as text is of that sort.
    InvalidPath,
    /// The text is empty or blank.
    Empty,
    /// There is more than one `*`.
    TooManyWildcards,
    /// The wildcard shares a directory's segment with other text.
    FolderWildcardWithAffix,
}

impl PatternError {
    /// The error in words.
    pub fn message(&self) -> (r: String)
        ensures
            r@ == match *self {
                PatternError::InvalidPath => "Path is invalid"@,
                PatternError::Empty => "Path is empty"@,
                PatternError::TooManyWildcards => "Path has too many wildcards"@,
                PatternError::FolderWildcardWithAffix =>
                    "Path has a folder wildcard with a prefix or suffix"@,
            },
    {
        match self {
            PatternError::InvalidPath => "Path is invalid".to_owned(),
            PatternError::Empty => "Path is empty".to_owned(),
            PatternError::TooManyWildcards => "Path has too many wildcards".to_owned(),
            PatternError::FolderWildcardWithAffix =>
                "Path has a folder wildcard with a prefix or suffix".to_owned(),
        }
    }
}

/// A pattern whose wildcard lies in the file name: `path/prefix*suffix`.
#[derive(Debug)]
pub struct PatternWithFileNameWildcard {
    /// The directory, without a trailing `/`; empty where the pattern has
    /// no `/` before the wildcard.
    pub path: String,
    pub file_name_prefix: String,
    pub file_name_suffix: String,
}

/// A pattern whose wildcard is a whole segment: `prefix/*/suffix`.
#[derive(Debug)]
pub struct PatternWithFolderNameWildcard {
    /// The directory to look into, with its trailing `/`.
    pub path_prefix: String,
    /// The path below each subdirectory, without a leading `/`.
    pub path_suffix: String,
}

/// A parsed pattern.
#[derive(Debug)]
pub enum LogFilePattern {
    WithoutWildcard(String),
    WithFileNameWildcard(PatternWithFileNameWildcard),
    WithFolderNameWildcard(PatternWithFolderNameWildcard),
}

/// A pattern as plain text.
pub enum PatternView {
    WithoutWildcard(Seq<char>),
    WithFileNameWildcard { path: Seq<char>, file_name_prefix: Seq<char>, file_name_suffix: Seq<char> },
    WithFolderNameWildcard { path_prefix: Seq<char>, path_suffix: Seq<char> },
}

impl View for LogFilePattern {
    type V = PatternView;

    open spec fn view(&self) -> PatternView {
        match *self {
            LogFilePattern::WithoutWildcard(path) => PatternView::WithoutWildcard(path@),
            LogFilePattern::WithFileNameWildcard(p) => PatternView::WithFileNameWildcard {
                path: p.path@,
                file_name_prefix: p.file_name_prefix@,
                file_name_suffix: p.file_name_suffix@,
            },
            LogFilePattern::WithFolderNameWildcard(p) => PatternView::WithFolderNameWildcard {
                path_prefix: p.path_prefix@,
                path_suffix: p.path_suffix@,
            },
        }
    }
}

/// The outcome of parsing, with the pattern as plain text.
pub open spec fn parsed_view(r: Result<LogFilePattern, PatternError>) -> Result<
    PatternView,
    PatternError,
> {
    match r {
        Ok(pattern) => Ok(pattern@),
        Err(e) => Err(e),
    }
}

/// What the two sides of the first wildcard make of a pattern.
///
/// A further `*` on either side is an error. If the wildcard stands between
/// two `/`, it is a folder wildcard: the left side is the directory to look
/// into, the right side without its first `/` the path below each
/// subdirectory. Otherwise a `/` on the right side is an error, since the
/// wildcard would share a directory's segment with other text. What is left
/// is a file-name wildcard: the left side is cut at its last `/` into the
/// directory and the beginning of the name, and the right side is the end
/// of the name.
pub open spec fn split_on_wildcard_spec(left: Seq<char>, right: Seq<char>) -> Result<
    PatternView,
    PatternError,
> {
    if left.contains('*') || right.contains('*') {
        Err(PatternError::TooManyWildcards)
    } else if left.len() > 0 && left.last() == '/' && right.len() > 0 && right.first() == '/' {
        Ok(PatternView::WithFolderNameWildcard { path_prefix: left, path_suffix: right.skip(1) })
    } else if right.contains('/') {
        Err(PatternError::FolderWildcardWithAffix)
    } else {
        match left.index_of_last('/') {
            Some(cut) => Ok(
                PatternView::WithFileNameWildcard {
                    path: left.take(cut),
                    file_name_prefix: left.skip(cut + 1),
                    file_name_suffix: right,
                },
            ),
            None => Ok(
                PatternView::WithFileNameWildcard {
                    path: Seq::empty(),
                    file_name_prefix: left,
                    file_name_suffix: right,
                },
            ),
        }
    }
}

/// What a text with `/` as its separator means as a pattern: blank text is
/// an error, text without `*` names one file, and any other text is split
/// at its first `*`.
pub open spec fn parse_spec(pattern: Seq<char>) -> Result<PatternView, PatternError> {
    if blank(pattern) {
        Err(PatternError::Empty)
    } else {
        match pattern.index_of_first('*') {
            Some(star) => split_on_wildcard_spec(pattern.take(star), pattern.skip(star + 1)),
            None => Ok(PatternView::WithoutWildcard(pattern)),
        }
    }
}

/// Calls `path_slash::PathExt::to_slash` on the text taken as a path. The
/// crate returns the path with `/` as its separator, or `None` where a part
/// of the path is not valid Unicode; a path made from a string is valid
/// Unicode in every part, so there is always a result. What separators the
/// crate finds to replace depends on the platform it was built for, so no
/// more is claimed.
#[verifier::external_body]
pub(crate) fn to_slash(pattern: &str) -> (r: Option<String>)
    ensures
        r is Some,
{
    Path::new(pattern).to_slash().map(|s| s.into_owned())
}

/// Reads a pattern from the two sides of its first wildcard.
pub fn parse_log_file_pattern_split_on_wildcard(left: &str, right: &str) -> (r: Result<
    LogFilePattern,
    PatternError,
>)
    ensures
        parsed_view(r) == split_on_wildcard_spec(left@, right@),
{
    let l = chars_of(left);
    let r = chars_of(right);
    if find_first(&l, '*').is_some() || find_first(&r, '*').is_some() {
        return Err(PatternError::TooManyWildcards);
    }
    if l.len() > 0 && l[l.len() - 1] == '/' && r.len() > 0 && r[0] == '/' {
        return Ok(
            LogFilePattern::WithFolderNameWildcard(
                PatternWithFolderNameWildcard {
                    path_prefix: left.to_owned(),
                    path_suffix: slice_of(right, 1, r.len()),
                },
            ),
        );
    }
    if find_first(&r, '/').is_some() {
        return Err(PatternError::FolderWildcardWithAffix);
    }
    match find_last(&l, '/') {
        Some(cut) => Ok(
            LogFilePattern::WithFileNameWildcard(
                PatternWithFileNameWildcard {
                    path: slice_of(left, 0, cut),
                    file_name_prefix: slice_of(left, cut + 1, l.len()),
                    file_name_suffix: right.to_owned(),
                },
            ),
        ),
        None => Ok(
            LogFilePattern::WithFileNameWildcard(
                PatternWithFileNameWildcard {
                    path: String::new(),
                    file_name_prefix: left.to_owned(),
                    file_name_suffix: right.to_owned(),
                },
            ),
        ),
    }
}

/// Reads a pattern from a text that has `/` as its separator.
pub fn parse_slash_pattern(pattern: &str) -> (r: Result<LogFilePattern, PatternError>)
    ensures
        parsed_view(r) == parse_spec(pattern@),
{
    let chars = chars_of(pattern);
    if is_blank(&chars) {
        return Err(PatternError::Empty);
    }
    match find_first(&chars, '*') {
        Some(star) => {
            assert(star < chars@.len());
            let left = pattern.substring_char(0, star);
            let right = pattern.substring_char(star + 1, chars.len());
            parse_log_file_pattern_split_on_wildcard(left, right)
        },
        None => Ok(LogFilePattern::WithoutWildcard(pattern.to_owned())),
    }
}

/// Reads a pattern from a text as it was configured.
///
/// The text is first brought into the form with `/` as separator, which is
/// the platform's doing; the result is what `parse_slash_pattern` makes of
/// the text in that form.
pub fn parse_log_file_pattern_from_str(pattern: &str) -> (r: Result<LogFilePattern, PatternError>)
    ensures
        exists|slashed: Seq<char>| parsed_view(r) == #[trigger] parse_spec(slashed),
{
    match to_slash(pattern) {
        Some(slashed) => parse_slash_pattern(slashed.as_str()),
        None => Err(PatternError::InvalidPath),
    }
}

/// A log file that a pattern has found.
#[derive(Debug)]
pub struct LogFilePath {
    pub path: String,
    /// What the wildcard stood for; empty for a pattern without one.
    pub label: String,
}

impl LogFilePath {
    /// The file at `s`, with the empty label.
    pub fn with_empty_label(s: &String) -> (r: LogFilePath)
        ensures
            r.path@ == s@,
            r.label@ == Seq::<char>::empty(),
    {
        LogFilePath { path: s.clone(), label: String::new() }
    }
}

/// Found files as plain text: each a path and a label.
pub open spec fn files_view(files: Seq<LogFilePath>) -> Seq<(Seq<char>, Seq<char>)> {
    files.map_values(|f: LogFilePath| (f.path@, f.label@))
}

/// What the wildcard stands for in a file name: the name must begin with
/// `prefix`, and what follows the prefix must end with `suffix`; the label
/// is the text between the two.
pub open spec fn match_wildcard_spec(prefix: Seq<char>, suffix: Seq<char>, name: Seq<char>) -> Option<
    Seq<char>,
> {
    if prefix.is_prefix_of(name) && suffix.is_suffix_of(name.skip(prefix.len() as int)) {
        Some(name.subrange(prefix.len() as int, name.len() - suffix.len()))
    } else {
        None
    }
}

/// The label that a file name gets from a prefix and a suffix given by
/// their characters.
fn match_chars<'a>(prefix: &Vec<char>, suffix: &Vec<char>, file_name: &'a str) -> (r: Option<
    &'a str,
>)
    ensures
        match r {
            Some(label) => match_wildcard_spec(prefix@, suffix@, file_name@) == Some(label@),
            None => match_wildcard_spec(prefix@, suffix@, file_name@) is None,
        },
{
    let name = chars_of(file_name);
    if !starts_with(&name, prefix) {
        return None;
    }
    if !ends_with_from(&name, prefix.len(), suffix) {
        return None;
    }
    assert(name@.skip(prefix@.len() as int).len() == name@.len() - prefix@.len());
    Some(file_name.substring_char(prefix.len(), name.len() - suffix.len()))
}

impl PatternWithFileNameWildcard {
    /// The label of a file name under this pattern, if the name fits it.
    pub fn match_wildcard<'a>(&self, file_name: &'a str) -> (r: Option<&'a str>)
        ensures
            match r {
                Some(label) => match_wildcard_spec(
                    self.file_name_prefix@,
                    self.file_name_suffix@,
                    file_name@,
                ) == Some(label@),
                None => match_wildcard_spec(
                    self.file_name_prefix@,
                    self.file_name_suffix@,
                    file_name@,
                ) is None,
            },
    {
        let prefix = chars_of(self.file_name_prefix.as_str());
        let suffix = chars_of(self.file_name_suffix.as_str());
        match_chars(&prefix, &suffix, file_name)
    }

    /// The label of a directory entry under this pattern: that of its name,
    /// where the name is valid Unicode and fits the pattern.
    pub fn match_wildcard_on_dir_entry(&self, dir_entry: &DirEntryFacts) -> (r: Option<String>)
        ensures
            match r {
                Some(label) => entry_label(
                    self.file_name_prefix@,
                    self.file_name_suffix@,
                    *dir_entry,
                ) == Some(label@),
                None => entry_label(self.file_name_prefix@, self.file_name_suffix@, *dir_entry)
                    is None,
            },
    {
        match &dir_entry.file_name {
            Some(name) => match self.match_wildcard(name.as_str()) {
                Some(label) => Some(label.to_owned()),
                None => None,
            },
            None => None,
        }
    }
}

impl PatternWithFolderNameWildcard {
    /// The label of a directory entry under a folder wildcard: the entry's
    /// name, where the entry is a directory and its name is valid Unicode.
    pub fn match_wildcard_on_dir_entry(dir_entry: &DirEntryFacts) -> (r: Option<String>)
        ensures
            match r {
                Some(label) => folder_entry_label(*dir_entry) == Some(label@),
                None => folder_entry_label(*dir_entry) is None,
            },
    {
        if dir_entry.is_dir {
            match &dir_entry.file_name {
                Some(name) => Some(name.clone()),
                None => None,
            }
        } else {
            None
        }
    }
}

/// What has to be looked up on the filesystem before a pattern can be
/// resolved.
#[derive(Debug)]
pub enum SearchRequest {
    /// Whether `path` is a regular file, and whether its parent is a
    /// directory.
    Stat { path: String },
    /// The entries of the directory `dir`, not of its subdirectories; where
    /// `below` is given, also for each entry whether that path below it is a
    /// regular file.
    List { dir: String, below: Option<String> },
}

/// What the filesystem shows of one path.
#[derive(Debug, Clone, Copy, PartialEq, Eq, Structural)]
pub struct PathFacts {
    pub is_file: bool,
    pub parent_is_dir: bool,
}

/// A path below a directory entry, and whether a regular file is there.
#[derive(Debug)]
pub struct NestedFile {
    pub path: String,
    pub is_file: bool,
}

/// What the filesystem shows of one entry of a directory.
#[derive(Debug)]
pub struct DirEntryFacts {
    /// The entry's name; `None` where it is not valid Unicode.
    pub file_name: Option<String>,
    /// The entry's path.
    pub path: String,
    pub is_dir: bool,
    /// The path that was asked about below this entry.
    pub nested: Option<NestedFile>,
}

/// The answer to a `SearchRequest`.
#[derive(Debug)]
pub enum SearchFacts {
    Stat(PathFacts),
    Listing(Vec<DirEntryFacts>),
    /// The directory could not be read.
    Unreadable,
}

/// Why a pattern could not be resolved.
#[derive(Debug, Clone, Copy, PartialEq, Eq, Structural)]
pub enum SearchError {
    /// Neither the file nor its parent directory exists.
    NotFound,
    /// The directory could not be read.
    ReadFailed,
    /// The facts answer another kind of request than the pattern makes.
    FactsDoNotFit,
}

/// The label of a directory entry under a file-name wildcard.
pub open spec fn entry_label(prefix: Seq<char>, suffix: Seq<char>, entry: DirEntryFacts) -> Option<
    Seq<char>,
> {
    match entry.file_name {
        Some(name) => match_wildcard_spec(prefix, suffix, name@),
        None => None,
    }
}

/// The files of a directory that fit a file-name wildcard, in the order of
/// the listing: each with the entry's path and the label from its name.
pub open spec fn file_name_matches(
    prefix: Seq<char>,
    suffix: Seq<char>,
    entries: Seq<DirEntryFacts>,
) -> Seq<(Seq<char>, Seq<char>)>
    decreases entries.len(),
{
    if entries.len() == 0 {
        Seq::empty()
    } else {
        let front = file_name_matches(prefix, suffix, entries.drop_last());
        match entry_label(prefix, suffix, entries.last()) {
            Some(label) => front.push((entries.last().path@, label)),
            None => front,
        }
    }
}

/// The label of a directory entry under a folder wildcard: the name of a
/// directory, where it is valid Unicode.
pub open spec fn folder_entry_label(entry: DirEntryFacts) -> Option<Seq<char>> {
    match entry.file_name {
        Some(name) => if entry.is_dir {
            Some(name@)
        } else {
            None
        },
        None => None,
    }
}

/// What a directory entry yields under a folder wildcard: it must have a
/// label, and the path asked about below it must be a regular file. That
/// path is the file.
pub open spec fn folder_entry_match(entry: DirEntryFacts) -> Option<(Seq<char>, Seq<char>)> {
    match (folder_entry_label(entry), entry.nested) {
        (Some(label), Some(nested)) => if nested.is_file {
            Some((nested.path@, label))
        } else {
            None
        },
        _ => None,
    }
}

/// The files that a folder wildcard finds, in the order of the listing.
pub open spec fn folder_matches(entries: Seq<DirEntryFacts>) -> Seq<(Seq<char>, Seq<char>)>
    decreases entries.len(),
{
    if entries.len() == 0 {
        Seq::empty()
    } else {
        let front = folder_matches(entries.drop_last());
        match folder_entry_match(entries.last()) {
            Some(found) => front.push(found),
            None => front,
        }
    }
}

/// What a pattern resolves to, given what the filesystem shows.
pub open spec fn search_spec(pattern: PatternView, facts: SearchFacts) -> Result<
    Seq<(Seq<char>, Seq<char>)>,
    SearchError,
> {
    match (pattern, facts) {
        (_, SearchFacts::Unreadable) => Err(SearchError::ReadFailed),
        (PatternView::WithoutWildcard(path), SearchFacts::Stat(f)) => if f.is_file
            || f.parent_is_dir {
            Ok(seq![(path, Seq::empty())])
        } else {
            Err(SearchError::NotFound)
        },
        (
            PatternView::WithFileNameWildcard { path, file_name_prefix, file_name_suffix },
            SearchFacts::Listing(entries),
        ) => Ok(file_name_matches(file_name_prefix, file_name_suffix, entries@)),
        (PatternView::WithFolderNameWildcard { .. }, SearchFacts::Listing(entries)) => Ok(
            folder_matches(entries@),
        ),
        _ => Err(SearchError::FactsDoNotFit),
    }
}

/// The outcome of a search, with the files as plain text.
pub open spec fn found_view(r: Result<Vec<LogFilePath>, SearchError>) -> Result<
    Seq<(Seq<char>, Seq<char>)>,
    SearchError,
> {
    match r {
        Ok(files) => Ok(files_view(files@)),
        Err(e) => Err(e),
    }
}

impl LogFilePattern {
    /// What has to be looked up for this pattern.
    pub fn request(&self) -> (r: SearchRequest)
        ensures
            match self@ {
                PatternView::WithoutWildcard(path) => r matches SearchRequest::Stat { path: p }
                    && p@ == path,
                PatternView::WithFileNameWildcard { path, .. } => r matches SearchRequest::List {
                    dir,
                    below,
                } && dir@ == path && below is None,
                PatternView::WithFolderNameWildcard {
                    path_prefix,
                    path_suffix,
                } => r matches SearchRequest::List { dir, below } && dir@ == path_prefix && (
                below matches Some(b) && b@ == path_suffix),
            },
    {
        match self {
            LogFilePattern::WithoutWildcard(path) => SearchRequest::Stat { path: path.clone() },
            LogFilePattern::WithFileNameWildcard(p) => SearchRequest::List {
                dir: p.path.clone(),
                below: None,
            },
            LogFilePattern::WithFolderNameWildcard(p) => SearchRequest::List {
                dir: p.path_prefix.clone(),
                below: Some(p.path_suffix.clone()),
            },
        }
    }

    /// Resolves the pattern to the files it names, given what the
    /// filesystem shows. The files come in the order of the listing.
    pub fn search(&self, facts: &SearchFacts) -> (r: Result<Vec<LogFilePath>, SearchError>)
        ensures
            found_view(r) == search_spec(self@, *facts),
    {
        match facts {
            SearchFacts::Unreadable => Err(SearchError::ReadFailed),
            SearchFacts::Stat(f) => match self {
                LogFilePattern::WithoutWildcard(path) => Self::search_without_wildcard(path, *f),
                _ => Err(SearchError::FactsDoNotFit),
            },
            SearchFacts::Listing(entries) => match self {
                LogFilePattern::WithoutWildcard(_) => Err(SearchError::FactsDoNotFit),
                LogFilePattern::WithFileNameWildcard(p) => Ok(
                    Self::search_with_file_name_wildcard(p, entries),
                ),
                LogFilePattern::WithFolderNameWildcard(_) => Ok(
                    Self::search_with_folder_name_wildcard(entries),
                ),
            },
        }
    }

    /// A pattern without a wildcard names its path if a regular file is
    /// there, or if at least the directory is there that would hold it.
    pub fn search_without_wildcard(path_str: &String, facts: PathFacts) -> (r: Result<
        Vec<LogFilePath>,
        SearchError,
    >)
        ensures
            found_view(r) == search_spec(
                PatternView::WithoutWildcard(path_str@),
                SearchFacts::Stat(facts),
            ),
    {
        if facts.is_file || facts.parent_is_dir {
            let mut found: Vec<LogFilePath> = Vec::new();
            found.push(LogFilePath::with_empty_label(path_str));
            assert(files_view(found@) =~= seq![(path_str@, Seq::<char>::empty())]);
            Ok(found)
        } else {
            Err(SearchError::NotFound)
        }
    }

    /// The entries of the pattern's directory whose names fit the wildcard.
    pub fn search_with_file_name_wildcard(
        pattern: &PatternWithFileNameWildcard,
        entries: &Vec<DirEntryFacts>,
    ) -> (r: Vec<LogFilePath>)
        ensures
            files_view(r@) == file_name_matches(
                pattern.file_name_prefix@,
                pattern.file_name_suffix@,
                entries@,
            ),
    {
        let mut found: Vec<LogFilePath> = Vec::new();
        let mut i: usize = 0;
        assert(files_view(found@) =~= Seq::empty());
        while i < entries.len()
            invariant
                i <= entries.len(),
                files_view(found@) == file_name_matches(
                    pattern.file_name_prefix@,
                    pattern.file_name_suffix@,
                    entries@.take(i as int),
                ),
            decreases entries.len() - i,
        {
            let entry = &entries[i];
            let ghost before = found@;
            proof {
                assert(entries@.take(i + 1).drop_last() == entries@.take(i as int));
                assert(entries@.take(i + 1).last() == entries@[i as int]);
            }
            match pattern.match_wildcard_on_dir_entry(entry) {
                Some(label) => {
                    let file = LogFilePath { path: entry.path.clone(), label };
                    found.push(file);
                    assert(files_view(found@) =~= files_view(before).push((entry.path@, label@)));
                },
                None => {},
            }
            i += 1;
        }
        assert(entries@.take(entries.len() as int) == entries@);
        found
    }

    /// One file for each subdirectory that holds the path asked about below
    /// it as a regular file. Which path that is, the pattern has said in its
    /// request.
    pub fn search_with_folder_name_wildcard(entries: &Vec<DirEntryFacts>) -> (r: Vec<LogFilePath>)
        ensures
            files_view(r@) == folder_matches(entries@),
    {
        let mut found: Vec<LogFilePath> = Vec::new();
        let mut i: usize = 0;
        assert(files_view(found@) =~= Seq::empty());
        while i < entries.len()
            invariant
                i <= entries.len(),
                files_view(found@) == folder_matches(entries@.take(i as int)),
            decreases entries.len() - i,
        {
            let entry = &entries[i];
            let ghost before = found@;
            proof {
                assert(entries@.take(i + 1).drop_last() == entries@.take(i as int));
                assert(entries@.take(i + 1).last() == entries@[i as int]);
            }
            match (PatternWithFolderNameWildcard::match_wildcard_on_dir_entry(entry), &entry.nested) {
                (Some(label), Some(nested)) => {
                    if nested.is_file {
                        let file = LogFilePath { path: nested.path.clone(), label };
                        found.push(file);
                        assert(files_view(found@) =~= files_view(before).push(
                            (nested.path@, label@),
                        ));
                    }
                },
                _ => {},
            }
            i += 1;
        }
        assert(entries@.take(entries.len() as int) == entries@);
        found
    }
}

/// Why no log file was found for a pattern.
#[derive(Debug, Clone, Copy, PartialEq, Eq, Structural)]
pub enum FindError {
    /// The pattern could not be resolved.
    Search(SearchError),
    /// The pattern was resolved, and names no file.
    NoMatch,
}

impl FindError {
    /// The error in words; `pattern` is the pattern as it was configured.
    pub fn message(&self, pattern: &str) -> (r: String)
        ensures
            r@ == match *self {
                FindError::Search(_) => "Could not search files: "@ + pattern@,
                FindError::NoMatch => "No files match pattern: "@ + pattern@,
            },
    {
        match self {
            FindError::Search(_) => "Could not search files: ".to_owned().concat(pattern),
            FindError::NoMatch => "No files match pattern: ".to_owned().concat(pattern),
        }
    }
}

/// What looking for the log files of a pattern comes to: the files that
/// the pattern resolves to, where there is at least one.
pub open spec fn find_spec(pattern: PatternView, facts: SearchFacts) -> Result<
    Seq<(Seq<char>, Seq<char>)>,
    FindError,
> {
    match search_spec(pattern, facts) {
        Ok(files) => if files.len() == 0 {
            Err(FindError::NoMatch)
        } else {
            Ok(files)
        },
        Err(e) => Err(FindError::Search(e)),
    }
}

/// Finds the log files of a pattern, given what the filesystem shows. A
/// pattern that names no file is an error: following nothing is taken for
/// a mistake in the configuration.
pub fn find_log_files(pattern: &LogFilePattern, facts: &SearchFacts) -> (r: Result<
    Vec<LogFilePath>,
    FindError,
>)
    ensures
        match r {
            Ok(files) => find_spec(pattern@, *facts) == Ok::<
                Seq<(Seq<char>, Seq<char>)>,
                FindError,
            >(files_view(files@)),
            Err(e) => find_spec(pattern@, *facts) == Err::<Seq<(Seq<char>, Seq<char>)>, FindError>(
                e,
            ),
        },
{
    match pattern.search(facts) {
        Ok(files) => {
            if files.len() == 0 {
                Err(FindError::NoMatch)
            } else {
                Ok(files)
            }
        },
        Err(e) => Err(FindError::Search(e)),
    }
}

} // verus!
