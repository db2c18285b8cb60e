//! The usage scanner: which files of a workspace mention a pattern.
//!
//! The workspace is handed over as a listing: its entries in the order of a
//! depth-first walk, each with its depth below the root and, for a file, its
//! bytes. The scanner decides which entries the walk visits, which files are
//! searched, and which of them are reported.

use crate::text::{ends_with, same_text, starts_with};
use grep::regex::RegexMatcher;
use grep::searcher::sinks::Bytes;
use grep::searcher::{BinaryDetection, SearcherBuilder};
use vstd::prelude::*;

verus! {

/// What a listed entry is.
#[derive(Debug)]
pub enum EntryKind {
    /// A directory; the entries below it follow it, one level deeper.
    Dir,
    /// A file, with its bytes.
    File(Vec<u8>),
    /// Anything that could not be read.
    Unreadable,
}

/// One entry of a workspace listing.
#[derive(Debug)]
pub struct WalkEntry {
    /// The entry's own name; `None` where it is not valid Unicode.
    pub name: Option<String>,
    /// The entry's path, which is what a hit reports.
    pub path: String,
    /// How far below the root the entry lies; the root itself is at 0.
    pub depth: usize,
    pub kind: EntryKind,
}

/// A name that begins with a dot.
pub open spec fn is_hidden(name: Seq<char>) -> bool {
    "."@.is_prefix_of(name)
}

/// The name of the directory that holds build output.
pub open spec fn is_build_output(name: Seq<char>) -> bool {
    name == "target"@
}

/// A name that ends in `.rs`.
pub open spec fn is_source_name(name: Seq<char>) -> bool {
    ".rs"@.is_suffix_of(name)
}

/// The rule on names: nothing hidden, not the build output, and of the files
/// only source files. An entry without a Unicode name passes only as a
/// directory.
pub open spec fn included(name: Option<Seq<char>>, is_dir: bool) -> bool {
    match name {
        Some(n) => !is_hidden(n) && !is_build_output(n) && (is_dir || is_source_name(n)),
        None => is_dir,
    }
}

/// The characters of an optional name.
pub open spec fn name_view(name: Option<&str>) -> Option<Seq<char>> {
    match name {
        Some(n) => Some(n@),
        None => None,
    }
}

impl WalkEntry {
    /// Whether the entry is a directory.
    pub open spec fn is_dir(self) -> bool {
        self.kind is Dir
    }

    /// The characters of the entry's name, where it has one.
    pub open spec fn spec_name(self) -> Option<Seq<char>> {
        match self.name {
            Some(n) => Some(n@),
            None => None,
        }
    }

    /// Whether the entry passes the rule on names.
    pub open spec fn passes(self) -> bool {
        included(self.spec_name(), self.is_dir())
    }

    /// A directory that fails the rule takes everything below it with it.
    pub open spec fn prunes(self) -> bool {
        self.is_dir() && !self.passes()
    }
}

/// Every entry after `j` and before `end` lies deeper than `j`.
pub open spec fn deeper_until(entries: Seq<WalkEntry>, j: int, end: int) -> bool {
    forall|k: int| j < k < end ==> (#[trigger] entries[k]).depth > entries[j].depth
}

/// Entry `i` lies in the subtree of entry `j`.
pub open spec fn below(entries: Seq<WalkEntry>, j: int, i: int) -> bool {
    0 <= j < i < entries.len() && deeper_until(entries, j, i + 1)
}

/// Entry `i` lies in the subtree of a directory that fails the rule on names.
pub open spec fn in_excluded_subtree(entries: Seq<WalkEntry>, i: int) -> bool {
    exists|j: int| (#[trigger] entries[j]).prunes() && below(entries, j, i)
}

/// The walk visits entry `i`: it passes the rule on names and lies in no
/// excluded subtree.
pub open spec fn visited(entries: Seq<WalkEntry>, i: int) -> bool {
    0 <= i < entries.len() && entries[i].passes() && !in_excluded_subtree(entries, i)
}

/// Whether the walk keeps an entry of this name: a hidden entry or the build
/// output is left out, and of the files only source files are kept.
pub fn include_entry(name: Option<&str>, is_dir: bool) -> (r: bool)
    ensures
        r == included(name_view(name), is_dir),
{
    match name {
        Some(n) => {
            let is_hidden = starts_with(n, ".");
            let is_target = same_text(n, "target");
            let is_rs_type = ends_with(n, ".rs");
            !is_hidden && !is_target && (is_dir || is_rs_type)
        },
        None => is_dir,
    }
}

/// For each entry of the listing, whether the walk visits it.
pub fn visit_flags(entries: &Vec<WalkEntry>) -> (flags: Vec<bool>)
    ensures
        flags.len() == entries.len(),
        forall|i: int| 0 <= i < entries.len() ==> flags[i] == visited(entries@, i),
{
    let mut flags: Vec<bool> = Vec::new();
    let mut root: Option<usize> = None;
    let mut i: usize = 0;
    while i < entries.len()
        invariant
            i <= entries.len(),
            flags.len() == i,
            forall|t: int| 0 <= t < i ==> flags[t] == visited(entries@, t),
            root is None ==> forall|j: int|
                0 <= j < i && (#[trigger] entries[j]).prunes() ==> !deeper_until(entries@, j, i as int),
            root matches Some(r) ==> {
                &&& r < i
                &&& entries[r as int].prunes()
                &&& deeper_until(entries@, r as int, i as int)
                &&& forall|j: int|
                    0 <= j < i && (#[trigger] entries[j]).prunes() && deeper_until(
                        entries@,
                        j,
                        i as int,
                    ) ==> entries[j].depth >= entries[r as int].depth
            },
        decreases entries.len() - i,
    {
        let entry = &entries[i];
        let under = match root {
            Some(r) => entry.depth > entries[r].depth,
            None => false,
        };
        if under {
            proof {
                let r = root->0 as int;
                assert(below(entries@, r, i as int));
            }
            flags.push(false);
        } else {
            proof {
                if in_excluded_subtree(entries@, i as int) {
                    let j = choose|j: int|
                        (#[trigger] entries@[j]).prunes() && below(entries@, j, i as int);
                    assert(deeper_until(entries@, j, i as int));
                    assert(entries[i as int].depth > entries[j].depth);
                }
            }
            let is_dir = match entry.kind {
                EntryKind::Dir => true,
                _ => false,
            };
            let name = match &entry.name {
                Some(n) => Some(n.as_str()),
                None => None,
            };
            let keep = include_entry(name, is_dir);
            flags.push(keep);
            root = if is_dir && !keep {
                Some(i)
            } else {
                None
            };
            proof {
                assert forall|j: int|
                    0 <= j < i && (#[trigger] entries[j]).prunes() implies !deeper_until(
                    entries@,
                    j,
                    i + 1,
                ) by {
                    if deeper_until(entries@, j, i + 1) {
                        assert(below(entries@, j, i as int));
                    }
                }
            }
        }
        i += 1;
    }
    flags
}

/// The byte that marks a file as binary.
pub const BINARY_SENTINEL: u8 = 0;

/// Whether `contents` holds the sentinel byte anywhere.
pub fn is_binary(contents: &[u8]) -> (r: bool)
    ensures
        r == contents@.contains(BINARY_SENTINEL),
{
    let mut i: usize = 0;
    while i < contents.len()
        invariant
            i <= contents.len(),
            forall|k: int| 0 <= k < i ==> contents@[k] != BINARY_SENTINEL,
        decreases contents.len() - i,
    {
        if contents[i] == BINARY_SENTINEL {
            return true;
        }
        i += 1;
    }
    false
}

/// Entry `i` is searched: the walk visits it, and it is a file that is not
/// binary.
pub open spec fn searched(entries: Seq<WalkEntry>, i: int) -> bool {
    &&& visited(entries, i)
    &&& entries[i].kind matches EntryKind::File(bytes)
    &&& !bytes@.contains(BINARY_SENTINEL)
}

/// For each entry of the listing, whether it is searched.
pub fn search_flags(entries: &Vec<WalkEntry>) -> (flags: Vec<bool>)
    ensures
        flags.len() == entries.len(),
        forall|i: int| 0 <= i < entries.len() ==> flags[i] == searched(entries@, i),
{
    let visit = visit_flags(entries);
    let mut flags: Vec<bool> = Vec::new();
    let mut i: usize = 0;
    while i < entries.len()
        invariant
            i <= entries.len(),
            visit.len() == entries.len(),
            forall|t: int| 0 <= t < entries.len() ==> visit[t] == visited(entries@, t),
            flags.len() == i,
            forall|t: int| 0 <= t < i ==> flags[t] == searched(entries@, t),
        decreases entries.len() - i,
    {
        let flag = match &entries[i].kind {
            EntryKind::File(bytes) => visit[i] && !is_binary(bytes.as_slice()),
            _ => false,
        };
        flags.push(flag);
        i += 1;
    }
    flags
}

/// Whether entry `i` is marked in `matched`; an entry that `matched` does not
/// reach is not.
pub open spec fn marked(matched: Seq<bool>, i: int) -> bool {
    0 <= i < matched.len() && matched[i]
}

/// The paths of the searched entries among the first `n` that `matched`
/// marks, in the order of the listing.
pub open spec fn selected(entries: Seq<WalkEntry>, matched: Seq<bool>, n: int) -> Seq<Seq<char>>
    decreases n,
{
    if n <= 0 {
        Seq::empty()
    } else {
        let before = selected(entries, matched, n - 1);
        if searched(entries, n - 1) && marked(matched, n - 1) {
            before.push(entries[n - 1].path@)
        } else {
            before
        }
    }
}

/// The paths of the entries that `flags` and `matched` both mark.
fn select(entries: &Vec<WalkEntry>, flags: &Vec<bool>, matched: &Vec<bool>) -> (hits: Vec<String>)
    requires
        flags.len() == entries.len(),
        forall|i: int| 0 <= i < entries.len() ==> flags[i] == searched(entries@, i),
    ensures
        hits.deep_view() == selected(entries@, matched@, entries.len() as int),
{
    let mut hits: Vec<String> = Vec::new();
    let mut i: usize = 0;
    assert(hits.deep_view() =~= selected(entries@, matched@, 0));
    while i < entries.len()
        invariant
            i <= entries.len(),
            flags.len() == entries.len(),
            forall|t: int| 0 <= t < entries.len() ==> flags[t] == searched(entries@, t),
            hits.deep_view() == selected(entries@, matched@, i as int),
        decreases entries.len() - i,
    {
        if flags[i] && i < matched.len() && matched[i] {
            let ghost before = hits.deep_view();
            hits.push(entries[i].path.clone());
            assert(hits.deep_view() =~= before.push(entries[i as int].path@));
        }
        i += 1;
    }
    hits
}

/// The hits of a scan, given for each entry whether a line of it matched:
/// the paths of the searched entries that `matched` marks, in the order of
/// the listing. An entry that the walk leaves out, a directory, an unreadable
/// entry or a binary file is never a hit, whatever `matched` says of it.
pub fn collect_hits(entries: &Vec<WalkEntry>, matched: &Vec<bool>) -> (hits: Vec<String>)
    ensures
        hits.deep_view() == selected(entries@, matched@, entries.len() as int),
{
    let flags = search_flags(entries);
    select(entries, &flags, matched)
}

/// `grep::regex::RegexMatcher`: a compiled pattern. Its contents are known
/// only through [`matcher_pattern`].
#[verifier::external_type_specification]
#[verifier::external_body]
pub struct ExRegexMatcher(RegexMatcher);

/// `grep::regex::Error`: why a pattern did not compile. Nothing is claimed of
/// it.
#[verifier::external_type_specification]
#[verifier::external_body]
pub struct ExRegexError(grep::regex::Error);

/// Whether `RegexMatcher::new_line_matcher` compiles `pattern`.
pub uninterp spec fn pattern_accepted(pattern: Seq<char>) -> bool;

/// What a matcher holds: the pattern that `RegexMatcher::new_line_matcher`
/// compiled it from.
pub uninterp spec fn matcher_pattern(matcher: RegexMatcher) -> Seq<char>;

/// Whether `Searcher::search_slice`, with a line matcher for `pattern`, finds
/// a matching line in `contents`.
pub uninterp spec fn line_hit(pattern: Seq<char>, contents: Seq<u8>) -> bool;

/// Calls `RegexMatcher::new_line_matcher`, which compiles a pattern whose
/// matches stay within one line. The contract names the outcome: whether the
/// pattern compiles depends on the pattern alone, and the matcher that comes
/// back is one for this pattern.
#[verifier::external_body]
fn new_line_matcher(pattern: &str) -> (r: Result<RegexMatcher, grep::regex::Error>)
    ensures
        r is Ok <==> pattern_accepted(pattern@),
        r matches Ok(matcher) ==> matcher_pattern(matcher) == pattern@,
{
    RegexMatcher::new_line_matcher(pattern)
}

/// Calls `Display` of `grep::regex::Error` for the text of the error.
#[verifier::external_body]
fn error_text(error: &grep::regex::Error) -> String {
    error.to_string()
}

/// Stops a search at its first matching line.
pub struct FirstMatch {
    pub found: bool,
}

impl FirstMatch {
    /// Notes a matching line. The answer `false` ends the search.
    pub fn matched(&mut self) -> (keep_going: bool)
        ensures
            final(self).found,
            !keep_going,
    {
        self.found = true;
        false
    }
}

/// Calls `Searcher::search_slice` on `contents` with a searcher that stops at
/// the sentinel byte, and with a sink that stops at the first matching line.
/// The contract names the outcome: whether a line matches depends on the
/// matcher's pattern and on the bytes alone.
#[verifier::external_body]
fn search_slice(matcher: &RegexMatcher, contents: &[u8]) -> (found: bool)
    ensures
        found == line_hit(matcher_pattern(*matcher), contents@),
{
    let mut first = FirstMatch { found: false };
    let mut searcher =
        SearcherBuilder::new().binary_detection(BinaryDetection::quit(BINARY_SENTINEL)).build();
    let _ = searcher.search_slice(matcher, contents, Bytes(|_, _| Ok(first.matched())));
    first.found
}

/// A pattern that did not compile.
#[derive(Debug)]
pub struct PatternError {
    /// The pattern as it was given.
    pub pattern: String,
    /// What the pattern compiler said of it.
    pub message: String,
}

/// For each entry, whether it is a file with a line that matches `pattern`.
pub open spec fn line_hits(pattern: Seq<char>, entries: Seq<WalkEntry>) -> Seq<bool> {
    Seq::new(
        entries.len(),
        |i: int| entries[i].kind matches EntryKind::File(bytes) && line_hit(pattern, bytes@),
    )
}

/// What `selected` gives depends on `matched` only at the searched entries.
proof fn lemma_selected_agrees(entries: Seq<WalkEntry>, a: Seq<bool>, b: Seq<bool>, n: int)
    requires
        forall|i: int| 0 <= i < n && searched(entries, i) ==> marked(a, i) == marked(b, i),
    ensures
        selected(entries, a, n) == selected(entries, b, n),
    decreases n,
{
    if n > 0 {
        lemma_selected_agrees(entries, a, b, n - 1);
    }
}

/// Looks for `pattern` in every file of the listing that the walk visits,
/// and returns the paths of the files with a matching line, in the order of
/// the listing. Matching is by line; a binary file is skipped. Fails when
/// the pattern does not compile, and only then.
pub fn search(pattern: &str, entries: &Vec<WalkEntry>) -> (r: Result<Vec<String>, PatternError>)
    ensures
        r is Ok <==> pattern_accepted(pattern@),
        r matches Ok(hits) ==> hits.deep_view() == selected(
            entries@,
            line_hits(pattern@, entries@),
            entries.len() as int,
        ),
        r matches Err(e) ==> e.pattern@ == pattern@,
{
    let matcher = match new_line_matcher(pattern) {
        Ok(matcher) => matcher,
        Err(error) => {
            return Err(PatternError { pattern: pattern.to_owned(), message: error_text(&error) });
        },
    };
    let flags = search_flags(entries);
    let mut matched: Vec<bool> = Vec::new();
    let mut i: usize = 0;
    while i < entries.len()
        invariant
            i <= entries.len(),
            matcher_pattern(matcher) == pattern@,
            flags.len() == entries.len(),
            matched.len() == i,
            forall|t: int|
                0 <= t < i && flags[t] ==> matched[t] == line_hits(pattern@, entries@)[t],
        decreases entries.len() - i,
    {
        let found = match &entries[i].kind {
            EntryKind::File(bytes) => flags[i] && search_slice(&matcher, bytes.as_slice()),
            _ => false,
        };
        matched.push(found);
        i += 1;
    }
    proof {
        lemma_selected_agrees(
            entries@,
            matched@,
            line_hits(pattern@, entries@),
            entries.len() as int,
        );
    }
    Ok(select(entries, &flags, &matched))
}

/// Every hit is the path of a searched entry that `matched` marks.
pub proof fn lemma_hit_is_searched(
    entries: Seq<WalkEntry>,
    matched: Seq<bool>,
    n: int,
    path: Seq<char>,
)
    requires
        selected(entries, matched, n).contains(path),
    ensures
        exists|i: int|
            0 <= i < n && searched(entries, i) && marked(matched, i) && (
            #[trigger] entries[i]).path@ == path,
    decreases n,
{
    if n > 0 {
        let before = selected(entries, matched, n - 1);
        if before.contains(path) {
            lemma_hit_is_searched(entries, matched, n - 1, path);
        } else {
            let k = choose|k: int|
                0 <= k < selected(entries, matched, n).len() && selected(entries, matched, n)[k]
                    == path;
            assert(k == before.len());
            assert(entries[n - 1].path@ == path);
        }
    }
}

/// A listing that names no path twice gives no hit twice.
pub proof fn lemma_hits_distinct(entries: Seq<WalkEntry>, matched: Seq<bool>, n: int)
    requires
        forall|i: int, j: int|
            0 <= i < j < entries.len() ==> (#[trigger] entries[i]).path@ != (
            #[trigger] entries[j]).path@,
        n <= entries.len(),
    ensures
        selected(entries, matched, n).no_duplicates(),
    decreases n,
{
    if n > 0 {
        let before = selected(entries, matched, n - 1);
        lemma_hits_distinct(entries, matched, n - 1);
        if before.contains(entries[n - 1].path@) {
            lemma_hit_is_searched(entries, matched, n - 1, entries[n - 1].path@);
        }
    }
}

/// No file in the subtree of a hidden directory or of the build output is a
/// hit: a path that the listing has only in such subtrees is not reported,
/// whatever the files there hold.
pub proof fn lemma_excluded_subtree_not_reported(
    entries: Seq<WalkEntry>,
    matched: Seq<bool>,
    path: Seq<char>,
)
    requires
        forall|i: int|
            0 <= i < entries.len() && (#[trigger] entries[i]).path@ == path
                ==> in_excluded_subtree(entries, i),
    ensures
        !selected(entries, matched, entries.len() as int).contains(path),
{
    if selected(entries, matched, entries.len() as int).contains(path) {
        lemma_hit_is_searched(entries, matched, entries.len() as int, path);
    }
}

/// No file that holds the sentinel byte is a hit: a path that the listing
/// has only for such files is not reported, whatever the pattern.
pub proof fn lemma_binary_not_reported(
    entries: Seq<WalkEntry>,
    matched: Seq<bool>,
    path: Seq<char>,
)
    requires
        forall|i: int|
            0 <= i < entries.len() && (#[trigger] entries[i]).path@ == path ==> (
            entries[i].kind matches EntryKind::File(bytes) && bytes@.contains(BINARY_SENTINEL)),
    ensures
        !selected(entries, matched, entries.len() as int).contains(path),
{
    if selected(entries, matched, entries.len() as int).contains(path) {
        lemma_hit_is_searched(entries, matched, entries.len() as int, path);
    }
}

} // verus!
