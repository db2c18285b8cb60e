//! The reporter: which candidate symbols does no other file mention.

use crate::parsed::{merge, ItemDocsMerged, Symbol};
use crate::rustdoc::{ApiDocs, ItemKind};
use crate::search::{line_hits, pattern_accepted, search, selected, PatternError, WalkEntry};
use crate::text::ends_with;
use vstd::prelude::*;
use vstd::string::*;

verus! {

/// The pattern that stands for a symbol: for a function its name followed by
/// an opening parenthesis, for every other kind the bare name.
pub open spec fn pattern_of(name: Seq<char>, kind: ItemKind) -> Seq<char> {
    if kind is Function {
        name + "\\("@
    } else {
        name
    }
}

/// The pattern to look for when looking for uses of `symbol`.
pub fn search_pattern(symbol: &ItemDocsMerged) -> (pattern: String)
    ensures
        pattern@ == pattern_of(symbol.name@, symbol.kind),
{
    let mut pattern = symbol.name.clone();
    match symbol.kind {
        ItemKind::Function => {
            pattern.append("\\(");
        },
        _ => {},
    }
    pattern
}

/// A hit in the file that declares the symbol: the hit's path ends with the
/// declaring file.
pub open spec fn in_own_file(path: Seq<char>, declaring_file: Seq<char>) -> bool {
    declaring_file.is_suffix_of(path)
}

/// The hits that lie outside the declaring file, in their order.
pub open spec fn outside_hits(hits: Seq<Seq<char>>, declaring_file: Seq<char>) -> Seq<Seq<char>> {
    hits.filter(|path: Seq<char>| !in_own_file(path, declaring_file))
}

/// A symbol is unused when no hit lies outside its declaring file.
pub open spec fn is_unused(hits: Seq<Seq<char>>, declaring_file: Seq<char>) -> bool {
    outside_hits(hits, declaring_file).len() == 0
}

/// Drops the hits in the declaring file and keeps the others in their order.
pub fn exclude_own_file(hits: &Vec<String>, declaring_file: &str) -> (outside: Vec<String>)
    ensures
        outside.deep_view() == outside_hits(hits.deep_view(), declaring_file@),
{
    let ghost all = hits.deep_view();
    let ghost keep = |path: Seq<char>| !in_own_file(path, declaring_file@);
    let mut outside: Vec<String> = Vec::new();
    let mut i: usize = 0;
    proof {
        reveal(Seq::filter);
        assert(all.take(0) =~= Seq::empty());
        assert(outside.deep_view() =~= all.take(0).filter(keep));
    }
    while i < hits.len()
        invariant
            i <= hits.len(),
            all == hits.deep_view(),
            keep == |path: Seq<char>| !in_own_file(path, declaring_file@),
            outside.deep_view() == all.take(i as int).filter(keep),
        decreases hits.len() - i,
    {
        let ghost before = outside.deep_view();
        proof {
            reveal(Seq::filter);
            assert(all.take(i + 1).drop_last() =~= all.take(i as int));
            assert(all.take(i + 1).last() == hits[i as int]@);
        }
        if !ends_with(hits[i].as_str(), declaring_file) {
            outside.push(hits[i].clone());
            assert(outside.deep_view() =~= before.push(hits[i as int]@));
        }
        i += 1;
    }
    proof {
        assert(all.take(hits.len() as int) =~= all);
    }
    outside
}

/// A candidate symbol that no file but its own mentions.
#[derive(Debug)]
pub struct Finding {
    pub name: String,
    pub kind: ItemKind,
    pub declaring_file: String,
}

/// What a finding says, as plain values.
pub struct FindingView {
    pub name: Seq<char>,
    pub kind: ItemKind,
    pub declaring_file: Seq<char>,
}

impl View for Finding {
    type V = FindingView;

    open spec fn view(&self) -> FindingView {
        FindingView { name: self.name@, kind: self.kind, declaring_file: self.declaring_file@ }
    }
}

/// The finding that reports `symbol`.
pub open spec fn finding_of(symbol: Symbol) -> FindingView {
    FindingView { name: symbol.name, kind: symbol.kind, declaring_file: symbol.file }
}

/// The line that reports a finding: the kind, the name between backquotes,
/// with `()` behind a function's name, and the declaring file.
pub open spec fn finding_line(finding: FindingView) -> Seq<char> {
    finding.kind.spec_name() + " `"@ + finding.name + (if finding.kind is Function {
        "()` in "@
    } else {
        "` in "@
    }) + finding.declaring_file + " is unused"@
}

impl Finding {
    /// The line that reports this finding.
    pub fn line(&self) -> (text: String)
        ensures
            text@ == finding_line(self@),
    {
        let mut text = self.kind.name().to_owned();
        text.append(" `");
        text.append(self.name.as_str());
        match self.kind {
            ItemKind::Function => {
                text.append("()` in ");
            },
            _ => {
                text.append("` in ");
            },
        }
        text.append(self.declaring_file.as_str());
        text.append(" is unused");
        text
    }
}

/// Decides on one symbol, given the files that mention its pattern: a finding
/// when every hit lies in the declaring file, nothing when a hit lies outside
/// it.
pub fn evaluate(symbol: &ItemDocsMerged, hits: &Vec<String>) -> (finding: Option<Finding>)
    ensures
        finding is Some <==> is_unused(hits.deep_view(), symbol.span.filename@),
        finding matches Some(f) ==> f@ == finding_of(symbol@),
{
    let outside = exclude_own_file(hits, symbol.span.filename.as_str());
    if outside.len() == 0 {
        Some(
            Finding {
                name: symbol.name.clone(),
                kind: symbol.kind,
                declaring_file: symbol.span.filename.clone(),
            },
        )
    } else {
        None
    }
}

/// How the evaluation of one symbol ended.
#[derive(Debug)]
pub enum Verdict {
    /// A file other than the declaring one mentions the symbol.
    Used,
    /// No other file mentions it.
    Unused(Finding),
    /// The symbol's pattern did not compile, so nothing is known of it.
    Failed(PatternError),
}

/// `verdict` is the right one for `symbol` in the workspace `entries`.
pub open spec fn judged(symbol: Symbol, entries: Seq<WalkEntry>, verdict: Verdict) -> bool {
    let pattern = pattern_of(symbol.name, symbol.kind);
    let hits = selected(entries, line_hits(pattern, entries), entries.len() as int);
    if !pattern_accepted(pattern) {
        verdict matches Verdict::Failed(error) && error.pattern@ == pattern
    } else if is_unused(hits, symbol.file) {
        verdict matches Verdict::Unused(finding) && finding@ == finding_of(symbol)
    } else {
        verdict is Used
    }
}

/// Evaluates one symbol against the workspace.
pub fn check_symbol(symbol: &ItemDocsMerged, entries: &Vec<WalkEntry>) -> (verdict: Verdict)
    ensures
        judged(symbol@, entries@, verdict),
{
    let pattern = search_pattern(symbol);
    match search(pattern.as_str(), entries) {
        Ok(hits) => match evaluate(symbol, &hits) {
            Some(finding) => Verdict::Unused(finding),
            None => Verdict::Used,
        },
        Err(error) => Verdict::Failed(error),
    }
}

/// Evaluates each symbol on its own: one verdict per symbol, in their order.
/// A symbol whose pattern does not compile gets its verdict and the others
/// are evaluated all the same.
pub fn report(symbols: &Vec<ItemDocsMerged>, entries: &Vec<WalkEntry>) -> (verdicts: Vec<Verdict>)
    ensures
        verdicts.len() == symbols.len(),
        forall|i: int|
            0 <= i < symbols.len() ==> judged(symbols[i]@, entries@, #[trigger] verdicts[i]),
{
    let mut verdicts: Vec<Verdict> = Vec::new();
    let mut i: usize = 0;
    while i < symbols.len()
        invariant
            i <= symbols.len(),
            verdicts.len() == i,
            forall|t: int| 0 <= t < i ==> judged(symbols[t]@, entries@, #[trigger] verdicts[t]),
        decreases symbols.len() - i,
    {
        let verdict = check_symbol(&symbols[i], entries);
        verdicts.push(verdict);
        i += 1;
    }
    verdicts
}

/// `verdicts` judges the candidates `ids` of `docs`, one for one, and `ids`
/// names each candidate of the index once.
pub open spec fn reports(
    docs: ApiDocs,
    entries: Seq<WalkEntry>,
    ids: Seq<i32>,
    verdicts: Seq<Verdict>,
) -> bool {
    &&& ids.no_duplicates()
    &&& forall|id: i32| ids.contains(id) <==> docs.has_candidate(id)
    &&& verdicts.len() == ids.len()
    &&& forall|i: int|
        0 <= i < ids.len() ==> judged(docs.symbol(ids[i]), entries, #[trigger] verdicts[i])
}

/// Finds the unused symbols of one package: merges its two tables and
/// evaluates each candidate against the workspace. There is one verdict per
/// candidate, in the order in which the index hands its items out.
pub fn unused_in_crate(docs: &ApiDocs, entries: &Vec<WalkEntry>) -> (verdicts: Vec<Verdict>)
    ensures
        exists|ids: Seq<i32>| reports(*docs, entries@, ids, verdicts@),
{
    let merged = merge(docs);
    let verdicts = report(&merged, entries);
    proof {
        let ids = choose|ids: Seq<i32>| docs.emits(ids, merged@);
        assert(reports(*docs, entries@, ids, verdicts@));
    }
    verdicts
}

/// A symbol that only its own declaring file mentions is unused.
pub proof fn lemma_own_file_only_is_unused(hits: Seq<Seq<char>>, declaring_file: Seq<char>)
    requires
        forall|i: int| 0 <= i < hits.len() ==> in_own_file(#[trigger] hits[i], declaring_file),
    ensures
        is_unused(hits, declaring_file),
{
    let keep = |path: Seq<char>| !in_own_file(path, declaring_file);
    if hits.filter(keep).len() > 0 {
        hits.lemma_filter_pred(keep, 0);
        hits.lemma_filter_contains_rev(keep, hits.filter(keep)[0]);
    }
}

/// A symbol that a second file mentions is not unused, wherever among the
/// hits that file stands.
pub proof fn lemma_second_file_is_used(
    hits: Seq<Seq<char>>,
    declaring_file: Seq<char>,
    other: Seq<char>,
    at: int,
)
    requires
        0 <= at <= hits.len(),
        !in_own_file(other, declaring_file),
    ensures
        !is_unused(hits.insert(at, other), declaring_file),
{
    let keep = |path: Seq<char>| !in_own_file(path, declaring_file);
    let more = hits.insert(at, other);
    assert(more[at] == other);
    more.lemma_filter_contains(keep, at);
}

} // verus!
