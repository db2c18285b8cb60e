//! The symbol merger: joins the two tables of a package into one record per
//! candidate symbol.

use crate::rustdoc::{ApiDocs, ApiItem, ApiItemSpan, ApiPath, ItemKind};
use crate::text::same_text;
use vstd::prelude::*;
use vstd::std_specs::iter::IteratorSpec;

verus! {

/// A public item of a kind that usage analysis applies to, with the file that
/// declares it.
#[derive(Debug, Clone)]
pub struct ItemDocsMerged {
    pub name: String,
    pub span: ApiItemSpan,
    pub visibility: String,
    pub kind: ItemKind,
}

/// What a merged symbol says, as plain values.
pub struct Symbol {
    pub name: Seq<char>,
    pub file: Seq<char>,
    pub visibility: Seq<char>,
    pub kind: ItemKind,
}

impl View for ItemDocsMerged {
    type V = Symbol;

    open spec fn view(&self) -> Symbol {
        Symbol {
            name: self.name@,
            file: self.span.filename@,
            visibility: self.visibility@,
            kind: self.kind,
        }
    }
}

/// An item is a candidate when it is public, has a name and a declaring file,
/// and its kind is one that usage analysis applies to.
pub open spec fn is_candidate(item: ApiItem, kind: ItemKind) -> bool {
    &&& item.visibility@ == "public"@
    &&& kind.supported()
    &&& item.name is Some
    &&& item.span is Some
}

/// The symbol that a candidate item gives.
pub open spec fn symbol_of(item: ApiItem, kind: ItemKind) -> Symbol {
    Symbol {
        name: item.name->0@,
        file: item.span->0.filename@,
        visibility: item.visibility@,
        kind,
    }
}

impl ApiDocs {
    /// The kind that the path table gives an id: unknown where it has none.
    pub open spec fn kind_of(self, id: i32) -> ItemKind {
        if self.paths@.contains_key(id) {
            self.paths@[id].kind
        } else {
            ItemKind::Unknown
        }
    }

    /// Whether `id` is an item of the index that is a candidate.
    pub open spec fn has_candidate(self, id: i32) -> bool {
        self.index@.contains_key(id) && is_candidate(self.index@[id], self.kind_of(id))
    }

    /// The symbol that the item `id` gives.
    pub open spec fn symbol(self, id: i32) -> Symbol {
        symbol_of(self.index@[id], self.kind_of(id))
    }

    /// `merged` holds the symbols of the candidates `ids`, one for one, and
    /// `ids` names each candidate of the index once.
    pub open spec fn emits(self, ids: Seq<i32>, merged: Seq<ItemDocsMerged>) -> bool {
        &&& ids.no_duplicates()
        &&& forall|id: i32| ids.contains(id) <==> self.has_candidate(id)
        &&& merged.len() == ids.len()
        &&& forall|i: int| 0 <= i < ids.len() ==> (#[trigger] merged[i])@ == self.symbol(ids[i])
    }

    /// The symbols of all candidates of the index.
    pub open spec fn symbols(self) -> Set<Symbol> {
        Set::new(|s: Symbol| exists|id: i32| self.has_candidate(id) && s == self.symbol(id))
    }
}

/// The symbols that a sequence of records holds.
pub open spec fn symbols_in(merged: Seq<ItemDocsMerged>) -> Set<Symbol> {
    Set::new(|s: Symbol| exists|i: int| 0 <= i < merged.len() && s == (#[trigger] merged[i])@)
}

/// Joins one item with the kind that the path table gives its id.
pub fn merge_entry(item: &ApiItem, kind: ItemKind) -> (r: Option<ItemDocsMerged>)
    ensures
        r is Some <==> is_candidate(*item, kind),
        r matches Some(m) ==> m@ == symbol_of(*item, kind),
{
    if !same_text(item.visibility.as_str(), "public") || !kind.is_supported() {
        return None;
    }
    match (&item.name, &item.span) {
        (Some(name), Some(span)) => Some(
            ItemDocsMerged {
                name: name.clone(),
                span: ApiItemSpan { filename: span.filename.clone() },
                visibility: item.visibility.clone(),
                kind,
            },
        ),
        _ => None,
    }
}

/// Joins the two tables of a package: one record for each candidate of the
/// index, in the order in which the index hands its items out. That order is
/// not fixed, the set of symbols is.
pub fn merge(docs: &ApiDocs) -> (merged: Vec<ItemDocsMerged>)
    ensures
        exists|ids: Seq<i32>| docs.emits(ids, merged@),
        symbols_in(merged@) == docs.symbols(),
{
    let mut merged: Vec<ItemDocsMerged> = Vec::new();
    let ghost mut ids: Seq<i32> = Seq::empty();
    let items = docs.index.iter();
    let ghost pairs = items.remaining();
    for entry in it: items
        invariant
            it.seq() == pairs,
            pairs.no_duplicates(),
            forall|j: int|
                0 <= j < pairs.len() ==> docs.index@.contains_key(*(#[trigger] pairs[j]).0)
                    && docs.index@[*pairs[j].0] == *pairs[j].1,
            forall|id: i32|
                docs.index@.contains_key(id) ==> exists|j: int|
                    0 <= j < pairs.len() && *(#[trigger] pairs[j]).0 == id,
            ids.no_duplicates(),
            forall|id: i32|
                ids.contains(id) <==> docs.has_candidate(id) && exists|j: int|
                    0 <= j < it.index() && *(#[trigger] pairs[j]).0 == id,
            merged.len() == ids.len(),
            forall|i: int| 0 <= i < ids.len() ==> (#[trigger] merged[i])@ == docs.symbol(ids[i]),
    {
        let (id, item) = entry;
        let kind = match docs.paths.get(id) {
            Some(path) => path.kind,
            None => ApiPath::default().kind,
        };
        let ghost seen = ids;
        let ghost here = it.index();
        proof {
            assert(*pairs[here].0 == *id && *pairs[here].1 == *item);
            assert forall|j: int| 0 <= j < here implies *(#[trigger] pairs[j]).0 != *id by {
                if *pairs[j].0 == *id {
                    assert(pairs[j] == pairs[here]);
                }
            }
        }
        if let Some(symbol) = merge_entry(item, kind) {
            merged.push(symbol);
            proof {
                ids = seen.push(*id);
                assert(!seen.contains(*id));
            }
        }
        proof {
            assert forall|other: i32|
                ids.contains(other) <==> docs.has_candidate(other) && exists|j: int|
                    0 <= j < here + 1 && *(#[trigger] pairs[j]).0 == other by {
                if ids.contains(other) {
                    let i = choose|i: int| 0 <= i < ids.len() && ids[i] == other;
                    if i < seen.len() {
                        assert(seen.contains(other));
                    } else {
                        assert(*pairs[here].0 == other);
                    }
                }
                if docs.has_candidate(other) && exists|j: int|
                    0 <= j < here + 1 && *(#[trigger] pairs[j]).0 == other {
                    let j = choose|j: int| 0 <= j < here + 1 && *(#[trigger] pairs[j]).0 == other;
                    if j < here {
                        assert(seen.contains(other));
                        let i = choose|i: int| 0 <= i < seen.len() && seen[i] == other;
                        assert(ids[i] == other);
                    } else {
                        assert(ids[ids.len() - 1] == other);
                    }
                }
            }
        }
    }
    proof {
        assert(docs.emits(ids, merged@));
        lemma_emitted_symbols(*docs, ids, merged@);
    }
    merged
}

/// Whatever the order of emission, the records hold the symbols of the
/// candidates and no others.
pub proof fn lemma_emitted_symbols(docs: ApiDocs, ids: Seq<i32>, merged: Seq<ItemDocsMerged>)
    requires
        docs.emits(ids, merged),
    ensures
        symbols_in(merged) == docs.symbols(),
{
    assert forall|s: Symbol| symbols_in(merged).contains(s) <==> docs.symbols().contains(s) by {
        if symbols_in(merged).contains(s) {
            let i = choose|i: int| 0 <= i < merged.len() && s == (#[trigger] merged[i])@;
            assert(ids.contains(ids[i]));
        }
        if docs.symbols().contains(s) {
            let id = choose|id: i32| docs.has_candidate(id) && s == docs.symbol(id);
            assert(ids.contains(id));
            let i = choose|i: int| 0 <= i < ids.len() && ids[i] == id;
            assert(s == merged[i]@);
        }
    }
    assert(symbols_in(merged) =~= docs.symbols());
}

} // verus!
