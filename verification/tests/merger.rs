use std::collections::HashMap;
use workspace_unused_deps::parsed::{merge, merge_entry};
use workspace_unused_deps::rustdoc::{
    ApiDocs, ApiItem, ApiItemInner, ApiItemSpan, ApiPath, ItemKind,
};
use workspace_unused_deps::ItemDocsMerged;

fn all_kinds() -> Vec<ItemKind> {
    vec![
        ItemKind::Function,
        ItemKind::Struct,
        ItemKind::Enum,
        ItemKind::Trait,
        ItemKind::Module,
        ItemKind::Union,
        ItemKind::TypeAlias,
        ItemKind::Variant,
        ItemKind::Constant,
        ItemKind::Primitive,
        ItemKind::Macro,
        ItemKind::ProcDerive,
        ItemKind::Static,
        ItemKind::TraitAlias,
        ItemKind::ProcAttribute,
        ItemKind::AssocType,
        ItemKind::Unknown,
    ]
}

fn item(name: Option<&str>, file: Option<&str>, visibility: &str) -> ApiItem {
    ApiItem {
        name: name.map(|n| n.to_string()),
        span: file.map(|f| ApiItemSpan { filename: f.to_string() }),
        visibility: visibility.to_string(),
        inner: ApiItemInner::Other(serde_json::Value::Null),
    }
}

fn names(merged: &[ItemDocsMerged]) -> Vec<String> {
    let mut names: Vec<String> = merged.iter().map(|m| m.name.clone()).collect();
    names.sort();
    names
}

#[test]
fn a_candidate_is_public_named_located_and_of_a_supported_kind() {
    let supported = vec![
        ItemKind::Function,
        ItemKind::Struct,
        ItemKind::Enum,
        ItemKind::Trait,
        ItemKind::Constant,
        ItemKind::Static,
    ];
    let visibilities = vec!["public", "default", "crate", "Public", "public ", ""];
    for kind in all_kinds() {
        for visibility in &visibilities {
            for name in vec![Some("thing"), None] {
                for file in vec![Some("src/lib.rs"), None] {
                    let expected = *visibility == "public"
                        && name.is_some()
                        && file.is_some()
                        && supported.contains(&kind);
                    let merged = merge_entry(&item(name, file, visibility), kind);
                    assert_eq!(merged.is_some(), expected);
                }
            }
        }
    }
}

#[test]
fn a_merged_symbol_carries_the_items_fields() {
    let merged = merge_entry(&item(Some("helper"), Some("src/a.rs"), "public"), ItemKind::Trait);
    let merged = merged.expect("a candidate");
    assert_eq!(merged.name, "helper");
    assert_eq!(merged.span.filename, "src/a.rs");
    assert_eq!(merged.visibility, "public");
    assert_eq!(merged.kind, ItemKind::Trait);
}

#[test]
fn an_item_without_a_name_is_left_out() {
    assert!(merge_entry(&item(None, Some("src/a.rs"), "public"), ItemKind::Function).is_none());
}

#[test]
fn an_item_without_a_span_is_left_out() {
    assert!(merge_entry(&item(Some("helper"), None, "public"), ItemKind::Function).is_none());
}

#[test]
fn merge_joins_the_two_tables() {
    let mut index: HashMap<i32, ApiItem> = HashMap::new();
    index.insert(1, item(Some("alpha"), Some("src/a.rs"), "public"));
    index.insert(2, item(Some("beta"), Some("src/b.rs"), "public"));
    index.insert(3, item(Some("gamma"), Some("src/c.rs"), "crate"));
    index.insert(4, item(Some("delta"), Some("src/d.rs"), "public"));
    index.insert(5, item(None, Some("src/e.rs"), "public"));
    index.insert(6, item(Some("zeta"), None, "public"));
    index.insert(7, item(Some("eta"), Some("src/g.rs"), "public"));
    let mut paths: HashMap<i32, ApiPath> = HashMap::new();
    paths.insert(1, ApiPath { kind: ItemKind::Function });
    paths.insert(2, ApiPath { kind: ItemKind::Module });
    paths.insert(3, ApiPath { kind: ItemKind::Struct });
    paths.insert(4, ApiPath { kind: ItemKind::Static });
    paths.insert(5, ApiPath { kind: ItemKind::Struct });
    paths.insert(6, ApiPath { kind: ItemKind::Struct });
    // 7 has no path: its kind is unknown.
    paths.insert(8, ApiPath { kind: ItemKind::Function });
    let merged = merge(&ApiDocs { index, paths });
    assert_eq!(names(&merged), vec!["alpha".to_string(), "delta".to_string()]);
    for symbol in &merged {
        if symbol.name == "alpha" {
            assert_eq!(symbol.kind, ItemKind::Function);
            assert_eq!(symbol.span.filename, "src/a.rs");
        } else {
            assert_eq!(symbol.kind, ItemKind::Static);
            assert_eq!(symbol.span.filename, "src/d.rs");
        }
        assert_eq!(symbol.visibility, "public");
    }
}

#[test]
fn merge_of_empty_tables_is_empty() {
    let docs = ApiDocs { index: HashMap::new(), paths: HashMap::new() };
    assert!(merge(&docs).is_empty());
}

#[test]
fn the_kind_comes_from_the_path_table() {
    let mut index: HashMap<i32, ApiItem> = HashMap::new();
    index.insert(
        10,
        ApiItem {
            name: Some("shape".to_string()),
            span: Some(ApiItemSpan { filename: "src/shape.rs".to_string() }),
            visibility: "public".to_string(),
            inner: ApiItemInner::Other(serde_json::Value::Bool(true)),
        },
    );
    let mut paths: HashMap<i32, ApiPath> = HashMap::new();
    paths.insert(10, ApiPath { kind: ItemKind::Enum });
    let merged = merge(&ApiDocs { index, paths });
    assert_eq!(merged.len(), 1);
    assert_eq!(merged[0].kind, ItemKind::Enum);
}

#[test]
fn the_same_items_give_the_same_symbols_in_any_order() {
    let ids: Vec<i32> = vec![5, 1, 4, 2, 3];
    let mut forward: HashMap<i32, ApiItem> = HashMap::new();
    let mut backward: HashMap<i32, ApiItem> = HashMap::new();
    let mut paths_forward: HashMap<i32, ApiPath> = HashMap::new();
    let mut paths_backward: HashMap<i32, ApiPath> = HashMap::new();
    for id in ids.iter() {
        forward.insert(*id, item(Some(&format!("item{}", id)), Some("src/lib.rs"), "public"));
        paths_forward.insert(*id, ApiPath { kind: ItemKind::Struct });
    }
    for id in ids.iter().rev() {
        backward.insert(*id, item(Some(&format!("item{}", id)), Some("src/lib.rs"), "public"));
        paths_backward.insert(*id, ApiPath { kind: ItemKind::Struct });
    }
    let one = merge(&ApiDocs { index: forward, paths: paths_forward });
    let other = merge(&ApiDocs { index: backward, paths: paths_backward });
    assert_eq!(names(&one), names(&other));
    assert_eq!(one.len(), 5);
}
