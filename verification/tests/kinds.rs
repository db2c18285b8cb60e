use workspace_unused_deps::rustdoc::{ApiItemInner, ApiPath, InnerShape, ItemKind};

fn all_kinds() -> Vec<ItemKind> {
    vec![
        ItemKind::Function,
        ItemKind::Struct,
        ItemKind::Enum,
        ItemKind::Trait,
        ItemKind::Module,
        ItemKind::Union,
        ItemKind::TypeAlias,
        ItemKind::Variant,
        ItemKind::Constant,
        ItemKind::Primitive,
        ItemKind::Macro,
        ItemKind::ProcDerive,
        ItemKind::Static,
        ItemKind::TraitAlias,
        ItemKind::ProcAttribute,
        ItemKind::AssocType,
        ItemKind::Unknown,
    ]
}

#[test]
fn six_kinds_are_supported() {
    let supported = vec![
        ItemKind::Function,
        ItemKind::Struct,
        ItemKind::Enum,
        ItemKind::Trait,
        ItemKind::Constant,
        ItemKind::Static,
    ];
    for kind in all_kinds() {
        assert_eq!(kind.is_supported(), supported.contains(&kind));
    }
}

#[test]
fn every_known_tag_decodes_to_its_kind() {
    assert_eq!(ItemKind::from_tag("function"), ItemKind::Function);
    assert_eq!(ItemKind::from_tag("struct"), ItemKind::Struct);
    assert_eq!(ItemKind::from_tag("enum"), ItemKind::Enum);
    assert_eq!(ItemKind::from_tag("trait"), ItemKind::Trait);
    assert_eq!(ItemKind::from_tag("module"), ItemKind::Module);
    assert_eq!(ItemKind::from_tag("union"), ItemKind::Union);
    assert_eq!(ItemKind::from_tag("type_alias"), ItemKind::TypeAlias);
    assert_eq!(ItemKind::from_tag("variant"), ItemKind::Variant);
    assert_eq!(ItemKind::from_tag("constant"), ItemKind::Constant);
    assert_eq!(ItemKind::from_tag("primitive"), ItemKind::Primitive);
    assert_eq!(ItemKind::from_tag("macro"), ItemKind::Macro);
    assert_eq!(ItemKind::from_tag("proc_derive"), ItemKind::ProcDerive);
    assert_eq!(ItemKind::from_tag("static"), ItemKind::Static);
    assert_eq!(ItemKind::from_tag("trait_alias"), ItemKind::TraitAlias);
    assert_eq!(ItemKind::from_tag("proc_attribute"), ItemKind::ProcAttribute);
    assert_eq!(ItemKind::from_tag("assoc_type"), ItemKind::AssocType);
}

#[test]
fn an_unknown_tag_decodes_to_unknown() {
    assert_eq!(ItemKind::from_tag("keyword"), ItemKind::Unknown);
    assert_eq!(ItemKind::from_tag("extern_crate"), ItemKind::Unknown);
    assert_eq!(ItemKind::from_tag(""), ItemKind::Unknown);
    assert_eq!(ItemKind::from_tag("Function"), ItemKind::Unknown);
    assert_eq!(ItemKind::from_tag("function "), ItemKind::Unknown);
}

#[test]
fn kind_names_are_the_variant_names() {
    assert_eq!(ItemKind::Function.name(), "Function");
    assert_eq!(ItemKind::Struct.name(), "Struct");
    assert_eq!(ItemKind::Enum.name(), "Enum");
    assert_eq!(ItemKind::Trait.name(), "Trait");
    assert_eq!(ItemKind::Constant.name(), "Constant");
    assert_eq!(ItemKind::Static.name(), "Static");
    assert_eq!(ItemKind::TypeAlias.name(), "TypeAlias");
    assert_eq!(ItemKind::Unknown.name(), "Unknown");
    for kind in all_kinds() {
        assert_eq!(kind.name(), format!("{:?}", kind));
    }
}

#[test]
fn a_missing_path_entry_is_of_unknown_kind() {
    assert_eq!(ApiPath::default().kind, ItemKind::Unknown);
    assert!(!ApiPath::default().kind.is_supported());
}

#[test]
fn inner_tags_decode_to_shapes() {
    assert_eq!(InnerShape::from_tag("function"), InnerShape::Function);
    assert_eq!(InnerShape::from_tag("struct"), InnerShape::Struct);
    assert_eq!(InnerShape::from_tag("module"), InnerShape::Other);
    assert_eq!(InnerShape::from_tag("impl"), InnerShape::Other);
    assert_eq!(InnerShape::from_tag("enum"), InnerShape::Other);
    assert_eq!(InnerShape::from_tag("use"), InnerShape::Other);
    assert_eq!(InnerShape::from_tag("some_later_tag"), InnerShape::Other);
}

#[test]
fn an_undecoded_payload_is_carried_along() {
    let payload = serde_json::Value::String("kept".to_string());
    let inner = ApiItemInner::Other(payload.clone());
    assert_eq!(inner.shape(), InnerShape::Other);
    match inner {
        ApiItemInner::Other(value) => assert_eq!(value, payload),
        _ => panic!("the payload changed its shape"),
    }
}
