use trait_completion::{
    ImplBlock, ImplItem, ImplItemConst, ImplItemMethod, ImplItemType, ImplItemMap, TraitItem,
    TraitItemConst, TraitItemMethod, TraitItemType, TraitItemMap,
};

fn trait_const(name: &str, ty: &str) -> TraitItem {
    TraitItem::Const(TraitItemConst {
        ident: name.to_string(),
        ty: ty.to_string(),
        default: None,
    })
}

fn trait_method(name: &str) -> TraitItem {
    TraitItem::Method(TraitItemMethod {
        ident: name.to_string(),
        sig: format!("fn {}()", name),
        default_body: None,
    })
}

fn trait_type(name: &str) -> TraitItem {
    TraitItem::Type(TraitItemType { ident: name.to_string(), bounds: String::new() })
}

fn impl_const(name: &str, value: &str) -> ImplItem {
    ImplItem::Const(ImplItemConst {
        ident: name.to_string(),
        ty: "u32".to_string(),
        value: value.to_string(),
    })
}

fn impl_method(name: &str) -> ImplItem {
    ImplItem::Method(ImplItemMethod {
        ident: name.to_string(),
        sig: format!("fn {}()", name),
        body: "{}".to_string(),
    })
}

fn impl_type(name: &str, ty: &str) -> ImplItem {
    ImplItem::Type(ImplItemType { ident: name.to_string(), ty: ty.to_string() })
}

fn block(items: Vec<ImplItem>) -> ImplBlock {
    ImplBlock {
        generics: String::new(),
        trait_path: "Greet".to_string(),
        self_ty: "Greeter".to_string(),
        items,
    }
}

#[test]
fn trait_index_partitions_by_kind() {
    let items = vec![
        trait_const("N", "u32"),
        trait_method("f"),
        trait_type("Output"),
        trait_method("g"),
    ];
    let map = TraitItemMap::new(&items);
    assert_eq!(map.consts.len(), 1);
    assert_eq!(map.methods.len(), 2);
    assert_eq!(map.types.len(), 1);
    assert_eq!(map.consts[0].ident, "N");
    assert_eq!(map.methods[0].ident, "f");
    assert_eq!(map.methods[1].ident, "g");
    assert_eq!(map.types[0].ident, "Output");
}

#[test]
fn trait_index_ignores_other_items() {
    let items = vec![trait_method("f"), TraitItem::Other("macro_call!();".to_string())];
    let map = TraitItemMap::new(&items);
    assert_eq!(map.consts.len(), 0);
    assert_eq!(map.methods.len(), 1);
    assert_eq!(map.types.len(), 0);
}

#[test]
fn trait_index_duplicate_keeps_last() {
    let items = vec![trait_const("N", "u32"), trait_const("N", "u64")];
    let map = TraitItemMap::new(&items);
    assert_eq!(map.consts.len(), 1);
    assert_eq!(map.consts[0].ident, "N");
    assert_eq!(map.consts[0].ty, "u64");
}

#[test]
fn trait_index_same_name_across_kinds() {
    let items = vec![trait_const("x", "u32"), trait_method("x"), trait_type("x")];
    let map = TraitItemMap::new(&items);
    assert_eq!(map.consts.len(), 1);
    assert_eq!(map.methods.len(), 1);
    assert_eq!(map.types.len(), 1);
}

#[test]
fn impl_index_partitions_by_kind() {
    let b = block(vec![
        impl_method("f"),
        impl_const("N", "0"),
        impl_type("Output", "()"),
        ImplItem::Other("compile_error!();".to_string()),
    ]);
    let map = ImplItemMap::new(&b);
    assert_eq!(map.consts.len(), 1);
    assert_eq!(map.methods.len(), 1);
    assert_eq!(map.types.len(), 1);
    assert_eq!(map.consts[0].ident, "N");
    assert_eq!(map.consts[0].value, "0");
    assert_eq!(map.methods[0].ident, "f");
    assert_eq!(map.types[0].ident, "Output");
}

#[test]
fn impl_index_duplicate_keeps_last() {
    let b = block(vec![impl_const("N", "1"), impl_const("N", "2")]);
    let map = ImplItemMap::new(&b);
    assert_eq!(map.consts.len(), 1);
    assert_eq!(map.consts[0].value, "2");
}

#[test]
fn empty_inputs_give_empty_indexes() {
    let map = TraitItemMap::new(&Vec::new());
    assert_eq!(map.consts.len(), 0);
    assert_eq!(map.methods.len(), 0);
    assert_eq!(map.types.len(), 0);
    let imap = ImplItemMap::new(&block(Vec::new()));
    assert_eq!(imap.consts.len(), 0);
    assert_eq!(imap.methods.len(), 0);
    assert_eq!(imap.types.len(), 0);
}
