use trait_completion::{
    complete, CompletionError, Generator, GeneratorError, ImplBlock, ImplItem, ImplItemConst,
    ImplItemMethod, ImplItemType, ItemKind, TraitItem, TraitItemConst, TraitItemMethod,
    TraitItemType,
};

fn trait_const(name: &str) -> TraitItem {
    TraitItem::Const(TraitItemConst {
        ident: name.to_string(),
        ty: "u32".to_string(),
        default: None,
    })
}

fn trait_method(name: &str) -> TraitItem {
    TraitItem::Method(TraitItemMethod {
        ident: name.to_string(),
        sig: format!("fn {}()", name),
        default_body: None,
    })
}

fn trait_type(name: &str) -> TraitItem {
    TraitItem::Type(TraitItemType { ident: name.to_string(), bounds: String::new() })
}

fn impl_const(name: &str) -> ImplItem {
    ImplItem::Const(ImplItemConst {
        ident: name.to_string(),
        ty: "u32".to_string(),
        value: "7".to_string(),
    })
}

fn impl_method(name: &str) -> ImplItem {
    ImplItem::Method(ImplItemMethod {
        ident: name.to_string(),
        sig: format!("fn {}()", name),
        body: "{}".to_string(),
    })
}

fn impl_type(name: &str) -> ImplItem {
    ImplItem::Type(ImplItemType { ident: name.to_string(), ty: "()".to_string() })
}

fn block(items: Vec<ImplItem>) -> ImplBlock {
    ImplBlock {
        generics: String::new(),
        trait_path: "Greet".to_string(),
        self_ty: "Greeter".to_string(),
        items,
    }
}

/// Synthesizes a fixed default for every residual item and counts its
/// calls.
struct FixedGenerator {
    calls: usize,
}

impl Generator for FixedGenerator {
    fn generate_const(&mut self, item: &TraitItemConst) -> Result<ImplItemConst, GeneratorError> {
        self.calls += 1;
        Ok(ImplItemConst { ident: item.ident.clone(), ty: item.ty.clone(), value: "0".to_string() })
    }

    fn generate_method(
        &mut self,
        item: &TraitItemMethod,
    ) -> Result<ImplItemMethod, GeneratorError> {
        self.calls += 1;
        Ok(ImplItemMethod { ident: item.ident.clone(), sig: item.sig.clone(), body: "{}".to_string() })
    }

    fn generate_type(&mut self, item: &TraitItemType) -> Result<ImplItemType, GeneratorError> {
        self.calls += 1;
        Ok(ImplItemType { ident: item.ident.clone(), ty: "()".to_string() })
    }
}

/// Fails on every call; completing with it succeeds only when the
/// driver never consults the generator.
struct RefusingGenerator;

impl Generator for RefusingGenerator {
    fn generate_const(&mut self, _item: &TraitItemConst) -> Result<ImplItemConst, GeneratorError> {
        Err(GeneratorError { message: "refused".to_string() })
    }

    fn generate_method(
        &mut self,
        _item: &TraitItemMethod,
    ) -> Result<ImplItemMethod, GeneratorError> {
        Err(GeneratorError { message: "refused".to_string() })
    }

    fn generate_type(&mut self, _item: &TraitItemType) -> Result<ImplItemType, GeneratorError> {
        Err(GeneratorError { message: "refused".to_string() })
    }
}

/// Fails on the function with the given name, succeeds elsewhere.
struct FailOnMethod {
    name: String,
    calls: usize,
}

impl Generator for FailOnMethod {
    fn generate_const(&mut self, item: &TraitItemConst) -> Result<ImplItemConst, GeneratorError> {
        self.calls += 1;
        Ok(ImplItemConst { ident: item.ident.clone(), ty: item.ty.clone(), value: "0".to_string() })
    }

    fn generate_method(
        &mut self,
        item: &TraitItemMethod,
    ) -> Result<ImplItemMethod, GeneratorError> {
        self.calls += 1;
        if item.ident == self.name {
            Err(GeneratorError { message: format!("cannot implement {}", item.ident) })
        } else {
            Ok(ImplItemMethod {
                ident: item.ident.clone(),
                sig: item.sig.clone(),
                body: "{}".to_string(),
            })
        }
    }

    fn generate_type(&mut self, item: &TraitItemType) -> Result<ImplItemType, GeneratorError> {
        self.calls += 1;
        Ok(ImplItemType { ident: item.ident.clone(), ty: "()".to_string() })
    }
}

#[test]
fn completes_partial_implementation() {
    // The trait declares a constant, a function and a type; the
    // implementation supplies only the function.
    let trait_items = vec![trait_const("N"), trait_method("f"), trait_type("Output")];
    let b = block(vec![impl_method("f")]);
    let mut generator = FixedGenerator { calls: 0 };
    let out = complete(&trait_items, &b, &mut generator).unwrap();
    assert_eq!(out.trait_path, "Greet");
    assert_eq!(out.self_ty, "Greeter");
    assert_eq!(out.items.len(), 3);
    match &out.items[0] {
        ImplItem::Method(f) => assert_eq!(f.ident, "f"),
        _ => panic!("the original function must stay first"),
    }
    match &out.items[1] {
        ImplItem::Const(c) => {
            assert_eq!(c.ident, "N");
            assert_eq!(c.value, "0");
        },
        _ => panic!("the generated constant must follow the original items"),
    }
    match &out.items[2] {
        ImplItem::Type(t) => {
            assert_eq!(t.ident, "Output");
            assert_eq!(t.ty, "()");
        },
        _ => panic!("the generated type must come last"),
    }
    assert_eq!(generator.calls, 2);
}

#[test]
fn full_implementation_is_returned_unchanged() {
    let trait_items = vec![trait_const("N"), trait_method("f"), trait_type("Output")];
    let b = block(vec![impl_const("N"), impl_method("f"), impl_type("Output")]);
    // A generator that fails on every call: completion can only
    // succeed if the driver never invokes it.
    let mut generator = RefusingGenerator;
    let out = complete(&trait_items, &b, &mut generator).unwrap();
    assert_eq!(out.items.len(), 3);
    match &out.items[0] {
        ImplItem::Const(c) => assert_eq!(c.value, "7"),
        _ => panic!("the original constant must be kept"),
    }
    match &out.items[1] {
        ImplItem::Method(f) => assert_eq!(f.ident, "f"),
        _ => panic!("the original function must be kept"),
    }
    match &out.items[2] {
        ImplItem::Type(t) => assert_eq!(t.ident, "Output"),
        _ => panic!("the original type must be kept"),
    }
}

#[test]
fn extra_item_fails_with_match_error() {
    let trait_items = vec![trait_method("g")];
    let b = block(vec![impl_method("g"), impl_method("h")]);
    let mut generator = FixedGenerator { calls: 0 };
    let err = complete(&trait_items, &b, &mut generator).unwrap_err();
    match err {
        CompletionError::Match(me) => {
            assert_eq!(me.kind, ItemKind::Method);
            assert_eq!(me.ident, "h");
        },
        CompletionError::Generator(_) => panic!("a mismatch must not be a generator error"),
    }
    // The generator is never consulted, and the input block is still
    // what it was.
    assert_eq!(generator.calls, 0);
    assert_eq!(b.items.len(), 2);
}

#[test]
fn generator_failure_aborts_completion() {
    // The trait declares two functions, the implementation neither;
    // the generator fails on the second one.
    let trait_items = vec![trait_method("p"), trait_method("q")];
    let b = block(Vec::new());
    let mut generator = FailOnMethod { name: "q".to_string(), calls: 0 };
    let err = complete(&trait_items, &b, &mut generator).unwrap_err();
    match err {
        CompletionError::Generator(gf) => {
            assert_eq!(gf.kind, ItemKind::Method);
            assert_eq!(gf.ident, "q");
            assert_eq!(gf.error.message, "cannot implement q");
        },
        CompletionError::Match(_) => panic!("a generator failure must not be a match error"),
    }
    // The driver reached the failing item, and the successfully
    // generated function for p was discarded with the whole result.
    assert_eq!(generator.calls, 2);
}

#[test]
fn generated_items_come_in_kind_order() {
    let trait_items = vec![
        trait_type("T"),
        trait_method("m"),
        trait_const("C"),
        trait_const("D"),
    ];
    let b = block(Vec::new());
    let mut generator = FixedGenerator { calls: 0 };
    let out = complete(&trait_items, &b, &mut generator).unwrap();
    assert_eq!(out.items.len(), 4);
    assert!(matches!(&out.items[0], ImplItem::Const(c) if c.ident == "C"));
    assert!(matches!(&out.items[1], ImplItem::Const(c) if c.ident == "D"));
    assert!(matches!(&out.items[2], ImplItem::Method(f) if f.ident == "m"));
    assert!(matches!(&out.items[3], ImplItem::Type(t) if t.ident == "T"));
    assert_eq!(generator.calls, 4);
}

#[test]
fn duplicate_trait_item_is_generated_once() {
    let trait_items = vec![trait_const("N"), trait_const("N")];
    let b = block(Vec::new());
    let mut generator = FixedGenerator { calls: 0 };
    let out = complete(&trait_items, &b, &mut generator).unwrap();
    assert_eq!(out.items.len(), 1);
    assert_eq!(generator.calls, 1);
}

#[test]
fn other_items_are_carried_through() {
    let trait_items = vec![trait_method("f"), TraitItem::Other("macro_call!();".to_string())];
    let b = block(vec![ImplItem::Other("compile_error!();".to_string()), impl_method("f")]);
    let mut generator = RefusingGenerator;
    let out = complete(&trait_items, &b, &mut generator).unwrap();
    assert_eq!(out.items.len(), 2);
    assert!(matches!(&out.items[0], ImplItem::Other(o) if o == "compile_error!();"));
    assert!(matches!(&out.items[1], ImplItem::Method(f) if f.ident == "f"));
}

#[test]
fn empty_trait_and_empty_impl_complete_to_empty() {
    let trait_items = Vec::new();
    let b = block(Vec::new());
    let mut generator = RefusingGenerator;
    let out = complete(&trait_items, &b, &mut generator).unwrap();
    assert_eq!(out.items.len(), 0);
    assert_eq!(out.generics, "");
    assert_eq!(out.trait_path, "Greet");
}
