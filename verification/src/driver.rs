//! The completion driver.
//!
//! [`complete`] indexes the trait body and the implementation block,
//! subtracts the implemented items, invokes a [`Generator`] on every
//! residual item — constants first, then functions, then types — and
//! returns a copy of the implementation block with the synthesized
//! items appended.  The inputs are never mutated; on any failure the
//! partially built copy is discarded.

use vstd::prelude::*;

use crate::entries::{lemma_map_of_card, lemma_map_of_index, map_of};
use crate::items::{
    CompletionError, GeneratorError, GeneratorFailure, ImplBlock, ImplItem, ImplItemConst,
    ImplItemMethod, ImplItemType, ItemKind, TraitItem, TraitItemConst, TraitItemMethod,
    TraitItemType,
};
use crate::trait_item_map::{
    all_items_matched, residual_consts, residual_count, residual_methods, residual_types,
    subtract_items, valid_match_error,
};

verus! {

/// Synthesizes missing implementation items.
///
/// A generator may keep internal state across calls within one
/// completion request; the driver calls it sequentially, one call per
/// residual item, in kind order: constants, then functions, then
/// types.
pub trait Generator {
    /// Implements an associated constant.
    fn generate_const(&mut self, item: &TraitItemConst) -> Result<ImplItemConst, GeneratorError>;

    /// Implements an associated function.
    fn generate_method(&mut self, item: &TraitItemMethod) -> Result<
        ImplItemMethod,
        GeneratorError,
    >;

    /// Implements an associated type.
    fn generate_type(&mut self, item: &TraitItemType) -> Result<ImplItemType, GeneratorError>;
}

/// An equal copy of an item vector.
fn duplicate_items(v: &Vec<ImplItem>) -> (r: Vec<ImplItem>)
    ensures
        r@ == v@,
{
    let mut r: Vec<ImplItem> = Vec::new();
    let mut i: usize = 0;
    proof {
        assert(r@ =~= v@.take(0));
    }
    while i < v.len()
        invariant
            i <= v@.len(),
            r@ == v@.take(i as int),
        decreases v@.len() - i,
    {
        let ghost prev = r@;
        r.push(v[i].clone());
        proof {
            assert(r@ =~= v@.take(i + 1));
        }
        i += 1;
    }
    proof {
        assert(v@.take(v@.len() as int) =~= v@);
    }
    r
}

/// Invokes the generator on each unimplemented item and returns a copy
/// of `impl_block` with the generated items appended.
///
/// When the implementation already supplies every trait item, the copy
/// is returned unchanged and the generator is never consulted.  A
/// mismatch between the implementation and the trait aborts the
/// completion before any generation; a generator failure aborts it at
/// that item, and the items generated so far are discarded.
pub fn complete<G: Generator>(
    trait_items: &Vec<TraitItem>,
    impl_block: &ImplBlock,
    generator: &mut G,
) -> (r: Result<ImplBlock, CompletionError>)
    ensures
        (r matches Err(ce) && ce matches CompletionError::Match(me)) <==> !all_items_matched(
            trait_items@,
            impl_block.items@,
        ),
        r matches Err(ce) ==> (ce matches CompletionError::Match(me) ==> valid_match_error(
            trait_items@,
            impl_block.items@,
            me,
        )),
        r matches Err(ce) ==> (ce matches CompletionError::Generator(gf) ==> all_items_matched(
            trait_items@,
            impl_block.items@,
        ) && residual_count(trait_items@, impl_block.items@) > 0 && (match gf.kind {
            ItemKind::Constant => residual_consts(trait_items@, impl_block.items@).dom().contains(
                gf.ident@,
            ),
            ItemKind::Method => residual_methods(trait_items@, impl_block.items@).dom().contains(
                gf.ident@,
            ),
            ItemKind::Type => residual_types(trait_items@, impl_block.items@).dom().contains(
                gf.ident@,
            ),
        })),
        r matches Ok(out) ==> {
            &&& all_items_matched(trait_items@, impl_block.items@)
            &&& out.generics == impl_block.generics
            &&& out.trait_path == impl_block.trait_path
            &&& out.self_ty == impl_block.self_ty
            &&& out.items@.len() == impl_block.items@.len() + residual_count(
                trait_items@,
                impl_block.items@,
            )
            &&& out.items@.take(impl_block.items@.len() as int) == impl_block.items@
            &&& forall|k: int|
                impl_block.items@.len() <= k < impl_block.items@.len() + residual_consts(
                    trait_items@,
                    impl_block.items@,
                ).dom().len() ==> out.items@[k] is Const
            &&& forall|k: int|
                impl_block.items@.len() + residual_consts(trait_items@, impl_block.items@).dom().len()
                    <= k < impl_block.items@.len() + residual_consts(
                    trait_items@,
                    impl_block.items@,
                ).dom().len() + residual_methods(trait_items@, impl_block.items@).dom().len()
                    ==> out.items@[k] is Method
            &&& forall|k: int|
                impl_block.items@.len() + residual_consts(trait_items@, impl_block.items@).dom().len()
                    + residual_methods(trait_items@, impl_block.items@).dom().len() <= k
                    < out.items@.len() ==> out.items@[k] is Type
        },
        all_items_matched(trait_items@, impl_block.items@) && residual_count(
            trait_items@,
            impl_block.items@,
        ) == 0 ==> (r matches Ok(out) && out.items@ == impl_block.items@),
{
    let subtracted = subtract_items(trait_items, impl_block);
    let items = match subtracted {
        Ok(m) => m,
        Err(e) => {
            return Err(CompletionError::Match(e));
        },
    };
    proof {
        lemma_map_of_card(items.consts@);
        lemma_map_of_card(items.methods@);
        lemma_map_of_card(items.types@);
    }
    let ghost len0 = impl_block.items@.len() as int;
    let ghost nc = items.consts@.len() as int;
    let ghost nm = items.methods@.len() as int;
    let mut output = ImplBlock {
        generics: impl_block.generics.clone(),
        trait_path: impl_block.trait_path.clone(),
        self_ty: impl_block.self_ty.clone(),
        items: duplicate_items(&impl_block.items),
    };
    proof {
        assert(output.items@.take(len0) =~= impl_block.items@);
    }
    let mut i: usize = 0;
    while i < items.consts.len()
        invariant
            i <= items.consts@.len(),
            all_items_matched(trait_items@, impl_block.items@),
            items.consts@.len() == residual_consts(trait_items@, impl_block.items@).dom().len(),
            items.methods@.len() == residual_methods(trait_items@, impl_block.items@).dom().len(),
            items.types@.len() == residual_types(trait_items@, impl_block.items@).dom().len(),
            items.wf(),
            map_of(items.consts@) == residual_consts(trait_items@, impl_block.items@),
            map_of(items.methods@) == residual_methods(trait_items@, impl_block.items@),
            map_of(items.types@) == residual_types(trait_items@, impl_block.items@),
            output.generics == impl_block.generics,
            output.trait_path == impl_block.trait_path,
            output.self_ty == impl_block.self_ty,
            output.items@.len() == impl_block.items@.len() + i,
            output.items@.take(len0) == impl_block.items@,
            len0 == impl_block.items@.len() as int,
            forall|k: int| len0 <= k < output.items@.len() ==> output.items@[k] is Const,
        decreases items.consts@.len() - i,
    {
        let produced = generator.generate_const(&items.consts[i]);
        match produced {
            Ok(c) => {
                let ghost prev = output.items@;
                output.items.push(ImplItem::Const(c));
                proof {
                    assert(output.items@.take(len0) =~= prev.take(len0));
                }
            },
            Err(e) => {
                proof {
                    lemma_map_of_index(items.consts@, i as int);
                }
                return Err(
                    CompletionError::Generator(
                        GeneratorFailure {
                            kind: ItemKind::Constant,
                            ident: items.consts[i].ident.clone(),
                            error: e,
                        },
                    ),
                );
            },
        }
        i += 1;
    }
    let mut i: usize = 0;
    while i < items.methods.len()
        invariant
            i <= items.methods@.len(),
            all_items_matched(trait_items@, impl_block.items@),
            items.consts@.len() == residual_consts(trait_items@, impl_block.items@).dom().len(),
            items.methods@.len() == residual_methods(trait_items@, impl_block.items@).dom().len(),
            items.types@.len() == residual_types(trait_items@, impl_block.items@).dom().len(),
            items.wf(),
            map_of(items.consts@) == residual_consts(trait_items@, impl_block.items@),
            map_of(items.methods@) == residual_methods(trait_items@, impl_block.items@),
            map_of(items.types@) == residual_types(trait_items@, impl_block.items@),
            output.generics == impl_block.generics,
            output.trait_path == impl_block.trait_path,
            output.self_ty == impl_block.self_ty,
            output.items@.len() == impl_block.items@.len() + nc + i,
            output.items@.take(len0) == impl_block.items@,
            len0 == impl_block.items@.len() as int,
            nc == items.consts@.len() as int,
            forall|k: int| len0 <= k < len0 + nc ==> output.items@[k] is Const,
            forall|k: int| len0 + nc <= k < output.items@.len() ==> output.items@[k] is Method,
        decreases items.methods@.len() - i,
    {
        let produced = generator.generate_method(&items.methods[i]);
        match produced {
            Ok(f) => {
                let ghost prev = output.items@;
                output.items.push(ImplItem::Method(f));
                proof {
                    assert(output.items@.take(len0) =~= prev.take(len0));
                }
            },
            Err(e) => {
                proof {
                    lemma_map_of_index(items.methods@, i as int);
                }
                return Err(
                    CompletionError::Generator(
                        GeneratorFailure {
                            kind: ItemKind::Method,
                            ident: items.methods[i].ident.clone(),
                            error: e,
                        },
                    ),
                );
            },
        }
        i += 1;
    }
    let mut i: usize = 0;
    while i < items.types.len()
        invariant
            i <= items.types@.len(),
            all_items_matched(trait_items@, impl_block.items@),
            items.consts@.len() == residual_consts(trait_items@, impl_block.items@).dom().len(),
            items.methods@.len() == residual_methods(trait_items@, impl_block.items@).dom().len(),
            items.types@.len() == residual_types(trait_items@, impl_block.items@).dom().len(),
            items.wf(),
            map_of(items.consts@) == residual_consts(trait_items@, impl_block.items@),
            map_of(items.methods@) == residual_methods(trait_items@, impl_block.items@),
            map_of(items.types@) == residual_types(trait_items@, impl_block.items@),
            output.generics == impl_block.generics,
            output.trait_path == impl_block.trait_path,
            output.self_ty == impl_block.self_ty,
            output.items@.len() == impl_block.items@.len() + nc + nm + i,
            output.items@.take(len0) == impl_block.items@,
            len0 == impl_block.items@.len() as int,
            nc == items.consts@.len() as int,
            nm == items.methods@.len() as int,
            forall|k: int| len0 <= k < len0 + nc ==> output.items@[k] is Const,
            forall|k: int| len0 + nc <= k < len0 + nc + nm ==> output.items@[k] is Method,
            forall|k: int| len0 + nc + nm <= k < output.items@.len() ==> output.items@[k] is Type,
        decreases items.types@.len() - i,
    {
        let produced = generator.generate_type(&items.types[i]);
        match produced {
            Ok(t) => {
                let ghost prev = output.items@;
                output.items.push(ImplItem::Type(t));
                proof {
                    assert(output.items@.take(len0) =~= prev.take(len0));
                }
            },
            Err(e) => {
                proof {
                    lemma_map_of_index(items.types@, i as int);
                }
                return Err(
                    CompletionError::Generator(
                        GeneratorFailure {
                            kind: ItemKind::Type,
                            ident: items.types[i].ident.clone(),
                            error: e,
                        },
                    ),
                );
            },
        }
        i += 1;
    }
    proof {
        if residual_count(trait_items@, impl_block.items@) == 0 {
            assert(output.items@ =~= impl_block.items@);
        }
    }
    Ok(output)
}

} // verus!
