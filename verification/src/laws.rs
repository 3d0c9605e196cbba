//! General properties of the item-diffing engine, stated and proved
//! over the index and residual specifications that the contracts of
//! [`subtract_items`](crate::trait_item_map::subtract_items) and
//! [`complete`](crate::driver::complete) speak of.

use vstd::prelude::*;

use crate::items::{ImplItem, ItemKind, TraitItem};
use crate::trait_item_map::{
    all_items_matched, impl_const_index, impl_method_index, impl_type_index, residual_consts,
    residual_methods, residual_types, trait_const_index, trait_method_index, trait_type_index,
};

verus! {

/// Completeness of the subtraction: kind by kind, the residual set
/// holds exactly the trait items whose identifier the implementation
/// does not supply for that kind, each bound to its declaration in the
/// trait.
pub proof fn lemma_residual_completeness(
    trait_items: Seq<TraitItem>,
    impl_items: Seq<ImplItem>,
    k: Seq<char>,
)
    ensures
        residual_consts(trait_items, impl_items).contains_key(k) <==> trait_const_index(
            trait_items,
        ).contains_key(k) && !impl_const_index(impl_items).contains_key(k),
        residual_methods(trait_items, impl_items).contains_key(k) <==> trait_method_index(
            trait_items,
        ).contains_key(k) && !impl_method_index(impl_items).contains_key(k),
        residual_types(trait_items, impl_items).contains_key(k) <==> trait_type_index(
            trait_items,
        ).contains_key(k) && !impl_type_index(impl_items).contains_key(k),
        residual_consts(trait_items, impl_items).contains_key(k) ==> residual_consts(
            trait_items,
            impl_items,
        )[k] == trait_const_index(trait_items)[k],
        residual_methods(trait_items, impl_items).contains_key(k) ==> residual_methods(
            trait_items,
            impl_items,
        )[k] == trait_method_index(trait_items)[k],
        residual_types(trait_items, impl_items).contains_key(k) ==> residual_types(
            trait_items,
            impl_items,
        )[k] == trait_type_index(trait_items)[k],
{
}

/// Rejection of unknown items: an implementation item whose identifier
/// the trait does not declare for that item's kind makes the two sides
/// mismatch, so no completion is produced for them.
pub proof fn lemma_unknown_item_rejected(
    trait_items: Seq<TraitItem>,
    impl_items: Seq<ImplItem>,
    kind: ItemKind,
    x: Seq<char>,
)
    requires
        match kind {
            ItemKind::Constant => impl_const_index(impl_items).dom().contains(x)
                && !trait_const_index(trait_items).dom().contains(x),
            ItemKind::Method => impl_method_index(impl_items).dom().contains(x)
                && !trait_method_index(trait_items).dom().contains(x),
            ItemKind::Type => impl_type_index(impl_items).dom().contains(x)
                && !trait_type_index(trait_items).dom().contains(x),
        },
    ensures
        !all_items_matched(trait_items, impl_items),
{
}

/// Kind isolation: an implemented function named `x` never satisfies a
/// trait constant of the same name.  Even when the trait declares a
/// constant `x`, an implementation function `x` that the trait
/// declares no function for is a mismatch.
pub proof fn lemma_kind_isolation(
    trait_items: Seq<TraitItem>,
    impl_items: Seq<ImplItem>,
    x: Seq<char>,
)
    requires
        trait_const_index(trait_items).dom().contains(x),
        impl_method_index(impl_items).dom().contains(x),
        !trait_method_index(trait_items).dom().contains(x),
    ensures
        !all_items_matched(trait_items, impl_items),
{
    lemma_unknown_item_rejected(trait_items, impl_items, ItemKind::Method, x);
}

} // verus!
