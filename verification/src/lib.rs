//! A compile-time trait-implementation completion engine.
//!
//! Given the items of a trait and a partial implementation block, the
//! library computes which trait items (associated constants, functions
//! and types) are still unimplemented, and drives a pluggable
//! [`Generator`] over that residual set to produce a completed
//! implementation block.

mod driver;
mod entries;
mod items;
mod laws;
mod trait_item_map;

pub use driver::{complete, Generator};
pub use entries::Keyed;
pub use items::{
    CompletionError, GeneratorError, GeneratorFailure, ImplBlock, ImplItem, ImplItemConst,
    ImplItemMethod, ImplItemType, ItemKind, MatchError, TraitItem, TraitItemConst, TraitItemMethod,
    TraitItemType,
};
pub use laws::{lemma_kind_isolation, lemma_residual_completeness, lemma_unknown_item_rejected};
pub use trait_item_map::{
    all_items_matched, impl_const_index, impl_method_index, impl_type_index, residual_consts,
    residual_count, residual_methods, residual_types, spec_first_error, subtract_items,
    trait_const_index, trait_method_index, trait_type_index, valid_match_error, ImplItemMap,
    TraitItemMap,
};
