//! Item indexes and their subtraction.
//!
//! [`TraitItemMap`] and [`ImplItemMap`] partition the items of a trait
//! body and of an implementation block into three buckets keyed by
//! identifier, one per [`ItemKind`](crate::items::ItemKind).
//! [`TraitItemMap::minus`] removes the implemented items, leaving the
//! residual set, and rejects an implementation item that the trait does
//! not declare.

use vstd::prelude::*;

use crate::entries::{
    first_missing, lemma_first_missing_inv, lemma_first_missing_none, lemma_first_missing_some,
    lemma_map_of_dom_subset, lemma_map_of_index, map_of, unique_keys, vec_contains, vec_filter_out,
    vec_insert, Keyed,
};
use crate::items::{
    ImplBlock, ImplItem, ImplItemConst, ImplItemMethod, ImplItemType, ItemKind, MatchError,
    TraitItem, TraitItemConst, TraitItemMethod, TraitItemType,
};

verus! {

/// The constants declared by a sequence of trait items, indexed by
/// identifier; on a duplicated identifier the later declaration wins.
pub open spec fn trait_const_index(items: Seq<TraitItem>) -> Map<Seq<char>, TraitItemConst>
    decreases items.len(),
{
    if items.len() == 0 {
        Map::empty()
    } else {
        let m = trait_const_index(items.drop_last());
        match items.last() {
            TraitItem::Const(c) => m.insert(c.ident@, c),
            _ => m,
        }
    }
}

/// The functions declared by a sequence of trait items, indexed by
/// identifier; on a duplicated identifier the later declaration wins.
pub open spec fn trait_method_index(items: Seq<TraitItem>) -> Map<Seq<char>, TraitItemMethod>
    decreases items.len(),
{
    if items.len() == 0 {
        Map::empty()
    } else {
        let m = trait_method_index(items.drop_last());
        match items.last() {
            TraitItem::Method(f) => m.insert(f.ident@, f),
            _ => m,
        }
    }
}

/// The types declared by a sequence of trait items, indexed by
/// identifier; on a duplicated identifier the later declaration wins.
pub open spec fn trait_type_index(items: Seq<TraitItem>) -> Map<Seq<char>, TraitItemType>
    decreases items.len(),
{
    if items.len() == 0 {
        Map::empty()
    } else {
        let m = trait_type_index(items.drop_last());
        match items.last() {
            TraitItem::Type(t) => m.insert(t.ident@, t),
            _ => m,
        }
    }
}

/// The constants supplied by a sequence of implementation items,
/// indexed by identifier; on a duplicated identifier the later one
/// wins.
pub open spec fn impl_const_index(items: Seq<ImplItem>) -> Map<Seq<char>, ImplItemConst>
    decreases items.len(),
{
    if items.len() == 0 {
        Map::empty()
    } else {
        let m = impl_const_index(items.drop_last());
        match items.last() {
            ImplItem::Const(c) => m.insert(c.ident@, c),
            _ => m,
        }
    }
}

/// The functions supplied by a sequence of implementation items,
/// indexed by identifier; on a duplicated identifier the later one
/// wins.
pub open spec fn impl_method_index(items: Seq<ImplItem>) -> Map<Seq<char>, ImplItemMethod>
    decreases items.len(),
{
    if items.len() == 0 {
        Map::empty()
    } else {
        let m = impl_method_index(items.drop_last());
        match items.last() {
            ImplItem::Method(f) => m.insert(f.ident@, f),
            _ => m,
        }
    }
}

/// The types supplied by a sequence of implementation items, indexed by
/// identifier; on a duplicated identifier the later one wins.
pub open spec fn impl_type_index(items: Seq<ImplItem>) -> Map<Seq<char>, ImplItemType>
    decreases items.len(),
{
    if items.len() == 0 {
        Map::empty()
    } else {
        let m = impl_type_index(items.drop_last());
        match items.last() {
            ImplItem::Type(t) => m.insert(t.ident@, t),
            _ => m,
        }
    }
}

/// Indexes the items of a trait body by namespaced identifier.
#[derive(Debug)]
pub struct TraitItemMap {
    /// Associated constants declared by the trait.
    pub consts: Vec<TraitItemConst>,
    /// Associated functions declared by the trait.
    pub methods: Vec<TraitItemMethod>,
    /// Associated types declared by the trait.
    pub types: Vec<TraitItemType>,
}

/// Indexes the items of an implementation block by namespaced
/// identifier.
#[derive(Debug)]
pub struct ImplItemMap {
    /// Associated constants supplied by the implementation.
    pub consts: Vec<ImplItemConst>,
    /// Associated functions supplied by the implementation.
    pub methods: Vec<ImplItemMethod>,
    /// Associated types supplied by the implementation.
    pub types: Vec<ImplItemType>,
}

impl ImplItemMap {
    /// Each bucket indexes its entries by pairwise-distinct
    /// identifiers.
    pub open spec fn wf(self) -> bool {
        unique_keys(self.consts@) && unique_keys(self.methods@) && unique_keys(self.types@)
    }

    /// Constructs the implementation item index from an implementation
    /// block.
    pub fn new(impl_block: &ImplBlock) -> (r: Self)
        ensures
            r.wf(),
            map_of(r.consts@) == impl_const_index(impl_block.items@),
            map_of(r.methods@) == impl_method_index(impl_block.items@),
            map_of(r.types@) == impl_type_index(impl_block.items@),
    {
        let mut map = ImplItemMap { consts: Vec::new(), methods: Vec::new(), types: Vec::new() };
        proof {
            assert(impl_block.items@.take(0) =~= Seq::<ImplItem>::empty());
        }
        let mut i: usize = 0;
        while i < impl_block.items.len()
            invariant
                i <= impl_block.items@.len(),
                map.wf(),
                map_of(map.consts@) == impl_const_index(impl_block.items@.take(i as int)),
                map_of(map.methods@) == impl_method_index(impl_block.items@.take(i as int)),
                map_of(map.types@) == impl_type_index(impl_block.items@.take(i as int)),
            decreases impl_block.items@.len() - i,
        {
            proof {
                assert(impl_block.items@.take(i + 1).drop_last() =~= impl_block.items@.take(
                    i as int,
                ));
                assert(impl_block.items@.take(i + 1).last() == impl_block.items@[i as int]);
            }
            match &impl_block.items[i] {
                ImplItem::Const(c) => vec_insert(&mut map.consts, c.clone()),
                ImplItem::Method(f) => vec_insert(&mut map.methods, f.clone()),
                ImplItem::Type(t) => vec_insert(&mut map.types, t.clone()),
                ImplItem::Other(_) => (),
            }
            i += 1;
        }
        proof {
            assert(impl_block.items@.take(impl_block.items@.len() as int) =~= impl_block.items@);
        }
        map
    }
}

/// The first mismatch between a trait index and an implementation
/// index: the implementation item, in bucket order (constants, then
/// functions, then types) and within one bucket in entry order, whose
/// identifier the trait does not declare for that kind.
pub open spec fn spec_first_error(t: TraitItemMap, im: ImplItemMap) -> Option<MatchError> {
    match first_missing(im.consts@, map_of(t.consts@).dom()) {
        Some(j) => Some(
            MatchError {
                kind: ItemKind::Constant,
                ident: im.consts@[j].ident,
                item: ImplItem::Const(im.consts@[j]),
            },
        ),
        None => match first_missing(im.methods@, map_of(t.methods@).dom()) {
            Some(j) => Some(
                MatchError {
                    kind: ItemKind::Method,
                    ident: im.methods@[j].ident,
                    item: ImplItem::Method(im.methods@[j]),
                },
            ),
            None => match first_missing(im.types@, map_of(t.types@).dom()) {
                Some(j) => Some(
                    MatchError {
                        kind: ItemKind::Type,
                        ident: im.types@[j].ident,
                        item: ImplItem::Type(im.types@[j]),
                    },
                ),
                None => None,
            },
        },
    }
}

impl TraitItemMap {
    /// Each bucket indexes its entries by pairwise-distinct
    /// identifiers.
    pub open spec fn wf(self) -> bool {
        unique_keys(self.consts@) && unique_keys(self.methods@) && unique_keys(self.types@)
    }

    /// Constructs the trait item index from a slice of trait items.
    pub fn new(trait_items: &Vec<TraitItem>) -> (r: Self)
        ensures
            r.wf(),
            map_of(r.consts@) == trait_const_index(trait_items@),
            map_of(r.methods@) == trait_method_index(trait_items@),
            map_of(r.types@) == trait_type_index(trait_items@),
    {
        let mut map = TraitItemMap { consts: Vec::new(), methods: Vec::new(), types: Vec::new() };
        proof {
            assert(trait_items@.take(0) =~= Seq::<TraitItem>::empty());
        }
        let mut i: usize = 0;
        while i < trait_items.len()
            invariant
                i <= trait_items@.len(),
                map.wf(),
                map_of(map.consts@) == trait_const_index(trait_items@.take(i as int)),
                map_of(map.methods@) == trait_method_index(trait_items@.take(i as int)),
                map_of(map.types@) == trait_type_index(trait_items@.take(i as int)),
            decreases trait_items@.len() - i,
        {
            proof {
                assert(trait_items@.take(i + 1).drop_last() =~= trait_items@.take(i as int));
                assert(trait_items@.take(i + 1).last() == trait_items@[i as int]);
            }
            match &trait_items[i] {
                TraitItem::Const(c) => vec_insert(&mut map.consts, c.clone()),
                TraitItem::Method(f) => vec_insert(&mut map.methods, f.clone()),
                TraitItem::Type(t) => vec_insert(&mut map.types, t.clone()),
                TraitItem::Other(_) => (),
            }
            i += 1;
        }
        proof {
            assert(trait_items@.take(trait_items@.len() as int) =~= trait_items@);
        }
        map
    }

    /// Removes the items found in the implementation, leaving only the
    /// unimplemented items; fails on the first implementation item
    /// that the trait does not declare for its kind, leaving the index
    /// untouched.
    pub fn minus(&mut self, impl_items: &ImplItemMap) -> (r: Result<(), MatchError>)
        requires
            old(self).wf(),
            impl_items.wf(),
        ensures
            final(self).wf(),
            r == (match spec_first_error(*old(self), *impl_items) {
                Some(e) => Err::<(), MatchError>(e),
                None => Ok::<(), MatchError>(()),
            }),
            r is Err ==> *final(self) == *old(self),
            r is Ok ==> map_of(final(self).consts@) == map_of(old(self).consts@).remove_keys(
                map_of(impl_items.consts@).dom(),
            ),
            r is Ok ==> map_of(final(self).methods@) == map_of(old(self).methods@).remove_keys(
                map_of(impl_items.methods@).dom(),
            ),
            r is Ok ==> map_of(final(self).types@) == map_of(old(self).types@).remove_keys(
                map_of(impl_items.types@).dom(),
            ),
    {
        let mut i: usize = 0;
        while i < impl_items.consts.len()
            invariant
                *self == *old(self),
                self.wf(),
                impl_items.wf(),
                i <= impl_items.consts@.len(),
                forall|k: int|
                    0 <= k < i ==> map_of(self.consts@).dom().contains(
                        #[trigger] impl_items.consts@[k].key(),
                    ),
            decreases impl_items.consts@.len() - i,
        {
            if !vec_contains(&self.consts, impl_items.consts[i].ident()) {
                let offender = &impl_items.consts[i];
                proof {
                    lemma_first_missing_some(
                        impl_items.consts@,
                        map_of(self.consts@).dom(),
                        i as int,
                    );
                }
                return Err(
                    MatchError {
                        kind: ItemKind::Constant,
                        ident: offender.ident.clone(),
                        item: ImplItem::Const(offender.clone()),
                    },
                );
            }
            i += 1;
        }
        proof {
            lemma_first_missing_none(impl_items.consts@, map_of(self.consts@).dom());
        }
        let mut i: usize = 0;
        while i < impl_items.methods.len()
            invariant
                *self == *old(self),
                self.wf(),
                impl_items.wf(),
                i <= impl_items.methods@.len(),
                forall|k: int|
                    0 <= k < i ==> map_of(self.methods@).dom().contains(
                        #[trigger] impl_items.methods@[k].key(),
                    ),
                first_missing(impl_items.consts@, map_of(self.consts@).dom()) is None,
            decreases impl_items.methods@.len() - i,
        {
            if !vec_contains(&self.methods, impl_items.methods[i].ident()) {
                let offender = &impl_items.methods[i];
                proof {
                    lemma_first_missing_some(
                        impl_items.methods@,
                        map_of(self.methods@).dom(),
                        i as int,
                    );
                }
                return Err(
                    MatchError {
                        kind: ItemKind::Method,
                        ident: offender.ident.clone(),
                        item: ImplItem::Method(offender.clone()),
                    },
                );
            }
            i += 1;
        }
        proof {
            lemma_first_missing_none(impl_items.methods@, map_of(self.methods@).dom());
        }
        let mut i: usize = 0;
        while i < impl_items.types.len()
            invariant
                *self == *old(self),
                self.wf(),
                impl_items.wf(),
                i <= impl_items.types@.len(),
                forall|k: int|
                    0 <= k < i ==> map_of(self.types@).dom().contains(
                        #[trigger] impl_items.types@[k].key(),
                    ),
                first_missing(impl_items.consts@, map_of(self.consts@).dom()) is None,
                first_missing(impl_items.methods@, map_of(self.methods@).dom()) is None,
            decreases impl_items.types@.len() - i,
        {
            if !vec_contains(&self.types, impl_items.types[i].ident()) {
                let offender = &impl_items.types[i];
                proof {
                    lemma_first_missing_some(
                        impl_items.types@,
                        map_of(self.types@).dom(),
                        i as int,
                    );
                }
                return Err(
                    MatchError {
                        kind: ItemKind::Type,
                        ident: offender.ident.clone(),
                        item: ImplItem::Type(offender.clone()),
                    },
                );
            }
            i += 1;
        }
        proof {
            lemma_first_missing_none(impl_items.types@, map_of(self.types@).dom());
        }
        self.consts = vec_filter_out(&self.consts, &impl_items.consts);
        self.methods = vec_filter_out(&self.methods, &impl_items.methods);
        self.types = vec_filter_out(&self.types, &impl_items.types);
        Ok(())
    }
}

/// The trait's constants that the implementation leaves unimplemented.
pub open spec fn residual_consts(trait_items: Seq<TraitItem>, impl_items: Seq<ImplItem>) -> Map<
    Seq<char>,
    TraitItemConst,
> {
    trait_const_index(trait_items).remove_keys(impl_const_index(impl_items).dom())
}

/// The trait's functions that the implementation leaves unimplemented.
pub open spec fn residual_methods(trait_items: Seq<TraitItem>, impl_items: Seq<ImplItem>) -> Map<
    Seq<char>,
    TraitItemMethod,
> {
    trait_method_index(trait_items).remove_keys(impl_method_index(impl_items).dom())
}

/// The trait's types that the implementation leaves unimplemented.
pub open spec fn residual_types(trait_items: Seq<TraitItem>, impl_items: Seq<ImplItem>) -> Map<
    Seq<char>,
    TraitItemType,
> {
    trait_type_index(trait_items).remove_keys(impl_type_index(impl_items).dom())
}

/// Every item the implementation supplies is declared by the trait,
/// under the same kind and identifier.
pub open spec fn all_items_matched(trait_items: Seq<TraitItem>, impl_items: Seq<ImplItem>) -> bool {
    &&& impl_const_index(impl_items).dom().subset_of(trait_const_index(trait_items).dom())
    &&& impl_method_index(impl_items).dom().subset_of(trait_method_index(trait_items).dom())
    &&& impl_type_index(impl_items).dom().subset_of(trait_type_index(trait_items).dom())
}

/// How many trait items the implementation leaves unimplemented.
pub open spec fn residual_count(trait_items: Seq<TraitItem>, impl_items: Seq<ImplItem>) -> nat {
    residual_consts(trait_items, impl_items).dom().len() + residual_methods(
        trait_items,
        impl_items,
    ).dom().len() + residual_types(trait_items, impl_items).dom().len()
}

/// `e` faithfully reports a mismatch between the implementation and
/// the trait: the implementation supplies an item of kind `e.kind`
/// named `e.ident` that the trait does not declare for that kind,
/// `e.item` is that item, and no bucket of an earlier kind (constants
/// before functions before types) has a mismatch of its own.
pub open spec fn valid_match_error(
    trait_items: Seq<TraitItem>,
    impl_items: Seq<ImplItem>,
    e: MatchError,
) -> bool {
    match e.kind {
        ItemKind::Constant => {
            &&& impl_const_index(impl_items).dom().contains(e.ident@)
            &&& !trait_const_index(trait_items).dom().contains(e.ident@)
            &&& e.item == ImplItem::Const(impl_const_index(impl_items)[e.ident@])
        },
        ItemKind::Method => {
            &&& impl_const_index(impl_items).dom().subset_of(
                trait_const_index(trait_items).dom(),
            )
            &&& impl_method_index(impl_items).dom().contains(e.ident@)
            &&& !trait_method_index(trait_items).dom().contains(e.ident@)
            &&& e.item == ImplItem::Method(impl_method_index(impl_items)[e.ident@])
        },
        ItemKind::Type => {
            &&& impl_const_index(impl_items).dom().subset_of(
                trait_const_index(trait_items).dom(),
            )
            &&& impl_method_index(impl_items).dom().subset_of(
                trait_method_index(trait_items).dom(),
            )
            &&& impl_type_index(impl_items).dom().contains(e.ident@)
            &&& !trait_type_index(trait_items).dom().contains(e.ident@)
            &&& e.item == ImplItem::Type(impl_type_index(impl_items)[e.ident@])
        },
    }
}

/// Shorthand for `TraitItemMap::new(..).minus(&ImplItemMap::new(..))`:
/// indexes both sides and returns the residual set, or the first
/// mismatch.
pub fn subtract_items(trait_items: &Vec<TraitItem>, impl_block: &ImplBlock) -> (r: Result<
    TraitItemMap,
    MatchError,
>)
    ensures
        r is Ok <==> all_items_matched(trait_items@, impl_block.items@),
        r matches Ok(m) ==> m.wf() && map_of(m.consts@) == residual_consts(
            trait_items@,
            impl_block.items@,
        ) && map_of(m.methods@) == residual_methods(trait_items@, impl_block.items@) && map_of(
            m.types@,
        ) == residual_types(trait_items@, impl_block.items@),
        r matches Err(e) ==> valid_match_error(trait_items@, impl_block.items@, e)
            && !all_items_matched(trait_items@, impl_block.items@),
{
    let mut items = TraitItemMap::new(trait_items);
    let ghost t0 = items;
    let impl_map = ImplItemMap::new(impl_block);
    let subtracted = items.minus(&impl_map);
    match subtracted {
        Ok(()) => {
            proof {
                assert(first_missing(impl_map.consts@, map_of(t0.consts@).dom()) is None);
                assert(first_missing(impl_map.methods@, map_of(t0.methods@).dom()) is None);
                assert(first_missing(impl_map.types@, map_of(t0.types@).dom()) is None);
                lemma_map_of_dom_subset(impl_map.consts@, map_of(t0.consts@).dom());
                lemma_map_of_dom_subset(impl_map.methods@, map_of(t0.methods@).dom());
                lemma_map_of_dom_subset(impl_map.types@, map_of(t0.types@).dom());
            }
            Ok(items)
        },
        Err(e) => {
            proof {
                let ce = first_missing(impl_map.consts@, map_of(t0.consts@).dom());
                let me = first_missing(impl_map.methods@, map_of(t0.methods@).dom());
                let te = first_missing(impl_map.types@, map_of(t0.types@).dom());
                if ce is Some {
                    let j = ce->0;
                    lemma_first_missing_inv(impl_map.consts@, map_of(t0.consts@).dom(), j);
                    lemma_map_of_index(impl_map.consts@, j);
                } else if me is Some {
                    let j = me->0;
                    lemma_map_of_dom_subset(impl_map.consts@, map_of(t0.consts@).dom());
                    lemma_first_missing_inv(impl_map.methods@, map_of(t0.methods@).dom(), j);
                    lemma_map_of_index(impl_map.methods@, j);
                } else {
                    let j = te->0;
                    lemma_map_of_dom_subset(impl_map.consts@, map_of(t0.consts@).dom());
                    lemma_map_of_dom_subset(impl_map.methods@, map_of(t0.methods@).dom());
                    lemma_first_missing_inv(impl_map.types@, map_of(t0.types@).dom(), j);
                    lemma_map_of_index(impl_map.types@, j);
                }
            }
            Err(e)
        },
    }
}

} // verus!
