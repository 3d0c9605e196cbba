//! The item model: trait items, implementation items, the
//! implementation block they live in, and the error values of the
//! engine.
//!
//! Each item carries its identifier together with the textual parts of
//! its syntactic definition.  Identity, for the purpose of matching a
//! trait item against an implementation item, is the pair of the item's
//! kind and its identifier; the remaining fields are carried through
//! unchanged and never inspected by the engine.

use vstd::prelude::*;

use crate::entries::Keyed;

verus! {

/// The kind of an associated item: constant, function or type.
#[derive(Clone, Copy, Debug, PartialEq, Eq, Structural)]
pub enum ItemKind {
    Constant,
    Method,
    Type,
}

/// An associated constant declared by a trait.
#[derive(Debug)]
pub struct TraitItemConst {
    /// The constant's name.
    pub ident: String,
    /// The constant's type, as written in the trait.
    pub ty: String,
    /// The default value, if the trait supplies one.
    pub default: Option<String>,
}

/// An associated function declared by a trait.
#[derive(Debug)]
pub struct TraitItemMethod {
    /// The function's name.
    pub ident: String,
    /// The function's signature, as written in the trait.
    pub sig: String,
    /// The default body, if the trait supplies one.
    pub default_body: Option<String>,
}

/// An associated type declared by a trait.
#[derive(Debug)]
pub struct TraitItemType {
    /// The type's name.
    pub ident: String,
    /// The bounds placed on the type by the trait.
    pub bounds: String,
}

/// One item of a trait body.
#[derive(Debug)]
pub enum TraitItem {
    Const(TraitItemConst),
    Method(TraitItemMethod),
    Type(TraitItemType),
    /// An item of any other kind; the engine ignores it.
    Other(String),
}

/// An associated constant supplied by an implementation.
#[derive(Debug)]
pub struct ImplItemConst {
    /// The constant's name.
    pub ident: String,
    /// The constant's type.
    pub ty: String,
    /// The constant's value.
    pub value: String,
}

/// An associated function supplied by an implementation.
#[derive(Debug)]
pub struct ImplItemMethod {
    /// The function's name.
    pub ident: String,
    /// The function's signature.
    pub sig: String,
    /// The function's body.
    pub body: String,
}

/// An associated type supplied by an implementation.
#[derive(Debug)]
pub struct ImplItemType {
    /// The type's name.
    pub ident: String,
    /// The type the name is bound to.
    pub ty: String,
}

/// One item of an implementation block.
#[derive(Debug)]
pub enum ImplItem {
    Const(ImplItemConst),
    Method(ImplItemMethod),
    Type(ImplItemType),
    /// An item of any other kind; the engine ignores it.
    Other(String),
}

/// An implementation block: its metadata and its items.
#[derive(Debug)]
pub struct ImplBlock {
    /// The generic parameters of the block.
    pub generics: String,
    /// The path of the trait being implemented.
    pub trait_path: String,
    /// The type the trait is implemented for.
    pub self_ty: String,
    /// The items the block supplies.
    pub items: Vec<ImplItem>,
}

/// The implementation supplies an item that the trait does not declare:
/// there is no associated item of this kind called `ident` in the
/// trait.
#[derive(Debug)]
pub struct MatchError {
    /// The kind of the offending implementation item.
    pub kind: ItemKind,
    /// The identifier of the offending implementation item.
    pub ident: String,
    /// The offending item itself, for diagnostic reporting.
    pub item: ImplItem,
}

/// A generator could not synthesize an item.
#[derive(Debug)]
pub struct GeneratorError {
    /// The generator's own description of the failure.
    pub message: String,
}

/// A generator failure, attributed to the residual item whose
/// synthesis failed.
#[derive(Debug)]
pub struct GeneratorFailure {
    /// The kind of the item the generator was asked to synthesize.
    pub kind: ItemKind,
    /// The identifier of that item.
    pub ident: String,
    /// The generator's error, propagated verbatim.
    pub error: GeneratorError,
}

/// An error of the completion driver.
#[derive(Debug)]
pub enum CompletionError {
    /// The implementation does not match the trait.
    Match(MatchError),
    /// A generator failed on a residual item.
    Generator(GeneratorFailure),
}

impl Clone for TraitItemConst {
    fn clone(&self) -> (r: Self)
        ensures
            r == *self,
    {
        let default = match &self.default {
            Some(d) => Some(d.clone()),
            None => None,
        };
        TraitItemConst { ident: self.ident.clone(), ty: self.ty.clone(), default }
    }
}

impl Clone for TraitItemMethod {
    fn clone(&self) -> (r: Self)
        ensures
            r == *self,
    {
        let default_body = match &self.default_body {
            Some(d) => Some(d.clone()),
            None => None,
        };
        TraitItemMethod { ident: self.ident.clone(), sig: self.sig.clone(), default_body }
    }
}

impl Clone for TraitItemType {
    fn clone(&self) -> (r: Self)
        ensures
            r == *self,
    {
        TraitItemType { ident: self.ident.clone(), bounds: self.bounds.clone() }
    }
}

impl Clone for ImplItemConst {
    fn clone(&self) -> (r: Self)
        ensures
            r == *self,
    {
        ImplItemConst { ident: self.ident.clone(), ty: self.ty.clone(), value: self.value.clone() }
    }
}

impl Clone for ImplItemMethod {
    fn clone(&self) -> (r: Self)
        ensures
            r == *self,
    {
        ImplItemMethod { ident: self.ident.clone(), sig: self.sig.clone(), body: self.body.clone() }
    }
}

impl Clone for ImplItemType {
    fn clone(&self) -> (r: Self)
        ensures
            r == *self,
    {
        ImplItemType { ident: self.ident.clone(), ty: self.ty.clone() }
    }
}

impl Clone for ImplItem {
    fn clone(&self) -> (r: Self)
        ensures
            r == *self,
    {
        match self {
            ImplItem::Const(c) => ImplItem::Const(c.clone()),
            ImplItem::Method(m) => ImplItem::Method(m.clone()),
            ImplItem::Type(t) => ImplItem::Type(t.clone()),
            ImplItem::Other(o) => ImplItem::Other(o.clone()),
        }
    }
}

impl Keyed for TraitItemConst {
    open spec fn key(&self) -> Seq<char> {
        self.ident@
    }

    fn ident(&self) -> (r: &String) {
        &self.ident
    }

    fn duplicate(&self) -> (r: Self) {
        self.clone()
    }
}

impl Keyed for TraitItemMethod {
    open spec fn key(&self) -> Seq<char> {
        self.ident@
    }

    fn ident(&self) -> (r: &String) {
        &self.ident
    }

    fn duplicate(&self) -> (r: Self) {
        self.clone()
    }
}

impl Keyed for TraitItemType {
    open spec fn key(&self) -> Seq<char> {
        self.ident@
    }

    fn ident(&self) -> (r: &String) {
        &self.ident
    }

    fn duplicate(&self) -> (r: Self) {
        self.clone()
    }
}

impl Keyed for ImplItemConst {
    open spec fn key(&self) -> Seq<char> {
        self.ident@
    }

    fn ident(&self) -> (r: &String) {
        &self.ident
    }

    fn duplicate(&self) -> (r: Self) {
        self.clone()
    }
}

impl Keyed for ImplItemMethod {
    open spec fn key(&self) -> Seq<char> {
        self.ident@
    }

    fn ident(&self) -> (r: &String) {
        &self.ident
    }

    fn duplicate(&self) -> (r: Self) {
        self.clone()
    }
}

impl Keyed for ImplItemType {
    open spec fn key(&self) -> Seq<char> {
        self.ident@
    }

    fn ident(&self) -> (r: &String) {
        &self.ident
    }

    fn duplicate(&self) -> (r: Self) {
        self.clone()
    }
}

} // verus!
