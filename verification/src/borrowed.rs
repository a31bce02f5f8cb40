//! The borrowed half of the generated pair: everything the reference-type
//! generator needs to emit its declaration bundle.

use vstd::prelude::*;

use crate::check_mode::{CheckMode, CheckModeV};
use crate::decl::{Field, FieldV};
use crate::impls::Impls;
use crate::strutil::strings_view;

verus! {

/// The generation unit for the borrowed view type.
#[derive(Clone, Debug, PartialEq, Eq)]
pub struct RefCodeGen {
    /// The documentation lines of the reference type.
    pub doc: Vec<String>,
    /// The attributes of the original declaration, shared with the owned
    /// half.
    pub common_attrs: Vec<String>,
    /// The resolved check mode, shared with the owned half.
    pub check_mode: CheckMode,
    /// The visibility of the original declaration.
    pub vis: String,
    /// The single wrapped field, shared with the owned half.
    pub field: Field,
    /// The reference-side passthrough attributes.
    pub attrs: Vec<String>,
    /// The borrowed type's identity.
    pub ty: String,
    /// The identifier under which the borrowed type is declared; equal to
    /// its identity.
    pub ident: String,
    /// The owned type's identity, for the cross-type conversions.
    pub owned_ty: String,
    /// The capability policy record, shared with the owned half.
    pub impls: Impls,
}

/// The mathematical model of a `RefCodeGen`.
pub struct RefCodeGenV {
    pub doc: Seq<Seq<char>>,
    pub common_attrs: Seq<Seq<char>>,
    pub check_mode: CheckModeV,
    pub vis: Seq<char>,
    pub field: FieldV,
    pub attrs: Seq<Seq<char>>,
    pub ty: Seq<char>,
    pub ident: Seq<char>,
    pub owned_ty: Seq<char>,
    pub impls: Impls,
}

impl View for RefCodeGen {
    type V = RefCodeGenV;

    open spec fn view(&self) -> RefCodeGenV {
        RefCodeGenV {
            doc: strings_view(self.doc@),
            common_attrs: strings_view(self.common_attrs@),
            check_mode: self.check_mode@,
            vis: self.vis@,
            field: self.field@,
            attrs: strings_view(self.attrs@),
            ty: self.ty@,
            ident: self.ident@,
            owned_ty: self.owned_ty@,
            impls: self.impls,
        }
    }
}

} // verus!
