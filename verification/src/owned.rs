//! The owned half of the generated pair: everything the owned-type
//! generator needs to emit its declaration bundle.

use vstd::prelude::*;

use crate::check_mode::{CheckMode, CheckModeV};
use crate::decl::{Field, FieldV};
use crate::impls::Impls;
use crate::strutil::strings_view;

verus! {

/// The generation unit for the owned value type.
#[derive(Clone, Debug, PartialEq, Eq)]
pub struct OwnedCodeGen {
    /// The attributes of the original declaration, shared with the borrowed
    /// half.
    pub common_attrs: Vec<String>,
    /// The resolved check mode, shared with the borrowed half.
    pub check_mode: CheckMode,
    /// The visibility of the original declaration.
    pub vis: String,
    /// The single wrapped field, shared with the borrowed half.
    pub field: Field,
    /// The owned-side passthrough attributes.
    pub attrs: Vec<String>,
    /// The owned type's identity.
    pub ty: String,
    /// The borrowed type's identity, for the cross-type conversions.
    pub ref_ty: String,
    /// The capability policy record, shared with the borrowed half.
    pub impls: Impls,
}

/// The mathematical model of an `OwnedCodeGen`.
pub struct OwnedCodeGenV {
    pub common_attrs: Seq<Seq<char>>,
    pub check_mode: CheckModeV,
    pub vis: Seq<char>,
    pub field: FieldV,
    pub attrs: Seq<Seq<char>>,
    pub ty: Seq<char>,
    pub ref_ty: Seq<char>,
    pub impls: Impls,
}

impl View for OwnedCodeGen {
    type V = OwnedCodeGenV;

    open spec fn view(&self) -> OwnedCodeGenV {
        OwnedCodeGenV {
            common_attrs: strings_view(self.common_attrs@),
            check_mode: self.check_mode@,
            vis: self.vis@,
            field: self.field@,
            attrs: strings_view(self.attrs@),
            ty: self.ty@,
            ref_ty: self.ref_ty@,
            impls: self.impls,
        }
    }
}

} // verus!
