//! The fixed vocabulary of recognized configuration keys.

use vstd::prelude::*;

verus! {

/// Key that overrides the inferred borrowed (reference) type name.
pub open spec fn ref_key() -> Seq<char> {
    "ref"@
}

/// Key that sets the validator, by value or bare.
pub open spec fn validator_key() -> Seq<char> {
    "validator"@
}

/// Key that sets the normalizer, by value or bare.
pub open spec fn normalizer_key() -> Seq<char> {
    "normalizer"@
}

/// Key that appends one documentation line for the reference type.
pub open spec fn ref_doc_key() -> Seq<char> {
    "ref_doc"@
}

/// Key that appends passthrough attributes to the reference type.
pub open spec fn ref_attr_key() -> Seq<char> {
    "ref_attr"@
}

/// Key that appends passthrough attributes to the owned type.
pub open spec fn owned_attr_key() -> Seq<char> {
    "owned_attr"@
}

/// Key that sets the diagnostic-format capability policy.
pub open spec fn debug_key() -> Seq<char> {
    "debug"@
}

/// Key that sets the display-format capability policy.
pub open spec fn display_key() -> Seq<char> {
    "display"@
}

/// Key that sets the duplication capability policy.
pub open spec fn clone_key() -> Seq<char> {
    "clone"@
}

/// Key that sets the serialization capability policy.
pub open spec fn serde_key() -> Seq<char> {
    "serde"@
}

} // verus!
