//! Configuration and structural errors, each carrying the offending key or
//! construct so callers can report a precise message.

use vstd::prelude::*;

verus! {

/// An error detected while parsing the configuration or resolving the
/// declaration.
#[derive(Clone, Debug, PartialEq, Eq)]
pub enum ConfigError {
    /// The key is not in the recognized vocabulary, or was used with a
    /// value shape that the key does not support.
    UnsupportedArgument(String),
    /// A scalar option (validator or normalizer) was set more than once.
    DuplicateOption(String),
    /// A capability-policy value is not one of the recognized literals;
    /// carries the key and the rejected value.
    InvalidPolicyValue(String, String),
    /// The type declaration has more than one field.
    MultipleFields,
}

/// The mathematical model of a `ConfigError`.
pub enum ConfigErrorV {
    UnsupportedArgument(Seq<char>),
    DuplicateOption(Seq<char>),
    InvalidPolicyValue(Seq<char>, Seq<char>),
    MultipleFields,
}

impl View for ConfigError {
    type V = ConfigErrorV;

    open spec fn view(&self) -> ConfigErrorV {
        match self {
            ConfigError::UnsupportedArgument(k) => ConfigErrorV::UnsupportedArgument(k@),
            ConfigError::DuplicateOption(k) => ConfigErrorV::DuplicateOption(k@),
            ConfigError::InvalidPolicyValue(k, v) => ConfigErrorV::InvalidPolicyValue(k@, v@),
            ConfigError::MultipleFields => ConfigErrorV::MultipleFields,
        }
    }
}

/// The human-readable message of each error.
pub open spec fn spec_message(e: ConfigErrorV) -> Seq<char> {
    match e {
        ConfigErrorV::UnsupportedArgument(k) => "unsupported argument `"@ + k + "`"@,
        ConfigErrorV::DuplicateOption(k) => "duplicate option `"@ + k + "`"@,
        ConfigErrorV::InvalidPolicyValue(k, v) => "invalid value `"@ + v + "` for `"@ + k + "`"@,
        ConfigErrorV::MultipleFields => "typed string can only have one field"@,
    }
}

impl ConfigError {
    /// Renders the error as the message reported to the caller.
    pub fn message(&self) -> (r: String)
        ensures
            r@ == spec_message(self@),
    {
        match self {
            ConfigError::UnsupportedArgument(k) => {
                String::from_str("unsupported argument `").concat(k.as_str()).concat("`")
            }
            ConfigError::DuplicateOption(k) => {
                String::from_str("duplicate option `").concat(k.as_str()).concat("`")
            }
            ConfigError::InvalidPolicyValue(k, v) => {
                String::from_str("invalid value `").concat(v.as_str()).concat("` for `").concat(
                    k.as_str(),
                ).concat("`")
            }
            ConfigError::MultipleFields => String::from_str("typed string can only have one field"),
        }
    }
}

} // verus!
