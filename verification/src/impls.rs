//! Capability policies: which standard capabilities the generated pair
//! implements, and on which half.

use vstd::prelude::*;

verus! {

/// Policy for a capability that cannot delegate: it is either absent or
/// implemented on each half for itself.
#[derive(Clone, Copy, Debug, PartialEq, Eq, Structural)]
pub enum ImplOption {
    Omit,
    Implement,
}

/// Policy for a capability that one half may delegate to the other half of
/// the generated pair.
#[derive(Clone, Copy, Debug, PartialEq, Eq, Structural)]
pub enum DelegatingImplOption {
    Omit,
    Implement,
    Delegate,
}

/// The capability policy record shared by both halves of the generated pair:
/// diagnostic formatting (`debug`), display formatting (`display`),
/// duplication (`clone`), and serialization (`serde`).
#[derive(Clone, Copy, Debug, PartialEq, Eq, Structural)]
pub struct Impls {
    pub debug: DelegatingImplOption,
    pub display: DelegatingImplOption,
    pub clone: ImplOption,
    pub serde: ImplOption,
}

/// The policy in force when no configuration entry names a capability:
/// formatting and duplication are implemented, serialization is opt-in.
pub open spec fn default_impls() -> Impls {
    Impls {
        debug: DelegatingImplOption::Implement,
        display: DelegatingImplOption::Implement,
        clone: ImplOption::Implement,
        serde: ImplOption::Omit,
    }
}

impl Default for Impls {
    fn default() -> (r: Self)
        ensures
            r == default_impls(),
    {
        Impls {
            debug: DelegatingImplOption::Implement,
            display: DelegatingImplOption::Implement,
            clone: ImplOption::Implement,
            serde: ImplOption::Omit,
        }
    }
}

/// The recognized literals for a delegating capability policy.
pub open spec fn spec_parse_delegating_impl_option(s: Seq<char>) -> Option<DelegatingImplOption> {
    if s == "implement"@ {
        Some(DelegatingImplOption::Implement)
    } else if s == "off"@ {
        Some(DelegatingImplOption::Omit)
    } else if s == "delegate"@ {
        Some(DelegatingImplOption::Delegate)
    } else {
        None
    }
}

/// The recognized literals for a non-delegating capability policy.
pub open spec fn spec_parse_impl_option(s: Seq<char>) -> Option<ImplOption> {
    if s == "implement"@ {
        Some(ImplOption::Implement)
    } else if s == "off"@ {
        Some(ImplOption::Omit)
    } else {
        None
    }
}

/// Parses a delegating capability policy literal: `implement`, `off`, or
/// `delegate`; anything else is unrecognized.
pub fn parse_delegating_impl_option(s: &str) -> (r: Option<DelegatingImplOption>)
    ensures
        r == spec_parse_delegating_impl_option(s@),
{
    if crate::strutil::str_eq(s, "implement") {
        Some(DelegatingImplOption::Implement)
    } else if crate::strutil::str_eq(s, "off") {
        Some(DelegatingImplOption::Omit)
    } else if crate::strutil::str_eq(s, "delegate") {
        Some(DelegatingImplOption::Delegate)
    } else {
        None
    }
}

/// Parses a non-delegating capability policy literal: `implement` or `off`;
/// anything else is unrecognized.
pub fn parse_impl_option(s: &str) -> (r: Option<ImplOption>)
    ensures
        r == spec_parse_impl_option(s@),
{
    if crate::strutil::str_eq(s, "implement") {
        Some(ImplOption::Implement)
    } else if crate::strutil::str_eq(s, "off") {
        Some(ImplOption::Omit)
    } else {
        None
    }
}

} // verus!
