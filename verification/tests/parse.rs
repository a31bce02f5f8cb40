use braid_codegen::entry::Entry;
use braid_codegen::error::ConfigError;
use braid_codegen::impls::{DelegatingImplOption, ImplOption};
use braid_codegen::check_mode::CheckSetting;
use braid_codegen::Params;

fn nv(k: &str, v: &str) -> Entry {
    Entry::NameValue(k.to_string(), v.to_string())
}

fn bare(k: &str) -> Entry {
    Entry::Bare(k.to_string())
}

fn list(k: &str, items: &[&str]) -> Entry {
    Entry::List(k.to_string(), items.iter().map(|s| s.to_string()).collect())
}

#[test]
fn empty_configuration_gives_defaults() {
    let params = Params::parse(&vec![]).unwrap();
    assert_eq!(params.ref_ty, None);
    assert!(params.ref_doc.is_empty());
    assert!(params.ref_attrs.is_empty());
    assert!(params.owned_attrs.is_empty());
    assert_eq!(params.check_mode.validator, CheckSetting::Unset);
    assert_eq!(params.check_mode.normalizer, CheckSetting::Unset);
    assert_eq!(params.impls.debug, DelegatingImplOption::Implement);
    assert_eq!(params.impls.display, DelegatingImplOption::Implement);
    assert_eq!(params.impls.clone, ImplOption::Implement);
    assert_eq!(params.impls.serde, ImplOption::Omit);
}

#[test]
fn unknown_key_is_unsupported() {
    let err = Params::parse(&vec![nv("frobnicate", "x")]).unwrap_err();
    assert_eq!(err, ConfigError::UnsupportedArgument("frobnicate".to_string()));
    assert_eq!(err.message(), "unsupported argument `frobnicate`");
}

#[test]
fn unknown_bare_key_is_unsupported() {
    let err = Params::parse(&vec![bare("mystery")]).unwrap_err();
    assert_eq!(err, ConfigError::UnsupportedArgument("mystery".to_string()));
}

#[test]
fn known_key_in_wrong_shape_is_unsupported() {
    // `ref` takes a value, never a bare key.
    let err = Params::parse(&vec![bare("ref")]).unwrap_err();
    assert_eq!(err, ConfigError::UnsupportedArgument("ref".to_string()));
    // `validator` never takes a nested list.
    let err = Params::parse(&vec![list("validator", &["x"])]).unwrap_err();
    assert_eq!(err, ConfigError::UnsupportedArgument("validator".to_string()));
    // `ref_attr` only takes a nested list.
    let err = Params::parse(&vec![nv("ref_attr", "x")]).unwrap_err();
    assert_eq!(err, ConfigError::UnsupportedArgument("ref_attr".to_string()));
}

#[test]
fn first_offending_entry_wins() {
    let err = Params::parse(&vec![nv("bogus", "1"), nv("also_bogus", "2")]).unwrap_err();
    assert_eq!(err, ConfigError::UnsupportedArgument("bogus".to_string()));
}

#[test]
fn validator_twice_by_value_conflicts() {
    let err = Params::parse(&vec![nv("validator", "A"), nv("validator", "B")]).unwrap_err();
    assert_eq!(err, ConfigError::DuplicateOption("validator".to_string()));
    assert_eq!(err.message(), "duplicate option `validator`");
}

#[test]
fn validator_twice_value_then_bare_conflicts() {
    let err = Params::parse(&vec![nv("validator", "A"), bare("validator")]).unwrap_err();
    assert_eq!(err, ConfigError::DuplicateOption("validator".to_string()));
}

#[test]
fn validator_twice_bare_then_value_conflicts() {
    let err = Params::parse(&vec![bare("validator"), nv("validator", "B")]).unwrap_err();
    assert_eq!(err, ConfigError::DuplicateOption("validator".to_string()));
}

#[test]
fn validator_twice_bare_conflicts() {
    let err = Params::parse(&vec![bare("validator"), bare("validator")]).unwrap_err();
    assert_eq!(err, ConfigError::DuplicateOption("validator".to_string()));
}

#[test]
fn normalizer_twice_conflicts() {
    let err = Params::parse(&vec![nv("normalizer", "N"), bare("normalizer")]).unwrap_err();
    assert_eq!(err, ConfigError::DuplicateOption("normalizer".to_string()));
    assert_eq!(err.message(), "duplicate option `normalizer`");
}

#[test]
fn validator_and_normalizer_together_are_fine() {
    let params = Params::parse(&vec![nv("validator", "V"), nv("normalizer", "N")]).unwrap();
    assert_eq!(params.check_mode.validator, CheckSetting::Explicit("V".to_string()));
    assert_eq!(params.check_mode.normalizer, CheckSetting::Explicit("N".to_string()));
}

#[test]
fn bare_validator_requests_the_default() {
    let params = Params::parse(&vec![bare("validator")]).unwrap();
    assert_eq!(params.check_mode.validator, CheckSetting::UseDefault);
}

#[test]
fn ref_sets_the_explicit_reference_type() {
    let params = Params::parse(&vec![nv("ref", "Borrowed")]).unwrap();
    assert_eq!(params.ref_ty, Some("Borrowed".to_string()));
}

#[test]
fn ref_doc_accumulates_in_order() {
    let params = Params::parse(&vec![nv("ref_doc", "line one"), nv("ref_doc", "line two")])
        .unwrap();
    assert_eq!(params.ref_doc, vec!["line one".to_string(), "line two".to_string()]);
}

#[test]
fn attr_lists_accumulate_in_order() {
    let params = Params::parse(&vec![
        list("ref_attr", &["derive(Hash)"]),
        list("owned_attr", &["repr(transparent)"]),
        list("ref_attr", &["non_exhaustive"]),
    ])
    .unwrap();
    assert_eq!(
        params.ref_attrs,
        vec!["derive(Hash)".to_string(), "non_exhaustive".to_string()]
    );
    assert_eq!(params.owned_attrs, vec!["repr(transparent)".to_string()]);
}

#[test]
fn policy_literals_parse() {
    let params = Params::parse(&vec![
        nv("debug", "delegate"),
        nv("display", "off"),
        nv("clone", "implement"),
        nv("serde", "implement"),
    ])
    .unwrap();
    assert_eq!(params.impls.debug, DelegatingImplOption::Delegate);
    assert_eq!(params.impls.display, DelegatingImplOption::Omit);
    assert_eq!(params.impls.clone, ImplOption::Implement);
    assert_eq!(params.impls.serde, ImplOption::Implement);
}

#[test]
fn bare_serde_means_implement() {
    let params = Params::parse(&vec![bare("serde")]).unwrap();
    assert_eq!(params.impls.serde, ImplOption::Implement);
}

#[test]
fn bad_policy_literal_is_rejected() {
    let err = Params::parse(&vec![nv("debug", "banana")]).unwrap_err();
    assert_eq!(
        err,
        ConfigError::InvalidPolicyValue("debug".to_string(), "banana".to_string())
    );
    assert_eq!(err.message(), "invalid value `banana` for `debug`");
}

#[test]
fn delegate_is_not_a_clone_policy() {
    // `clone` cannot delegate: only `implement` and `off` are recognized.
    let err = Params::parse(&vec![nv("clone", "delegate")]).unwrap_err();
    assert_eq!(
        err,
        ConfigError::InvalidPolicyValue("clone".to_string(), "delegate".to_string())
    );
}

#[test]
fn entry_order_of_distinct_scalar_keys_does_not_matter() {
    let a = Params::parse(&vec![nv("validator", "V"), nv("ref", "R")]).unwrap();
    let b = Params::parse(&vec![nv("ref", "R"), nv("validator", "V")]).unwrap();
    assert_eq!(a, b);
}
