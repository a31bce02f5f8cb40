use braid_codegen::check_mode::CheckMode;
use braid_codegen::decl::{ConstructorDelimiter, Field, FieldDef, FieldName, TypeDecl};
use braid_codegen::entry::Entry;
use braid_codegen::error::ConfigError;
use braid_codegen::impls::DelegatingImplOption;
use braid_codegen::{generate_typed_string, infer_ref_type_from_owned_name, Params};

fn nv(k: &str, v: &str) -> Entry {
    Entry::NameValue(k.to_string(), v.to_string())
}

fn bare(k: &str) -> Entry {
    Entry::Bare(k.to_string())
}

fn decl(ident: &str, fields: Vec<FieldDef>) -> TypeDecl {
    TypeDecl {
        ident: ident.to_string(),
        vis: "pub".to_string(),
        attrs: vec![],
        fields,
    }
}

fn named_field(name: &str, ty: &str) -> FieldDef {
    FieldDef { name: Some(name.to_string()), ty: ty.to_string(), attrs: vec![] }
}

fn unnamed_field(ty: &str) -> FieldDef {
    FieldDef { name: None, ty: ty.to_string(), attrs: vec![] }
}

#[test]
fn zero_fields_synthesize_one_unnamed_string_field() {
    let mut body = decl("UserIdBuf", vec![]);
    let params = Params::parse(&vec![]).unwrap();
    let cg = params.build(&mut body).unwrap();
    assert_eq!(body.fields, vec![unnamed_field("String")]);
    assert_eq!(cg.field.name, FieldName::Unnamed);
    assert_eq!(cg.field.ty, "String".to_string());
    assert!(cg.field.attrs.is_empty());
}

#[test]
fn one_field_is_used_as_is() {
    let mut body = decl("Email", vec![named_field("value", "Box<str>")]);
    let params = Params::parse(&vec![]).unwrap();
    let cg = params.build(&mut body).unwrap();
    assert_eq!(cg.field.name, FieldName::Named("value".to_string()));
    assert_eq!(cg.field.ty, "Box<str>".to_string());
}

#[test]
fn two_fields_are_rejected() {
    let mut body = decl("Pair", vec![unnamed_field("String"), unnamed_field("String")]);
    let params = Params::parse(&vec![]).unwrap();
    let err = params.build(&mut body).unwrap_err();
    assert_eq!(err, ConfigError::MultipleFields);
    assert_eq!(err.message(), "typed string can only have one field");
}

#[test]
fn three_fields_are_rejected() {
    let mut body = decl(
        "Triple",
        vec![named_field("a", "String"), named_field("b", "String"), named_field("c", "String")],
    );
    let err = Params::parse(&vec![]).unwrap().build(&mut body).unwrap_err();
    assert_eq!(err, ConfigError::MultipleFields);
}

#[test]
fn buf_suffix_is_stripped() {
    assert_eq!(infer_ref_type_from_owned_name("FooBuf"), "Foo".to_string());
    assert_eq!(infer_ref_type_from_owned_name("PathBuf"), "Path".to_string());
}

#[test]
fn ref_suffix_is_appended_otherwise() {
    assert_eq!(infer_ref_type_from_owned_name("Foo"), "FooRef".to_string());
    assert_eq!(infer_ref_type_from_owned_name("UserId"), "UserIdRef".to_string());
}

#[test]
fn short_names_gain_the_ref_suffix() {
    assert_eq!(infer_ref_type_from_owned_name("Id"), "IdRef".to_string());
    assert_eq!(infer_ref_type_from_owned_name("Buf"), "".to_string());
}

#[test]
fn explicit_reference_type_always_wins() {
    let mut body = decl("FooBuf", vec![]);
    let cg = Params::parse(&vec![nv("ref", "Bar")]).unwrap().build(&mut body).unwrap();
    assert_eq!(cg.ref_ty, "Bar".to_string());
}

#[test]
fn neither_slot_set_resolves_to_no_check() {
    let mut body = decl("UserId", vec![]);
    let cg = Params::parse(&vec![]).unwrap().build(&mut body).unwrap();
    assert_eq!(cg.check_mode, CheckMode::Unchecked);
}

#[test]
fn validator_alone_resolves_to_validate() {
    let mut body = decl("Email", vec![]);
    let cg = Params::parse(&vec![nv("validator", "EmailValidator")])
        .unwrap()
        .build(&mut body)
        .unwrap();
    assert_eq!(cg.check_mode, CheckMode::Validate("EmailValidator".to_string()));
}

#[test]
fn bare_validator_resolves_to_the_owned_type() {
    let mut body = decl("Email", vec![]);
    let cg = Params::parse(&vec![bare("validator")]).unwrap().build(&mut body).unwrap();
    assert_eq!(cg.check_mode, CheckMode::Validate("Email".to_string()));
}

#[test]
fn normalizer_alone_infers_a_validator() {
    let mut body = decl("Tag", vec![]);
    let cg = Params::parse(&vec![nv("normalizer", "TagNormalizer")])
        .unwrap()
        .build(&mut body)
        .unwrap();
    assert_eq!(
        cg.check_mode,
        CheckMode::ValidateAndNormalize("Tag".to_string(), "TagNormalizer".to_string())
    );
}

#[test]
fn both_slots_set_keep_both_types() {
    let mut body = decl("Tag", vec![]);
    let cg = Params::parse(&vec![nv("validator", "V"), nv("normalizer", "N")])
        .unwrap()
        .build(&mut body)
        .unwrap();
    assert_eq!(cg.check_mode, CheckMode::ValidateAndNormalize("V".to_string(), "N".to_string()));
}

#[test]
fn bare_normalizer_resolves_both_to_the_owned_type() {
    let mut body = decl("Tag", vec![]);
    let cg = Params::parse(&vec![bare("normalizer")]).unwrap().build(&mut body).unwrap();
    assert_eq!(
        cg.check_mode,
        CheckMode::ValidateAndNormalize("Tag".to_string(), "Tag".to_string())
    );
}

#[test]
fn scenario_user_id_buf_with_no_options() {
    let mut body = decl("UserIdBuf", vec![]);
    let out = generate_typed_string(&vec![], &mut body).unwrap();
    assert_eq!(out.owned.ty, "UserIdBuf".to_string());
    assert_eq!(out.owned.field.name, FieldName::Unnamed);
    assert_eq!(out.owned.field.ty, "String".to_string());
    assert_eq!(out.owned.ref_ty, "UserId".to_string());
    assert_eq!(out.owned.check_mode, CheckMode::Unchecked);
    assert_eq!(out.borrowed.ty, "UserId".to_string());
    assert_eq!(out.borrowed.ident, "UserId".to_string());
    assert_eq!(out.borrowed.owned_ty, "UserIdBuf".to_string());
    assert_eq!(out.borrowed.check_mode, CheckMode::Unchecked);
    assert_eq!(out.borrowed.doc, vec!["A reference to a borrowed [`UserIdBuf`]".to_string()]);
}

#[test]
fn scenario_email_with_validator_and_display() {
    let mut body = decl("Email", vec![]);
    let args = vec![nv("validator", "EmailValidator"), nv("display", "implement")];
    let out = generate_typed_string(&args, &mut body).unwrap();
    assert_eq!(out.owned.ty, "Email".to_string());
    assert_eq!(out.borrowed.ty, "EmailRef".to_string());
    assert_eq!(out.owned.check_mode, CheckMode::Validate("EmailValidator".to_string()));
    assert_eq!(out.borrowed.check_mode, CheckMode::Validate("EmailValidator".to_string()));
    assert_eq!(out.owned.impls.display, DelegatingImplOption::Implement);
    assert_eq!(out.borrowed.impls.display, DelegatingImplOption::Implement);
    assert_eq!(out.owned.impls, out.borrowed.impls);
}

#[test]
fn configured_ref_doc_suppresses_the_default_line() {
    let mut body = decl("Email", vec![]);
    let out = generate_typed_string(&vec![nv("ref_doc", "A borrowed e-mail address.")], &mut body)
        .unwrap();
    assert_eq!(out.borrowed.doc, vec!["A borrowed e-mail address.".to_string()]);
}

#[test]
fn generation_is_idempotent() {
    let args = vec![
        nv("validator", "EmailValidator"),
        nv("ref_doc", "A borrowed e-mail address."),
        nv("display", "delegate"),
    ];
    let mut body1 = decl("Email", vec![named_field("value", "String")]);
    let mut body2 = decl("Email", vec![named_field("value", "String")]);
    let out1 = generate_typed_string(&args, &mut body1).unwrap();
    let out2 = generate_typed_string(&args, &mut body2).unwrap();
    assert_eq!(out1, out2);
    assert_eq!(body1, body2);
    // A second run over the already-synthesized body is byte-identical too.
    let out3 = generate_typed_string(&args, &mut body1).unwrap();
    assert_eq!(out1, out3);
}

#[test]
fn pipeline_reports_parse_errors_before_structural_ones() {
    let mut body = decl("Pair", vec![unnamed_field("String"), unnamed_field("String")]);
    let err = generate_typed_string(&vec![nv("bogus", "1")], &mut body).unwrap_err();
    assert_eq!(err, ConfigError::UnsupportedArgument("bogus".to_string()));
    // Body untouched: no partial output, no synthesized field.
    assert_eq!(body.fields.len(), 2);
}

#[test]
fn constructor_shape_follows_the_field_name() {
    let named = FieldName::Named("value".to_string());
    assert_eq!(named.constructor_delimiter(), ConstructorDelimiter::Brace);
    assert_eq!(named.input_name(), "value".to_string());
    assert_eq!(named.accessor(), "value".to_string());
    let unnamed = FieldName::Unnamed;
    assert_eq!(unnamed.constructor_delimiter(), ConstructorDelimiter::Parenthesis);
    assert_eq!(unnamed.input_name(), "raw".to_string());
    assert_eq!(unnamed.accessor(), "0".to_string());
}

#[test]
fn self_constructor_text_follows_the_field_name() {
    let named = Field {
        attrs: vec![],
        name: FieldName::Named("value".to_string()),
        ty: "String".to_string(),
    };
    assert_eq!(named.self_constructor().text(), "Self { value }".to_string());
    let unnamed = Field { attrs: vec![], name: FieldName::Unnamed, ty: "String".to_string() };
    assert_eq!(unnamed.self_constructor().text(), "Self(raw)".to_string());
}

#[test]
fn bundles_share_the_context() {
    let mut body = decl("TokenBuf", vec![]);
    let out = generate_typed_string(&vec![bare("normalizer")], &mut body).unwrap();
    assert_eq!(out.owned.check_mode, out.borrowed.check_mode);
    assert_eq!(out.owned.field, out.borrowed.field);
    assert_eq!(out.owned.impls, out.borrowed.impls);
    assert_eq!(out.owned.ty, out.borrowed.owned_ty);
    assert_eq!(out.owned.ref_ty, out.borrowed.ty);
}
