//! A compile-time code generator for "typed string" domain values: from one
//! user-declared single-field record type and a declarative configuration it
//! resolves and emits a cooperating pair of type declarations — an owned
//! value type and a borrowed view type — that share one field, one
//! construction-time check mode, and one capability policy.

use vstd::prelude::*;

pub mod borrowed;
pub mod check_mode;
pub mod decl;
pub mod entry;
pub mod error;
pub mod impls;
pub mod laws;
pub mod owned;
pub mod strutil;
pub mod symbol;

use crate::borrowed::{RefCodeGen, RefCodeGenV};
use crate::check_mode::{
    CheckMode, CheckModeV, IndefiniteCheckMode, IndefiniteCheckModeV, resolve_check_mode,
    spec_set_normalizer, spec_set_validator, unset_check_mode,
};
use crate::decl::{
    Field, FieldDef, FieldDefV, FieldName, FieldNameV, FieldV, TypeDecl, TypeDeclV, fields_view,
};
use crate::entry::{Entry, EntryV, entries_view};
use crate::error::{ConfigError, ConfigErrorV};
use crate::impls::{
    ImplOption, Impls, default_impls, parse_delegating_impl_option, parse_impl_option,
    spec_parse_delegating_impl_option, spec_parse_impl_option,
};
use crate::owned::{OwnedCodeGen, OwnedCodeGenV};
use crate::strutil::{
    copy_string, copy_strings, extend_strings, lemma_strings_view_push, str_eq, strings_view,
};

verus! {

/// The parsed, validated configuration.
#[derive(Clone, Debug, PartialEq, Eq)]
pub struct Params {
    /// The explicit borrowed-type identity, if one was configured.
    pub ref_ty: Option<String>,
    /// Documentation lines for the borrowed type, in input order.
    pub ref_doc: Vec<String>,
    /// Passthrough attributes for the borrowed type, in input order.
    pub ref_attrs: Vec<String>,
    /// Passthrough attributes for the owned type, in input order.
    pub owned_attrs: Vec<String>,
    /// The validator/normalizer slots as configured so far.
    pub check_mode: IndefiniteCheckMode,
    /// The capability policy record.
    pub impls: Impls,
}

/// The mathematical model of `Params`.
pub struct ParamsV {
    pub ref_ty: Option<Seq<char>>,
    pub ref_doc: Seq<Seq<char>>,
    pub ref_attrs: Seq<Seq<char>>,
    pub owned_attrs: Seq<Seq<char>>,
    pub check_mode: IndefiniteCheckModeV,
    pub impls: Impls,
}

impl View for Params {
    type V = ParamsV;

    open spec fn view(&self) -> ParamsV {
        ParamsV {
            ref_ty: match self.ref_ty {
                Some(ref t) => Some(t@),
                None => None,
            },
            ref_doc: strings_view(self.ref_doc@),
            ref_attrs: strings_view(self.ref_attrs@),
            owned_attrs: strings_view(self.owned_attrs@),
            check_mode: self.check_mode@,
            impls: self.impls,
        }
    }
}

/// The configuration before any entry has been applied.
pub open spec fn spec_default_params() -> ParamsV {
    ParamsV {
        ref_ty: None,
        ref_doc: Seq::empty(),
        ref_attrs: Seq::empty(),
        owned_attrs: Seq::empty(),
        check_mode: unset_check_mode(),
        impls: default_impls(),
    }
}

impl Default for Params {
    fn default() -> (r: Self)
        ensures
            r@ == spec_default_params(),
    {
        let r = Params {
            ref_ty: None,
            ref_doc: Vec::new(),
            ref_attrs: Vec::new(),
            owned_attrs: Vec::new(),
            check_mode: IndefiniteCheckMode::default(),
            impls: Impls::default(),
        };
        proof {
            assert(strings_view(Seq::<String>::empty()) =~= Seq::<Seq<char>>::empty());
        }
        r
    }
}

/// Whether an entry is in the recognized vocabulary with a shape that its
/// key supports.
pub open spec fn entry_supported(e: EntryV) -> bool {
    match e {
        EntryV::NameValue(k, _) => k == symbol::ref_key() || k == symbol::validator_key() || k
            == symbol::normalizer_key() || k == symbol::ref_doc_key() || k == symbol::debug_key()
            || k == symbol::display_key() || k == symbol::clone_key() || k == symbol::serde_key(),
        EntryV::List(k, _) => k == symbol::ref_attr_key() || k == symbol::owned_attr_key(),
        EntryV::Bare(k) => k == symbol::serde_key() || k == symbol::validator_key() || k
            == symbol::normalizer_key(),
    }
}

/// The effect of one configuration entry on the configuration record: the
/// dispatch table of the parser.
pub open spec fn apply_entry(p: ParamsV, e: EntryV) -> Result<ParamsV, ConfigErrorV> {
    match e {
        EntryV::NameValue(k, v) => if k == symbol::ref_key() {
            Ok(ParamsV { ref_ty: Some(v), ..p })
        } else if k == symbol::validator_key() {
            match spec_set_validator(p.check_mode, Some(v)) {
                Ok(m) => Ok(ParamsV { check_mode: m, ..p }),
                Err(err) => Err(err),
            }
        } else if k == symbol::normalizer_key() {
            match spec_set_normalizer(p.check_mode, Some(v)) {
                Ok(m) => Ok(ParamsV { check_mode: m, ..p }),
                Err(err) => Err(err),
            }
        } else if k == symbol::ref_doc_key() {
            Ok(ParamsV { ref_doc: p.ref_doc.push(v), ..p })
        } else if k == symbol::debug_key() {
            match spec_parse_delegating_impl_option(v) {
                Some(o) => Ok(ParamsV { impls: Impls { debug: o, ..p.impls }, ..p }),
                None => Err(ConfigErrorV::InvalidPolicyValue(k, v)),
            }
        } else if k == symbol::display_key() {
            match spec_parse_delegating_impl_option(v) {
                Some(o) => Ok(ParamsV { impls: Impls { display: o, ..p.impls }, ..p }),
                None => Err(ConfigErrorV::InvalidPolicyValue(k, v)),
            }
        } else if k == symbol::clone_key() {
            match spec_parse_impl_option(v) {
                Some(o) => Ok(ParamsV { impls: Impls { clone: o, ..p.impls }, ..p }),
                None => Err(ConfigErrorV::InvalidPolicyValue(k, v)),
            }
        } else if k == symbol::serde_key() {
            match spec_parse_impl_option(v) {
                Some(o) => Ok(ParamsV { impls: Impls { serde: o, ..p.impls }, ..p }),
                None => Err(ConfigErrorV::InvalidPolicyValue(k, v)),
            }
        } else {
            Err(ConfigErrorV::UnsupportedArgument(k))
        },
        EntryV::List(k, items) => if k == symbol::ref_attr_key() {
            Ok(ParamsV { ref_attrs: p.ref_attrs + items, ..p })
        } else if k == symbol::owned_attr_key() {
            Ok(ParamsV { owned_attrs: p.owned_attrs + items, ..p })
        } else {
            Err(ConfigErrorV::UnsupportedArgument(k))
        },
        EntryV::Bare(k) => if k == symbol::serde_key() {
            Ok(ParamsV { impls: Impls { serde: ImplOption::Implement, ..p.impls }, ..p })
        } else if k == symbol::validator_key() {
            match spec_set_validator(p.check_mode, None) {
                Ok(m) => Ok(ParamsV { check_mode: m, ..p }),
                Err(err) => Err(err),
            }
        } else if k == symbol::normalizer_key() {
            match spec_set_normalizer(p.check_mode, None) {
                Ok(m) => Ok(ParamsV { check_mode: m, ..p }),
                Err(err) => Err(err),
            }
        } else {
            Err(ConfigErrorV::UnsupportedArgument(k))
        },
    }
}

/// Folds the entries into the record from left to right; the first error
/// stops the fold.
pub open spec fn spec_parse_from(p: ParamsV, entries: Seq<EntryV>) -> Result<ParamsV, ConfigErrorV>
    decreases entries.len(),
{
    if entries.len() == 0 {
        Ok(p)
    } else {
        match apply_entry(p, entries[0]) {
            Ok(p2) => spec_parse_from(p2, entries.drop_first()),
            Err(e) => Err(e),
        }
    }
}

/// The configuration a sequence of raw entries parses to, or the first
/// error met.
pub open spec fn spec_parse(entries: Seq<EntryV>) -> Result<ParamsV, ConfigErrorV> {
    spec_parse_from(spec_default_params(), entries)
}

impl Params {
    /// Parses an ordered sequence of raw configuration entries into a
    /// validated configuration, or fails on the first offending entry:
    /// an unrecognized key or unsupported shape, a duplicated validator or
    /// normalizer, or an unrecognized capability-policy literal.
    pub fn parse(args: &Vec<Entry>) -> (r: Result<Params, ConfigError>)
        ensures
            match r {
                Ok(p) => spec_parse(entries_view(args@)) matches Ok(pv) && p@ == pv,
                Err(e) => spec_parse(entries_view(args@)) matches Err(ev) && e@ == ev,
            },
    {
        let ghost entries = entries_view(args@);
        let mut params = Params::default();
        let mut i: usize = 0;
        proof {
            assert(entries.skip(0) =~= entries);
        }
        while i < args.len()
            invariant
                i <= args.len(),
                entries == entries_view(args@),
                entries.len() == args@.len(),
                spec_parse_from(params@, entries.skip(i as int)) == spec_parse(entries),
            decreases args.len() - i,
        {
            let ghost pre = params@;
            proof {
                assert(entries[i as int] == args@[i as int]@);
                assert(entries.skip(i as int)[0] == entries[i as int]);
                assert(entries.skip(i as int).drop_first() =~= entries.skip(i as int + 1));
            }
            match &args[i] {
                Entry::NameValue(k, v) => {
                    if str_eq(k.as_str(), "ref") {
                        params.ref_ty = Some(copy_string(v));
                    } else if str_eq(k.as_str(), "validator") {
                        match params.check_mode.try_set_validator(Some(copy_string(v))) {
                            Ok(_) => {}
                            Err(e) => {
                                return Err(e);
                            }
                        }
                    } else if str_eq(k.as_str(), "normalizer") {
                        match params.check_mode.try_set_normalizer(Some(copy_string(v))) {
                            Ok(_) => {}
                            Err(e) => {
                                return Err(e);
                            }
                        }
                    } else if str_eq(k.as_str(), "ref_doc") {
                        let ghost doc_before = params.ref_doc@;
                        params.ref_doc.push(copy_string(v));
                        proof {
                            lemma_strings_view_push(doc_before, params.ref_doc@.last());
                        }
                    } else if str_eq(k.as_str(), "debug") {
                        match parse_delegating_impl_option(v.as_str()) {
                            Some(o) => {
                                params.impls.debug = o;
                            }
                            None => {
                                return Err(
                                    ConfigError::InvalidPolicyValue(copy_string(k), copy_string(v)),
                                );
                            }
                        }
                    } else if str_eq(k.as_str(), "display") {
                        match parse_delegating_impl_option(v.as_str()) {
                            Some(o) => {
                                params.impls.display = o;
                            }
                            None => {
                                return Err(
                                    ConfigError::InvalidPolicyValue(copy_string(k), copy_string(v)),
                                );
                            }
                        }
                    } else if str_eq(k.as_str(), "clone") {
                        match parse_impl_option(v.as_str()) {
                            Some(o) => {
                                params.impls.clone = o;
                            }
                            None => {
                                return Err(
                                    ConfigError::InvalidPolicyValue(copy_string(k), copy_string(v)),
                                );
                            }
                        }
                    } else if str_eq(k.as_str(), "serde") {
                        match parse_impl_option(v.as_str()) {
                            Some(o) => {
                                params.impls.serde = o;
                            }
                            None => {
                                return Err(
                                    ConfigError::InvalidPolicyValue(copy_string(k), copy_string(v)),
                                );
                            }
                        }
                    } else {
                        return Err(ConfigError::UnsupportedArgument(copy_string(k)));
                    }
                }
                Entry::List(k, items) => {
                    if str_eq(k.as_str(), "ref_attr") {
                        extend_strings(&mut params.ref_attrs, items);
                    } else if str_eq(k.as_str(), "owned_attr") {
                        extend_strings(&mut params.owned_attrs, items);
                    } else {
                        return Err(ConfigError::UnsupportedArgument(copy_string(k)));
                    }
                }
                Entry::Bare(k) => {
                    if str_eq(k.as_str(), "serde") {
                        params.impls.serde = ImplOption::Implement;
                    } else if str_eq(k.as_str(), "validator") {
                        match params.check_mode.try_set_validator(None) {
                            Ok(_) => {}
                            Err(e) => {
                                return Err(e);
                            }
                        }
                    } else if str_eq(k.as_str(), "normalizer") {
                        match params.check_mode.try_set_normalizer(None) {
                            Ok(_) => {}
                            Err(e) => {
                                return Err(e);
                            }
                        }
                    } else {
                        return Err(ConfigError::UnsupportedArgument(copy_string(k)));
                    }
                }
            }
            proof {
                assert(apply_entry(pre, entries[i as int]) == Ok::<ParamsV, ConfigErrorV>(
                    params@,
                ));
            }
            i += 1;
        }
        proof {
            assert(entries.skip(args@.len() as int) =~= Seq::<EntryV>::empty());
        }
        Ok(params)
    }
}

/// The field synthesized for a declaration with an empty body: one unnamed
/// field of the generic string type.
pub open spec fn default_field_def() -> FieldDefV {
    FieldDefV { name: None, ty: "String"@, attrs: Seq::empty() }
}

/// The field list after the one-time synthesis: unchanged unless empty.
pub open spec fn spec_with_default_field(fields: Seq<FieldDefV>) -> Seq<FieldDefV> {
    if fields.len() == 0 {
        seq![default_field_def()]
    } else {
        fields
    }
}

/// Synthesizes the default field in place when the declaration has none.
pub fn create_field_if_none(fields: &mut Vec<FieldDef>)
    ensures
        fields_view(final(fields)@) == spec_with_default_field(fields_view(old(fields)@)),
{
    if fields.is_empty() {
        let field = FieldDef { name: None, ty: String::from_str("String"), attrs: Vec::new() };
        fields.push(field);
        proof {
            assert(strings_view(Seq::<String>::empty()) =~= Seq::<Seq<char>>::empty());
            assert(fields_view(fields@) =~= seq![default_field_def()]);
        }
    }
}

/// The single wrapped field's type, optional name, and attributes.
pub open spec fn spec_field_info(fields: Seq<FieldDefV>) -> Result<FieldDefV, ConfigErrorV> {
    if fields.len() > 1 {
        Err(ConfigErrorV::MultipleFields)
    } else {
        Ok(fields[0])
    }
}

/// Returns the single wrapped field's type, optional name and attributes,
/// or fails when the declaration carries more than one field.
pub fn get_field_info(fields: &Vec<FieldDef>) -> (r: Result<
    (String, Option<String>, Vec<String>),
    ConfigError,
>)
    requires
        fields@.len() >= 1,
    ensures
        match r {
            Ok(info) => fields@.len() == 1 && info.0@ == fields@[0]@.ty && (match info.1 {
                Some(n) => fields@[0]@.name matches Some(m) && n@ == m,
                None => fields@[0]@.name is None,
            }) && strings_view(info.2@) == fields@[0]@.attrs,
            Err(e) => fields@.len() > 1 && e@ == ConfigErrorV::MultipleFields,
        },
{
    if fields.len() > 1 {
        return Err(ConfigError::MultipleFields);
    }
    let f = &fields[0];
    Ok((copy_string(&f.ty), strutil::copy_opt_string(&f.name), copy_strings(&f.attrs)))
}

/// Whether a type name ends with the owned-variant suffix `Buf`.
pub open spec fn ends_with_buf(s: Seq<char>) -> bool {
    s.len() >= 3 && s[s.len() - 3] == 'B' && s[s.len() - 2] == 'u' && s[s.len() - 1] == 'f'
}

/// The borrowed type's identity inferred from the owned type's name: a name
/// ending in `Buf` drops the suffix, any other name gains the suffix `Ref`.
pub open spec fn spec_infer_ref_name(owned: Seq<char>) -> Seq<char> {
    if ends_with_buf(owned) {
        owned.subrange(0, owned.len() - 3)
    } else {
        owned + "Ref"@
    }
}

/// Infers the borrowed type's identity from the owned type's name.
pub fn infer_ref_type_from_owned_name(name: &str) -> (r: String)
    ensures
        r@ == spec_infer_ref_name(name@),
{
    let len = name.unicode_len();
    if len >= 3 && name.get_char(len - 3) == 'B' && name.get_char(len - 2) == 'u' && name.get_char(
        len - 1,
    ) == 'f' {
        let stem = name.substring_char(0, len - 3);
        stem.to_owned()
    } else {
        name.to_owned().concat("Ref")
    }
}

/// The one-line documentation synthesized for the reference type when none
/// was configured.
pub open spec fn spec_default_ref_doc(owned: Seq<char>) -> Seq<char> {
    "A reference to a borrowed [`"@ + owned + "`]"@
}

/// Builds the synthesized documentation line for the reference type.
pub fn default_ref_doc(owned_ty: &str) -> (r: String)
    ensures
        r@ == spec_default_ref_doc(owned_ty@),
{
    String::from_str("A reference to a borrowed [`").concat(owned_ty).concat("`]")
}

/// The fully resolved generation unit: the declaration (with its field
/// synthesized where needed), the wrapped field, the resolved check mode
/// and borrowed-type identity, and both attribute/documentation bundles.
#[derive(Clone, Debug, PartialEq, Eq)]
pub struct CodeGen {
    pub check_mode: CheckMode,
    pub body: TypeDecl,
    pub field: Field,
    pub owned_attrs: Vec<String>,
    pub ref_doc: Vec<String>,
    pub ref_attrs: Vec<String>,
    pub ref_ty: String,
    pub impls: Impls,
}

/// The mathematical model of a `CodeGen`.
pub struct CodeGenV {
    pub check_mode: CheckModeV,
    pub body: TypeDeclV,
    pub field: FieldV,
    pub owned_attrs: Seq<Seq<char>>,
    pub ref_doc: Seq<Seq<char>>,
    pub ref_attrs: Seq<Seq<char>>,
    pub ref_ty: Seq<char>,
    pub impls: Impls,
}

impl View for CodeGen {
    type V = CodeGenV;

    open spec fn view(&self) -> CodeGenV {
        CodeGenV {
            check_mode: self.check_mode@,
            body: self.body@,
            field: self.field@,
            owned_attrs: strings_view(self.owned_attrs@),
            ref_doc: strings_view(self.ref_doc@),
            ref_attrs: strings_view(self.ref_attrs@),
            ref_ty: self.ref_ty@,
            impls: self.impls,
        }
    }
}

/// The resolved field of a declaration whose field list has already been
/// synthesized to at least one entry.
pub open spec fn field_of(f: FieldDefV) -> FieldV {
    FieldV {
        attrs: f.attrs,
        name: match f.name {
            Some(n) => FieldNameV::Named(n),
            None => FieldNameV::Unnamed,
        },
        ty: f.ty,
    }
}

/// Context construction from a parsed configuration and a declaration:
/// synthesizes the default field, resolves the single wrapped field, the
/// reference documentation, the borrowed type's identity and the check
/// mode, or fails on a declaration with more than one field.
pub open spec fn spec_build(p: ParamsV, d: TypeDeclV) -> Result<CodeGenV, ConfigErrorV> {
    let fields = spec_with_default_field(d.fields);
    match spec_field_info(fields) {
        Err(e) => Err(e),
        Ok(f) => Ok(
            CodeGenV {
                check_mode: resolve_check_mode(p.check_mode, d.ident),
                body: TypeDeclV { fields, ..d },
                field: field_of(f),
                owned_attrs: p.owned_attrs,
                ref_doc: if p.ref_doc.len() == 0 {
                    seq![spec_default_ref_doc(d.ident)]
                } else {
                    p.ref_doc
                },
                ref_attrs: p.ref_attrs,
                ref_ty: match p.ref_ty {
                    Some(t) => t,
                    None => spec_infer_ref_name(d.ident),
                },
                impls: p.impls,
            },
        ),
    }
}

impl Params {
    /// Assembles the generation context from this configuration and the
    /// user's declaration, synthesizing the default field in place when the
    /// declaration has none; fails before any emission on a declaration
    /// with more than one field.
    pub fn build(self, body: &mut TypeDecl) -> (r: Result<CodeGen, ConfigError>)
        ensures
            fields_view(final(body).fields@) == spec_with_default_field(
                fields_view(old(body).fields@),
            ),
            final(body).ident@ == old(body).ident@,
            final(body).vis@ == old(body).vis@,
            final(body).attrs@ == old(body).attrs@,
            match r {
                Ok(cg) => spec_build(self@, old(body)@) matches Ok(cgv) && cg@ == cgv,
                Err(e) => spec_build(self@, old(body)@) matches Err(ev) && e@ == ev,
            },
    {
        let Params { ref_ty, mut ref_doc, ref_attrs, owned_attrs, check_mode, impls } = self;

        create_field_if_none(&mut body.fields);
        let info = get_field_info(&body.fields);
        let (wrapped_type, field_ident, field_attrs) = match info {
            Ok(info) => info,
            Err(e) => {
                return Err(e);
            }
        };
        if ref_doc.is_empty() {
            let ghost doc_before = ref_doc@;
            ref_doc.push(default_ref_doc(body.ident.as_str()));
            proof {
                lemma_strings_view_push(doc_before, ref_doc@.last());
                assert(strings_view(ref_doc@) =~= seq![spec_default_ref_doc(body.ident@)]);
            }
        }
        let ref_ty = match ref_ty {
            Some(t) => t,
            None => infer_ref_type_from_owned_name(body.ident.as_str()),
        };
        let check_mode = check_mode.infer_validator_if_missing(body.ident.as_str());
        let field = Field {
            attrs: field_attrs,
            name: match field_ident {
                Some(n) => FieldName::Named(n),
                None => FieldName::Unnamed,
            },
            ty: wrapped_type,
        };

        Ok(
            CodeGen {
                check_mode,
                body: body.duplicate(),
                field,
                owned_attrs,
                ref_doc,
                ref_attrs,
                ref_ty,
                impls,
            },
        )
    }
}

/// What the owned-type generator receives from the shared context.
pub open spec fn spec_owned(cg: CodeGenV) -> OwnedCodeGenV {
    OwnedCodeGenV {
        common_attrs: cg.body.attrs,
        check_mode: cg.check_mode,
        vis: cg.body.vis,
        field: cg.field,
        attrs: cg.owned_attrs,
        ty: cg.body.ident,
        ref_ty: cg.ref_ty,
        impls: cg.impls,
    }
}

/// What the borrowed-type generator receives from the shared context.
pub open spec fn spec_borrowed(cg: CodeGenV) -> RefCodeGenV {
    RefCodeGenV {
        doc: cg.ref_doc,
        common_attrs: cg.body.attrs,
        check_mode: cg.check_mode,
        vis: cg.body.vis,
        field: cg.field,
        attrs: cg.ref_attrs,
        ty: cg.ref_ty,
        ident: cg.ref_ty,
        owned_ty: cg.body.ident,
        impls: cg.impls,
    }
}

/// The emitted result: the owned-type bundle followed by the borrowed-type
/// bundle, in that order.
#[derive(Clone, Debug, PartialEq, Eq)]
pub struct Generated {
    pub owned: OwnedCodeGen,
    pub borrowed: RefCodeGen,
}

/// The mathematical model of a `Generated`.
pub struct GeneratedV {
    pub owned: OwnedCodeGenV,
    pub borrowed: RefCodeGenV,
}

impl View for Generated {
    type V = GeneratedV;

    open spec fn view(&self) -> GeneratedV {
        GeneratedV { owned: self.owned@, borrowed: self.borrowed@ }
    }
}

/// The two sibling outputs a context generates, in order.
pub open spec fn spec_generate(cg: CodeGenV) -> GeneratedV {
    GeneratedV { owned: spec_owned(cg), borrowed: spec_borrowed(cg) }
}

impl CodeGen {
    /// The owned half's generation unit.
    pub fn owned(&self) -> (r: OwnedCodeGen)
        ensures
            r@ == spec_owned(self@),
    {
        OwnedCodeGen {
            common_attrs: copy_strings(&self.body.attrs),
            check_mode: self.check_mode.duplicate(),
            vis: copy_string(&self.body.vis),
            field: self.field.duplicate(),
            attrs: copy_strings(&self.owned_attrs),
            ty: copy_string(&self.body.ident),
            ref_ty: copy_string(&self.ref_ty),
            impls: self.impls,
        }
    }

    /// The borrowed half's generation unit.
    pub fn borrowed(&self) -> (r: RefCodeGen)
        ensures
            r@ == spec_borrowed(self@),
    {
        RefCodeGen {
            doc: copy_strings(&self.ref_doc),
            common_attrs: copy_strings(&self.body.attrs),
            check_mode: self.check_mode.duplicate(),
            vis: copy_string(&self.body.vis),
            field: self.field.duplicate(),
            attrs: copy_strings(&self.ref_attrs),
            ty: copy_string(&self.ref_ty),
            ident: copy_string(&self.ref_ty),
            owned_ty: copy_string(&self.body.ident),
            impls: self.impls,
        }
    }

    /// Produces the two sibling outputs — the owned-type bundle and the
    /// borrowed-type bundle — in that order, both sharing the same field,
    /// check mode and capability policy.
    pub fn generate(&self) -> (r: Generated)
        ensures
            r@ == spec_generate(self@),
    {
        Generated { owned: self.owned(), borrowed: self.borrowed() }
    }
}

/// One whole generation invocation over the models: parse the entries,
/// build the context, emit the pair.
pub open spec fn spec_pipeline(entries: Seq<EntryV>, d: TypeDeclV) -> Result<
    GeneratedV,
    ConfigErrorV,
> {
    match spec_parse(entries) {
        Err(e) => Err(e),
        Ok(p) => match spec_build(p, d) {
            Err(e) => Err(e),
            Ok(cg) => Ok(spec_generate(cg)),
        },
    }
}

/// Runs one whole generation invocation: parses the configuration, builds
/// the context (synthesizing the default field in place where the
/// declaration has none), and emits the two declaration bundles; returns
/// the first error met, before any emission.
pub fn generate_typed_string(args: &Vec<Entry>, body: &mut TypeDecl) -> (r: Result<
    Generated,
    ConfigError,
>)
    ensures
        match r {
            Ok(g) => spec_pipeline(entries_view(args@), old(body)@) matches Ok(gv) && g@ == gv,
            Err(e) => spec_pipeline(entries_view(args@), old(body)@) matches Err(ev) && e@ == ev,
        },
{
    let params = match Params::parse(args) {
        Ok(p) => p,
        Err(e) => {
            return Err(e);
        }
    };
    let cg = match params.build(body) {
        Ok(cg) => cg,
        Err(e) => {
            return Err(e);
        }
    };
    Ok(cg.generate())
}

} // verus!
