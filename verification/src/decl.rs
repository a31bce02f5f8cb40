//! The structured input declaration and the resolved wrapped field, as
//! handed over by the upstream source-text parser: names, attributes and
//! type names are carried as plain strings.

use vstd::prelude::*;

use crate::strutil::{copy_string, copy_strings, copy_opt_string, strings_view};

verus! {

/// One declared field of the input type declaration.
#[derive(Clone, Debug, PartialEq, Eq)]
pub struct FieldDef {
    /// The field's name; `None` for a tuple-style field.
    pub name: Option<String>,
    /// The field's type, verbatim.
    pub ty: String,
    /// The field's attributes, opaque and passed through verbatim.
    pub attrs: Vec<String>,
}

/// The mathematical model of a `FieldDef`.
pub struct FieldDefV {
    pub name: Option<Seq<char>>,
    pub ty: Seq<char>,
    pub attrs: Seq<Seq<char>>,
}

impl View for FieldDef {
    type V = FieldDefV;

    open spec fn view(&self) -> FieldDefV {
        FieldDefV {
            name: match self.name {
                Some(ref n) => Some(n@),
                None => None,
            },
            ty: self.ty@,
            attrs: strings_view(self.attrs@),
        }
    }
}

/// The user's type declaration, as structured input: its identity, its
/// visibility, its documentation and attributes, and its field list.
#[derive(Clone, Debug, PartialEq, Eq)]
pub struct TypeDecl {
    pub ident: String,
    pub vis: String,
    pub attrs: Vec<String>,
    pub fields: Vec<FieldDef>,
}

/// The mathematical model of a `TypeDecl`.
pub struct TypeDeclV {
    pub ident: Seq<char>,
    pub vis: Seq<char>,
    pub attrs: Seq<Seq<char>>,
    pub fields: Seq<FieldDefV>,
}

/// The models of a sequence of field definitions, in order.
pub open spec fn fields_view(v: Seq<FieldDef>) -> Seq<FieldDefV> {
    v.map_values(|f: FieldDef| f@)
}

impl View for TypeDecl {
    type V = TypeDeclV;

    open spec fn view(&self) -> TypeDeclV {
        TypeDeclV {
            ident: self.ident@,
            vis: self.vis@,
            attrs: strings_view(self.attrs@),
            fields: fields_view(self.fields@),
        }
    }
}

/// A fresh vector of field definitions, model-equal to the argument.
pub fn copy_fields(v: &Vec<FieldDef>) -> (r: Vec<FieldDef>)
    ensures
        fields_view(r@) == fields_view(v@),
{
    let mut r: Vec<FieldDef> = Vec::new();
    let mut i: usize = 0;
    while i < v.len()
        invariant
            i <= v.len(),
            r@.len() == i as nat,
            forall|j: int| 0 <= j < i ==> r@[j]@ == v@[j]@,
        decreases v.len() - i,
    {
        r.push(v[i].duplicate());
        i += 1;
    }
    assert(fields_view(r@) =~= fields_view(v@));
    r
}

impl TypeDecl {
    /// A fresh copy of the declaration.
    pub fn duplicate(&self) -> (r: TypeDecl)
        ensures
            r@ == self@,
    {
        TypeDecl {
            ident: copy_string(&self.ident),
            vis: copy_string(&self.vis),
            attrs: copy_strings(&self.attrs),
            fields: copy_fields(&self.fields),
        }
    }
}

impl FieldDef {
    /// A fresh copy of the field definition.
    pub fn duplicate(&self) -> (r: FieldDef)
        ensures
            r@ == self@,
    {
        FieldDef {
            name: copy_opt_string(&self.name),
            ty: copy_string(&self.ty),
            attrs: copy_strings(&self.attrs),
        }
    }
}

/// The resolved wrapped field's name: named, or tuple-style unnamed.
#[derive(Clone, Debug, PartialEq, Eq)]
pub enum FieldName {
    Named(String),
    Unnamed,
}

/// The mathematical model of a `FieldName`.
pub enum FieldNameV {
    Named(Seq<char>),
    Unnamed,
}

impl View for FieldName {
    type V = FieldNameV;

    open spec fn view(&self) -> FieldNameV {
        match self {
            FieldName::Named(n) => FieldNameV::Named(n@),
            FieldName::Unnamed => FieldNameV::Unnamed,
        }
    }
}

/// The delimiter shape of the generated constructor: `{ field: value }` for
/// a named field, `(value)` for an unnamed one.
#[derive(Clone, Copy, Debug, PartialEq, Eq, Structural)]
pub enum ConstructorDelimiter {
    Brace,
    Parenthesis,
}

/// The constructor delimiter a field name calls for.
pub open spec fn spec_constructor_delimiter(n: FieldNameV) -> ConstructorDelimiter {
    match n {
        FieldNameV::Named(_) => ConstructorDelimiter::Brace,
        FieldNameV::Unnamed => ConstructorDelimiter::Parenthesis,
    }
}

/// The constructor's input parameter: the field's own name, or `raw` for an
/// unnamed field.
pub open spec fn spec_input_name(n: FieldNameV) -> Seq<char> {
    match n {
        FieldNameV::Named(name) => name,
        FieldNameV::Unnamed => "raw"@,
    }
}

/// The member access text of the field: its name, or `0` for an unnamed
/// (tuple-style) field.
pub open spec fn spec_accessor(n: FieldNameV) -> Seq<char> {
    match n {
        FieldNameV::Named(name) => name,
        FieldNameV::Unnamed => "0"@,
    }
}

impl FieldName {
    /// The delimiter shape both generators use for the constructor.
    pub fn constructor_delimiter(&self) -> (r: ConstructorDelimiter)
        ensures
            r == spec_constructor_delimiter(self@),
    {
        match self {
            FieldName::Named(_) => ConstructorDelimiter::Brace,
            FieldName::Unnamed => ConstructorDelimiter::Parenthesis,
        }
    }

    /// The name of the synthesized constructor parameter.
    pub fn input_name(&self) -> (r: String)
        ensures
            r@ == spec_input_name(self@),
    {
        match self {
            FieldName::Named(name) => copy_string(name),
            FieldName::Unnamed => String::from_str("raw"),
        }
    }

    /// The member access text of the field in emitted code.
    pub fn accessor(&self) -> (r: String)
        ensures
            r@ == spec_accessor(self@),
    {
        match self {
            FieldName::Named(name) => copy_string(name),
            FieldName::Unnamed => String::from_str("0"),
        }
    }

    /// A fresh copy of the field name.
    pub fn duplicate(&self) -> (r: FieldName)
        ensures
            r@ == self@,
    {
        match self {
            FieldName::Named(n) => FieldName::Named(copy_string(n)),
            FieldName::Unnamed => FieldName::Unnamed,
        }
    }
}

/// The single wrapped field shared, read-only, by both generators.
#[derive(Clone, Debug, PartialEq, Eq)]
pub struct Field {
    pub attrs: Vec<String>,
    pub name: FieldName,
    pub ty: String,
}

/// The mathematical model of a `Field`.
pub struct FieldV {
    pub attrs: Seq<Seq<char>>,
    pub name: FieldNameV,
    pub ty: Seq<char>,
}

impl View for Field {
    type V = FieldV;

    open spec fn view(&self) -> FieldV {
        FieldV { attrs: strings_view(self.attrs@), name: self.name@, ty: self.ty@ }
    }
}

/// The text of the expression that builds `Self` from the constructor's
/// input: `Self { name }` for a named field, `Self(raw)` otherwise.
pub open spec fn spec_self_constructor_text(n: FieldNameV) -> Seq<char> {
    match n {
        FieldNameV::Named(name) => "Self { "@ + name + " }"@,
        FieldNameV::Unnamed => "Self(raw)"@,
    }
}

/// The `Self`-constructing expression both generators emit for the field.
pub struct SelfConstructorImpl {
    pub field: Field,
}

impl Field {
    /// A fresh copy of the field.
    pub fn duplicate(&self) -> (r: Field)
        ensures
            r@ == self@,
    {
        Field {
            attrs: copy_strings(&self.attrs),
            name: self.name.duplicate(),
            ty: copy_string(&self.ty),
        }
    }

    /// The `Self`-constructing expression for this field.
    pub fn self_constructor(&self) -> (r: SelfConstructorImpl)
        ensures
            r.field@ == self@,
    {
        SelfConstructorImpl { field: self.duplicate() }
    }
}

impl SelfConstructorImpl {
    /// Renders the expression as emitted text.
    pub fn text(&self) -> (r: String)
        ensures
            r@ == spec_self_constructor_text(self.field@.name),
    {
        match &self.field.name {
            FieldName::Named(name) => {
                String::from_str("Self { ").concat(name.as_str()).concat(" }")
            }
            FieldName::Unnamed => String::from_str("Self(raw)"),
        }
    }
}

} // verus!
