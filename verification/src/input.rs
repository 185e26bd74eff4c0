//! Model of the type declaration a derive invocation runs on: the target
//! type's name and its field list in one of three shapes (unit, named,
//! positional), every field carrying a declared type expression and a
//! per-field configuration record.
//!
//! The configuration record is deliberately open: its recognised keys (an
//! explicit scope override, a named lookup key) are modelled so that reading
//! real attributes later needs no change of data model, but the extractor
//! does not read them yet.

use vstd::prelude::*;

use crate::type_expr::Scope;
use crate::type_expr::TypeExpr;
use crate::type_expr::TypeExprV;
use crate::type_expr::view_of_type_expr;

verus! {

/// Per-field configuration, recognised but not yet read anywhere: every
/// dependency is extracted as if both entries were absent.
#[derive(PartialEq, Eq, Debug)]
pub struct FieldConfig {
    /// An explicit caching scope, overriding classification by type shape.
    pub scope_override: Option<Scope>,
    /// A key for a named lookup in the container instead of a lookup by type.
    pub lookup_key: Option<String>,
}

/// Mathematical model of a `FieldConfig`.
#[verifier::ext_equal]
pub struct FieldConfigV {
    pub scope_override: Option<Scope>,
    pub lookup_key: Option<Seq<char>>,
}

impl DeepView for FieldConfig {
    type V = FieldConfigV;

    open spec fn deep_view(&self) -> FieldConfigV {
        FieldConfigV {
            scope_override: self.scope_override,
            lookup_key: match self.lookup_key {
                Option::Some(k) => Option::Some(k@),
                Option::None => Option::None,
            },
        }
    }
}

impl Default for FieldConfig {
    /// The default configuration: both entries absent.
    fn default() -> (c: FieldConfig)
        ensures
            c.scope_override is None,
            c.lookup_key is None,
    {
        FieldConfig { scope_override: Option::None, lookup_key: Option::None }
    }
}

/// One named field: its identifier, declared type and configuration.
#[derive(PartialEq, Eq, Debug)]
pub struct NamedField {
    pub name: String,
    pub ty: TypeExpr,
    pub config: FieldConfig,
}

/// Mathematical model of a `NamedField`.
#[verifier::ext_equal]
pub struct NamedFieldV {
    pub name: Seq<char>,
    pub ty: TypeExprV,
    pub config: FieldConfigV,
}

impl DeepView for NamedField {
    type V = NamedFieldV;

    open spec fn deep_view(&self) -> NamedFieldV {
        NamedFieldV { name: self.name@, ty: view_of_type_expr(self.ty), config: self.config.deep_view() }
    }
}

/// One positional field: its declared type and configuration.
#[derive(PartialEq, Eq, Debug)]
pub struct UnnamedField {
    pub ty: TypeExpr,
    pub config: FieldConfig,
}

/// Mathematical model of an `UnnamedField`.
#[verifier::ext_equal]
pub struct UnnamedFieldV {
    pub ty: TypeExprV,
    pub config: FieldConfigV,
}

impl DeepView for UnnamedField {
    type V = UnnamedFieldV;

    open spec fn deep_view(&self) -> UnnamedFieldV {
        UnnamedFieldV { ty: view_of_type_expr(self.ty), config: self.config.deep_view() }
    }
}

/// A target type's field list, in one of the three declaration shapes.
#[derive(PartialEq, Eq, Debug)]
pub enum Fields {
    /// No field list at all, as in `struct S;`.
    Unit,
    /// Named fields, as in `struct S { a: A }`.
    Named(Vec<NamedField>),
    /// Positional fields, as in `struct S(A, B);`.
    Unnamed(Vec<UnnamedField>),
}

/// Mathematical model of a `Fields`.
#[verifier::ext_equal]
pub enum FieldsV {
    Unit,
    Named(Seq<NamedFieldV>),
    Unnamed(Seq<UnnamedFieldV>),
}

impl DeepView for Fields {
    type V = FieldsV;

    open spec fn deep_view(&self) -> FieldsV {
        match self {
            Fields::Unit => FieldsV::Unit,
            Fields::Named(fs) => FieldsV::Named(fs.deep_view()),
            Fields::Unnamed(fs) => FieldsV::Unnamed(fs.deep_view()),
        }
    }
}

/// What kind of data the target declaration is. Only structs can be made
/// injectable; enumerated and union declarations are rejected up front.
#[derive(PartialEq, Eq, Debug)]
pub enum Data {
    Struct(Fields),
    Enum,
    Union,
}

/// Mathematical model of a `Data`.
#[verifier::ext_equal]
pub enum DataV {
    Struct(FieldsV),
    Enum,
    Union,
}

impl DeepView for Data {
    type V = DataV;

    open spec fn deep_view(&self) -> DataV {
        match self {
            Data::Struct(fs) => DataV::Struct(fs.deep_view()),
            Data::Enum => DataV::Enum,
            Data::Union => DataV::Union,
        }
    }
}

/// The whole derive input: the target type's name and its data shape.
#[derive(PartialEq, Eq, Debug)]
pub struct DeriveInput {
    pub ident: String,
    pub data: Data,
}

/// Mathematical model of a `DeriveInput`.
#[verifier::ext_equal]
pub struct DeriveInputV {
    pub ident: Seq<char>,
    pub data: DataV,
}

impl DeepView for DeriveInput {
    type V = DeriveInputV;

    open spec fn deep_view(&self) -> DeriveInputV {
        DeriveInputV { ident: self.ident@, data: self.data.deep_view() }
    }
}

} // verus!
