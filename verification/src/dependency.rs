//! One dependency record per field of the target type: which field slot it
//! fills, which type to request from the container, under which scope, and
//! the identifier of the container variable its resolution statement reads.

use vstd::prelude::*;

use crate::decimal::decimal_digits;
use crate::decimal::u128_to_decimal;
use crate::type_expr::Scope;
use crate::type_expr::TypeExpr;
use crate::type_expr::TypeExprV;
use crate::type_expr::view_of_type_expr;

verus! {

/// The field slot a dependency fills: a name for named-field targets, a
/// zero-based position for positional targets.
#[derive(PartialEq, Eq, Debug)]
pub enum TargetField {
    Named(String),
    Unnamed(usize),
}

/// Mathematical model of a `TargetField`.
#[verifier::ext_equal]
pub enum TargetFieldV {
    Named(Seq<char>),
    Unnamed(int),
}

impl DeepView for TargetField {
    type V = TargetFieldV;

    open spec fn deep_view(&self) -> TargetFieldV {
        match self {
            TargetField::Named(n) => TargetFieldV::Named(n@),
            TargetField::Unnamed(i) => TargetFieldV::Unnamed(*i as int),
        }
    }
}

/// The name of the local binding that a dependency's resolution statement
/// introduces: the field's own name for a named field, `v` followed by the
/// decimal position for a positional field.
pub open spec fn var_name_of(f: TargetFieldV) -> Seq<char> {
    match f {
        TargetFieldV::Named(n) => n,
        TargetFieldV::Unnamed(i) => "v"@ + decimal_digits(i as nat),
    }
}

/// One dependency of the target type, in field declaration order. The order
/// of the records is significant: it fixes both the order of the emitted
/// resolution statements and the argument order of a positional construction.
#[derive(PartialEq, Eq, Debug)]
pub struct Dependency {
    pub field: TargetField,
    pub field_type: TypeExpr,
    pub scope: Scope,
    pub container: String,
}

/// Mathematical model of a `Dependency`.
#[verifier::ext_equal]
pub struct DependencyV {
    pub field: TargetFieldV,
    pub field_type: TypeExprV,
    pub scope: Scope,
    pub container: Seq<char>,
}

impl DeepView for Dependency {
    type V = DependencyV;

    open spec fn deep_view(&self) -> DependencyV {
        DependencyV {
            field: self.field.deep_view(),
            field_type: view_of_type_expr(self.field_type),
            scope: self.scope,
            container: self.container@,
        }
    }
}

impl Dependency {
    pub fn new(field: TargetField, field_type: TypeExpr, scope: Scope, container: String) -> (d:
        Dependency)
        ensures
            d.deep_view() == (DependencyV {
                field: field.deep_view(),
                field_type: field_type.deep_view(),
                scope,
                container: container@,
            }),
    {
        Dependency { field, field_type, scope, container }
    }

    /// The name of the local binding this dependency's resolution statement
    /// introduces.
    pub fn var_name(&self) -> (r: String)
        ensures
            r@ == var_name_of(self.field.deep_view()),
    {
        match &self.field {
            TargetField::Named(n) => n.clone(),
            TargetField::Unnamed(i) => {
                let mut s = String::from_str("v");
                s.append(u128_to_decimal(*i as u128).as_str());
                s
            },
        }
    }
}

} // verus!
