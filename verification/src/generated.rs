//! Structured description of the generated resolution implementation: what
//! the synthesizer produces for one target type. A renderer can turn it into
//! source text; nothing in it depends on any code-generation machinery.

use vstd::prelude::*;

use crate::type_expr::Scope;
use crate::type_expr::TypeExpr;
use crate::type_expr::TypeExprV;
use crate::type_expr::view_of_type_expr;

verus! {

/// One local-binding resolution statement: `let <binding> =
/// <container>.resolve::<<requested_type>>()` under the decided scope.
#[derive(PartialEq, Eq, Debug)]
pub struct ResolutionStatement {
    pub binding: String,
    pub requested_type: TypeExpr,
    pub scope: Scope,
    pub container: String,
}

/// Mathematical model of a `ResolutionStatement`.
#[verifier::ext_equal]
pub struct ResolutionStatementV {
    pub binding: Seq<char>,
    pub requested_type: TypeExprV,
    pub scope: Scope,
    pub container: Seq<char>,
}

impl DeepView for ResolutionStatement {
    type V = ResolutionStatementV;

    open spec fn deep_view(&self) -> ResolutionStatementV {
        ResolutionStatementV {
            binding: self.binding@,
            requested_type: view_of_type_expr(self.requested_type),
            scope: self.scope,
            container: self.container@,
        }
    }
}

/// One entry of a named-field construction: the field, paired with the local
/// binding whose value initialises it.
#[derive(PartialEq, Eq, Debug)]
pub struct FieldInit {
    pub field: String,
    pub binding: String,
}

/// Mathematical model of a `FieldInit`.
#[verifier::ext_equal]
pub struct FieldInitV {
    pub field: Seq<char>,
    pub binding: Seq<char>,
}

impl DeepView for FieldInit {
    type V = FieldInitV;

    open spec fn deep_view(&self) -> FieldInitV {
        FieldInitV { field: self.field@, binding: self.binding@ }
    }
}

/// The final construction expression of the generated implementation.
#[derive(PartialEq, Eq, Debug)]
pub enum Construction {
    /// A field literal, `Target { a: a, b: b }`.
    NamedFields(Vec<FieldInit>),
    /// A positional call, `Target(v0, v1)`, bindings in declaration order.
    PositionalCall(Vec<String>),
    /// A call to an explicit constructor, `Target::name(params...)`. The
    /// parameters are passed by their declared names as they stand; wiring
    /// them to the resolved local bindings is a known gap, kept as such
    /// because the intended binding semantics are unspecified.
    ConstructorCall { name: String, params: Vec<String> },
}

/// Mathematical model of a `Construction`.
#[verifier::ext_equal]
pub enum ConstructionV {
    NamedFields(Seq<FieldInitV>),
    PositionalCall(Seq<Seq<char>>),
    ConstructorCall { name: Seq<char>, params: Seq<Seq<char>> },
}

impl DeepView for Construction {
    type V = ConstructionV;

    open spec fn deep_view(&self) -> ConstructionV {
        match self {
            Construction::NamedFields(inits) => ConstructionV::NamedFields(inits.deep_view()),
            Construction::PositionalCall(binds) => ConstructionV::PositionalCall(
                binds.deep_view(),
            ),
            Construction::ConstructorCall { name, params } => ConstructionV::ConstructorCall {
                name: name@,
                params: params.deep_view(),
            },
        }
    }
}

/// The body of the generated resolution operation.
#[derive(PartialEq, Eq, Debug)]
pub enum GeneratedBody {
    /// A unit target: a fixed, argument-less construction of the target
    /// type; the container argument is never read.
    Unit,
    /// A non-unit target: the resolution statements in field declaration
    /// order, then exactly one construction expression.
    Construct { statements: Vec<ResolutionStatement>, construction: Construction },
}

/// Mathematical model of a `GeneratedBody`.
#[verifier::ext_equal]
pub enum GeneratedBodyV {
    Unit,
    Construct { statements: Seq<ResolutionStatementV>, construction: ConstructionV },
}

impl DeepView for GeneratedBody {
    type V = GeneratedBodyV;

    open spec fn deep_view(&self) -> GeneratedBodyV {
        match self {
            GeneratedBody::Unit => GeneratedBodyV::Unit,
            GeneratedBody::Construct { statements, construction } => GeneratedBodyV::Construct {
                statements: statements.deep_view(),
                construction: construction.deep_view(),
            },
        }
    }
}

/// The generated implementation for one target type: an implementation of
/// the resolvable-marker interface whose single operation takes the
/// container parameter under the given name and runs the body.
#[derive(PartialEq, Eq, Debug)]
pub struct GeneratedImpl {
    pub target_type: String,
    pub container_param: String,
    pub body: GeneratedBody,
}

/// Mathematical model of a `GeneratedImpl`.
#[verifier::ext_equal]
pub struct GeneratedImplV {
    pub target_type: Seq<char>,
    pub container_param: Seq<char>,
    pub body: GeneratedBodyV,
}

impl DeepView for GeneratedImpl {
    type V = GeneratedImplV;

    open spec fn deep_view(&self) -> GeneratedImplV {
        GeneratedImplV {
            target_type: self.target_type@,
            container_param: self.container_param@,
            body: self.body.deep_view(),
        }
    }
}

} // verus!
