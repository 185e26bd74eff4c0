//! The aggregate root of one generation run: parse a derive input into an
//! `InjectableTarget`, then emit the structured generated implementation.
//!
//! Only struct declarations can be made injectable. An enumerated or union
//! declaration aborts the run with a diagnostic and produces no output;
//! every other ambiguity (unrecognised type shapes, identifier collisions)
//! is resolved internally with a documented default and never surfaces.

use vstd::prelude::*;

use crate::container_ident::container_ident_of_fields;
use crate::container_ident::discard_ident;
use crate::container_ident::get_container_identifier;
use crate::dependency::Dependency;
use crate::dependency::DependencyV;
use crate::dependency::TargetField;
use crate::dependency::TargetFieldV;
use crate::dependency::var_name_of;
use crate::generated::Construction;
use crate::generated::ConstructionV;
use crate::generated::FieldInit;
use crate::generated::FieldInitV;
use crate::generated::GeneratedBody;
use crate::generated::GeneratedBodyV;
use crate::generated::GeneratedImpl;
use crate::generated::GeneratedImplV;
use crate::generated::ResolutionStatement;
use crate::generated::ResolutionStatementV;
use crate::input::Data;
use crate::input::DataV;
use crate::input::DeriveInput;
use crate::input::Fields;
use crate::input::FieldsV;
use crate::type_expr::classified_scope;
use crate::type_expr::classified_type;
use crate::type_expr::get_type_and_scope;

verus! {

/// An explicit alternate constructor for the target type: its name and its
/// parameter names in declared order. Never populated yet — reading it from
/// an attribute is deferred — but the data shape is kept for forward
/// compatibility, and the synthesizer honours it when present.
#[derive(PartialEq, Eq, Debug)]
pub struct TargetConstructor {
    pub name: String,
    pub params: Vec<String>,
}

/// Mathematical model of a `TargetConstructor`.
#[verifier::ext_equal]
pub struct TargetConstructorV {
    pub name: Seq<char>,
    pub params: Seq<Seq<char>>,
}

impl DeepView for TargetConstructor {
    type V = TargetConstructorV;

    open spec fn deep_view(&self) -> TargetConstructorV {
        TargetConstructorV { name: self.name@, params: self.params.deep_view() }
    }
}

/// Everything the synthesizer needs about one target type: its name, the
/// chosen container-parameter identifier, the optional explicit constructor,
/// the dependency list in field declaration order, and whether the type is
/// declared with the unit syntax `struct S;` rather than `struct S {}`.
#[derive(PartialEq, Eq, Debug)]
pub struct InjectableTarget {
    pub target_type: String,
    pub container: String,
    pub constructor: Option<TargetConstructor>,
    pub deps: Vec<Dependency>,
    pub is_unit: bool,
}

/// Mathematical model of an `InjectableTarget`.
#[verifier::ext_equal]
pub struct InjectableTargetV {
    pub target_type: Seq<char>,
    pub container: Seq<char>,
    pub constructor: Option<TargetConstructorV>,
    pub deps: Seq<DependencyV>,
    pub is_unit: bool,
}

impl DeepView for InjectableTarget {
    type V = InjectableTargetV;

    open spec fn deep_view(&self) -> InjectableTargetV {
        InjectableTargetV {
            target_type: self.target_type@,
            container: self.container@,
            constructor: match self.constructor {
                Option::Some(c) => Option::Some(c.deep_view()),
                Option::None => Option::None,
            },
            deps: self.deps.deep_view(),
            is_unit: self.is_unit,
        }
    }
}

/// Well-formedness of a target: a unit target has no dependencies, and every
/// dependency references the target's own container identifier.
pub open spec fn target_wf(t: InjectableTargetV) -> bool {
    &&& t.is_unit ==> t.deps.len() == 0
    &&& forall|i: int| 0 <= i < t.deps.len() ==> #[trigger] t.deps[i].container == t.container
}

impl InjectableTarget {
    pub fn new(
        target_type: String,
        container: String,
        constructor: Option<TargetConstructor>,
        deps: Vec<Dependency>,
        is_unit: bool,
    ) -> (t: InjectableTarget)
        ensures
            t.target_type == target_type,
            t.container == container,
            t.constructor == constructor,
            t.deps == deps,
            t.is_unit == is_unit,
    {
        InjectableTarget { target_type, container, constructor, deps, is_unit }
    }

    /// Whether the target type is declared with the unit syntax `struct S;`
    /// and not `struct S {}`.
    pub fn is_unit(&self) -> (r: bool)
        ensures
            r == self.is_unit,
    {
        self.is_unit
    }
}

/// The dependency records for a field list, in declaration order, every one
/// referencing the given container identifier.
pub open spec fn deps_of_fields(f: FieldsV, container: Seq<char>) -> Seq<DependencyV> {
    match f {
        FieldsV::Unit => Seq::empty(),
        FieldsV::Named(fs) => Seq::new(
            fs.len(),
            |i: int|
                DependencyV {
                    field: TargetFieldV::Named(fs[i].name),
                    field_type: classified_type(fs[i].ty),
                    scope: classified_scope(fs[i].ty),
                    container,
                },
        ),
        FieldsV::Unnamed(fs) => Seq::new(
            fs.len(),
            |i: int|
                DependencyV {
                    field: TargetFieldV::Unnamed(i),
                    field_type: classified_type(fs[i].ty),
                    scope: classified_scope(fs[i].ty),
                    container,
                },
        ),
    }
}

/// Extract one dependency per field, in declaration order: the field slot,
/// the classified (resolved type, scope) pair, and the container identifier
/// the resolution statement will reference. Per-field configuration
/// attributes are deliberately not read yet.
pub fn get_deps(fields: &Fields, container: &String) -> (deps: Vec<Dependency>)
    ensures
        deps.deep_view() == deps_of_fields(fields.deep_view(), container@),
{
    let mut deps: Vec<Dependency> = Vec::new();
    match fields {
        Fields::Unit => {
            proof {
                assert(deps.deep_view() =~= deps_of_fields(fields.deep_view(), container@));
            }
            deps
        },
        Fields::Named(fs) => {
            let mut i: usize = 0;
            while i < fs.len()
                invariant
                    i <= fs@.len(),
                    deps@.len() == i,
                    forall|j: int|
                        0 <= j < i ==> deps@[j].deep_view() == deps_of_fields(
                            FieldsV::Named(fs.deep_view()),
                            container@,
                        )[j],
                decreases fs@.len() - i,
            {
                let f = &fs[i];
                let field = TargetField::Named(f.name.clone());
                let (field_type, scope) = get_type_and_scope(&f.ty);
                let dependency = Dependency::new(field, field_type, scope, container.clone());
                deps.push(dependency);
                i = i + 1;
            }
            proof {
                assert(deps.deep_view() =~= deps_of_fields(fields.deep_view(), container@));
            }
            deps
        },
        Fields::Unnamed(fs) => {
            let mut i: usize = 0;
            while i < fs.len()
                invariant
                    i <= fs@.len(),
                    deps@.len() == i,
                    forall|j: int|
                        0 <= j < i ==> deps@[j].deep_view() == deps_of_fields(
                            FieldsV::Unnamed(fs.deep_view()),
                            container@,
                        )[j],
                decreases fs@.len() - i,
            {
                let f = &fs[i];
                let field = TargetField::Unnamed(i);
                let (field_type, scope) = get_type_and_scope(&f.ty);
                let dependency = Dependency::new(field, field_type, scope, container.clone());
                deps.push(dependency);
                i = i + 1;
            }
            proof {
                assert(deps.deep_view() =~= deps_of_fields(fields.deep_view(), container@));
            }
            deps
        },
    }
}

/// The explicit constructor configured on the derive input. Reading it from
/// an attribute is deferred: today every input yields `None`, and the
/// non-unit synthesis path falls back to field-literal construction.
pub fn get_target_constructor(_input: &DeriveInput) -> (r: Option<TargetConstructor>)
    ensures
        r is None,
{
    Option::None
}

/// Why a derive input was rejected: only struct declarations can be made
/// injectable.
#[derive(Clone, Copy, PartialEq, Eq, Debug, Structural)]
pub enum DeriveError {
    EnumNotSupported,
    UnionNotSupported,
}

/// The diagnostic text for a rejected derive input.
pub open spec fn message_of(e: DeriveError) -> Seq<char> {
    match e {
        DeriveError::EnumNotSupported => "Enum types cannot implement `Injectable` with #[derive]"@,
        DeriveError::UnionNotSupported
            => "Union types cannot implement `Injectable` with #[derive]"@,
    }
}

impl DeriveError {
    /// The diagnostic to report when aborting the generation run.
    pub fn message(&self) -> (m: String)
        ensures
            m@ == message_of(*self),
    {
        match self {
            DeriveError::EnumNotSupported => String::from_str(
                "Enum types cannot implement `Injectable` with #[derive]",
            ),
            DeriveError::UnionNotSupported => String::from_str(
                "Union types cannot implement `Injectable` with #[derive]",
            ),
        }
    }
}

/// The target parsed from a struct declaration `ident` with field list `f`:
/// the resolved container identifier feeds both the target and every
/// dependency, no explicit constructor is configured, and the unit flag
/// mirrors the field-list shape.
pub open spec fn target_of_struct(ident: Seq<char>, f: FieldsV) -> InjectableTargetV {
    InjectableTargetV {
        target_type: ident,
        container: container_ident_of_fields(f),
        constructor: Option::None,
        deps: deps_of_fields(f, container_ident_of_fields(f)),
        is_unit: f is Unit,
    }
}

/// Parse a derive input into an `InjectableTarget`. A struct declaration of
/// any field shape succeeds; an enumerated or union declaration is rejected
/// with its diagnostic and no target is produced.
pub fn parse_derive_injectable(input: &DeriveInput) -> (r: Result<InjectableTarget, DeriveError>)
    ensures
        match input.data {
            Data::Struct(_) => r is Ok,
            Data::Enum => r == Result::<InjectableTarget, DeriveError>::Err(
                DeriveError::EnumNotSupported,
            ),
            Data::Union => r == Result::<InjectableTarget, DeriveError>::Err(
                DeriveError::UnionNotSupported,
            ),
        },
        r matches Ok(t) ==> {
            &&& input.data.deep_view() matches DataV::Struct(f)
            &&& t.deep_view() == target_of_struct(input.ident@, f)
        },
{
    match &input.data {
        Data::Enum => Result::Err(DeriveError::EnumNotSupported),
        Data::Union => Result::Err(DeriveError::UnionNotSupported),
        Data::Struct(fields) => {
            let target_type = input.ident.clone();
            let constructor = get_target_constructor(input);
            let container = get_container_identifier(fields);
            let deps = get_deps(fields, &container);
            let is_unit = matches!(fields, Fields::Unit);
            Result::Ok(InjectableTarget::new(target_type, container, constructor, deps, is_unit))
        },
    }
}

/// Law: every parsed target is well formed — a unit target carries no
/// dependencies, and all dependencies reference the target's own container
/// identifier.
pub proof fn lemma_parsed_target_wf(ident: Seq<char>, f: FieldsV)
    ensures
        target_wf(target_of_struct(ident, f)),
{
}

/// The resolution statement emitted for one dependency.
pub open spec fn statement_of_dep(d: DependencyV) -> ResolutionStatementV {
    ResolutionStatementV {
        binding: var_name_of(d.field),
        requested_type: d.field_type,
        scope: d.scope,
        container: d.container,
    }
}

/// The construction expression emitted for a non-unit target: the explicit
/// constructor when one is configured, else a positional call for positional
/// fields, else a field literal (also emitted for an empty brace-declared
/// field list, where the two forms coincide).
pub open spec fn construction_of(t: InjectableTargetV) -> ConstructionV {
    match t.constructor {
        Option::Some(c) => ConstructionV::ConstructorCall { name: c.name, params: c.params },
        Option::None => {
            if t.deps.len() > 0 && t.deps[0].field is Unnamed {
                ConstructionV::PositionalCall(
                    Seq::new(t.deps.len(), |i: int| var_name_of(t.deps[i].field)),
                )
            } else {
                ConstructionV::NamedFields(
                    Seq::new(
                        t.deps.len(),
                        |i: int|
                            FieldInitV {
                                field: var_name_of(t.deps[i].field),
                                binding: var_name_of(t.deps[i].field),
                            },
                    ),
                )
            }
        },
    }
}

/// The generated implementation for a target: for a unit target a fixed,
/// argument-less construction whose container parameter is the discard
/// placeholder, whatever else the target holds; otherwise the resolution
/// statements in dependency order followed by exactly one construction.
pub open spec fn spec_emit(t: InjectableTargetV) -> GeneratedImplV {
    if t.is_unit {
        GeneratedImplV {
            target_type: t.target_type,
            container_param: discard_ident(),
            body: GeneratedBodyV::Unit,
        }
    } else {
        GeneratedImplV {
            target_type: t.target_type,
            container_param: t.container,
            body: GeneratedBodyV::Construct {
                statements: Seq::new(t.deps.len(), |i: int| statement_of_dep(t.deps[i])),
                construction: construction_of(t),
            },
        }
    }
}

impl InjectableTarget {
    /// Emit the generated implementation for this target.
    pub fn emit(&self) -> (g: GeneratedImpl)
        ensures
            g.deep_view() == spec_emit(self.deep_view()),
    {
        if self.is_unit {
            let g = GeneratedImpl {
                target_type: self.target_type.clone(),
                container_param: String::from_str("_"),
                body: GeneratedBody::Unit,
            };
            proof {
                assert(g.deep_view() =~= spec_emit(self.deep_view()));
            }
            return g;
        }
        let mut statements: Vec<ResolutionStatement> = Vec::new();
        let mut i: usize = 0;
        while i < self.deps.len()
            invariant
                i <= self.deps@.len(),
                statements@.len() == i,
                forall|j: int|
                    0 <= j < i ==> statements@[j].deep_view() == statement_of_dep(
                        self.deps@[j].deep_view(),
                    ),
            decreases self.deps@.len() - i,
        {
            let d = &self.deps[i];
            let stmt = ResolutionStatement {
                binding: d.var_name(),
                requested_type: d.field_type.clone(),
                scope: d.scope,
                container: d.container.clone(),
            };
            statements.push(stmt);
            i = i + 1;
        }
        let construction = self.build_construction();
        let g = GeneratedImpl {
            target_type: self.target_type.clone(),
            container_param: self.container.clone(),
            body: GeneratedBody::Construct { statements, construction },
        };
        proof {
            assert(g.deep_view().body->Construct_statements =~= spec_emit(
                self.deep_view(),
            ).body->Construct_statements);
            assert(g.deep_view() =~= spec_emit(self.deep_view()));
        }
        g
    }

    /// The construction expression for a non-unit target.
    fn build_construction(&self) -> (c: Construction)
        requires
            !self.is_unit,
        ensures
            c.deep_view() == construction_of(self.deep_view()),
    {
        if let Option::Some(ctor) = &self.constructor {
            let mut params: Vec<String> = Vec::new();
            let mut i: usize = 0;
            while i < ctor.params.len()
                invariant
                    i <= ctor.params@.len(),
                    params@.len() == i,
                    forall|j: int| 0 <= j < i ==> params@[j]@ == ctor.params@[j]@,
                decreases ctor.params@.len() - i,
            {
                params.push(ctor.params[i].clone());
                i = i + 1;
            }
            let c = Construction::ConstructorCall { name: ctor.name.clone(), params };
            proof {
                assert(c.deep_view()->ConstructorCall_params =~= construction_of(
                    self.deep_view(),
                )->ConstructorCall_params);
                assert(c.deep_view() =~= construction_of(self.deep_view()));
            }
            return c;
        }
        let positional = if self.deps.len() > 0 {
            matches!(&self.deps[0].field, TargetField::Unnamed(_))
        } else {
            false
        };
        if positional {
            let mut binds: Vec<String> = Vec::new();
            let mut i: usize = 0;
            while i < self.deps.len()
                invariant
                    i <= self.deps@.len(),
                    binds@.len() == i,
                    forall|j: int|
                        0 <= j < i ==> binds@[j]@ == var_name_of(self.deps@[j].field.deep_view()),
                decreases self.deps@.len() - i,
            {
                binds.push(self.deps[i].var_name());
                i = i + 1;
            }
            let c = Construction::PositionalCall(binds);
            proof {
                assert(c.deep_view()->PositionalCall_0 =~= construction_of(
                    self.deep_view(),
                )->PositionalCall_0);
                assert(c.deep_view() =~= construction_of(self.deep_view()));
            }
            c
        } else {
            let mut inits: Vec<FieldInit> = Vec::new();
            let mut i: usize = 0;
            while i < self.deps.len()
                invariant
                    i <= self.deps@.len(),
                    inits@.len() == i,
                    forall|j: int|
                        0 <= j < i ==> inits@[j].deep_view() == (FieldInitV {
                            field: var_name_of(self.deps@[j].field.deep_view()),
                            binding: var_name_of(self.deps@[j].field.deep_view()),
                        }),
                decreases self.deps@.len() - i,
            {
                let binding = self.deps[i].var_name();
                let field = self.deps[i].var_name();
                inits.push(FieldInit { field, binding });
                i = i + 1;
            }
            let c = Construction::NamedFields(inits);
            proof {
                assert(c.deep_view()->NamedFields_0 =~= construction_of(
                    self.deep_view(),
                )->NamedFields_0);
                assert(c.deep_view() =~= construction_of(self.deep_view()));
            }
            c
        }
    }
}

/// Law: generation for a unit target is deterministic and ignores its
/// input beyond the type name — two unit targets of the same name generate
/// the identical implementation: a fixed argument-less construction whose
/// container parameter is the discard placeholder.
pub proof fn lemma_emit_unit_deterministic(a: InjectableTargetV, b: InjectableTargetV)
    requires
        a.is_unit,
        b.is_unit,
        a.target_type == b.target_type,
    ensures
        spec_emit(a) == spec_emit(b),
        spec_emit(a).body is Unit,
        spec_emit(a).container_param == discard_ident(),
{
}

} // verus!
