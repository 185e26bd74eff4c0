//! Parsing a derive input and emitting the generated implementation.

use dilib_derive::InjectableTarget;
use dilib_derive::TargetConstructor;
use dilib_derive::dependency::Dependency;
use dilib_derive::dependency::TargetField;
use dilib_derive::generated::Construction;
use dilib_derive::generated::GeneratedBody;
use dilib_derive::input::Data;
use dilib_derive::input::DeriveInput;
use dilib_derive::input::FieldConfig;
use dilib_derive::input::Fields;
use dilib_derive::input::NamedField;
use dilib_derive::input::UnnamedField;
use dilib_derive::parse_derive_injectable;
use dilib_derive::target::DeriveError;
use dilib_derive::type_expr::GenericArg;
use dilib_derive::type_expr::PathArgs;
use dilib_derive::type_expr::PathSegment;
use dilib_derive::type_expr::Scope;
use dilib_derive::type_expr::TypeExpr;
use dilib_derive::type_expr::TypePath;

fn plain(name: &str) -> TypeExpr {
    TypeExpr::Path(TypePath {
        qualified_self: false,
        segments: vec![PathSegment { name: String::from(name), args: PathArgs::Empty }],
    })
}

fn singleton_of(inner: TypeExpr) -> TypeExpr {
    TypeExpr::Path(TypePath {
        qualified_self: false,
        segments: vec![PathSegment {
            name: String::from("Singleton"),
            args: PathArgs::AngleBracketed(vec![GenericArg::TypeArg(Box::new(inner))]),
        }],
    })
}

fn named_field(name: &str, ty: TypeExpr) -> NamedField {
    NamedField { name: String::from(name), ty, config: FieldConfig::default() }
}

fn input(ident: &str, data: Data) -> DeriveInput {
    DeriveInput { ident: String::from(ident), data }
}

#[test]
fn unit_target_generates_fixed_construction() {
    let target = parse_derive_injectable(&input("S", Data::Struct(Fields::Unit))).unwrap();
    assert!(target.is_unit());
    assert!(target.deps.is_empty());
    let g = target.emit();
    assert_eq!(g.target_type, "S");
    assert_eq!(g.container_param, "_");
    assert_eq!(g.body, GeneratedBody::Unit);
}

#[test]
fn unit_target_generation_is_deterministic() {
    let once = parse_derive_injectable(&input("S", Data::Struct(Fields::Unit))).unwrap().emit();
    let twice = parse_derive_injectable(&input("S", Data::Struct(Fields::Unit))).unwrap().emit();
    assert_eq!(once, twice);
}

#[test]
fn named_fields_generate_statements_in_order() {
    let fields = Fields::Named(vec![
        named_field("a", plain("Foo")),
        named_field("b", singleton_of(plain("Bar"))),
    ]);
    let target = parse_derive_injectable(&input("S", Data::Struct(fields))).unwrap();
    let g = target.emit();
    assert_eq!(g.target_type, "S");
    assert_eq!(g.container_param, "container");
    match g.body {
        GeneratedBody::Construct { statements, construction } => {
            assert_eq!(statements.len(), 2);
            assert_eq!(statements[0].binding, "a");
            assert_eq!(statements[0].requested_type, plain("Foo"));
            assert_eq!(statements[0].scope, Scope::Scoped);
            assert_eq!(statements[0].container, "container");
            assert_eq!(statements[1].binding, "b");
            assert_eq!(statements[1].requested_type, plain("Bar"));
            assert_eq!(statements[1].scope, Scope::Singleton);
            assert_eq!(statements[1].container, "container");
            match construction {
                Construction::NamedFields(inits) => {
                    assert_eq!(inits.len(), 2);
                    assert_eq!(inits[0].field, "a");
                    assert_eq!(inits[0].binding, "a");
                    assert_eq!(inits[1].field, "b");
                    assert_eq!(inits[1].binding, "b");
                }
                other => panic!("expected a named-field construction, got {:?}", other),
            }
        }
        GeneratedBody::Unit => panic!("expected a non-unit body"),
    }
}

#[test]
fn positional_fields_generate_positional_call_in_order() {
    let fields = Fields::Unnamed(vec![
        UnnamedField { ty: plain("Foo"), config: FieldConfig::default() },
        UnnamedField { ty: plain("Bar"), config: FieldConfig::default() },
    ]);
    let target = parse_derive_injectable(&input("S", Data::Struct(fields))).unwrap();
    let g = target.emit();
    assert_eq!(g.container_param, "container");
    match g.body {
        GeneratedBody::Construct { statements, construction } => {
            assert_eq!(statements.len(), 2);
            assert_eq!(statements[0].binding, "v0");
            assert_eq!(statements[0].requested_type, plain("Foo"));
            assert_eq!(statements[1].binding, "v1");
            assert_eq!(statements[1].requested_type, plain("Bar"));
            match construction {
                Construction::PositionalCall(binds) => {
                    assert_eq!(binds, vec![String::from("v0"), String::from("v1")]);
                }
                other => panic!("expected a positional call, got {:?}", other),
            }
        }
        GeneratedBody::Unit => panic!("expected a non-unit body"),
    }
}

#[test]
fn enum_input_aborts_with_diagnostic_and_no_output() {
    let r = parse_derive_injectable(&input("E", Data::Enum));
    match r {
        Err(e) => {
            assert_eq!(e, DeriveError::EnumNotSupported);
            assert_eq!(e.message(), "Enum types cannot implement `Injectable` with #[derive]");
        }
        Ok(_) => panic!("an enumerated type must be rejected"),
    }
}

#[test]
fn union_input_aborts_with_diagnostic_and_no_output() {
    let r = parse_derive_injectable(&input("U", Data::Union));
    match r {
        Err(e) => {
            assert_eq!(e, DeriveError::UnionNotSupported);
            assert_eq!(e.message(), "Union types cannot implement `Injectable` with #[derive]");
        }
        Ok(_) => panic!("a union type must be rejected"),
    }
}

#[test]
fn colliding_field_name_feeds_resolved_identifier_to_dependencies() {
    let fields = Fields::Named(vec![
        named_field("container", plain("Foo")),
        named_field("b", plain("Bar")),
    ]);
    let target = parse_derive_injectable(&input("S", Data::Struct(fields))).unwrap();
    assert_eq!(target.container, "container1");
    for dep in &target.deps {
        assert_eq!(dep.container, "container1");
    }
    let g = target.emit();
    assert_eq!(g.container_param, "container1");
    match g.body {
        GeneratedBody::Construct { statements, .. } => {
            for s in &statements {
                assert_eq!(s.container, "container1");
            }
        }
        GeneratedBody::Unit => panic!("expected a non-unit body"),
    }
}

#[test]
fn empty_braced_struct_is_not_unit() {
    let target = parse_derive_injectable(&input("S", Data::Struct(Fields::Named(vec![]))))
        .unwrap();
    assert!(!target.is_unit());
    assert!(target.deps.is_empty());
    let g = target.emit();
    assert_eq!(g.container_param, "container");
    match g.body {
        GeneratedBody::Construct { statements, construction } => {
            assert!(statements.is_empty());
            assert_eq!(construction, Construction::NamedFields(vec![]));
        }
        GeneratedBody::Unit => panic!("a braced empty struct is not a unit target"),
    }
}

#[test]
fn parse_keeps_field_declaration_order() {
    let fields = Fields::Named(vec![
        named_field("x", plain("A")),
        named_field("y", plain("B")),
        named_field("z", plain("C")),
    ]);
    let target = parse_derive_injectable(&input("S", Data::Struct(fields))).unwrap();
    let slots: Vec<&TargetField> = target.deps.iter().map(|d| &d.field).collect();
    assert_eq!(
        slots,
        vec![
            &TargetField::Named(String::from("x")),
            &TargetField::Named(String::from("y")),
            &TargetField::Named(String::from("z")),
        ]
    );
    assert_eq!(target.deps[0].field_type, plain("A"));
    assert_eq!(target.deps[1].field_type, plain("B"));
    assert_eq!(target.deps[2].field_type, plain("C"));
}

#[test]
fn no_constructor_is_configured_yet() {
    let target = parse_derive_injectable(&input("S", Data::Struct(Fields::Unit))).unwrap();
    assert!(target.constructor.is_none());
}

#[test]
fn explicit_constructor_is_called_with_declared_params() {
    let target = InjectableTarget::new(
        String::from("S"),
        String::from("container"),
        Some(TargetConstructor {
            name: String::from("with_parts"),
            params: vec![String::from("a"), String::from("b")],
        }),
        vec![
            Dependency::new(
                TargetField::Named(String::from("a")),
                plain("Foo"),
                Scope::Scoped,
                String::from("container"),
            ),
        ],
        false,
    );
    let g = target.emit();
    match g.body {
        GeneratedBody::Construct { construction, .. } => match construction {
            Construction::ConstructorCall { name, params } => {
                assert_eq!(name, "with_parts");
                assert_eq!(params, vec![String::from("a"), String::from("b")]);
            }
            other => panic!("expected a constructor call, got {:?}", other),
        },
        GeneratedBody::Unit => panic!("expected a non-unit body"),
    }
}

#[test]
fn var_name_of_named_field_is_the_name() {
    let d = Dependency::new(
        TargetField::Named(String::from("repo")),
        plain("Foo"),
        Scope::Scoped,
        String::from("container"),
    );
    assert_eq!(d.var_name(), "repo");
}

#[test]
fn var_name_of_positional_field_is_v_and_position() {
    let d = Dependency::new(
        TargetField::Unnamed(3),
        plain("Foo"),
        Scope::Scoped,
        String::from("container"),
    );
    assert_eq!(d.var_name(), "v3");
    let d = Dependency::new(
        TargetField::Unnamed(12),
        plain("Foo"),
        Scope::Scoped,
        String::from("container"),
    );
    assert_eq!(d.var_name(), "v12");
}
