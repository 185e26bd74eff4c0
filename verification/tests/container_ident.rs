//! Resolution of the container-parameter identifier, and the decimal
//! numerals its suffixes are written with.

use dilib_derive::container_ident::get_container_identifier;
use dilib_derive::decimal::u128_to_decimal;
use dilib_derive::input::FieldConfig;
use dilib_derive::input::Fields;
use dilib_derive::input::NamedField;
use dilib_derive::input::UnnamedField;
use dilib_derive::type_expr::PathArgs;
use dilib_derive::type_expr::PathSegment;
use dilib_derive::type_expr::TypeExpr;
use dilib_derive::type_expr::TypePath;

fn plain(name: &str) -> TypeExpr {
    TypeExpr::Path(TypePath {
        qualified_self: false,
        segments: vec![PathSegment { name: String::from(name), args: PathArgs::Empty }],
    })
}

fn named(names: &[&str]) -> Fields {
    Fields::Named(
        names
            .iter()
            .map(|n| NamedField {
                name: String::from(*n),
                ty: plain("Foo"),
                config: FieldConfig::default(),
            })
            .collect(),
    )
}

fn unnamed(count: usize) -> Fields {
    Fields::Unnamed(
        (0..count)
            .map(|_| UnnamedField { ty: plain("Foo"), config: FieldConfig::default() })
            .collect(),
    )
}

#[test]
fn no_collision_keeps_default() {
    assert_eq!(get_container_identifier(&named(&["a", "b", "c"])), "container");
}

#[test]
fn empty_named_list_keeps_default() {
    assert_eq!(get_container_identifier(&named(&[])), "container");
}

#[test]
fn one_collision_appends_suffix_one() {
    assert_eq!(get_container_identifier(&named(&["container", "b"])), "container1");
}

#[test]
fn two_collisions_append_suffix_two() {
    assert_eq!(get_container_identifier(&named(&["container", "container1"])), "container2");
}

#[test]
fn three_collisions_append_suffix_three() {
    assert_eq!(
        get_container_identifier(&named(&["container", "container1", "container2"])),
        "container3"
    );
}

#[test]
fn scan_is_single_pass_in_declaration_order() {
    // "container1" stands before the collision that would introduce it, so
    // the single scan never reconsiders it.
    assert_eq!(get_container_identifier(&named(&["container1", "container"])), "container1");
}

#[test]
fn positional_fields_always_keep_default() {
    assert_eq!(get_container_identifier(&unnamed(0)), "container");
    assert_eq!(get_container_identifier(&unnamed(1)), "container");
    assert_eq!(get_container_identifier(&unnamed(5)), "container");
}

#[test]
fn unit_shape_uses_discard_placeholder() {
    assert_eq!(get_container_identifier(&Fields::Unit), "_");
}

#[test]
fn decimal_single_digits() {
    assert_eq!(u128_to_decimal(0), "0");
    assert_eq!(u128_to_decimal(7), "7");
    assert_eq!(u128_to_decimal(9), "9");
}

#[test]
fn decimal_multiple_digits() {
    assert_eq!(u128_to_decimal(10), "10");
    assert_eq!(u128_to_decimal(105), "105");
    assert_eq!(u128_to_decimal(123456), "123456");
}

#[test]
fn field_config_defaults_to_absent() {
    let c = FieldConfig::default();
    assert_eq!(c.scope_override, None);
    assert_eq!(c.lookup_key, None);
}
