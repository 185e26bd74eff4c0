//! Choosing the identifier that names the injected container parameter.
//!
//! The generated resolution operation binds one parameter to the container
//! handle. Its name must not shadow a field of the target type, because every
//! field is assigned from a local resolution statement of the same name. The
//! resolver starts from a fixed default and, scanning the field list once in
//! declaration order, appends an increasing numeric suffix each time the
//! current candidate collides with a field name, settling on the first
//! candidate left standing after the scan.

use vstd::prelude::*;

use crate::decimal::decimal_digits;
use crate::decimal::u128_to_decimal;
use crate::input::Fields;
use crate::input::FieldsV;
use crate::input::NamedFieldV;

verus! {

/// The default name of the generated container parameter.
pub open spec fn container_default() -> Seq<char> {
    "container"@
}

/// The placeholder that names the ignored container parameter of a unit
/// target, whose construction never touches the container.
pub open spec fn discard_ident() -> Seq<char> {
    "_"@
}

/// The default name of the generated container parameter, for executable
/// callers; generated code references this name by value.
pub fn container_default_name() -> (r: &'static str)
    ensures
        r@ == container_default(),
{
    "container"
}

/// One scan step of the resolver: from position `i` with current candidate
/// `cand` and next suffix `k`, the identifier settled on after the rest of
/// the scan.
pub open spec fn resolve_from(names: Seq<Seq<char>>, i: int, cand: Seq<char>, k: nat) -> Seq<
    char,
>
    decreases names.len() - i,
{
    if i < 0 || i >= names.len() {
        cand
    } else if names[i] == cand {
        resolve_from(names, i + 1, container_default() + decimal_digits(k), k + 1)
    } else {
        resolve_from(names, i + 1, cand, k)
    }
}

/// The container identifier resolved against the given field names: the
/// default, suffixed once per collision met during a single in-order scan.
pub open spec fn resolved_container_ident(names: Seq<Seq<char>>) -> Seq<char> {
    resolve_from(names, 0, container_default(), 1)
}

/// The names of a named-field list, in declaration order.
pub open spec fn field_names(fs: Seq<NamedFieldV>) -> Seq<Seq<char>> {
    Seq::new(fs.len(), |i: int| fs[i].name)
}

/// The container identifier for a field list: resolved against the field
/// names when they are named, the bare default when they are positional
/// (positional fields have no user-chosen names to collide with), and the
/// discard placeholder for a unit target.
pub open spec fn container_ident_of_fields(f: FieldsV) -> Seq<char> {
    match f {
        FieldsV::Named(fs) => resolved_container_ident(field_names(fs)),
        FieldsV::Unnamed(_) => container_default(),
        FieldsV::Unit => discard_ident(),
    }
}

/// Pick the identifier that will name the container parameter of the
/// generated resolution operation for a target with these fields.
pub fn get_container_identifier(fields: &Fields) -> (r: String)
    ensures
        r@ == container_ident_of_fields(fields.deep_view()),
{
    match fields {
        Fields::Unit => String::from_str("_"),
        Fields::Unnamed(_) => String::from_str(container_default_name()),
        Fields::Named(fs) => {
            let ghost names = field_names(fs.deep_view());
            let mut cand = String::from_str(container_default_name());
            let mut k: u128 = 1;
            let mut i: usize = 0;
            while i < fs.len()
                invariant
                    i <= fs@.len(),
                    names == field_names(fs.deep_view()),
                    names.len() == fs@.len(),
                    k as nat <= i + 1,
                    resolve_from(names, i as int, cand@, k as nat) == resolved_container_ident(
                        names,
                    ),
                decreases fs@.len() - i,
            {
                if fs[i].name == cand {
                    let mut next = String::from_str(container_default_name());
                    next.append(u128_to_decimal(k).as_str());
                    cand = next;
                    k = k + 1;
                }
                i = i + 1;
            }
            cand
        },
    }
}

/// One scan step at a position that does not collide leaves the candidate
/// unchanged; by induction, a collision-free stretch can be skipped whole.
pub proof fn lemma_resolve_skip(names: Seq<Seq<char>>, i: int, j: int, cand: Seq<char>, k: nat)
    requires
        0 <= i <= j <= names.len(),
        forall|m: int| i <= m < j ==> names[m] != cand,
    ensures
        resolve_from(names, i, cand, k) == resolve_from(names, j, cand, k),
    decreases j - i,
{
    if i < j {
        lemma_resolve_skip(names, i + 1, j, cand, k);
    }
}

/// Law: when no field bears the default name, the resolved container
/// identifier is exactly the default.
pub proof fn lemma_default_kept_without_collision(names: Seq<Seq<char>>)
    requires
        forall|i: int| 0 <= i < names.len() ==> names[i] != container_default(),
    ensures
        resolved_container_ident(names) == container_default(),
{
    lemma_resolve_skip(names, 0, names.len() as int, container_default(), 1);
}

/// Law: when the default name first collides at position `i` and nothing
/// after `i` bears the once-suffixed name, the resolved identifier is the
/// default with suffix 1.
pub proof fn lemma_one_collision(names: Seq<Seq<char>>, i: int)
    requires
        0 <= i < names.len(),
        names[i] == container_default(),
        forall|m: int| 0 <= m < i ==> names[m] != container_default(),
        forall|m: int|
            i < m < names.len() ==> names[m] != container_default() + decimal_digits(1),
    ensures
        resolved_container_ident(names) == container_default() + decimal_digits(1),
{
    lemma_resolve_skip(names, 0, i, container_default(), 1);
    lemma_resolve_skip(names, i + 1, names.len() as int, container_default() + decimal_digits(1), 2);
}

/// Law: when the default name first collides at position `i`, the
/// once-suffixed name first collides later at position `j`, and nothing
/// after `j` bears the twice-suffixed name, the resolved identifier is the
/// default with suffix 2.
pub proof fn lemma_two_collisions(names: Seq<Seq<char>>, i: int, j: int)
    requires
        0 <= i < j < names.len(),
        names[i] == container_default(),
        forall|m: int| 0 <= m < i ==> names[m] != container_default(),
        names[j] == container_default() + decimal_digits(1),
        forall|m: int| i < m < j ==> names[m] != container_default() + decimal_digits(1),
        forall|m: int|
            j < m < names.len() ==> names[m] != container_default() + decimal_digits(2),
    ensures
        resolved_container_ident(names) == container_default() + decimal_digits(2),
{
    lemma_resolve_skip(names, 0, i, container_default(), 1);
    lemma_resolve_skip(names, i + 1, j, container_default() + decimal_digits(1), 2);
    lemma_resolve_skip(names, j + 1, names.len() as int, container_default() + decimal_digits(2), 3);
}

} // verus!
