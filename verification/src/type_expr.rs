//! Model of a field's declared type expression, and the pattern matcher that
//! decides the caching scope of a dependency from the shape of that type.
//!
//! The matcher recognises exactly two wrapper shapes, each written as a path
//! of a single segment: `Singleton<T>` with one path-type argument, and
//! `Arc<Mutex<T>>` where the sole argument of `Arc` is a single-segment path
//! named `Mutex` with one path-type argument. Only the segment's name is
//! inspected, never its origin, so an unrelated type that is literally written
//! `Singleton<T>` is classified as a wrapper all the same. Every other shape
//! is left unchanged and resolved fresh on every request.

use vstd::prelude::*;

verus! {

/// Caching policy for a resolved dependency: a `Singleton` value is memoized
/// by the container and shared across resolutions, a `Scoped` value is
/// constructed fresh on every resolution.
#[derive(Clone, Copy, PartialEq, Eq, Debug, Structural)]
pub enum Scope {
    Singleton,
    Scoped,
}

/// A field's declared type expression, reduced to what scope classification
/// inspects: path types keep their structure, every other shape is opaque.
#[derive(PartialEq, Eq, Debug)]
pub enum TypeExpr {
    /// A path type such as `Foo`, `a::b::Foo<T>` or `<T as Trait>::Out`.
    Path(TypePath),
    /// Any non-path shape: references, tuples, slices, trait objects, ...
    Other,
}

/// A path type: an optional qualified-self prefix and its segments.
#[derive(PartialEq, Eq, Debug)]
pub struct TypePath {
    /// Whether the path is written with a qualified self type,
    /// as in `<T as Trait>::Out`.
    pub qualified_self: bool,
    /// The path's segments in order; generic arguments are kept per segment.
    pub segments: Vec<PathSegment>,
}

/// One segment of a path: its identifier and its generic arguments.
#[derive(PartialEq, Eq, Debug)]
pub struct PathSegment {
    pub name: String,
    pub args: PathArgs,
}

/// The generic arguments attached to one path segment.
#[derive(PartialEq, Eq, Debug)]
pub enum PathArgs {
    /// No arguments at all, as in `Foo`.
    Empty,
    /// Angle-bracketed arguments, as in `Foo<'a, T, 3>`.
    AngleBracketed(Vec<GenericArg>),
    /// Parenthesized arguments, as in `Fn(A) -> B`.
    Parenthesized,
}

/// One angle-bracketed generic argument.
#[derive(PartialEq, Eq, Debug)]
pub enum GenericArg {
    /// A type argument.
    TypeArg(Box<TypeExpr>),
    /// Any non-type argument: a lifetime, a const expression, a binding, ...
    Other,
}

/// Mathematical model of a `TypeExpr`.
#[verifier::ext_equal]
pub enum TypeExprV {
    Path(TypePathV),
    Other,
}

#[verifier::ext_equal]
pub struct TypePathV {
    pub qualified_self: bool,
    pub segments: Seq<PathSegmentV>,
}

#[verifier::ext_equal]
pub struct PathSegmentV {
    pub name: Seq<char>,
    pub args: PathArgsV,
}

#[verifier::ext_equal]
pub enum PathArgsV {
    Empty,
    AngleBracketed(Seq<GenericArgV>),
    Parenthesized,
}

#[verifier::ext_equal]
pub enum GenericArgV {
    TypeArg(TypeExprV),
    Other,
}

pub open spec fn view_of_type_expr(t: TypeExpr) -> TypeExprV
    decreases t,
{
    match t {
        TypeExpr::Path(p) => TypeExprV::Path(view_of_type_path(p)),
        TypeExpr::Other => TypeExprV::Other,
    }
}

pub open spec fn view_of_type_path(p: TypePath) -> TypePathV
    decreases p,
{
    TypePathV { qualified_self: p.qualified_self, segments: views_of_segments(p.segments@) }
}

pub open spec fn views_of_segments(s: Seq<PathSegment>) -> Seq<PathSegmentV>
    decreases s,
{
    if s.len() == 0 {
        Seq::empty()
    } else {
        views_of_segments(s.drop_last()).push(view_of_path_segment(s.last()))
    }
}

pub open spec fn view_of_path_segment(s: PathSegment) -> PathSegmentV
    decreases s,
{
    PathSegmentV { name: s.name@, args: view_of_path_args(s.args) }
}

pub open spec fn view_of_path_args(a: PathArgs) -> PathArgsV
    decreases a,
{
    match a {
        PathArgs::Empty => PathArgsV::Empty,
        PathArgs::AngleBracketed(args) => PathArgsV::AngleBracketed(views_of_generic_args(args@)),
        PathArgs::Parenthesized => PathArgsV::Parenthesized,
    }
}

pub open spec fn views_of_generic_args(s: Seq<GenericArg>) -> Seq<GenericArgV>
    decreases s,
{
    if s.len() == 0 {
        Seq::empty()
    } else {
        views_of_generic_args(s.drop_last()).push(view_of_generic_arg(s.last()))
    }
}

pub open spec fn view_of_generic_arg(g: GenericArg) -> GenericArgV
    decreases g,
{
    match g {
        GenericArg::TypeArg(t) => GenericArgV::TypeArg(view_of_type_expr(*t)),
        GenericArg::Other => GenericArgV::Other,
    }
}

impl DeepView for TypeExpr {
    type V = TypeExprV;

    open spec fn deep_view(&self) -> TypeExprV {
        view_of_type_expr(*self)
    }
}

impl DeepView for TypePath {
    type V = TypePathV;

    open spec fn deep_view(&self) -> TypePathV {
        view_of_type_path(*self)
    }
}

impl DeepView for PathSegment {
    type V = PathSegmentV;

    open spec fn deep_view(&self) -> PathSegmentV {
        view_of_path_segment(*self)
    }
}

impl DeepView for PathArgs {
    type V = PathArgsV;

    open spec fn deep_view(&self) -> PathArgsV {
        view_of_path_args(*self)
    }
}

impl DeepView for GenericArg {
    type V = GenericArgV;

    open spec fn deep_view(&self) -> GenericArgV {
        view_of_generic_arg(*self)
    }
}

/// `views_of_segments` is the element-wise view of a segment sequence.
pub proof fn lemma_views_of_segments(s: Seq<PathSegment>)
    ensures
        views_of_segments(s).len() == s.len(),
        forall|i: int|
            0 <= i < s.len() ==> views_of_segments(s)[i] == view_of_path_segment(s[i]),
    decreases s,
{
    if s.len() > 0 {
        lemma_views_of_segments(s.drop_last());
    }
}

/// `views_of_generic_args` is the element-wise view of an argument sequence.
pub proof fn lemma_views_of_generic_args(s: Seq<GenericArg>)
    ensures
        views_of_generic_args(s).len() == s.len(),
        forall|i: int|
            0 <= i < s.len() ==> views_of_generic_args(s)[i] == view_of_generic_arg(s[i]),
    decreases s,
{
    if s.len() > 0 {
        lemma_views_of_generic_args(s.drop_last());
    }
}

fn clone_type_expr(t: &TypeExpr) -> (res: TypeExpr)
    ensures
        res.deep_view() == t.deep_view(),
    decreases *t,
{
    match t {
        TypeExpr::Path(p) => TypeExpr::Path(clone_type_path(p)),
        TypeExpr::Other => TypeExpr::Other,
    }
}

fn clone_type_path(p: &TypePath) -> (res: TypePath)
    ensures
        res.deep_view() == p.deep_view(),
    decreases *p,
{
    let segments = clone_segments(&p.segments);
    proof {
        lemma_views_of_segments(p.segments@);
        lemma_views_of_segments(segments@);
        assert(views_of_segments(segments@) =~= views_of_segments(p.segments@));
    }
    TypePath { qualified_self: p.qualified_self, segments }
}

fn clone_segments(v: &Vec<PathSegment>) -> (res: Vec<PathSegment>)
    ensures
        res@.len() == v@.len(),
        forall|i: int|
            0 <= i < v@.len() ==> view_of_path_segment(res@[i]) == view_of_path_segment(v@[i]),
    decreases *v,
{
    let mut res: Vec<PathSegment> = Vec::new();
    let mut i: usize = 0;
    while i < v.len()
        invariant
            i <= v@.len(),
            res@.len() == i,
            forall|j: int|
                0 <= j < i ==> view_of_path_segment(res@[j]) == view_of_path_segment(v@[j]),
        decreases v@.len() - i,
    {
        res.push(clone_path_segment(&v[i]));
        i = i + 1;
    }
    res
}

fn clone_path_segment(s: &PathSegment) -> (res: PathSegment)
    ensures
        res.deep_view() == s.deep_view(),
    decreases *s,
{
    PathSegment { name: s.name.clone(), args: clone_path_args(&s.args) }
}

fn clone_path_args(a: &PathArgs) -> (res: PathArgs)
    ensures
        res.deep_view() == a.deep_view(),
    decreases *a,
{
    match a {
        PathArgs::Empty => PathArgs::Empty,
        PathArgs::AngleBracketed(args) => {
            let cloned_args = clone_generic_args(args);
            proof {
                lemma_views_of_generic_args(args@);
                lemma_views_of_generic_args(cloned_args@);
                assert(views_of_generic_args(cloned_args@) =~= views_of_generic_args(args@));
            }
            PathArgs::AngleBracketed(cloned_args)
        },
        PathArgs::Parenthesized => PathArgs::Parenthesized,
    }
}

fn clone_generic_args(v: &Vec<GenericArg>) -> (res: Vec<GenericArg>)
    ensures
        res@.len() == v@.len(),
        forall|i: int|
            0 <= i < v@.len() ==> view_of_generic_arg(res@[i]) == view_of_generic_arg(v@[i]),
    decreases *v,
{
    let mut res: Vec<GenericArg> = Vec::new();
    let mut i: usize = 0;
    while i < v.len()
        invariant
            i <= v@.len(),
            res@.len() == i,
            forall|j: int|
                0 <= j < i ==> view_of_generic_arg(res@[j]) == view_of_generic_arg(v@[j]),
        decreases v@.len() - i,
    {
        res.push(clone_generic_arg(&v[i]));
        i = i + 1;
    }
    res
}

fn clone_generic_arg(g: &GenericArg) -> (res: GenericArg)
    ensures
        res.deep_view() == g.deep_view(),
    decreases *g,
{
    match g {
        GenericArg::TypeArg(t) => GenericArg::TypeArg(Box::new(clone_type_expr(&**t))),
        GenericArg::Other => GenericArg::Other,
    }
}

impl Clone for TypeExpr {
    /// Cloning preserves the modelled type expression exactly.
    fn clone(&self) -> (res: Self)
        ensures
            res.deep_view() == self.deep_view(),
    {
        clone_type_expr(self)
    }
}

/// The segment name that marks an explicit singleton wrapper.
pub open spec fn singleton_name() -> Seq<char> {
    "Singleton"@
}

/// The outer segment name of the shared-mutable wrapper shape.
pub open spec fn arc_name() -> Seq<char> {
    "Arc"@
}

/// The inner segment name of the shared-mutable wrapper shape.
pub open spec fn mutex_name() -> Seq<char> {
    "Mutex"@
}

/// The sole path-type argument of `t`, provided `t` is a path of exactly one
/// non-qualified segment named `name` with exactly one angle-bracketed
/// argument, and that argument is itself a path type. `None` on every other
/// shape: classification fails open, so a malformed wrapper is no error.
pub open spec fn sole_path_type_arg(t: TypeExprV, name: Seq<char>) -> Option<TypeExprV> {
    match t {
        TypeExprV::Path(p) => {
            if !p.qualified_self && p.segments.len() == 1 && p.segments[0].name == name {
                match p.segments[0].args {
                    PathArgsV::AngleBracketed(args) => {
                        if args.len() == 1 {
                            match args[0] {
                                GenericArgV::TypeArg(inner) => {
                                    if inner is Path {
                                        Option::Some(inner)
                                    } else {
                                        Option::None
                                    }
                                },
                                GenericArgV::Other => Option::None,
                            }
                        } else {
                            Option::None
                        }
                    },
                    _ => Option::None,
                }
            } else {
                Option::None
            }
        },
        TypeExprV::Other => Option::None,
    }
}

/// The inner type to request from the container when `t` is one of the two
/// recognised wrapper shapes; `None` when `t` is no wrapper.
pub open spec fn wrapper_inner(t: TypeExprV) -> Option<TypeExprV> {
    if sole_path_type_arg(t, singleton_name()) is Some {
        sole_path_type_arg(t, singleton_name())
    } else {
        match sole_path_type_arg(t, arc_name()) {
            Option::Some(m) => sole_path_type_arg(m, mutex_name()),
            Option::None => Option::None,
        }
    }
}

/// The type a dependency with declared type `t` requests from the container:
/// the wrapped inner type when `t` is a recognised wrapper, else `t` itself.
pub open spec fn classified_type(t: TypeExprV) -> TypeExprV {
    match wrapper_inner(t) {
        Option::Some(inner) => inner,
        Option::None => t,
    }
}

/// The scope a dependency with declared type `t` is requested under.
pub open spec fn classified_scope(t: TypeExprV) -> Scope {
    match wrapper_inner(t) {
        Option::Some(_) => Scope::Singleton,
        Option::None => Scope::Scoped,
    }
}

/// The three recognised segment names are pairwise distinct, so at most one
/// wrapper rule can fire on a given path.
proof fn lemma_wrapper_names_differ()
    ensures
        singleton_name() != arc_name(),
        singleton_name() != mutex_name(),
        arc_name() != mutex_name(),
{
    reveal_strlit("Singleton");
    reveal_strlit("Arc");
    reveal_strlit("Mutex");
    assert(singleton_name().len() == 9);
    assert(arc_name().len() == 3);
    assert(mutex_name().len() == 5);
}

fn str_eq(a: &String, b: &str) -> (r: bool)
    ensures
        r == (a@ == b@),
{
    *a == String::from_str(b)
}

/// The wrapped inner type of `ty`, when `ty` is `Singleton<T>` or
/// `Arc<Mutex<T>>` with `T` a path type; `None` on every other shape.
pub fn get_singleton_type(ty: &TypeExpr) -> (r: Option<TypeExpr>)
    ensures
        r.deep_view() == wrapper_inner(ty.deep_view()),
{
    proof {
        lemma_wrapper_names_differ();
    }
    match ty {
        TypeExpr::Other => Option::None,
        TypeExpr::Path(p) => {
            if p.qualified_self || p.segments.len() != 1 {
                return Option::None;
            }
            let seg = &p.segments[0];
            proof {
                lemma_views_of_segments(p.segments@);
            }
            if str_eq(&seg.name, "Singleton") {
                // `Singleton<T>`: exactly one angle-bracketed path-type argument
                if let PathArgs::AngleBracketed(args) = &seg.args {
                    if args.len() == 1 {
                        proof {
                            lemma_views_of_generic_args(args@);
                        }
                        if let GenericArg::TypeArg(inner) = &args[0] {
                            if let TypeExpr::Path(_) = &**inner {
                                return Option::Some((**inner).clone());
                            }
                        }
                    }
                }
                return Option::None;
            }
            if str_eq(&seg.name, "Arc") {
                // `Arc<Mutex<T>>`: the sole argument of `Arc` is a
                // single-segment path named `Mutex`, itself with exactly one
                // angle-bracketed path-type argument
                if let PathArgs::AngleBracketed(args) = &seg.args {
                    if args.len() == 1 {
                        proof {
                            lemma_views_of_generic_args(args@);
                        }
                        if let GenericArg::TypeArg(m) = &args[0] {
                            if let TypeExpr::Path(mp) = &**m {
                                if !mp.qualified_self && mp.segments.len() == 1 {
                                    let mseg = &mp.segments[0];
                                    proof {
                                        lemma_views_of_segments(mp.segments@);
                                    }
                                    if str_eq(&mseg.name, "Mutex") {
                                        if let PathArgs::AngleBracketed(margs) = &mseg.args {
                                            if margs.len() == 1 {
                                                proof {
                                                    lemma_views_of_generic_args(margs@);
                                                }
                                                if let GenericArg::TypeArg(inner) = &margs[0] {
                                                    if let TypeExpr::Path(_) = &**inner {
                                                        return Option::Some((**inner).clone());
                                                    }
                                                }
                                            }
                                        }
                                    }
                                }
                            }
                        }
                    }
                }
                return Option::None;
            }
            Option::None
        },
    }
}

/// Classify one field's declared type: the type to request from the container
/// and the scope to request it under. Pure; absence of a wrapper match is not
/// a failure but the default.
pub fn get_type_and_scope(ty: &TypeExpr) -> (r: (TypeExpr, Scope))
    ensures
        r.0.deep_view() == classified_type(ty.deep_view()),
        r.1 == classified_scope(ty.deep_view()),
{
    match get_singleton_type(ty) {
        Option::Some(generic) => (generic, Scope::Singleton),
        Option::None => (ty.clone(), Scope::Scoped),
    }
}

/// Law: a field declared `Singleton<T>` (one path-type argument) is
/// classified as the inner type `T` at `Singleton` scope.
pub proof fn lemma_classify_singleton_wrapper(t: TypeExprV, inner: TypeExprV)
    requires
        sole_path_type_arg(t, singleton_name()) == Option::Some(inner),
    ensures
        classified_type(t) == inner,
        classified_scope(t) == Scope::Singleton,
{
}

/// Law: a field declared `Arc<Mutex<T>>` (each a single-segment path, `T` a
/// path type) is classified as the inner type `T` at `Singleton` scope.
pub proof fn lemma_classify_arc_mutex_wrapper(t: TypeExprV, m: TypeExprV, inner: TypeExprV)
    requires
        sole_path_type_arg(t, arc_name()) == Option::Some(m),
        sole_path_type_arg(m, mutex_name()) == Option::Some(inner),
    ensures
        classified_type(t) == inner,
        classified_scope(t) == Scope::Singleton,
{
    lemma_wrapper_names_differ();
}

/// Law: a path whose classification rules cannot fire because no single
/// segment carries a recognised wrapper name is left unchanged, at `Scoped`
/// scope. This covers plain types (`Foo`), other generic types (`Box<Foo>`,
/// `Vec<Foo>`) and paths of several segments.
pub proof fn lemma_classify_unrecognized_name(p: TypePathV)
    requires
        p.segments.len() == 1 ==> (p.segments[0].name != singleton_name() && p.segments[0].name
            != arc_name()),
    ensures
        classified_type(TypeExprV::Path(p)) == TypeExprV::Path(p),
        classified_scope(TypeExprV::Path(p)) == Scope::Scoped,
{
}

/// Law: a single-segment path without angle-bracketed arguments is left
/// unchanged at `Scoped` scope, whatever its name: a user type literally
/// named `Singleton`, with no generic arguments, is no wrapper.
pub proof fn lemma_classify_without_type_argument(p: TypePathV)
    requires
        p.segments.len() == 1,
        !(p.segments[0].args is AngleBracketed),
    ensures
        classified_type(TypeExprV::Path(p)) == TypeExprV::Path(p),
        classified_scope(TypeExprV::Path(p)) == Scope::Scoped,
{
}

/// Law: a qualified self-type such as `<T as Trait>::Out` is left unchanged
/// at `Scoped` scope, whatever its segments say.
pub proof fn lemma_classify_qualified_self(p: TypePathV)
    requires
        p.qualified_self,
    ensures
        classified_type(TypeExprV::Path(p)) == TypeExprV::Path(p),
        classified_scope(TypeExprV::Path(p)) == Scope::Scoped,
{
}

} // verus!
