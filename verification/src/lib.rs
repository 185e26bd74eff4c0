//! Dependency-resolution-plan generation for a dependency-injection
//! container.
//!
//! Given a model of a type declaration (its name and its fields, each field
//! carrying a declared type expression), this crate classifies every field's
//! caching scope from the shape of its declared type, resolves a collision-free
//! identifier for the injected container parameter, extracts one dependency
//! record per field, and assembles a structured description of the resolution
//! implementation to generate for that type.

pub mod container_ident;
pub mod decimal;
pub mod dependency;
pub mod generated;
pub mod input;
pub mod target;
pub mod type_expr;

pub use target::InjectableTarget;
pub use target::TargetConstructor;
pub use target::parse_derive_injectable;
pub use type_expr::Scope;
pub use type_expr::TypeExpr;
