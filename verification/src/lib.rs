//! Rendering of C-family declarator strings from an abstract description of
//! a type.
//!
//! The heart of the crate is a recursive, mode-parameterized renderer that
//! turns one [`type_ref::TypeRef`] node into a declarator string, handling
//! const placement, reference/pointer collapse at ABI boundaries, array and
//! function-pointer declarator grammar, and template argument lists.  A small
//! integer rectangle type with the usual constructors and queries rounds out
//! the crate.

pub mod props;
pub mod rect;
pub mod renderer;
pub mod text;
pub mod type_ref;
