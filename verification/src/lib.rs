//! Turns a plain function into the declarations of a `yew_functional`
//! function component: a marker type, its `FunctionProvider` impl and a
//! type alias for the component.
//!
//! [`functional_component`] works on source text. [`expand`] works on the
//! syntax as plain values, which [`ItemSyntax::read`] and
//! [`AttrSyntax::read`] take from text with `syn`.

pub mod component;
pub mod diagnostics;
pub mod expand;
pub mod laws;
pub mod reader;
pub mod syntax;
pub mod text;

pub use component::{FunctionalComponent, FunctionalComponentName};
pub use diagnostics::{Diagnostic, ErrorKind, Modifier};
pub use expand::{expand, functional_component, functional_component_impl, render};
pub use syntax::{AttrSyntax, FnSyntax, ItemSyntax, Param, ParamKind};
