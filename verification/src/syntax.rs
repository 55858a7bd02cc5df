//! The syntax of the annotated item and of the attribute's argument, as far
//! as the transformation reads it, held as plain values. Every piece of
//! source text is kept as it was written, token for token.

use vstd::prelude::*;

verus! {

/// A `Result` with both sides taken by their views.
pub open spec fn result_view<T: View, E: View>(r: Result<T, E>) -> Result<T::V, E::V> {
    match r {
        Ok(value) => Ok(value@),
        Err(error) => Err(error@),
    }
}

/// What the type of a parameter looks like.
#[derive(Clone, Debug, PartialEq, Eq)]
pub enum ParamKind {
    /// A method receiver: `self`, `&self`, `&mut self`.
    Receiver,
    /// `pattern: &'lifetime mut elem`, where the lifetime and `mut` may be absent.
    Reference { lifetime: Option<String>, mutable: bool, elem: String },
    /// `pattern: ty` where `ty` is no reference.
    Other { ty: String },
}

pub enum ParamKindView {
    Receiver,
    Reference { lifetime: Option<Seq<char>>, mutable: bool, elem: Seq<char> },
    Other { ty: Seq<char> },
}

impl View for ParamKind {
    type V = ParamKindView;

    open spec fn view(&self) -> ParamKindView {
        match *self {
            ParamKind::Receiver => ParamKindView::Receiver,
            ParamKind::Reference { lifetime, mutable, elem } => ParamKindView::Reference {
                lifetime: match lifetime {
                    Some(l) => Some(l@),
                    None => None,
                },
                mutable,
                elem: elem@,
            },
            ParamKind::Other { ty } => ParamKindView::Other { ty: ty@ },
        }
    }
}

/// One declared parameter: its whole text and the shape of its type.
#[derive(Clone, Debug, PartialEq, Eq)]
pub struct Param {
    pub text: String,
    pub kind: ParamKind,
}

pub struct ParamView {
    pub text: Seq<char>,
    pub kind: ParamKindView,
}

impl View for Param {
    type V = ParamView;

    open spec fn view(&self) -> ParamView {
        ParamView { text: self.text@, kind: self.kind@ }
    }
}

impl DeepView for Param {
    type V = ParamView;

    open spec fn deep_view(&self) -> ParamView {
        self@
    }
}

/// A function definition.
#[derive(Clone, Debug, PartialEq, Eq)]
pub struct FnSyntax {
    /// The attributes on the function, one text each.
    pub attrs: Vec<String>,
    /// The visibility; empty where none is written.
    pub vis: String,
    pub constness: bool,
    pub asyncness: bool,
    /// `extern` with its ABI name, where the function has one.
    pub abi: Option<String>,
    pub name: String,
    /// The generic parameters as written between the angle brackets; empty
    /// where there is none.
    pub generics: String,
    pub params: Vec<Param>,
    /// The declared return type, without the arrow.
    pub output: Option<String>,
    /// The body, braces included.
    pub body: String,
}

pub struct FnSyntaxView {
    pub attrs: Seq<Seq<char>>,
    pub vis: Seq<char>,
    pub constness: bool,
    pub asyncness: bool,
    pub abi: Option<Seq<char>>,
    pub name: Seq<char>,
    pub generics: Seq<char>,
    pub params: Seq<ParamView>,
    pub output: Option<Seq<char>>,
    pub body: Seq<char>,
}

impl View for FnSyntax {
    type V = FnSyntaxView;

    open spec fn view(&self) -> FnSyntaxView {
        FnSyntaxView {
            attrs: self.attrs.deep_view(),
            vis: self.vis@,
            constness: self.constness,
            asyncness: self.asyncness,
            abi: self.abi.deep_view(),
            name: self.name@,
            generics: self.generics@,
            params: self.params.deep_view(),
            output: self.output.deep_view(),
            body: self.body@,
        }
    }
}

/// The annotated item.
#[derive(Clone, Debug, PartialEq, Eq)]
pub enum ItemSyntax {
    Function(FnSyntax),
    /// An item that is no function definition.
    Other,
    /// Text that did not go through the parser as an item, with the reason:
    /// what the parser said of text that is no item, or that the text holds
    /// a literal of a kind that the parser does not know, wherever in it.
    Malformed { message: String },
}

pub enum ItemSyntaxView {
    Function(FnSyntaxView),
    Other,
    Malformed { message: Seq<char> },
}

impl View for ItemSyntax {
    type V = ItemSyntaxView;

    open spec fn view(&self) -> ItemSyntaxView {
        match *self {
            ItemSyntax::Function(f) => ItemSyntaxView::Function(f@),
            ItemSyntax::Other => ItemSyntaxView::Other,
            ItemSyntax::Malformed { message } => ItemSyntaxView::Malformed { message: message@ },
        }
    }
}

/// The argument of the attribute.
#[derive(Clone, Debug, PartialEq, Eq)]
pub enum AttrSyntax {
    /// No token at all.
    Empty,
    /// Exactly one identifier.
    Ident(String),
    /// Anything else, with what the parser said of it.
    Malformed { message: String },
}

pub enum AttrSyntaxView {
    Empty,
    Ident(Seq<char>),
    Malformed { message: Seq<char> },
}

impl View for AttrSyntax {
    type V = AttrSyntaxView;

    open spec fn view(&self) -> AttrSyntaxView {
        match *self {
            AttrSyntax::Empty => AttrSyntaxView::Empty,
            AttrSyntax::Ident(name) => AttrSyntaxView::Ident(name@),
            AttrSyntax::Malformed { message } => AttrSyntaxView::Malformed { message: message@ },
        }
    }
}

} // verus!
