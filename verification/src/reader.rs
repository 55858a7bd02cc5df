//! Reading source text with `syn`. Each reader hands one piece of text to the
//! parser and gives back what the parser found, as plain values. The
//! signature and the parameters inside an item come back as text, as
//! `proc-macro2` prints them, and are parsed again by the next reader: what a
//! function is taken to be rests on the printed text parsing to what the
//! parser saw in the item.
//!
//! Nothing here is proved of the lexer and the parser. What they make of a
//! text has a name, a function of the text alone. To keep it so, every
//! reader first calls `proc_macro2::fallback::force`: from then on, and for
//! the rest of the process, `proc-macro2` lexes and prints by itself, inside
//! a macro expansion too, where it would else ask the compiler. Where
//! `proc-macro2` is built without its `proc-macro` feature, as this crate
//! builds it, the call does nothing.
//!
//! The parser ends the process on a literal token of a kind it does not
//! know. So a text goes to it only after its tokens were lexed and each
//! literal among them, at any depth, was found to be of a known kind; a text
//! with another literal anywhere counts as malformed, also where the parser
//! would not have looked at the literal, as inside a macro invocation. The
//! parser also recurses on nested syntax; text nested deeper than the stack
//! allows ends the process, as running out of memory does.

use crate::syntax::{
    result_view, AttrSyntax, AttrSyntaxView, FnSyntax, FnSyntaxView, ItemSyntax, ItemSyntaxView,
    Param, ParamKind, ParamKindView, ParamView,
};
use proc_macro2::{TokenStream, TokenTree};
use quote::ToTokens;
use std::str::FromStr;
use vstd::prelude::*;

verus! {

/// A token tree as the lexer gives it: a delimited group with the trees
/// inside it, a literal with its text, or an identifier or punctuation mark.
#[derive(Debug)]
pub enum TokenText {
    Group(Vec<TokenText>),
    Literal(String),
    Other,
}

/// An item, its signature still as text.
pub enum ItemText {
    Function { attrs: Vec<String>, vis: String, sig: String, body: String },
    Other,
    Malformed { message: String },
}

pub enum ItemTextView {
    Function { attrs: Seq<Seq<char>>, vis: Seq<char>, sig: Seq<char>, body: Seq<char> },
    Other,
    Malformed { message: Seq<char> },
}

impl View for ItemText {
    type V = ItemTextView;

    open spec fn view(&self) -> ItemTextView {
        match *self {
            ItemText::Function { attrs, vis, sig, body } => ItemTextView::Function {
                attrs: attrs.deep_view(),
                vis: vis@,
                sig: sig@,
                body: body@,
            },
            ItemText::Other => ItemTextView::Other,
            ItemText::Malformed { message } => ItemTextView::Malformed { message: message@ },
        }
    }
}

/// A function's signature, its parameters still as text.
pub struct SignatureText {
    pub constness: bool,
    pub asyncness: bool,
    pub abi: Option<String>,
    pub name: String,
    pub generics: String,
    pub inputs: Vec<String>,
    pub output: Option<String>,
}

pub struct SignatureTextView {
    pub constness: bool,
    pub asyncness: bool,
    pub abi: Option<Seq<char>>,
    pub name: Seq<char>,
    pub generics: Seq<char>,
    pub inputs: Seq<Seq<char>>,
    pub output: Option<Seq<char>>,
}

impl View for SignatureText {
    type V = SignatureTextView;

    open spec fn view(&self) -> SignatureTextView {
        SignatureTextView {
            constness: self.constness,
            asyncness: self.asyncness,
            abi: self.abi.deep_view(),
            name: self.name@,
            generics: self.generics@,
            inputs: self.inputs.deep_view(),
            output: self.output.deep_view(),
        }
    }
}

/// Whether the lexer finds no token in the text; `None` where the text does
/// not lex.
pub uninterp spec fn lexed_empty(src: Seq<char>) -> Option<bool>;

/// The token trees that the lexer finds in the text; `None` where the text
/// does not lex.
pub uninterp spec fn lexed_tokens(src: Seq<char>) -> Option<Seq<TokenText>>;

/// The identifier that `syn` reads from the text, or its complaint.
pub uninterp spec fn parsed_ident(src: Seq<char>) -> Result<Seq<char>, Seq<char>>;

/// What `syn` makes of an item's text.
pub uninterp spec fn parsed_item(src: Seq<char>) -> ItemTextView;

/// What `syn` makes of a signature's text, or its complaint.
pub uninterp spec fn parsed_signature(src: Seq<char>) -> Result<SignatureTextView, Seq<char>>;

/// What `syn` makes of a parameter's text, or its complaint.
pub uninterp spec fn parsed_param(src: Seq<char>) -> Result<ParamKindView, Seq<char>>;

/// Calls `proc_macro2::TokenStream::from_str` and, where the text lexes,
/// `TokenStream::is_empty`. The contract gives the answer its name and
/// claims no more.
/// Before the call it switches `proc-macro2` to its own lexer, as the
/// module's text says.
#[verifier::external_body]
fn lex_is_empty(src: &str) -> (empty: Option<bool>)
    ensures
        empty == lexed_empty(src@),
{
    proc_macro2::fallback::force();
    match TokenStream::from_str(src) {
        Ok(tokens) => Some(tokens.is_empty()),
        Err(_) => None,
    }
}

/// Calls `proc_macro2::TokenStream::from_str` and hands out the token trees
/// one for one: of a `Group` the trees of its `stream`, of a `Literal` the
/// text that `to_string` prints. The contract gives the trees their name and
/// claims no more.
/// Before the call it switches `proc-macro2` to its own lexer, as the
/// module's text says.
#[verifier::external_body]
fn lex_tokens(src: &str) -> (tokens: Option<Vec<TokenText>>)
    ensures
        match tokens {
            Some(trees) => lexed_tokens(src@) == Some(trees@),
            None => lexed_tokens(src@) is None,
        },
{
    proc_macro2::fallback::force();
    let mut open = vec![(TokenStream::from_str(src).ok()?.into_iter(), vec![])];
    loop {
        let (trees, done) = open.last_mut()?;
        match trees.next() {
            Some(TokenTree::Group(g)) => open.push((g.stream().into_iter(), vec![])),
            Some(TokenTree::Literal(l)) => done.push(TokenText::Literal(l.to_string())),
            Some(_) => done.push(TokenText::Other),
            None => match (open.pop()?.1, open.last_mut()) {
                (inner, Some((_, outer))) => outer.push(TokenText::Group(inner)),
                (inner, None) => return Some(inner),
            },
        }
    }
}

/// Calls `syn::parse_str` for a `syn::Ident`: the text must hold exactly one
/// identifier. Gives the identifier as text, or the parser's message. The
/// contract gives the outcome its name and claims no more.
/// Before the call it switches `proc-macro2` to its own lexer, as the
/// module's text says.
#[verifier::external_body]
fn parse_ident(src: &str) -> (r: Result<String, String>)
    ensures
        result_view(r) == parsed_ident(src@),
{
    proc_macro2::fallback::force();
    match syn::parse_str::<syn::Ident>(src) {
        Ok(ident) => Ok(ident.to_string()),
        Err(error) => Err(error.to_string()),
    }
}

/// Calls `syn::parse_str` for a `syn::Item`. Of a function it gives the text
/// of each attribute, of the visibility, of the signature and of the body, as
/// `to_token_stream` prints them; of a failure, the parser's message. The
/// parser panics on a literal whose beginning it does not know: such text is
/// left out. The contract gives the outcome its name and claims no more.
/// Before the call it switches `proc-macro2` to its own lexer, as the
/// module's text says.
#[verifier::external_body]
fn parse_item(src: &str) -> (item: ItemText)
    requires
        tokens_known(lexed_tokens(src@)),
    ensures
        item@ == parsed_item(src@),
{
    proc_macro2::fallback::force();
    match syn::parse_str::<syn::Item>(src) {
        Ok(syn::Item::Fn(f)) => ItemText::Function {
            attrs: f.attrs.iter().map(|a| a.to_token_stream().to_string()).collect(),
            vis: f.vis.to_token_stream().to_string(),
            sig: f.sig.to_token_stream().to_string(),
            body: f.block.to_token_stream().to_string(),
        },
        Ok(_) => ItemText::Other,
        Err(error) => ItemText::Malformed { message: error.to_string() },
    }
}

/// Calls `syn::parse_str` for a `syn::Signature`. Gives whether `const` and
/// `async` are there, and the text of the ABI, of the name, of the generic
/// parameters, of each parameter and of the return type, as `to_token_stream`
/// prints them; of a failure, the parser's message. The parser panics on a
/// literal whose beginning it does not know: such text is left out. The
/// contract gives the outcome its name and claims no more.
/// Before the call it switches `proc-macro2` to its own lexer, as the
/// module's text says.
#[verifier::external_body]
fn parse_signature(src: &str) -> (r: Result<SignatureText, String>)
    requires
        tokens_known(lexed_tokens(src@)),
    ensures
        result_view(r) == parsed_signature(src@),
{
    proc_macro2::fallback::force();
    let sig = syn::parse_str::<syn::Signature>(src).map_err(|e| e.to_string())?;
    Ok(SignatureText {
        constness: sig.constness.is_some(),
        asyncness: sig.asyncness.is_some(),
        abi: sig.abi.as_ref().map(|a| a.to_token_stream().to_string()),
        name: sig.ident.to_string(),
        generics: sig.generics.params.to_token_stream().to_string(),
        inputs: sig.inputs.iter().map(|p| p.to_token_stream().to_string()).collect(),
        output: match &sig.output {
            syn::ReturnType::Default => None,
            syn::ReturnType::Type(_, ty) => Some(ty.to_token_stream().to_string()),
        },
    })
}

/// Calls `syn::parse_str` for a `syn::FnArg` and tells a receiver, a
/// parameter whose type is a reference and any other parameter apart. Of a
/// reference it gives the lifetime, whether `mut` is there, and the text of
/// the type referred to; of another type its text; of a failure, the parser's
/// message. The parser panics on a literal whose beginning it does not know:
/// such text is left out. The contract gives the outcome its name and claims
/// no more.
/// Before the call it switches `proc-macro2` to its own lexer, as the
/// module's text says.
#[verifier::external_body]
fn parse_param(src: &str) -> (r: Result<ParamKind, String>)
    requires
        tokens_known(lexed_tokens(src@)),
    ensures
        result_view(r) == parsed_param(src@),
{
    proc_macro2::fallback::force();
    match syn::parse_str::<syn::FnArg>(src) {
        Ok(syn::FnArg::Receiver(_)) => Ok(ParamKind::Receiver),
        Ok(syn::FnArg::Typed(typed)) => Ok(match *typed.ty {
            syn::Type::Reference(r) => ParamKind::Reference {
                lifetime: r.lifetime.map(|l| l.to_string()),
                mutable: r.mutability.is_some(),
                elem: r.elem.to_token_stream().to_string(),
            },
            ty => ParamKind::Other { ty: ty.to_token_stream().to_string() },
        }),
        Err(error) => Err(error.to_string()),
    }
}

/// The attribute's argument, from what the lexer and the parser said of it:
/// empty where the lexer found no token, else what the parser made of it.
pub open spec fn attr_syntax_from(
    empty: Option<bool>,
    ident: Result<Seq<char>, Seq<char>>,
) -> AttrSyntaxView {
    if empty == Some(true) {
        AttrSyntaxView::Empty
    } else {
        match ident {
            Ok(name) => AttrSyntaxView::Ident(name),
            Err(message) => AttrSyntaxView::Malformed { message },
        }
    }
}

/// The attribute's argument that the text holds.
pub open spec fn attr_syntax(src: Seq<char>) -> AttrSyntaxView {
    attr_syntax_from(lexed_empty(src), parsed_ident(src))
}

/// The message for a text with a literal that the parser does not know.
pub const UNKNOWN_LITERAL: &'static str = "literal of a kind that is not supported";

/// A decimal digit.
pub open spec fn is_digit(c: char) -> bool {
    c == '0' || c == '1' || c == '2' || c == '3' || c == '4' || c == '5' || c == '6' || c == '7'
        || c == '8' || c == '9'
}

/// The text begins as a literal that the parser knows: a string, a raw
/// string, a character, a number, or a byte string, raw byte string or byte.
pub open spec fn known_literal(text: Seq<char>) -> bool {
    text.len() > 0 && (text[0] == '"' || text[0] == 'r' || text[0] == '\'' || is_digit(text[0]) || (
    text[0] == 'b' && text.len() > 1 && (text[1] == '"' || text[1] == 'r' || text[1] == '\'')))
}

/// No literal in the tree, at any depth, is of a kind that the parser does
/// not know.
pub open spec fn tree_known(tree: TokenText) -> bool
    decreases tree,
{
    match tree {
        TokenText::Group(trees) => forall|i: int|
            0 <= i < trees@.len() ==> tree_known(#[trigger] trees@[i]),
        TokenText::Literal(text) => known_literal(text@),
        TokenText::Other => true,
    }
}

/// No literal in the trees, at any depth, is of a kind that the parser does
/// not know.
pub open spec fn trees_known(trees: Seq<TokenText>) -> bool {
    forall|i: int| 0 <= i < trees.len() ==> tree_known(#[trigger] trees[i])
}

/// No literal among the tokens is of a kind that the parser does not know. Of
/// a text that does not lex, which has no tokens, this holds.
pub open spec fn tokens_known(tokens: Option<Seq<TokenText>>) -> bool {
    match tokens {
        None => true,
        Some(trees) => trees_known(trees),
    }
}

/// What is made of an item's text: the parser's outcome, where the parser
/// knows the literals in it.
pub open spec fn item_text(src: Seq<char>) -> ItemTextView {
    if tokens_known(lexed_tokens(src)) {
        parsed_item(src)
    } else {
        ItemTextView::Malformed { message: UNKNOWN_LITERAL@ }
    }
}

/// What is made of a signature's text: the parser's outcome, where the parser
/// knows the literals in it.
pub open spec fn signature_text(src: Seq<char>) -> Result<SignatureTextView, Seq<char>> {
    if tokens_known(lexed_tokens(src)) {
        parsed_signature(src)
    } else {
        Err(UNKNOWN_LITERAL@)
    }
}

/// What is made of a parameter's text: the parser's outcome, where the parser
/// knows the literals in it.
pub open spec fn param_kind(src: Seq<char>) -> Result<ParamKindView, Seq<char>> {
    if tokens_known(lexed_tokens(src)) {
        parsed_param(src)
    } else {
        Err(UNKNOWN_LITERAL@)
    }
}

/// The parameters that the texts hold, or the complaint about the first text
/// that is no parameter.
pub open spec fn params_syntax(inputs: Seq<Seq<char>>) -> Result<Seq<ParamView>, Seq<char>>
    decreases inputs.len(),
{
    if inputs.len() == 0 {
        Ok(Seq::empty())
    } else {
        match params_syntax(inputs.drop_last()) {
            Err(message) => Err(message),
            Ok(params) => match param_kind(inputs.last()) {
                Err(message) => Err(message),
                Ok(kind) => Ok(params.push(ParamView { text: inputs.last(), kind })),
            },
        }
    }
}

/// The function that an item's parts, its signature and its parameters make.
pub open spec fn fn_syntax_from(
    attrs: Seq<Seq<char>>,
    vis: Seq<char>,
    sig: SignatureTextView,
    params: Seq<ParamView>,
    body: Seq<char>,
) -> FnSyntaxView {
    FnSyntaxView {
        attrs,
        vis,
        constness: sig.constness,
        asyncness: sig.asyncness,
        abi: sig.abi,
        name: sig.name,
        generics: sig.generics,
        params,
        output: sig.output,
        body,
    }
}

/// The item that the text holds.
pub open spec fn item_syntax(src: Seq<char>) -> ItemSyntaxView {
    match item_text(src) {
        ItemTextView::Malformed { message } => ItemSyntaxView::Malformed { message },
        ItemTextView::Other => ItemSyntaxView::Other,
        ItemTextView::Function { attrs, vis, sig, body } => match signature_text(sig) {
            Err(message) => ItemSyntaxView::Malformed { message },
            Ok(signature) => match params_syntax(signature.inputs) {
                Err(message) => ItemSyntaxView::Malformed { message },
                Ok(params) => ItemSyntaxView::Function(
                    fn_syntax_from(attrs, vis, signature, params, body),
                ),
            },
        },
    }
}

/// A failure among the first texts is the failure of them all.
proof fn lemma_params_failure_stays(inputs: Seq<Seq<char>>, n: int)
    requires
        0 <= n <= inputs.len(),
        params_syntax(inputs.take(n)) is Err,
    ensures
        params_syntax(inputs) == params_syntax(inputs.take(n)),
    decreases inputs.len() - n,
{
    if n == inputs.len() {
        assert(inputs.take(n) == inputs);
    } else {
        assert(inputs.drop_last().take(n) == inputs.take(n));
        lemma_params_failure_stays(inputs.drop_last(), n);
    }
}

impl AttrSyntax {
    /// The attribute's argument, from what the lexer and the parser said of
    /// its text.
    pub fn from_parts(empty: Option<bool>, ident: Result<String, String>) -> (attr: AttrSyntax)
        ensures
            attr@ == attr_syntax_from(empty, result_view(ident)),
    {
        match empty {
            Some(true) => AttrSyntax::Empty,
            _ => match ident {
                Ok(name) => AttrSyntax::Ident(name),
                Err(message) => AttrSyntax::Malformed { message },
            },
        }
    }

    /// Reads the attribute's argument from its text.
    pub fn read(src: &str) -> (attr: AttrSyntax)
        ensures
            attr@ == attr_syntax(src@),
    {
        let empty = lex_is_empty(src);
        let ident = parse_ident(src);
        AttrSyntax::from_parts(empty, ident)
    }
}

/// Whether `c` is a decimal digit.
fn digit(c: char) -> (r: bool)
    ensures
        r == is_digit(c),
{
    c == '0' || c == '1' || c == '2' || c == '3' || c == '4' || c == '5' || c == '6' || c == '7'
        || c == '8' || c == '9'
}

/// Whether the text begins as a literal that the parser knows.
pub fn is_known_literal(text: &str) -> (known: bool)
    ensures
        known == known_literal(text@),
{
    let len = text.unicode_len();
    if len == 0 {
        return false;
    }
    let first = text.get_char(0);
    if first == '"' || first == 'r' || first == '\'' || digit(first) {
        return true;
    }
    if first == 'b' && len > 1 {
        let second = text.get_char(1);
        return second == '"' || second == 'r' || second == '\'';
    }
    false
}

/// Whether no literal in the tree is of a kind that the parser does not know.
pub fn check_tree(tree: &TokenText) -> (known: bool)
    ensures
        known == tree_known(*tree),
    decreases *tree, 1int,
{
    match tree {
        TokenText::Group(trees) => check_trees(trees),
        TokenText::Literal(text) => is_known_literal(text.as_str()),
        TokenText::Other => true,
    }
}

/// Whether no literal in the trees is of a kind that the parser does not
/// know.
pub fn check_trees(trees: &Vec<TokenText>) -> (known: bool)
    ensures
        known == trees_known(trees@),
    decreases *trees, 0int,
{
    let mut i: usize = 0;
    while i < trees.len()
        invariant
            i <= trees.len(),
            forall|k: int| 0 <= k < i ==> tree_known(#[trigger] trees@[k]),
        decreases trees.len() - i,
    {
        if !check_tree(&trees[i]) {
            assert(!tree_known(trees@[i as int]));
            return false;
        }
        i += 1;
    }
    true
}

/// Whether no literal among the tokens is of a kind that the parser does not
/// know.
pub fn tokens_are_known(tokens: &Option<Vec<TokenText>>) -> (known: bool)
    ensures
        known == tokens_known(
            match *tokens {
                Some(trees) => Some(trees@),
                None => None,
            },
        ),
{
    match tokens {
        None => true,
        Some(trees) => check_trees(trees),
    }
}

/// Reads an item's text, where the parser knows the literals in it.
fn read_item_text(src: &str) -> (item: ItemText)
    ensures
        item@ == item_text(src@),
{
    let tokens = lex_tokens(src);
    if tokens_are_known(&tokens) {
        parse_item(src)
    } else {
        ItemText::Malformed { message: UNKNOWN_LITERAL.to_owned() }
    }
}

/// Reads a signature's text, where the parser knows the literals in it.
fn read_signature(src: &str) -> (r: Result<SignatureText, String>)
    ensures
        result_view(r) == signature_text(src@),
{
    let tokens = lex_tokens(src);
    if tokens_are_known(&tokens) {
        parse_signature(src)
    } else {
        Err(UNKNOWN_LITERAL.to_owned())
    }
}

/// Reads a parameter's text, where the parser knows the literals in it.
fn read_param(src: &str) -> (r: Result<ParamKind, String>)
    ensures
        result_view(r) == param_kind(src@),
{
    let tokens = lex_tokens(src);
    if tokens_are_known(&tokens) {
        parse_param(src)
    } else {
        Err(UNKNOWN_LITERAL.to_owned())
    }
}

/// Reads each parameter's text.
fn read_params(inputs: &Vec<String>) -> (r: Result<Vec<Param>, String>)
    ensures
        match r {
            Ok(params) => params_syntax(inputs.deep_view()) == Ok::<_, Seq<char>>(
                params.deep_view(),
            ),
            Err(message) => params_syntax(inputs.deep_view()) == Err::<Seq<ParamView>, _>(
                message@,
            ),
        },
{
    let mut params: Vec<Param> = Vec::new();
    let mut i: usize = 0;
    assert(params.deep_view() =~= Seq::empty());
    while i < inputs.len()
        invariant
            i <= inputs.len(),
            params_syntax(inputs.deep_view().take(i as int)) == Ok::<_, Seq<char>>(
                params.deep_view(),
            ),
        decreases inputs.len() - i,
    {
        let ghost before = inputs.deep_view().take(i as int);
        let ghost after = inputs.deep_view().take(i + 1);
        let ghost old_params = params.deep_view();
        assert(after.drop_last() == before);
        assert(after.last() == inputs[i as int]@);
        match read_param(inputs[i].as_str()) {
            Err(message) => {
                proof {
                    lemma_params_failure_stays(inputs.deep_view(), i + 1);
                }
                return Err(message);
            },
            Ok(kind) => {
                let param = Param { text: inputs[i].clone(), kind };
                params.push(param);
                assert(params.deep_view() =~= old_params.push(param@));
            },
        }
        i += 1;
    }
    assert(inputs.deep_view().take(inputs.len() as int) == inputs.deep_view());
    Ok(params)
}

impl FnSyntax {
    /// The function that an item's parts, its signature and its parameters
    /// make.
    pub fn from_parts(
        attrs: Vec<String>,
        vis: String,
        signature: SignatureText,
        params: Vec<Param>,
        body: String,
    ) -> (f: FnSyntax)
        ensures
            f@ == fn_syntax_from(attrs.deep_view(), vis@, signature@, params.deep_view(), body@),
    {
        FnSyntax {
            attrs,
            vis,
            constness: signature.constness,
            asyncness: signature.asyncness,
            abi: signature.abi,
            name: signature.name,
            generics: signature.generics,
            params,
            output: signature.output,
            body,
        }
    }
}

impl ItemSyntax {
    /// Reads the annotated item from its text.
    pub fn read(src: &str) -> (item: ItemSyntax)
        ensures
            item@ == item_syntax(src@),
    {
        match read_item_text(src) {
            ItemText::Malformed { message } => ItemSyntax::Malformed { message },
            ItemText::Other => ItemSyntax::Other,
            ItemText::Function { attrs, vis, sig, body } => match read_signature(sig.as_str()) {
                Err(message) => ItemSyntax::Malformed { message },
                Ok(signature) => match read_params(&signature.inputs) {
                    Err(message) => ItemSyntax::Malformed { message },
                    Ok(params) => ItemSyntax::Function(
                        FnSyntax::from_parts(attrs, vis, signature, params, body),
                    ),
                },
            },
        }
    }
}

} // verus!
