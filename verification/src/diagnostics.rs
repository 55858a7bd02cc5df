//! Diagnostics: what went wrong, in words, and where.

use vstd::prelude::*;

verus! {

/// A function modifier that a component function must not carry.
#[derive(Clone, Copy, Debug, PartialEq, Eq, Structural)]
pub enum Modifier {
    Generics,
    Async,
    Const,
    ExternAbi,
}

/// The kinds of diagnostics.
#[derive(Clone, Copy, Debug, PartialEq, Eq, Structural)]
pub enum ErrorKind {
    /// The source text is not what the grammar of Rust asks for.
    Syntax,
    /// The annotated item is no function definition.
    NotAFunction,
    /// The function carries a modifier that components cannot have.
    UnsupportedModifier(Modifier),
    /// The first parameter is a method receiver.
    ReceiverNotAllowed,
    /// The first parameter is no plain shared reference.
    InvalidPropsParameter,
    /// More than one parameter is declared.
    TooManyParameters,
    /// No return type is declared.
    MissingReturnType,
    /// The attribute has no argument.
    MissingComponentName,
    /// The function and the component have the same name.
    NameCollision,
}

pub const NOT_A_FUNCTION: &'static str =
    "`functional_component` attribute can only be applied to functions";

pub const NO_GENERICS: &'static str = "functional components can't contain generics";

pub const NO_ASYNC: &'static str = "functional components can't be async";

pub const NO_CONST: &'static str = "const functions can't be functional components";

pub const NO_ABI: &'static str = "extern functions can't be functional components";

pub const NO_LIFETIME: &'static str = "reference must not have life time";

pub const NO_MUT: &'static str = "reference must not be mutable";

pub const EXPECTED_REFERENCE_HEAD: &'static str =
    "expected a reference to a `Properties` type (try: `&";

pub const EXPECTED_REFERENCE_TAIL: &'static str = "`)";

pub const NO_RECEIVER: &'static str = "functional components can't accept a receiver";

pub const TOO_MANY_PARAMETERS: &'static str =
    "functional components can accept at most one parameter for the props";

pub const MISSING_RETURN_TYPE: &'static str = "functional components must return `yew::Html`";

pub const MISSING_COMPONENT_NAME: &'static str = "expected identifier for the component";

pub const NAME_COLLISION: &'static str =
    "The function name and component name must not be the same";

/// The text of the `async` keyword.
pub const ASYNC_TOKEN: &'static str = "async";

/// The text of the `const` keyword.
pub const CONST_TOKEN: &'static str = "const";

/// The text of the `mut` keyword.
pub const MUT_TOKEN: &'static str = "mut";

/// The space that separates the pieces of a span.
pub const SPACE: &'static str = " ";

/// The span of a diagnostic that points at no token in particular.
pub const NOWHERE: &'static str = "";

/// What stands between the message and the span in a diagnostic's text.
pub const SPAN_MARK: &'static str = ": ";

/// One diagnostic: its kind, its message, and its span, which is the source
/// text of the tokens it points at (empty where it points at the invocation
/// as a whole).
#[derive(Clone, Debug, PartialEq, Eq)]
pub struct Diagnostic {
    pub kind: ErrorKind,
    pub message: String,
    pub span: String,
}

/// The mathematical content of a [`Diagnostic`].
pub struct DiagnosticView {
    pub kind: ErrorKind,
    pub message: Seq<char>,
    pub span: Seq<char>,
}

impl View for Diagnostic {
    type V = DiagnosticView;

    open spec fn view(&self) -> DiagnosticView {
        DiagnosticView { kind: self.kind, message: self.message@, span: self.span@ }
    }
}

impl DeepView for Diagnostic {
    type V = DiagnosticView;

    open spec fn deep_view(&self) -> DiagnosticView {
        self@
    }
}

/// The diagnostic with these three parts.
pub open spec fn diagnostic(kind: ErrorKind, message: Seq<char>, span: Seq<char>) -> DiagnosticView {
    DiagnosticView { kind, message, span }
}

/// The message that asks for a reference to `ty` in place of `ty`.
pub open spec fn expected_reference(ty: Seq<char>) -> Seq<char> {
    EXPECTED_REFERENCE_HEAD@ + ty + EXPECTED_REFERENCE_TAIL@
}

/// The text of a diagnostic: its message, followed by its span where it has
/// one.
pub open spec fn diagnostic_text(d: DiagnosticView) -> Seq<char> {
    if d.span.len() == 0 {
        d.message
    } else {
        d.message + SPAN_MARK@ + d.span
    }
}

/// What `syn` prints for a `compile_error!` invocation that carries `message`.
pub uninterp spec fn compile_error_text(message: Seq<char>) -> Seq<char>;

/// Calls `syn::Error::new` with the call-site span and the message, then
/// `syn::Error::to_compile_error`, and prints the tokens. The contract gives
/// the printed text its name and claims no more.
/// Before the call it calls `proc_macro2::fallback::force`, which has
/// `proc-macro2` lex and print by itself for the rest of the process.
#[verifier::external_body]
fn print_compile_error(message: &str) -> (text: String)
    ensures
        text@ == compile_error_text(message@),
{
    proc_macro2::fallback::force();
    syn::Error::new(proc_macro2::Span::call_site(), message).to_compile_error().to_string()
}

impl Diagnostic {
    /// A diagnostic of the given kind with the given message and span.
    pub fn new(kind: ErrorKind, message: &str, span: &str) -> (d: Diagnostic)
        ensures
            d@ == diagnostic(kind, message@, span@),
    {
        Diagnostic { kind, message: String::from_str(message), span: String::from_str(span) }
    }

    /// The diagnostic that asks for a reference to `ty` in place of `ty`.
    pub fn expected_reference(ty: &str) -> (d: Diagnostic)
        ensures
            d@ == diagnostic(ErrorKind::InvalidPropsParameter, expected_reference(ty@), ty@),
    {
        let mut message = String::from_str(EXPECTED_REFERENCE_HEAD);
        message.append(ty);
        message.append(EXPECTED_REFERENCE_TAIL);
        Diagnostic { kind: ErrorKind::InvalidPropsParameter, message, span: String::from_str(ty) }
    }

    /// The text of the diagnostic: its message, followed by its span where
    /// it has one.
    pub fn text(&self) -> (text: String)
        ensures
            text@ == diagnostic_text(self@),
    {
        let mut text = self.message.clone();
        if !self.span.as_str().is_empty() {
            text.append(SPAN_MARK);
            text.append(self.span.as_str());
        }
        text
    }

    /// The source text of a `compile_error!` invocation that reports this
    /// diagnostic's text.
    pub fn to_compile_error(&self) -> (text: String)
        ensures
            text@ == compile_error_text(diagnostic_text(self@)),
    {
        let text = self.text();
        print_compile_error(text.as_str())
    }
}

} // verus!
