//! The two things the transformation works on: the function that is to
//! become a component, checked against the shape that components have, and
//! the name that the component is to carry.

use crate::diagnostics::{
    diagnostic, expected_reference, Diagnostic, DiagnosticView, ErrorKind, Modifier, ASYNC_TOKEN,
    CONST_TOKEN, MISSING_COMPONENT_NAME, MISSING_RETURN_TYPE, MUT_TOKEN, NOT_A_FUNCTION, NOWHERE,
    NO_ABI, NO_ASYNC, NO_CONST, NO_GENERICS, NO_LIFETIME, NO_MUT, NO_RECEIVER, SPACE,
    TOO_MANY_PARAMETERS,
};
use crate::syntax::{
    result_view, AttrSyntax, AttrSyntaxView, FnSyntax, FnSyntaxView, ItemSyntax, ItemSyntaxView,
    Param, ParamKind, ParamKindView, ParamView,
};
use crate::text::join;
use vstd::prelude::*;

verus! {

/// The parameter that stands in where the function declares none.
pub const UNIT_PARAM: &'static str = "_: &()";

/// The unit type.
pub const UNIT_TYPE: &'static str = "()";

/// A function that has the shape of a component.
#[derive(Clone, Debug, PartialEq, Eq)]
pub struct FunctionalComponent {
    /// The body, braces included, as the function has it.
    pub block: String,
    /// The type that the parameter refers to.
    pub props_type: String,
    /// The one parameter: the function's own, or the one made up for a
    /// function without parameters.
    pub arg: Param,
    pub vis: String,
    pub attrs: Vec<String>,
    /// The function's name.
    pub name: String,
    /// The return type that the function declares.
    pub return_type: String,
}

pub struct FunctionalComponentView {
    pub block: Seq<char>,
    pub props_type: Seq<char>,
    pub arg: ParamView,
    pub vis: Seq<char>,
    pub attrs: Seq<Seq<char>>,
    pub name: Seq<char>,
    pub return_type: Seq<char>,
}

impl View for FunctionalComponent {
    type V = FunctionalComponentView;

    open spec fn view(&self) -> FunctionalComponentView {
        FunctionalComponentView {
            block: self.block@,
            props_type: self.props_type@,
            arg: self.arg@,
            vis: self.vis@,
            attrs: self.attrs.deep_view(),
            name: self.name@,
            return_type: self.return_type@,
        }
    }
}

impl FunctionalComponentView {
    /// The parameter is a shared reference, without a lifetime, to the props
    /// type.
    pub open spec fn well_formed(self) -> bool {
        self.arg.kind == (ParamKindView::Reference {
            lifetime: None,
            mutable: false,
            elem: self.props_type,
        })
    }
}

/// The name that the component is to carry.
#[derive(Clone, Debug, PartialEq, Eq)]
pub struct FunctionalComponentName {
    pub component_name: String,
}

impl View for FunctionalComponentName {
    type V = Seq<char>;

    open spec fn view(&self) -> Seq<char> {
        self.component_name@
    }
}

/// The parameter `_: &()`.
pub open spec fn unit_param() -> ParamView {
    ParamView {
        text: UNIT_PARAM@,
        kind: ParamKindView::Reference { lifetime: None, mutable: false, elem: UNIT_TYPE@ },
    }
}

/// The parameter that the checks and the generated code go by: the first
/// declared one, or `_: &()` where none is declared.
pub open spec fn effective_param(f: FnSyntaxView) -> ParamView {
    if f.params.len() == 0 {
        unit_param()
    } else {
        f.params[0]
    }
}

/// The type that a parameter of reference type refers to.
pub open spec fn referent(param: ParamView) -> Seq<char> {
    match param.kind {
        ParamKindView::Reference { elem, .. } => elem,
        _ => Seq::empty(),
    }
}

/// The text of each parameter.
pub open spec fn param_texts(params: Seq<ParamView>) -> Seq<Seq<char>> {
    Seq::new(params.len(), |i: int| params[i].text)
}

/// The first modifier, in the order generics, `async`, `const`, ABI, that the
/// function carries against the rules, as a diagnostic.
pub open spec fn modifier_rejection(f: FnSyntaxView) -> Option<DiagnosticView> {
    if f.generics.len() > 0 {
        Some(diagnostic(ErrorKind::UnsupportedModifier(Modifier::Generics), NO_GENERICS@, f.generics))
    } else if f.asyncness {
        Some(diagnostic(ErrorKind::UnsupportedModifier(Modifier::Async), NO_ASYNC@, ASYNC_TOKEN@))
    } else if f.constness {
        Some(diagnostic(ErrorKind::UnsupportedModifier(Modifier::Const), NO_CONST@, CONST_TOKEN@))
    } else {
        match f.abi {
            Some(abi) => Some(
                diagnostic(ErrorKind::UnsupportedModifier(Modifier::ExternAbi), NO_ABI@, abi),
            ),
            None => None,
        }
    }
}

/// What is wrong with a parameter as the props parameter, if anything.
pub open spec fn param_rejection(param: ParamView) -> Option<DiagnosticView> {
    match param.kind {
        ParamKindView::Receiver => Some(
            diagnostic(ErrorKind::ReceiverNotAllowed, NO_RECEIVER@, param.text),
        ),
        ParamKindView::Reference { lifetime: Some(lifetime), .. } => Some(
            diagnostic(ErrorKind::InvalidPropsParameter, NO_LIFETIME@, lifetime),
        ),
        ParamKindView::Reference { lifetime: None, mutable, .. } => if mutable {
            Some(diagnostic(ErrorKind::InvalidPropsParameter, NO_MUT@, MUT_TOKEN@))
        } else {
            None
        },
        ParamKindView::Other { ty } => Some(
            diagnostic(ErrorKind::InvalidPropsParameter, expected_reference(ty), ty),
        ),
    }
}

/// The diagnostic for parameters beyond the first, if there are any. Its span
/// holds the text of each of them, in order, with a space between
/// neighbours.
pub open spec fn arity_rejection(f: FnSyntaxView) -> Option<DiagnosticView> {
    if f.params.len() > 1 {
        Some(
            diagnostic(
                ErrorKind::TooManyParameters,
                TOO_MANY_PARAMETERS@,
                join(param_texts(f.params.skip(1)), SPACE@),
            ),
        )
    } else {
        None
    }
}

/// The diagnostic for a function without a declared return type.
pub open spec fn output_rejection(f: FnSyntaxView) -> Option<DiagnosticView> {
    if f.output is None {
        Some(diagnostic(ErrorKind::MissingReturnType, MISSING_RETURN_TYPE@, NOWHERE@))
    } else {
        None
    }
}

/// The first rule that the function breaks, as a diagnostic: the modifiers
/// come first, then the props parameter, then the number of parameters,
/// then the return type. `None` where the function has the shape of a
/// component.
pub open spec fn rejection(f: FnSyntaxView) -> Option<DiagnosticView> {
    if modifier_rejection(f) is Some {
        modifier_rejection(f)
    } else if param_rejection(effective_param(f)) is Some {
        param_rejection(effective_param(f))
    } else if arity_rejection(f) is Some {
        arity_rejection(f)
    } else {
        output_rejection(f)
    }
}

/// The component that a function of the right shape is.
pub open spec fn component_of(f: FnSyntaxView) -> FunctionalComponentView {
    FunctionalComponentView {
        block: f.body,
        props_type: referent(effective_param(f)),
        arg: effective_param(f),
        vis: f.vis,
        attrs: f.attrs,
        name: f.name,
        return_type: match f.output {
            Some(ty) => ty,
            None => Seq::empty(),
        },
    }
}

/// What the extraction makes of an item: the component, or the diagnostic
/// for the first rule broken.
pub open spec fn extracted(item: ItemSyntaxView) -> Result<FunctionalComponentView, DiagnosticView> {
    match item {
        ItemSyntaxView::Malformed { message } => Err(
            diagnostic(ErrorKind::Syntax, message, NOWHERE@),
        ),
        ItemSyntaxView::Other => Err(diagnostic(ErrorKind::NotAFunction, NOT_A_FUNCTION@, NOWHERE@)),
        ItemSyntaxView::Function(f) => match rejection(f) {
            Some(d) => Err(d),
            None => Ok(component_of(f)),
        },
    }
}

/// What the name resolution makes of the attribute's argument.
pub open spec fn resolved(attr: AttrSyntaxView) -> Result<Seq<char>, DiagnosticView> {
    match attr {
        AttrSyntaxView::Empty => Err(
            diagnostic(ErrorKind::MissingComponentName, MISSING_COMPONENT_NAME@, NOWHERE@),
        ),
        AttrSyntaxView::Ident(name) => Ok(name),
        AttrSyntaxView::Malformed { message } => Err(
            diagnostic(ErrorKind::Syntax, message, NOWHERE@),
        ),
    }
}

/// The texts of the parameters from index `from` on, with a space between
/// neighbours.
fn join_param_texts(params: &Vec<Param>, from: usize) -> (out: String)
    requires
        from <= params.len(),
    ensures
        out@ == join(param_texts(params.deep_view().skip(from as int)), SPACE@),
{
    let ghost texts = param_texts(params.deep_view().skip(from as int));
    let mut out = String::new();
    let mut i: usize = from;
    while i < params.len()
        invariant
            from <= i <= params.len(),
            texts == param_texts(params.deep_view().skip(from as int)),
            out@ == join(texts.take(i - from), SPACE@),
        decreases params.len() - i,
    {
        let ghost before = texts.take(i - from);
        let ghost after = texts.take(i - from + 1);
        assert(after.drop_last() == before);
        assert(after.last() == params[i as int].text@);
        if i > from {
            out.append(SPACE);
        }
        out.append(params[i].text.as_str());
        assert(out@ == join(after, SPACE@)) by {
            if i == from {
                assert(before.len() == 0);
                assert(out@ == params[i as int].text@);
            }
        }
        i += 1;
    }
    assert(texts.take(params.len() - from) == texts);
    out
}

/// What is wrong with a parameter as the props parameter, if anything.
fn check_param(param: &Param) -> (r: Option<Diagnostic>)
    ensures
        r.deep_view() == param_rejection(param@),
{
    match &param.kind {
        ParamKind::Receiver => Some(
            Diagnostic::new(ErrorKind::ReceiverNotAllowed, NO_RECEIVER, param.text.as_str()),
        ),
        ParamKind::Reference { lifetime, mutable, elem } => match lifetime {
            Some(lifetime) => Some(
                Diagnostic::new(ErrorKind::InvalidPropsParameter, NO_LIFETIME, lifetime.as_str()),
            ),
            None => if *mutable {
                Some(Diagnostic::new(ErrorKind::InvalidPropsParameter, NO_MUT, MUT_TOKEN))
            } else {
                None
            },
        },
        ParamKind::Other { ty } => Some(Diagnostic::expected_reference(ty.as_str())),
    }
}

impl FunctionalComponent {
    /// Checks the annotated item against the shape of a component: a function
    /// without generic parameters, `async`, `const` or an ABI, with at most
    /// one parameter, whose type is a shared reference without a lifetime,
    /// and with a declared return type. Gives the component, or the
    /// diagnostic for the first rule broken.
    pub fn parse(item: ItemSyntax) -> (r: Result<FunctionalComponent, Diagnostic>)
        ensures
            result_view(r) == extracted(item@),
            r matches Ok(component) ==> component@.well_formed(),
    {
        let f = match item {
            ItemSyntax::Malformed { message } => {
                return Err(
                    Diagnostic { kind: ErrorKind::Syntax, message, span: String::from_str(NOWHERE) },
                );
            },
            ItemSyntax::Other => {
                return Err(Diagnostic::new(ErrorKind::NotAFunction, NOT_A_FUNCTION, NOWHERE));
            },
            ItemSyntax::Function(f) => f,
        };
        let FnSyntax { attrs, vis, constness, asyncness, abi, name, generics, params, output, body } =
            f;
        let mut params = params;
        if !generics.as_str().is_empty() {
            return Err(
                Diagnostic::new(
                    ErrorKind::UnsupportedModifier(Modifier::Generics),
                    NO_GENERICS,
                    generics.as_str(),
                ),
            );
        }
        if asyncness {
            return Err(
                Diagnostic::new(ErrorKind::UnsupportedModifier(Modifier::Async), NO_ASYNC, ASYNC_TOKEN),
            );
        }
        if constness {
            return Err(
                Diagnostic::new(ErrorKind::UnsupportedModifier(Modifier::Const), NO_CONST, CONST_TOKEN),
            );
        }
        if let Some(abi) = &abi {
            return Err(
                Diagnostic::new(
                    ErrorKind::UnsupportedModifier(Modifier::ExternAbi),
                    NO_ABI,
                    abi.as_str(),
                ),
            );
        }
        if params.len() > 0 {
            if let Some(d) = check_param(&params[0]) {
                return Err(d);
            }
        }
        if params.len() > 1 {
            let span = join_param_texts(&params, 1);
            return Err(
                Diagnostic::new(ErrorKind::TooManyParameters, TOO_MANY_PARAMETERS, span.as_str()),
            );
        }
        let return_type = match output {
            None => {
                return Err(
                    Diagnostic::new(ErrorKind::MissingReturnType, MISSING_RETURN_TYPE, NOWHERE),
                );
            },
            Some(ty) => ty,
        };
        let arg = match params.pop() {
            Some(param) => param,
            None => Param {
                text: String::from_str(UNIT_PARAM),
                kind: ParamKind::Reference {
                    lifetime: None,
                    mutable: false,
                    elem: String::from_str(UNIT_TYPE),
                },
            },
        };
        let props_type = match &arg.kind {
            ParamKind::Reference { elem, .. } => elem.clone(),
            _ => String::new(),
        };
        Ok(FunctionalComponent { block: body, props_type, arg, vis, attrs, name, return_type })
    }
}

impl FunctionalComponentName {
    /// Takes the component's name from the attribute's argument: exactly one
    /// identifier. An empty argument and one that is no identifier give a
    /// diagnostic each.
    pub fn parse(attr: AttrSyntax) -> (r: Result<FunctionalComponentName, Diagnostic>)
        ensures
            result_view(r) == resolved(attr@),
    {
        match attr {
            AttrSyntax::Empty => Err(
                Diagnostic::new(ErrorKind::MissingComponentName, MISSING_COMPONENT_NAME, NOWHERE),
            ),
            AttrSyntax::Ident(component_name) => Ok(FunctionalComponentName { component_name }),
            AttrSyntax::Malformed { message } => Err(
                Diagnostic { kind: ErrorKind::Syntax, message, span: String::from_str(NOWHERE) },
            ),
        }
    }
}

} // verus!
