//! The generated declarations, and the transformation from end to end.

use crate::component::{
    extracted, resolved, FunctionalComponent, FunctionalComponentName, FunctionalComponentView,
};
use crate::diagnostics::{
    compile_error_text, diagnostic, diagnostic_text, Diagnostic, DiagnosticView, ErrorKind,
    NAME_COLLISION, SPACE,
};
use crate::reader::{attr_syntax, item_syntax};
use crate::syntax::{result_view, AttrSyntax, AttrSyntaxView, ItemSyntax, ItemSyntaxView};
use vstd::prelude::*;

verus! {

pub const MARKER_HEAD: &'static str = "#[doc(hidden)] #[allow(non_camel_case_types)] ";

pub const STRUCT: &'static str = " struct ";

pub const SEMICOLON: &'static str = ";";

pub const IMPL_HEAD: &'static str = "impl ::yew_functional::FunctionProvider for ";

pub const PROPS_HEAD: &'static str = " { type TProps = ";

pub const RUN_HEAD: &'static str = "; fn run(";

pub const RUN_TAIL: &'static str = ") -> ::yew::html::Html ";

pub const IMPL_TAIL: &'static str = " }";

pub const TYPE: &'static str = " type ";

pub const WRAPPER_HEAD: &'static str = " = ::yew_functional::FunctionComponent<";

pub const WRAPPER_TAIL: &'static str = ">;";

/// The marker type: a hidden unit struct with the function's name and
/// visibility.
pub open spec fn marker_decl(vis: Seq<char>, name: Seq<char>) -> Seq<char> {
    MARKER_HEAD@ + vis + STRUCT@ + name + SEMICOLON@
}

/// The impl of `FunctionProvider` for the marker type: the props type, and
/// `run` with the parameter of the function and with its block, braces and
/// all, as the whole body.
pub open spec fn provider_impl(
    name: Seq<char>,
    props_type: Seq<char>,
    arg: Seq<char>,
    block: Seq<char>,
) -> Seq<char> {
    IMPL_HEAD@ + name + PROPS_HEAD@ + props_type + RUN_HEAD@ + arg + RUN_TAIL@ + block + IMPL_TAIL@
}

/// The attributes, each followed by a space.
pub open spec fn attrs_text(attrs: Seq<Seq<char>>) -> Seq<char>
    decreases attrs.len(),
{
    if attrs.len() == 0 {
        Seq::empty()
    } else {
        attrs_text(attrs.drop_last()) + attrs.last() + SPACE@
    }
}

/// The alias for the component: the function's attributes and visibility,
/// the component's name, and the wrapper type around the marker type.
pub open spec fn alias_decl(
    attrs: Seq<Seq<char>>,
    vis: Seq<char>,
    alias: Seq<char>,
    name: Seq<char>,
) -> Seq<char> {
    attrs_text(attrs) + vis + TYPE@ + alias + WRAPPER_HEAD@ + name + WRAPPER_TAIL@
}

/// The three declarations, with a space between neighbours.
pub open spec fn declarations(alias: Seq<char>, c: FunctionalComponentView) -> Seq<char> {
    marker_decl(c.vis, c.name) + SPACE@ + provider_impl(c.name, c.props_type, c.arg.text, c.block)
        + SPACE@ + alias_decl(c.attrs, c.vis, alias, c.name)
}

/// The diagnostic for a component that is named as its function is. Its span
/// holds the component's name and the function's, with a space between.
pub open spec fn collision(alias: Seq<char>, name: Seq<char>) -> DiagnosticView {
    diagnostic(ErrorKind::NameCollision, NAME_COLLISION@, alias + SPACE@ + name)
}

/// What is generated for a component under a name: the declarations, or the
/// diagnostic where the two names are the same.
pub open spec fn generated(alias: Seq<char>, c: FunctionalComponentView) -> Result<
    Seq<char>,
    DiagnosticView,
> {
    if c.name == alias {
        Err(collision(alias, c.name))
    } else {
        Ok(declarations(alias, c))
    }
}

/// The transformation on the attribute's argument and the annotated item. The
/// item is looked at first: where both are at fault, the diagnostic is the
/// item's.
pub open spec fn expanded(attr: AttrSyntaxView, item: ItemSyntaxView) -> Result<
    Seq<char>,
    DiagnosticView,
> {
    match extracted(item) {
        Err(d) => Err(d),
        Ok(component) => match resolved(attr) {
            Err(d) => Err(d),
            Ok(alias) => generated(alias, component),
        },
    }
}

/// The text that stands for an outcome: the declarations, or a
/// `compile_error!` invocation with the diagnostic's text, span included.
pub open spec fn rendered(outcome: Result<Seq<char>, DiagnosticView>) -> Seq<char> {
    match outcome {
        Ok(code) => code,
        Err(d) => compile_error_text(diagnostic_text(d)),
    }
}

fn marker_text(vis: &str, name: &str) -> (out: String)
    ensures
        out@ == marker_decl(vis@, name@),
{
    let mut out = String::from_str(MARKER_HEAD);
    out.append(vis);
    out.append(STRUCT);
    out.append(name);
    out.append(SEMICOLON);
    out
}

fn provider_text(name: &str, props_type: &str, arg: &str, block: &str) -> (out: String)
    ensures
        out@ == provider_impl(name@, props_type@, arg@, block@),
{
    let mut out = String::from_str(IMPL_HEAD);
    out.append(name);
    out.append(PROPS_HEAD);
    out.append(props_type);
    out.append(RUN_HEAD);
    out.append(arg);
    out.append(RUN_TAIL);
    out.append(block);
    out.append(IMPL_TAIL);
    out
}

fn alias_text(attrs: &Vec<String>, vis: &str, alias: &str, name: &str) -> (out: String)
    ensures
        out@ == alias_decl(attrs.deep_view(), vis@, alias@, name@),
{
    let mut out = String::new();
    let mut i: usize = 0;
    assert(attrs.deep_view().take(0) =~= Seq::empty());
    while i < attrs.len()
        invariant
            i <= attrs.len(),
            out@ == attrs_text(attrs.deep_view().take(i as int)),
        decreases attrs.len() - i,
    {
        let ghost after = attrs.deep_view().take(i + 1);
        assert(after.drop_last() == attrs.deep_view().take(i as int));
        assert(after.last() == attrs[i as int]@);
        out.append(attrs[i].as_str());
        out.append(SPACE);
        i += 1;
    }
    assert(attrs.deep_view().take(attrs.len() as int) == attrs.deep_view());
    out.append(vis);
    out.append(TYPE);
    out.append(alias);
    out.append(WRAPPER_HEAD);
    out.append(name);
    out.append(WRAPPER_TAIL);
    out
}

/// Generates the declarations for `component` under the name `name`: the
/// marker type, its `FunctionProvider` impl, and the alias. Where the
/// component's name is the function's, gives the diagnostic instead.
pub fn functional_component_impl(
    name: FunctionalComponentName,
    component: FunctionalComponent,
) -> (r: Result<String, Diagnostic>)
    ensures
        result_view(r) == generated(name@, component@),
{
    let alias = name.component_name;
    if component.name == alias {
        let mut span = alias;
        span.append(SPACE);
        span.append(component.name.as_str());
        return Err(Diagnostic::new(ErrorKind::NameCollision, NAME_COLLISION, span.as_str()));
    }
    let mut out = marker_text(component.vis.as_str(), component.name.as_str());
    out.append(SPACE);
    let provider = provider_text(
        component.name.as_str(),
        component.props_type.as_str(),
        component.arg.text.as_str(),
        component.block.as_str(),
    );
    out.append(provider.as_str());
    out.append(SPACE);
    let alias_decl = alias_text(
        &component.attrs,
        component.vis.as_str(),
        alias.as_str(),
        component.name.as_str(),
    );
    out.append(alias_decl.as_str());
    Ok(out)
}

/// Runs the transformation on the attribute's argument and the annotated
/// item: checks the item, takes the name, and generates the declarations.
/// The first failure is the outcome.
pub fn expand(attr: AttrSyntax, item: ItemSyntax) -> (r: Result<String, Diagnostic>)
    ensures
        result_view(r) == expanded(attr@, item@),
{
    let component = match FunctionalComponent::parse(item) {
        Ok(component) => component,
        Err(d) => {
            return Err(d);
        },
    };
    let name = match FunctionalComponentName::parse(attr) {
        Ok(name) => name,
        Err(d) => {
            return Err(d);
        },
    };
    functional_component_impl(name, component)
}

/// The text that stands for an outcome: the declarations, or a
/// `compile_error!` invocation with the diagnostic's text, span included.
pub fn render(outcome: Result<String, Diagnostic>) -> (out: String)
    ensures
        out@ == rendered(result_view(outcome)),
{
    match outcome {
        Ok(code) => code,
        Err(d) => d.to_compile_error(),
    }
}

/// Transforms the function in `item` into the declarations of the component
/// that the attribute's argument `attr` names. Both are source text, and so
/// is the result: the declarations, or a `compile_error!` invocation with
/// the text of the first failure.
pub fn functional_component(attr: &str, item: &str) -> (out: String)
    ensures
        out@ == rendered(expanded(attr_syntax(attr@), item_syntax(item@))),
{
    let item = ItemSyntax::read(item);
    let attr = AttrSyntax::read(attr);
    render(expand(attr, item))
}

} // verus!
