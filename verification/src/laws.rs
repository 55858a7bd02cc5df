//! What holds of the transformation on every input.

use crate::component::{extracted, param_texts, rejection, unit_param, UNIT_TYPE};
use crate::diagnostics::{diagnostic_text, DiagnosticView, ErrorKind, Modifier, SPACE, SPAN_MARK};
use crate::expand::{collision, expanded, rendered, IMPL_TAIL, RUN_TAIL};
use crate::reader::{attr_syntax, item_syntax};
use crate::syntax::{AttrSyntaxView, FnSyntaxView, ItemSyntaxView, ParamKindView};
use crate::text::{
    join, lemma_join_holds_each, lemma_occurs_before, lemma_occurs_behind, lemma_occurs_in_itself,
    occurs_in,
};
use vstd::prelude::*;

verus! {

/// The function carries generic parameters, `async`, `const` or an ABI.
pub open spec fn has_modifier(f: FnSyntaxView) -> bool {
    f.generics.len() > 0 || f.asyncness || f.constness || f.abi is Some
}

/// The first modifier that the function carries, in the order generics,
/// `async`, `const`, ABI.
pub open spec fn first_modifier(f: FnSyntaxView) -> Modifier {
    if f.generics.len() > 0 {
        Modifier::Generics
    } else if f.asyncness {
        Modifier::Async
    } else if f.constness {
        Modifier::Const
    } else {
        Modifier::ExternAbi
    }
}

/// What occurs in the span of a diagnostic occurs in its text.
pub proof fn lemma_span_is_in_text(needle: Seq<char>, d: DiagnosticView)
    requires
        occurs_in(needle, d.span),
    ensures
        occurs_in(needle, diagnostic_text(d)),
{
    if d.span.len() == 0 {
        assert(needle.len() == 0);
        assert(d.message.subrange(0, 0 + needle.len() as int) == needle);
    } else {
        lemma_occurs_behind(needle, d.message + SPAN_MARK@, d.span);
    }
}

/// The outcome is a function of the two texts: the same attribute argument
/// and the same item give the same text, be it the declarations or the
/// `compile_error!` invocation. This rests on what the lexer and the parser
/// make of a text being a function of the text, which the readers take on
/// trust.
pub proof fn lemma_deterministic(
    attr: Seq<char>,
    item: Seq<char>,
    other_attr: Seq<char>,
    other_item: Seq<char>,
)
    requires
        attr == other_attr,
        item == other_item,
    ensures
        expanded(attr_syntax(attr), item_syntax(item)) == expanded(
            attr_syntax(other_attr),
            item_syntax(other_item),
        ),
        rendered(expanded(attr_syntax(attr), item_syntax(item))) == rendered(
            expanded(attr_syntax(other_attr), item_syntax(other_item)),
        ),
{
}

/// A function without parameters is never rejected for its parameters, and
/// where it becomes a component, the props type is the unit type and the
/// parameter is `_: &()`.
pub proof fn lemma_no_parameter_gives_unit(f: FnSyntaxView)
    requires
        f.params.len() == 0,
    ensures
        match extracted(ItemSyntaxView::Function(f)) {
            Ok(component) => component.props_type == UNIT_TYPE@ && component.arg == unit_param(),
            Err(d) => d.kind is UnsupportedModifier || d.kind == ErrorKind::MissingReturnType,
        },
        !has_modifier(f) && f.output is Some ==> extracted(ItemSyntaxView::Function(f)) is Ok,
{
}

/// A function without modifiers, with a return type, and with one parameter
/// of type `&T` becomes a component whose props type is `T` and whose
/// parameter is that parameter.
pub proof fn lemma_reference_gives_props_type(f: FnSyntaxView, props: Seq<char>)
    requires
        !has_modifier(f),
        f.output is Some,
        f.params.len() == 1,
        f.params[0].kind == (ParamKindView::Reference {
            lifetime: None,
            mutable: false,
            elem: props,
        }),
    ensures
        extracted(ItemSyntaxView::Function(f)) is Ok,
        extracted(ItemSyntaxView::Function(f))->Ok_0.props_type == props,
        extracted(ItemSyntaxView::Function(f))->Ok_0.arg == f.params[0],
{
}

/// Whatever else holds of the function: where its first parameter has type
/// `&T` and it becomes a component, the props type is `T`.
pub proof fn lemma_props_type_is_referent(f: FnSyntaxView, props: Seq<char>)
    requires
        f.params.len() >= 1,
        f.params[0].kind == (ParamKindView::Reference {
            lifetime: None,
            mutable: false,
            elem: props,
        }),
        extracted(ItemSyntaxView::Function(f)) is Ok,
    ensures
        extracted(ItemSyntaxView::Function(f))->Ok_0.props_type == props,
{
}

/// A function without modifiers whose first parameter is a reference with a
/// lifetime or with `mut` is rejected for its props parameter.
pub proof fn lemma_qualified_reference_rejected(f: FnSyntaxView)
    requires
        !has_modifier(f),
        f.params.len() >= 1,
        f.params[0].kind matches ParamKindView::Reference { lifetime, mutable, .. } && (
        lifetime is Some || mutable),
    ensures
        extracted(ItemSyntaxView::Function(f)) is Err,
        extracted(ItemSyntaxView::Function(f))->Err_0.kind == ErrorKind::InvalidPropsParameter,
{
}

/// A function with a modifier is rejected for the first modifier it carries,
/// whatever its parameters and its return type are.
pub proof fn lemma_modifier_rejected(f: FnSyntaxView)
    requires
        has_modifier(f),
    ensures
        extracted(ItemSyntaxView::Function(f)) is Err,
        extracted(ItemSyntaxView::Function(f))->Err_0.kind == ErrorKind::UnsupportedModifier(
            first_modifier(f),
        ),
{
}

/// Where the item is a function of the right shape and the attribute names
/// the component as the function is named, the outcome is the diagnostic of
/// the collision, and its span holds both names.
pub proof fn lemma_same_name_collides(attr: AttrSyntaxView, f: FnSyntaxView)
    requires
        rejection(f) is None,
        attr == AttrSyntaxView::Ident(f.name),
    ensures
        expanded(attr, ItemSyntaxView::Function(f)) == Err::<Seq<char>, _>(
            collision(f.name, f.name),
        ),
        collision(f.name, f.name).kind == ErrorKind::NameCollision,
        collision(f.name, f.name).span == f.name + SPACE@ + f.name,
        occurs_in(f.name, diagnostic_text(collision(f.name, f.name))),
{
    lemma_names_are_in_collision(f.name, f.name);
}

/// The text of the diagnostic of a collision holds both names.
pub proof fn lemma_names_are_in_collision(alias: Seq<char>, name: Seq<char>)
    ensures
        occurs_in(alias, diagnostic_text(collision(alias, name))),
        occurs_in(name, diagnostic_text(collision(alias, name))),
{
    let d = collision(alias, name);
    lemma_occurs_in_itself(alias);
    lemma_occurs_before(alias, alias, SPACE@);
    lemma_occurs_before(alias, alias + SPACE@, name);
    lemma_occurs_in_itself(name);
    lemma_occurs_behind(name, alias + SPACE@, name);
    lemma_span_is_in_text(alias, d);
    lemma_span_is_in_text(name, d);
}

/// A function without modifiers whose first parameter is in order, and which
/// declares more parameters, is rejected for their number. The span of the
/// diagnostic is the text of each parameter beyond the first, with a space
/// between neighbours, so each of those texts occurs in it, and in the text
/// of the diagnostic.
pub proof fn lemma_second_parameter_rejected(f: FnSyntaxView)
    requires
        !has_modifier(f),
        f.params.len() >= 2,
        f.params[0].kind matches ParamKindView::Reference { lifetime, mutable, .. }
            && lifetime is None && !mutable,
    ensures
        extracted(ItemSyntaxView::Function(f)) is Err,
        extracted(ItemSyntaxView::Function(f))->Err_0.kind == ErrorKind::TooManyParameters,
        extracted(ItemSyntaxView::Function(f))->Err_0.span == join(
            param_texts(f.params.skip(1)),
            SPACE@,
        ),
        forall|i: int|
            1 <= i < f.params.len() ==> occurs_in(
                #[trigger] f.params[i].text,
                extracted(ItemSyntaxView::Function(f))->Err_0.span,
            ),
        forall|i: int|
            1 <= i < f.params.len() ==> occurs_in(
                #[trigger] f.params[i].text,
                diagnostic_text(extracted(ItemSyntaxView::Function(f))->Err_0),
            ),
{
    let texts = param_texts(f.params.skip(1));
    let d = extracted(ItemSyntaxView::Function(f))->Err_0;
    assert forall|i: int| 1 <= i < f.params.len() implies occurs_in(
        #[trigger] f.params[i].text,
        d.span,
    ) && occurs_in(f.params[i].text, diagnostic_text(d)) by {
        lemma_join_holds_each(texts, SPACE@, i - 1);
        assert(texts[i - 1] == f.params[i].text);
        lemma_span_is_in_text(f.params[i].text, d);
    }
}

/// Between the return type of `run` and the block stands no brace, and behind
/// the block only the brace that closes the impl: the block, with the braces
/// it has, is the whole body of `run`.
pub proof fn lemma_block_is_the_body()
    ensures
        !RUN_TAIL@.contains('{'),
        !RUN_TAIL@.contains('}'),
        IMPL_TAIL@ == seq![' ', '}'],
{
    reveal_strlit(") -> ::yew::html::Html ");
    reveal_strlit(" }");
    let tail = RUN_TAIL@;
    let spelled = seq![
        ')', ' ', '-', '>', ' ', ':', ':', 'y', 'e', 'w', ':', ':', 'h', 't', 'm', 'l', ':', ':',
        'H', 't', 'm', 'l', ' ',
    ];
    assert(tail =~= spelled);
    assert forall|i: int| 0 <= i < spelled.len() implies spelled[i] != '{' && spelled[i] != '}' by {
        if i < 8 {
        } else if i < 16 {
        } else {
        }
    }
    assert(IMPL_TAIL@ =~= seq![' ', '}']);
}

/// What holds of every component that the extraction gives: its function
/// has no modifier, at most one parameter and a return type, and its
/// parameter is a shared reference, without a lifetime, to its props type.
pub proof fn lemma_component_shape(item: ItemSyntaxView)
    requires
        extracted(item) is Ok,
    ensures
        item is Function,
        !has_modifier(item->Function_0),
        item->Function_0.params.len() <= 1,
        item->Function_0.output == Some(extracted(item)->Ok_0.return_type),
        extracted(item)->Ok_0.well_formed(),
        extracted(item)->Ok_0.name == item->Function_0.name,
        extracted(item)->Ok_0.block == item->Function_0.body,
{
}

/// Declarations come out only where the item has the shape of a component,
/// the attribute holds one identifier, and the two names differ.
pub proof fn lemma_declarations_need_distinct_names(attr: AttrSyntaxView, item: ItemSyntaxView)
    requires
        expanded(attr, item) is Ok,
    ensures
        extracted(item) is Ok,
        attr is Ident,
        attr->Ident_0 != extracted(item)->Ok_0.name,
{
}

} // verus!
