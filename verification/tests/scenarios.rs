use yew_functional_macro::{
    expand, functional_component, AttrSyntax, Diagnostic, ErrorKind, ItemSyntax, Modifier,
};

fn tokens(text: &str) -> String {
    text.parse::<proc_macro2::TokenStream>().unwrap().to_string()
}

fn run(attr: &str, item: &str) -> Result<String, Diagnostic> {
    expand(AttrSyntax::read(attr), ItemSyntax::read(item))
}

#[test]
fn function_with_props_becomes_component() {
    let out = functional_component("Foo", "fn foo(props: &Props) -> Html { html! {} }");
    assert_eq!(
        out,
        "#[doc(hidden)] #[allow(non_camel_case_types)]  struct foo; \
         impl ::yew_functional::FunctionProvider for foo { type TProps = Props; \
         fn run(props : & Props) -> ::yew::html::Html { html ! { } } }  \
         type Foo = ::yew_functional::FunctionComponent<foo>;"
    );
}

#[test]
fn function_with_props_gives_the_three_declarations() {
    let out = functional_component("Foo", "fn foo(props: &Props) -> Html { html! {} }");
    let expected = "
        #[doc(hidden)]
        #[allow(non_camel_case_types)]
        struct foo;

        impl ::yew_functional::FunctionProvider for foo {
            type TProps = Props;

            fn run(props: &Props) -> ::yew::html::Html {
                html! {}
            }
        }

        type Foo = ::yew_functional::FunctionComponent<foo>;
    ";
    assert_eq!(tokens(&out), tokens(expected));
}

#[test]
fn generated_text_is_three_items() {
    let out = functional_component("Foo", "pub fn foo(props: &Props) -> Html { html! {} }");
    let file = syn::parse_str::<syn::File>(&out).unwrap();
    assert_eq!(file.items.len(), 3);
    assert!(matches!(file.items[0], syn::Item::Struct(_)));
    assert!(matches!(file.items[1], syn::Item::Impl(_)));
    assert!(matches!(file.items[2], syn::Item::Type(_)));
}

#[test]
fn function_without_parameters_gets_unit_props() {
    let out = functional_component("Foo", "fn foo() -> Html { html! {} }");
    let expected = "
        #[doc(hidden)]
        #[allow(non_camel_case_types)]
        struct foo;
        impl ::yew_functional::FunctionProvider for foo {
            type TProps = ();
            fn run(_: &()) -> ::yew::html::Html {
                html! {}
            }
        }
        type Foo = ::yew_functional::FunctionComponent<foo>;
    ";
    assert_eq!(tokens(&out), tokens(expected));
    assert!(out.contains("fn run(_: &()) -> ::yew::html::Html"));
}

#[test]
fn visibility_goes_to_marker_and_alias_and_attributes_to_alias_only() {
    let out = functional_component(
        "Foo",
        "#[cfg(test)] #[doc = \"a component\"] pub(crate) fn foo(props: &Props) -> Html { html! {} }",
    );
    let expected = "
        #[doc(hidden)]
        #[allow(non_camel_case_types)]
        pub(crate) struct foo;
        impl ::yew_functional::FunctionProvider for foo {
            type TProps = Props;
            fn run(props: &Props) -> ::yew::html::Html {
                html! {}
            }
        }
        #[cfg(test)]
        #[doc = \"a component\"]
        pub(crate) type Foo = ::yew_functional::FunctionComponent<foo>;
    ";
    assert_eq!(tokens(&out), tokens(expected));
}

#[test]
fn declared_return_type_is_not_reproduced() {
    let out = functional_component("Foo", "fn foo(props: &Props) -> yew::Html { html! {} }");
    assert!(out.contains(") -> ::yew::html::Html {"));
    assert!(!out.contains("-> yew"));
}

#[test]
fn body_is_copied_as_it_is() {
    let out = functional_component(
        "Counter",
        "fn counter(props: &Props) -> Html { let n = props.start + 1; html! { <p>{ n }</p> } }",
    );
    let expected_body = tokens("{ let n = props.start + 1; html! { <p>{ n }</p> } }");
    assert!(out.contains(&expected_body));
}

#[test]
fn generic_function_is_rejected() {
    let d = run("Foo", "fn foo<T>(props: &T) -> Html { html! {} }").unwrap_err();
    assert_eq!(d.kind, ErrorKind::UnsupportedModifier(Modifier::Generics));
    assert_eq!(d.message, "functional components can't contain generics");
    assert_eq!(d.span, "T");
}

#[test]
fn generic_function_gives_no_code() {
    let out = functional_component("Foo", "fn foo<T>(props: &T) -> Html { html! {} }");
    assert_eq!(out, "compile_error ! { \"functional components can't contain generics: T\" }");
}

#[test]
fn same_name_is_a_collision() {
    let d = run("Foo", "fn Foo(props: &Props) -> Html { html! {} }").unwrap_err();
    assert_eq!(d.kind, ErrorKind::NameCollision);
    assert_eq!(d.message, "The function name and component name must not be the same");
    assert_eq!(d.span, "Foo Foo");
}

#[test]
fn mutable_reference_is_rejected() {
    let d = run("Foo", "fn foo(props: &mut Props) -> Html { html! {} }").unwrap_err();
    assert_eq!(d.kind, ErrorKind::InvalidPropsParameter);
    assert_eq!(d.message, "reference must not be mutable");
    assert_eq!(d.span, "mut");
}

#[test]
fn missing_return_type_is_rejected() {
    let d = run("Foo", "fn foo(props: &Props) { }").unwrap_err();
    assert_eq!(d.kind, ErrorKind::MissingReturnType);
    assert_eq!(d.message, "functional components must return `yew::Html`");
    assert_eq!(d.span, "");
}

#[test]
fn reference_with_lifetime_is_rejected() {
    let d = run("Foo", "fn foo(props: &'a Props) -> Html { html! {} }").unwrap_err();
    assert_eq!(d.kind, ErrorKind::InvalidPropsParameter);
    assert_eq!(d.message, "reference must not have life time");
    assert_eq!(d.span, "'a");
}

#[test]
fn parameter_by_value_is_rejected_with_a_hint() {
    let d = run("Foo", "fn foo(props: Props) -> Html { html! {} }").unwrap_err();
    assert_eq!(d.kind, ErrorKind::InvalidPropsParameter);
    assert_eq!(d.message, "expected a reference to a `Properties` type (try: `&Props`)");
    assert_eq!(d.span, "Props");
}

#[test]
fn receiver_is_rejected_before_the_number_of_parameters() {
    let d = run("Foo", "fn foo(&self, props: &Props) -> Html { html! {} }").unwrap_err();
    assert_eq!(d.kind, ErrorKind::ReceiverNotAllowed);
    assert_eq!(d.message, "functional components can't accept a receiver");
    assert_eq!(d.span, "& self");
}

#[test]
fn second_parameter_is_rejected() {
    let d = run("Foo", "fn foo(a: &A, b: B, c: &C) -> Html { html! {} }").unwrap_err();
    assert_eq!(d.kind, ErrorKind::TooManyParameters);
    assert_eq!(
        d.message,
        "functional components can accept at most one parameter for the props"
    );
    assert_eq!(d.span, "b : B c : & C");
}

#[test]
fn async_const_and_abi_are_rejected() {
    let d = run("Foo", "async fn foo(props: &Props) -> Html { html! {} }").unwrap_err();
    assert_eq!(d.kind, ErrorKind::UnsupportedModifier(Modifier::Async));
    assert_eq!(d.message, "functional components can't be async");
    assert_eq!(d.span, "async");
    let d = run("Foo", "const fn foo(props: &Props) -> Html { html! {} }").unwrap_err();
    assert_eq!(d.kind, ErrorKind::UnsupportedModifier(Modifier::Const));
    assert_eq!(d.message, "const functions can't be functional components");
    assert_eq!(d.span, "const");
    let d = run("Foo", "extern \"C\" fn foo(props: &Props) -> Html { html! {} }").unwrap_err();
    assert_eq!(d.kind, ErrorKind::UnsupportedModifier(Modifier::ExternAbi));
    assert_eq!(d.message, "extern functions can't be functional components");
    assert_eq!(d.span, "extern \"C\"");
}

#[test]
fn modifier_is_rejected_whatever_else_is_wrong() {
    let d = run("foo", "async fn foo<T>(self, b: B) { }").unwrap_err();
    assert_eq!(d.kind, ErrorKind::UnsupportedModifier(Modifier::Generics));
    let d = run("", "const async fn foo(self, b: B) { }").unwrap_err();
    assert_eq!(d.kind, ErrorKind::UnsupportedModifier(Modifier::Async));
}

#[test]
fn item_that_is_no_function_is_rejected() {
    let d = run("Foo", "struct Props { n: u32 }").unwrap_err();
    assert_eq!(d.kind, ErrorKind::NotAFunction);
    assert_eq!(
        d.message,
        "`functional_component` attribute can only be applied to functions"
    );
    assert_eq!(d.span, "");
}

#[test]
fn text_that_is_no_item_is_a_syntax_error() {
    let d = run("Foo", "fn foo(props: &Props -> Html").unwrap_err();
    assert_eq!(d.kind, ErrorKind::Syntax);
    let d = run("Foo", "fn foo(props &Props) -> Html { }").unwrap_err();
    assert_eq!(d.kind, ErrorKind::Syntax);
}

#[test]
fn missing_component_name_is_rejected() {
    let d = run("", "fn foo(props: &Props) -> Html { html! {} }").unwrap_err();
    assert_eq!(d.kind, ErrorKind::MissingComponentName);
    assert_eq!(d.message, "expected identifier for the component");
    let d = run("  /* nothing */ ", "fn foo(props: &Props) -> Html { html! {} }").unwrap_err();
    assert_eq!(d.kind, ErrorKind::MissingComponentName);
}

#[test]
fn component_name_must_be_one_identifier() {
    let d = run("Foo Bar", "fn foo(props: &Props) -> Html { html! {} }").unwrap_err();
    assert_eq!(d.kind, ErrorKind::Syntax);
    assert_eq!(d.message, "unexpected token");
    let d = run("\"Foo\"", "fn foo(props: &Props) -> Html { html! {} }").unwrap_err();
    assert_eq!(d.kind, ErrorKind::Syntax);
    assert_eq!(d.message, "expected identifier");
}

#[test]
fn item_is_checked_before_the_name() {
    let d = run("", "fn foo(props: Props) -> Html { html! {} }").unwrap_err();
    assert_eq!(d.kind, ErrorKind::InvalidPropsParameter);
}

#[test]
fn failure_is_rendered_as_compile_error() {
    let out = functional_component("Foo", "fn foo(props: &Props) { }");
    assert_eq!(
        out,
        "compile_error ! { \"functional components must return `yew::Html`\" }"
    );
    let out = functional_component("Foo", "fn foo(props: [u8; \"a\".len()]) -> Html { }");
    let file = syn::parse_str::<syn::File>(&out).unwrap();
    assert_eq!(file.items.len(), 1);
    assert!(matches!(file.items[0], syn::Item::Macro(_)));
}

#[test]
fn same_input_gives_same_output() {
    let item = "pub fn foo(props: &Props) -> Html { html! { <p>{ props.text }</p> } }";
    assert_eq!(functional_component("Foo", item), functional_component("Foo", item));
    let bad = "pub fn foo(props: &'a mut Props, more: u8) { }";
    assert_eq!(functional_component("Foo", bad), functional_component("Foo", bad));
    assert_eq!(run("Foo", bad), run("Foo", bad));
}

#[test]
fn block_of_the_function_is_the_body_of_run() {
    let out = functional_component("Foo", "fn foo(props: &Props) -> Html { render(props) }");
    let expected = "#[doc(hidden)] #[allow(non_camel_case_types)] struct foo; \
        impl ::yew_functional::FunctionProvider for foo { type TProps = Props; \
        fn run(props: &Props) -> ::yew::html::Html { render(props) } } \
        type Foo = ::yew_functional::FunctionComponent<foo>;";
    assert_eq!(tokens(&out), tokens(expected));
    let out = functional_component("Foo", "fn foo() -> Html { render() }");
    let expected = "#[doc(hidden)] #[allow(non_camel_case_types)] struct foo; \
        impl ::yew_functional::FunctionProvider for foo { type TProps = (); \
        fn run(_: &()) -> ::yew::html::Html { render() } } \
        type Foo = ::yew_functional::FunctionComponent<foo>;";
    assert_eq!(tokens(&out), tokens(expected));
}

#[test]
fn rendered_failure_carries_the_span() {
    let out = functional_component("Foo", "fn foo(a: &A, b: B, c: &C) -> Html { html! {} }");
    assert_eq!(
        out,
        "compile_error ! { \"functional components can accept at most one parameter for the \
         props: b : B c : & C\" }"
    );
    let out = functional_component("Foo", "fn Foo() -> Html { html! {} }");
    assert_eq!(
        out,
        "compile_error ! { \"The function name and component name must not be the same: \
         Foo Foo\" }"
    );
}

#[test]
fn literal_of_an_unknown_kind_is_a_syntax_error() {
    let d = run("Foo", "fn foo() -> Html { c\"hi\" }").unwrap_err();
    assert_eq!(d.kind, ErrorKind::Syntax);
    assert_eq!(d.message, "literal of a kind that is not supported");
    let out = functional_component("Foo", "fn foo(p: &[u8; c\"x\".len()]) -> Html { html! {} }");
    assert_eq!(out, "compile_error ! { \"literal of a kind that is not supported\" }");
}
