use axmacro::main;
use axmacro::rewrite::{entry_point, ENTRY_SYMBOL};
use axmacro::syntax::FunctionDeclaration;
use proc_macro2::TokenStream;
use quote::ToTokens;

fn tokens(text: &str) -> TokenStream {
    text.parse().unwrap()
}

fn printed(text: &str) -> String {
    tokens(text).to_string()
}

fn rewritten(item: &str) -> TokenStream {
    main(TokenStream::new(), tokens(item)).ok().unwrap()
}

#[test]
fn entry_point_of_hello_world() {
    let unit = rewritten("pub fn main() { ax_println!(\"hello world\"); }");
    assert_eq!(
        unit.to_string(),
        printed("#[unsafe(no_mangle)] fn main() { ax_println!(\"hello world\"); }")
    );
}

#[test]
fn entry_point_is_one_function_named_main() {
    let unit = rewritten("pub fn main() { ax_println!(\"hello world\"); }");
    let file = syn::parse2::<syn::File>(unit).unwrap();
    assert_eq!(file.items.len(), 1);
    let function = match &file.items[0] {
        syn::Item::Fn(function) => function,
        _ => panic!("not a function"),
    };
    assert_eq!(function.sig.ident.to_string(), "main");
    assert_eq!(function.sig.ident.to_string(), ENTRY_SYMBOL);
    assert!(function.sig.inputs.is_empty());
    assert!(matches!(function.sig.output, syn::ReturnType::Default));
    assert!(matches!(function.vis, syn::Visibility::Inherited));
    assert!(function.sig.abi.is_none());
    assert_eq!(
        function.block.to_token_stream().to_string(),
        printed("{ ax_println!(\"hello world\"); }")
    );
}

#[test]
fn entry_point_is_unmangled() {
    let unit = rewritten("fn main() {}");
    let function = syn::parse2::<syn::ItemFn>(unit).unwrap();
    assert_eq!(function.attrs.len(), 1);
    assert_eq!(
        function.attrs[0].to_token_stream().to_string(),
        printed("#[unsafe(no_mangle)]")
    );
}

#[test]
fn entry_point_keeps_the_body_as_it_stands() {
    let body = "{ let mut total = 0u64; for i in 0..10 { total += i * 2; } \
                if total > 3 { report(&total, 'x', \"done\"); } loop { halt(); } }";
    let unit = rewritten(&format!("fn start() {}", body));
    let function = syn::parse2::<syn::ItemFn>(unit).unwrap();
    assert_eq!(function.block.to_token_stream().to_string(), printed(body));
}

#[test]
fn entry_point_of_an_empty_body() {
    let unit = rewritten("fn main() {}");
    assert_eq!(unit.to_string(), printed("#[unsafe(no_mangle)] fn main() {}"));
}

#[test]
fn entry_point_drops_name_and_signature() {
    let unit = rewritten(
        "#[inline] pub(crate) unsafe fn kernel_start<T: Copy>(hart: usize, table: &T) -> u32 \
         where T: Sized { boot(hart, table) }",
    );
    assert_eq!(
        unit.to_string(),
        printed("#[unsafe(no_mangle)] fn main() { boot(hart, table) }")
    );
}

#[test]
fn entry_point_ignores_the_arguments_of_the_attribute() {
    let item = "fn main() { run(); }";
    let plain = main(TokenStream::new(), tokens(item)).ok().unwrap();
    let with_arguments = main(tokens("stack = 4096, \"x\""), tokens(item))
        .ok()
        .unwrap();
    assert_eq!(plain.to_string(), with_arguments.to_string());
    assert_eq!(
        plain.to_string(),
        printed("#[unsafe(no_mangle)] fn main() { run(); }")
    );
}

#[test]
fn entry_point_twice_keeps_the_body() {
    let once = rewritten("pub fn start() { ax_println!(\"hello world\"); }");
    let twice = main(TokenStream::new(), once.clone()).ok().unwrap();
    let body = syn::parse2::<syn::ItemFn>(twice.clone()).unwrap().block;
    assert_eq!(
        body.to_token_stream().to_string(),
        printed("{ ax_println!(\"hello world\"); }")
    );
    assert_eq!(twice.to_string(), once.to_string());
}

#[test]
fn entry_point_of_a_parsed_declaration() {
    let declaration = FunctionDeclaration::parse(tokens("fn first() { second(); }"))
        .ok()
        .unwrap();
    let unit = entry_point(declaration);
    assert_eq!(
        unit.to_string(),
        printed("#[unsafe(no_mangle)] fn main() { second(); }")
    );
}

#[test]
fn entry_point_is_the_same_for_the_same_input() {
    let item = "fn main() { a(); b(); }";
    assert_eq!(rewritten(item).to_string(), rewritten(item).to_string());
}
