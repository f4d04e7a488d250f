use axmacro::syntax::FunctionDeclaration;
use axmacro::{main, panic_handler};
use proc_macro2::TokenStream;

fn tokens(text: &str) -> TokenStream {
    text.parse().unwrap()
}

fn printed(text: &str) -> String {
    tokens(text).to_string()
}

fn refused(item: &str) -> String {
    let entry = main(TokenStream::new(), tokens(item));
    let handler = panic_handler(TokenStream::new(), tokens(item));
    assert!(handler.is_err());
    match entry {
        Ok(_) => panic!("accepted"),
        Err(malformed) => malformed.into_diagnostic().to_string(),
    }
}

#[test]
fn a_constant_is_refused() {
    let diagnostic = refused("const LIMIT: usize = 16;");
    assert!(diagnostic.starts_with(&printed("::core::compile_error!")));
}

#[test]
fn a_type_declaration_is_refused() {
    let diagnostic = refused("pub struct Frame { sp: usize }");
    assert!(diagnostic.starts_with(&printed("::core::compile_error!")));
    let diagnostic = refused("type Handler = fn(&PanicInfo) -> !;");
    assert!(diagnostic.starts_with(&printed("::core::compile_error!")));
}

#[test]
fn nothing_is_refused() {
    let diagnostic = refused("");
    assert!(diagnostic.starts_with(&printed("::core::compile_error!")));
}

#[test]
fn two_functions_are_refused() {
    refused("fn one() {} fn two() {}");
}

#[test]
fn a_function_without_a_body_is_refused() {
    refused("fn main();");
}

#[test]
fn a_function_followed_by_more_is_refused() {
    refused("fn main() {} ;");
}

#[test]
fn the_diagnostic_is_one_invocation_of_compile_error() {
    let diagnostic = refused("static FLAG: bool = true;");
    let invocation = syn::parse_str::<syn::Macro>(&diagnostic).unwrap();
    assert!(invocation.path.leading_colon.is_some());
    assert_eq!(invocation.path.segments.len(), 2);
    assert_eq!(invocation.path.segments[0].ident.to_string(), "core");
    assert_eq!(invocation.path.segments[1].ident.to_string(), "compile_error");
    let message = syn::parse2::<syn::LitStr>(invocation.tokens).unwrap();
    assert!(!message.value().is_empty());
}

#[test]
fn a_declaration_hands_out_its_parts() {
    let item = "#[cold] pub fn my_panic(info: &PanicInfo) -> ! { loop {} }";
    let declaration = FunctionDeclaration::parse(tokens(item)).ok().unwrap();
    let (name, body, whole) = declaration.into_parts();
    assert_eq!(name.to_string(), "my_panic");
    assert_eq!(body.to_string(), printed("{ loop {} }"));
    assert_eq!(whole.to_string(), printed(item));
}

#[test]
fn a_declaration_of_anything_else_is_malformed() {
    assert!(FunctionDeclaration::parse(tokens("enum Never {}")).is_err());
    assert!(FunctionDeclaration::parse(tokens("fn ok() {}")).is_ok());
}
