//! The two rewrites: what each emits for a function declaration.

use vstd::prelude::*;
use crate::syntax::FunctionDeclaration;
use crate::token::{
    empty_stream, is_plain, is_word, mark, push_group, push_punct, push_stream, push_string,
    push_word, quoted, stream_tokens, word, Delimiter, Spacing, Token,
};

verus! {

/// The symbol under which the loader looks for the entry point.
pub const ENTRY_SYMBOL: &'static str = "main";

/// The symbol through which the runtime dispatches a panic.
pub const PANIC_HOOK_SYMBOL: &'static str = "__arceos_panic_handler";

/// The calling convention that a generated function declares.
#[derive(Clone, Copy, Debug, PartialEq, Eq, Structural)]
pub enum Abi {
    /// None is written: the function has the native convention by default.
    Implicit,
    /// The native convention, written out.
    Rust,
}

/// What a generated function declares of its return.
#[derive(Clone, Copy, Debug, PartialEq, Eq, Structural)]
pub enum Output {
    /// It returns no value.
    Unit,
    /// It never returns.
    Never,
}

/// An attribute with one argument: `#[name(argument)]`.
pub open spec fn attribute(name: Seq<char>, argument: Seq<char>) -> Seq<Token> {
    seq![
        mark('#'),
        Token::Group(
            Delimiter::Bracket,
            seq![word(name), Token::Group(Delimiter::Parenthesis, seq![word(argument)])],
        ),
    ]
}

/// The attribute that keeps a symbol as it is declared: `#[unsafe(no_mangle)]`.
pub open spec fn unmangled() -> Seq<Token> {
    attribute("unsafe"@, "no_mangle"@)
}

/// The attribute that silences the report of an item that nothing in sight
/// uses: `#[expect(unused)]`.
pub open spec fn unused_expected() -> Seq<Token> {
    attribute("expect"@, "unused"@)
}

/// The tokens that name a calling convention, before `fn`.
pub open spec fn calling_convention(abi: Abi) -> Seq<Token> {
    match abi {
        Abi::Implicit => seq![],
        Abi::Rust => seq![word("extern"@), Token::Literal(quoted("Rust"@))],
    }
}

/// The tokens that declare the return, after the parameters.
pub open spec fn return_type(output: Output) -> Seq<Token> {
    match output {
        Output::Unit => seq![],
        Output::Never => seq![Token::Punct('-', Spacing::Joint), mark('>'), mark('!')],
    }
}

/// A function under a fixed, unmangled symbol.
pub open spec fn generated_function(
    symbol: Seq<char>,
    abi: Abi,
    parameters: Seq<Token>,
    output: Output,
    body: Seq<Token>,
) -> Seq<Token> {
    unmangled() + calling_convention(abi) + seq![
        word("fn"@),
        word(symbol),
        Token::Group(Delimiter::Parenthesis, parameters),
    ] + return_type(output) + body
}

/// What replaces an entry point: a function `main` without parameters or
/// return value, whose body is the one given.
pub open spec fn entry_unit(body: Seq<Token>) -> Seq<Token> {
    generated_function(ENTRY_SYMBOL@, Abi::Implicit, seq![], Output::Unit, body)
}

/// The one parameter of the panic hook: `info: &PanicInfo`.
pub open spec fn panic_info_parameter() -> Seq<Token> {
    seq![word("info"@), mark(':'), mark('&'), word("PanicInfo"@)]
}

/// A body that does nothing but hand its parameter on: `{ callee(info); }`.
pub open spec fn forwarding_body(callee: Seq<Token>) -> Seq<Token> {
    seq![
        Token::Group(
            Delimiter::Brace,
            callee + seq![Token::Group(Delimiter::Parenthesis, seq![word("info"@)]), mark(';')],
        ),
    ]
}

/// The panic hook that forwards to `callee`.
pub open spec fn panic_hook_function(callee: Seq<Token>) -> Seq<Token> {
    generated_function(
        PANIC_HOOK_SYMBOL@,
        Abi::Rust,
        panic_info_parameter(),
        Output::Never,
        forwarding_body(callee),
    )
}

/// What replaces a panic handler: the hook that forwards to it, then the
/// handler itself as it was declared, marked as expected to look unused.
pub open spec fn panic_unit(name: Seq<Token>, item: Seq<Token>) -> Seq<Token> {
    panic_hook_function(name) + unused_expected() + item
}

/// Appends `#[name(argument)]`.
fn push_attribute(stream: &mut proc_macro2::TokenStream, name: &str, argument: &str)
    requires
        is_word(name@),
        is_word(argument@),
    ensures
        stream_tokens(*final(stream)) == stream_tokens(*old(stream)) + attribute(
            name@,
            argument@,
        ),
{
    let mut inner = empty_stream();
    push_word(&mut inner, argument);
    let mut content = empty_stream();
    push_word(&mut content, name);
    push_group(&mut content, Delimiter::Parenthesis, inner);
    assert(stream_tokens(content) =~= seq![
        word(name@),
        Token::Group(Delimiter::Parenthesis, seq![word(argument@)]),
    ]);
    push_punct(stream, '#', Spacing::Alone);
    push_group(stream, Delimiter::Bracket, content);
}

/// Every word that the rewrites write is an identifier or a keyword.
proof fn vocabulary()
    ensures
        is_word("unsafe"@),
        is_word("no_mangle"@),
        is_word("expect"@),
        is_word("unused"@),
        is_word("extern"@),
        is_word("fn"@),
        is_word("info"@),
        is_word("PanicInfo"@),
        is_word(ENTRY_SYMBOL@),
        is_word(PANIC_HOOK_SYMBOL@),
        is_plain("Rust"@),
{
    reveal_strlit("Rust");
    reveal_strlit("unsafe");
    reveal_strlit("no_mangle");
    reveal_strlit("expect");
    reveal_strlit("unused");
    reveal_strlit("extern");
    reveal_strlit("fn");
    reveal_strlit("info");
    reveal_strlit("PanicInfo");
    reveal_strlit("main");
    reveal_strlit("__arceos_panic_handler");
}

/// Writes a function under the symbol given, unmangled.
fn emit_function(
    symbol: &str,
    abi: Abi,
    parameters: proc_macro2::TokenStream,
    output: Output,
    body: proc_macro2::TokenStream,
) -> (unit: proc_macro2::TokenStream)
    requires
        is_word(symbol@),
    ensures
        stream_tokens(unit) == generated_function(
            symbol@,
            abi,
            stream_tokens(parameters),
            output,
            stream_tokens(body),
        ),
{
    proof {
        vocabulary();
    }
    let mut unit = empty_stream();
    push_attribute(&mut unit, "unsafe", "no_mangle");
    match abi {
        Abi::Implicit => {},
        Abi::Rust => {
            push_word(&mut unit, "extern");
            push_string(&mut unit, "Rust");
        },
    }
    push_word(&mut unit, "fn");
    push_word(&mut unit, symbol);
    push_group(&mut unit, Delimiter::Parenthesis, parameters);
    match output {
        Output::Unit => {},
        Output::Never => {
            push_punct(&mut unit, '-', Spacing::Joint);
            push_punct(&mut unit, '>', Spacing::Alone);
            push_punct(&mut unit, '!', Spacing::Alone);
        },
    }
    push_stream(&mut unit, body);
    unit
}

/// Rewrites an entry point: the function is emitted as `main`, unmangled,
/// without parameters or return value, and with the body of the declaration
/// as it stands. Name, attributes and signature of the declaration are
/// dropped.
pub fn entry_point(declaration: FunctionDeclaration) -> (unit: proc_macro2::TokenStream)
    ensures
        declaration.syntax().wf(),
        stream_tokens(unit) == entry_unit(declaration.syntax().body),
{
    proof {
        vocabulary();
    }
    let (_, body, _) = declaration.into_parts();
    emit_function(ENTRY_SYMBOL, Abi::Implicit, empty_stream(), Output::Unit, body)
}

/// Rewrites a panic handler: a hook under the runtime's symbol, which takes
/// the panic information, hands it to the handler by its name and never
/// returns, followed by the handler as it was declared, expected to look
/// unused. Nothing of the handler but its name goes into the hook.
pub fn panic_hook(declaration: FunctionDeclaration) -> (unit: proc_macro2::TokenStream)
    ensures
        declaration.syntax().wf(),
        stream_tokens(unit) == panic_unit(declaration.syntax().name, declaration@),
{
    proof {
        vocabulary();
    }
    let (name, _, item) = declaration.into_parts();
    let mut parameters = empty_stream();
    push_word(&mut parameters, "info");
    push_punct(&mut parameters, ':', Spacing::Alone);
    push_punct(&mut parameters, '&', Spacing::Alone);
    push_word(&mut parameters, "PanicInfo");
    assert(stream_tokens(parameters) =~= panic_info_parameter());
    let mut argument = empty_stream();
    push_word(&mut argument, "info");
    let mut call = name;
    push_group(&mut call, Delimiter::Parenthesis, argument);
    push_punct(&mut call, ';', Spacing::Alone);
    assert(stream_tokens(call) =~= declaration.syntax().name + seq![
        Token::Group(Delimiter::Parenthesis, seq![word("info"@)]),
        mark(';'),
    ]);
    let mut body = empty_stream();
    push_group(&mut body, Delimiter::Brace, call);
    let mut unit = emit_function(PANIC_HOOK_SYMBOL, Abi::Rust, parameters, Output::Never, body);
    push_attribute(&mut unit, "expect", "unused");
    push_stream(&mut unit, item);
    unit
}

} // verus!
