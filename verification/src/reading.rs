//! A rewritten unit, read back as the declarations that it holds, and what
//! holds of every unit that a rewrite emits.

use vstd::prelude::*;
use crate::rewrite::{
    calling_convention, entry_unit, forwarding_body, generated_function, panic_hook_function,
    panic_info_parameter, panic_unit, return_type, unused_expected, Abi, Output, ENTRY_SYMBOL,
    PANIC_HOOK_SYMBOL,
};
use crate::syntax::FunctionSyntax;
use crate::token::{mark, word, Delimiter, Spacing, Token};

verus! {

/// Where the keyword `fn` first stands in a sequence, or its length where
/// it does not. In a function declaration nothing before the keyword is the
/// word `fn`: attributes hold their words inside a group.
pub open spec fn keyword_index(tokens: Seq<Token>) -> int
    decreases tokens.len(),
{
    if tokens.len() == 0 {
        0
    } else if tokens[0] == word("fn"@) {
        0
    } else {
        1 + keyword_index(tokens.drop_first())
    }
}

/// A sequence read as one function declaration without generic parameters:
/// after the keyword come the name and the parameters, the body is the last
/// token, and what stands between the two declares the return.
pub open spec fn is_declaration(tokens: Seq<Token>) -> bool {
    &&& keyword_index(tokens) + 3 < tokens.len()
    &&& tokens[keyword_index(tokens) + 1] is Ident
    &&& tokens[keyword_index(tokens) + 2] matches Token::Group(delimiter, _) && delimiter
        == Delimiter::Parenthesis
    &&& tokens.last() matches Token::Group(delimiter, _) && delimiter == Delimiter::Brace
}

/// The name that a declaration declares.
pub open spec fn declared_name(tokens: Seq<Token>) -> Seq<char>
    recommends
        is_declaration(tokens),
{
    tokens[keyword_index(tokens) + 1]->Ident_0
}

/// The tokens between the parentheses of a declaration's parameters.
pub open spec fn declared_parameters(tokens: Seq<Token>) -> Seq<Token>
    recommends
        is_declaration(tokens),
{
    tokens[keyword_index(tokens) + 2]->Group_1
}

/// The tokens that declare the return: none, or an arrow and a type.
pub open spec fn declared_return(tokens: Seq<Token>) -> Seq<Token>
    recommends
        is_declaration(tokens),
{
    tokens.subrange(keyword_index(tokens) + 3, tokens.len() - 1)
}

/// The body of a declaration, braces included: one token.
pub open spec fn declared_body(tokens: Seq<Token>) -> Seq<Token>
    recommends
        is_declaration(tokens),
{
    tokens.skip(tokens.len() - 1)
}

/// The keyword is not found among tokens that are not the keyword.
proof fn keyword_index_after(tokens: Seq<Token>, n: int)
    requires
        0 <= n <= tokens.len(),
        forall|i: int| 0 <= i < n ==> tokens[i] != word("fn"@),
    ensures
        keyword_index(tokens) == n + keyword_index(tokens.skip(n)),
    decreases n,
{
    if n == 0 {
        assert(tokens.skip(0) =~= tokens);
    } else {
        keyword_index_after(tokens.drop_first(), n - 1);
        assert(tokens.drop_first().skip(n - 1) =~= tokens.skip(n));
    }
}

/// A generated function reads as a declaration of what went into it,
/// provided that the body is one group in braces.
proof fn generated_function_reads_back(
    symbol: Seq<char>,
    abi: Abi,
    parameters: Seq<Token>,
    output: Output,
    body: Seq<Token>,
)
    requires
        body.len() == 1,
        body[0] matches Token::Group(delimiter, _) && delimiter == Delimiter::Brace,
    ensures
        is_declaration(generated_function(symbol, abi, parameters, output, body)),
        keyword_index(generated_function(symbol, abi, parameters, output, body)) == 2
            + calling_convention(abi).len(),
        declared_name(generated_function(symbol, abi, parameters, output, body)) == symbol,
        declared_parameters(generated_function(symbol, abi, parameters, output, body))
            == parameters,
        declared_return(generated_function(symbol, abi, parameters, output, body))
            == return_type(output),
        declared_body(generated_function(symbol, abi, parameters, output, body)) == body,
{
    let tokens = generated_function(symbol, abi, parameters, output, body);
    let k = 2 + calling_convention(abi).len();
    assert(word("extern"@) != word("fn"@)) by {
        reveal_strlit("fn");
        reveal_strlit("extern");
        assert("extern"@.len() != "fn"@.len());
    }
    keyword_index_after(tokens, k as int);
}

/// The rewritten entry point is a function named `main`, which takes no
/// parameters and declares no return, and whose body is the body of the
/// function that was annotated.
pub proof fn entry_unit_declares_main(syntax: FunctionSyntax)
    requires
        syntax.wf(),
    ensures
        is_declaration(entry_unit(syntax.body)),
        declared_name(entry_unit(syntax.body)) == "main"@,
        declared_parameters(entry_unit(syntax.body)) == Seq::<Token>::empty(),
        declared_return(entry_unit(syntax.body)) == Seq::<Token>::empty(),
        declared_body(entry_unit(syntax.body)) == syntax.body,
{
    generated_function_reads_back(ENTRY_SYMBOL@, Abi::Implicit, seq![], Output::Unit, syntax.body);
}

/// Rewriting an entry point twice is rewriting it once: a function that has
/// the body of a rewritten entry point has the body that went in, and is
/// rewritten to the same unit.
pub proof fn entry_unit_keeps_body(first: FunctionSyntax, second: FunctionSyntax)
    requires
        first.wf(),
        second.body == declared_body(entry_unit(first.body)),
    ensures
        second.body == first.body,
        entry_unit(second.body) == entry_unit(first.body),
        declared_body(entry_unit(second.body)) == first.body,
{
    entry_unit_declares_main(first);
}

/// The body that forwards to a declared function is one call of its
/// identifier.
proof fn forwarding_body_calls_identifier(syntax: FunctionSyntax)
    requires
        syntax.wf(),
    ensures
        forwarding_body(syntax.name) == seq![
            Token::Group(
                Delimiter::Brace,
                seq![
                    word(syntax.identifier()),
                    Token::Group(Delimiter::Parenthesis, seq![word("info"@)]),
                    mark(';'),
                ],
            ),
        ],
{
    let argument = Token::Group(Delimiter::Parenthesis, seq![word("info"@)]);
    assert(syntax.name + seq![argument, mark(';')] =~= seq![
        word(syntax.identifier()),
        argument,
        mark(';'),
    ]);
}

/// The rewritten panic handler is two declarations and no more. The first
/// is the hook `__arceos_panic_handler`, whose one parameter is the panic
/// information and whose body is the single call that hands the parameter
/// to the handler by its name. The second is the handler as it was declared,
/// behind `#[expect(unused)]`.
pub proof fn panic_unit_declares_hook_and_handler(syntax: FunctionSyntax, item: Seq<Token>)
    requires
        syntax.wf(),
    ensures
        panic_unit(syntax.name, item) == panic_hook_function(syntax.name) + unused_expected()
            + item,
        is_declaration(panic_hook_function(syntax.name)),
        declared_name(panic_hook_function(syntax.name)) == "__arceos_panic_handler"@,
        declared_parameters(panic_hook_function(syntax.name)) == panic_info_parameter(),
        declared_body(panic_hook_function(syntax.name)) == seq![
            Token::Group(
                Delimiter::Brace,
                seq![
                    word(syntax.identifier()),
                    Token::Group(Delimiter::Parenthesis, seq![word("info"@)]),
                    mark(';'),
                ],
            ),
        ],
{
    generated_function_reads_back(
        PANIC_HOOK_SYMBOL@,
        Abi::Rust,
        panic_info_parameter(),
        Output::Never,
        forwarding_body(syntax.name),
    );
    forwarding_body_calls_identifier(syntax);
}

/// The hook declares that it never returns, whatever the handler declares
/// of its own return: the arrow and the type `!` stand in the unit of every
/// handler, of which the hook takes nothing but the name.
pub proof fn panic_hook_never_returns(syntax: FunctionSyntax, item: Seq<Token>)
    requires
        syntax.wf(),
    ensures
        panic_unit(syntax.name, item).take(panic_hook_function(syntax.name).len() as int)
            == panic_hook_function(syntax.name),
        declared_return(panic_hook_function(syntax.name)) == seq![
            Token::Punct('-', Spacing::Joint),
            mark('>'),
            mark('!'),
        ],
{
    generated_function_reads_back(
        PANIC_HOOK_SYMBOL@,
        Abi::Rust,
        panic_info_parameter(),
        Output::Never,
        forwarding_body(syntax.name),
    );
}

} // verus!
