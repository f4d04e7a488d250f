//! Function declarations, as the parser reads them out of a token stream.

use vstd::prelude::*;
use crate::token::{mark, stream_tokens, word, Delimiter, Spacing, Token};

verus! {

/// What a rewrite reads in a function declaration.
pub struct FunctionSyntax {
    /// The identifier that the function is declared under: one token.
    pub name: Seq<Token>,
    /// The block of statements, braces included: one token.
    pub body: Seq<Token>,
}

impl FunctionSyntax {
    /// The name is one identifier and the body is one group in braces.
    pub open spec fn wf(self) -> bool {
        &&& self.name.len() == 1
        &&& self.name[0] is Ident
        &&& self.body.len() == 1
        &&& self.body[0] matches Token::Group(delimiter, _) && delimiter == Delimiter::Brace
    }

    /// The text of the identifier.
    pub open spec fn identifier(self) -> Seq<char>
        recommends
            self.wf(),
    {
        self.name[0]->Ident_0
    }
}

/// What `syn` reads in a token sequence that it parses as an `ItemFn`: the
/// identifier of the signature and the block, each as it prints. `None`
/// where the sequence is anything but one function declaration.
pub uninterp spec fn parsed_function(tokens: Seq<Token>) -> Option<FunctionSyntax>;

/// `syn::Error`, opaque here.
#[verifier::external_type_specification]
#[verifier::external_body]
pub struct ExParseError(syn::Error);

/// `syn::parse2::<syn::ItemFn>`, and `quote::ToTokens::to_token_stream` on
/// two parts of the tree that it returns: the identifier of the signature
/// and the block. Whether the tokens parse, and what the two parts hold,
/// depends on the tokens alone. The identifier prints as one identifier
/// token and the block as one group in braces.
#[verifier::external_body]
fn read_function(item: proc_macro2::TokenStream) -> (res: Result<
    (proc_macro2::TokenStream, proc_macro2::TokenStream),
    syn::Error,
>)
    ensures
        res is Ok <==> parsed_function(stream_tokens(item)) is Some,
        res matches Ok(parts) ==> {
            let syntax = FunctionSyntax {
                name: stream_tokens(parts.0),
                body: stream_tokens(parts.1),
            };
            parsed_function(stream_tokens(item)) == Some(syntax) && syntax.wf()
        },
{
    let function = syn::parse2::<syn::ItemFn>(item)?;
    let name = quote::ToTokens::to_token_stream(&function.sig.ident);
    let body = quote::ToTokens::to_token_stream(&function.block);
    Ok((name, body))
}

/// The tokens `::core::compile_error!`, which open a diagnostic.
pub open spec fn compile_error_path() -> Seq<Token> {
    seq![
        Token::Punct(':', Spacing::Joint),
        mark(':'),
        word("core"@),
        Token::Punct(':', Spacing::Joint),
        mark(':'),
        word("compile_error"@),
        mark('!'),
    ]
}

/// The sequence starts with an invocation of `compile_error!`, so the
/// compiler that meets it stops with an error.
pub open spec fn is_diagnostic(tokens: Seq<Token>) -> bool {
    &&& tokens.len() > compile_error_path().len()
    &&& tokens.take(compile_error_path().len() as int) == compile_error_path()
    &&& tokens[compile_error_path().len() as int] matches Token::Group(delimiter, _) && delimiter
        == Delimiter::Brace
}

/// `syn::Error::to_compile_error`: for each message of the error, of which
/// there is at least one, an invocation `::core::compile_error!{ .. }` with
/// the message in the braces.
#[verifier::external_body]
fn report(error: &syn::Error) -> (tokens: proc_macro2::TokenStream)
    ensures
        is_diagnostic(stream_tokens(tokens)),
{
    error.to_compile_error()
}

/// The input was not a function declaration.
#[derive(Debug)]
pub struct Malformed {
    diagnostic: proc_macro2::TokenStream,
}

impl Malformed {
    /// The tokens that report the failure to the compiler.
    pub closed spec fn diagnostic(&self) -> Seq<Token> {
        stream_tokens(self.diagnostic)
    }

    #[verifier::type_invariant]
    spec fn well_formed(&self) -> bool {
        is_diagnostic(self.diagnostic())
    }

    /// Hands out the tokens to emit in place of the annotated item: an
    /// invocation of `compile_error!` with the parser's message.
    pub fn into_diagnostic(self) -> (tokens: proc_macro2::TokenStream)
        ensures
            stream_tokens(tokens) == self.diagnostic(),
            is_diagnostic(stream_tokens(tokens)),
    {
        proof {
            use_type_invariant(&self);
        }
        self.diagnostic
    }
}

/// A function declaration that was parsed: its tokens, and the parts that
/// the parser read in them.
#[derive(Debug)]
pub struct FunctionDeclaration {
    name: proc_macro2::TokenStream,
    body: proc_macro2::TokenStream,
    item: proc_macro2::TokenStream,
}

impl View for FunctionDeclaration {
    type V = Seq<Token>;

    /// The tokens of the declaration, as they were handed in.
    closed spec fn view(&self) -> Seq<Token> {
        stream_tokens(self.item)
    }
}

impl FunctionDeclaration {
    /// The name and the body of the declaration.
    pub closed spec fn syntax(&self) -> FunctionSyntax {
        FunctionSyntax { name: stream_tokens(self.name), body: stream_tokens(self.body) }
    }

    #[verifier::type_invariant]
    spec fn well_formed(&self) -> bool {
        &&& parsed_function(self@) == Some(self.syntax())
        &&& self.syntax().wf()
    }

    /// Parses one function declaration. Anything else is `Malformed`: a
    /// constant, a type, two functions, nothing at all.
    pub fn parse(item: proc_macro2::TokenStream) -> (res: Result<FunctionDeclaration, Malformed>)
        ensures
            match parsed_function(stream_tokens(item)) {
                Some(syntax) => {
                    &&& syntax.wf()
                    &&& res matches Ok(declaration)
                    &&& declaration@ == stream_tokens(item)
                    &&& declaration.syntax() == syntax
                },
                None => res is Err,
            },
    {
        let whole = item.clone();
        match read_function(item) {
            Ok((name, body)) => Ok(FunctionDeclaration { name, body, item: whole }),
            Err(error) => Err(Malformed { diagnostic: report(&error) }),
        }
    }

    /// Hands out the name, the body and the whole declaration, in this
    /// order.
    pub fn into_parts(self) -> (parts: (
        proc_macro2::TokenStream,
        proc_macro2::TokenStream,
        proc_macro2::TokenStream,
    ))
        ensures
            parsed_function(self@) == Some(self.syntax()),
            self.syntax().wf(),
            stream_tokens(parts.0) == self.syntax().name,
            stream_tokens(parts.1) == self.syntax().body,
            stream_tokens(parts.2) == self@,
    {
        proof {
            use_type_invariant(&self);
        }
        (self.name, self.body, self.item)
    }
}

} // verus!
