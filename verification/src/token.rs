//! A mathematical model of token streams, and the operations that build one.
//!
//! A `proc_macro2::TokenStream` is a sequence of token trees. Its spans are of
//! no concern here: the model keeps, for each token tree, its kind and what
//! it holds.

use vstd::prelude::*;

verus! {

/// How a group of tokens is enclosed.
#[derive(Clone, Copy, Debug, PartialEq, Eq, Structural)]
pub enum Delimiter {
    /// `( ... )`
    Parenthesis,
    /// `{ ... }`
    Brace,
    /// `[ ... ]`
    Bracket,
    /// No visible delimiter, as around the tokens of a macro variable.
    Invisible,
}

/// Whether a punctuation character is directly followed by another one.
#[derive(Clone, Copy, Debug, PartialEq, Eq, Structural)]
pub enum Spacing {
    /// Followed by another kind of token, or by white space.
    Alone,
    /// Directly followed by another punctuation character, as `-` in `->`.
    Joint,
}

/// One token tree, without its span.
pub enum Token {
    /// An identifier or a keyword, by its text.
    Ident(Seq<char>),
    /// One punctuation character.
    Punct(char, Spacing),
    /// A literal, by its source text.
    Literal(Seq<char>),
    /// A delimited sequence of token trees.
    Group(Delimiter, Seq<Token>),
}

/// `proc_macro2::TokenStream`, which is opaque here: what is known of a
/// stream is what `stream_tokens` says of it.
#[verifier::external_type_specification]
#[verifier::external_body]
pub struct ExTokenStream(proc_macro2::TokenStream);

/// The token trees that a `proc_macro2::TokenStream` holds, in order.
pub uninterp spec fn stream_tokens(stream: proc_macro2::TokenStream) -> Seq<Token>;

/// The identifier without a span.
pub open spec fn word(text: Seq<char>) -> Token {
    Token::Ident(text)
}

/// A punctuation character that stands alone.
pub open spec fn mark(ch: char) -> Token {
    Token::Punct(ch, Spacing::Alone)
}

/// The source text of the string literal whose value is the plain text
/// given.
pub open spec fn quoted(value: Seq<char>) -> Seq<char> {
    seq!['"'] + value + seq!['"']
}

/// A digit or a letter of the ASCII alphabet, or an underscore.
pub open spec fn is_word_char(ch: char) -> bool {
    ||| 'a' <= ch <= 'z'
    ||| 'A' <= ch <= 'Z'
    ||| '0' <= ch <= '9'
    ||| ch == '_'
}

/// Text of ASCII letters, digits and underscores, which a string literal
/// holds as it is.
pub open spec fn is_plain(text: Seq<char>) -> bool {
    forall|i: int| 0 <= i < text.len() ==> is_word_char(#[trigger] text[i])
}

/// Plain text that is not empty and does not start with a digit: an
/// identifier or a keyword.
pub open spec fn is_word(text: Seq<char>) -> bool {
    &&& is_plain(text)
    &&& text.len() > 0
    &&& !('0' <= text[0] <= '9')
}

/// The characters that a punctuation token may hold.
pub open spec fn is_punctuation(ch: char) -> bool {
    ||| ch == '!' || ch == '#' || ch == '$' || ch == '%' || ch == '&' || ch == '\''
    ||| ch == '*' || ch == '+' || ch == ',' || ch == '-' || ch == '.' || ch == '/'
    ||| ch == ':' || ch == ';' || ch == '<' || ch == '=' || ch == '>' || ch == '?'
    ||| ch == '@' || ch == '^' || ch == '|' || ch == '~'
}

/// `proc_macro2::TokenStream::new`: a stream that holds no token.
#[verifier::external_body]
pub(crate) fn empty_stream() -> (stream: proc_macro2::TokenStream)
    ensures
        stream_tokens(stream) == Seq::<Token>::empty(),
{
    proc_macro2::TokenStream::new()
}

/// `Clone` of `proc_macro2::TokenStream`: the copy holds the same tokens.
pub assume_specification[ <proc_macro2::TokenStream as Clone>::clone ](
    stream: &proc_macro2::TokenStream,
) -> (copy: proc_macro2::TokenStream)
    ensures
        stream_tokens(copy) == stream_tokens(*stream),
;

/// `proc_macro2::Ident::new` with the span of the call site, and the
/// `quote::ToTokens` of the identifier: the stream gains one identifier with
/// the text given. `Ident::new` panics on a text that is no identifier, so
/// only plain words are let in.
#[verifier::external_body]
pub(crate) fn push_word(stream: &mut proc_macro2::TokenStream, text: &str)
    requires
        is_word(text@),
    ensures
        stream_tokens(*final(stream)) == stream_tokens(*old(stream)).push(word(text@)),
{
    let ident = proc_macro2::Ident::new(text, proc_macro2::Span::call_site());
    quote::ToTokens::to_tokens(&ident, stream);
}

/// `proc_macro2::Punct::new`, and the `quote::ToTokens` of the punctuation:
/// the stream gains one punctuation token with the character and the
/// spacing given. `Punct::new` panics on a character that is not one of
/// `is_punctuation`.
#[verifier::external_body]
pub(crate) fn push_punct(stream: &mut proc_macro2::TokenStream, ch: char, spacing: Spacing)
    requires
        is_punctuation(ch),
    ensures
        stream_tokens(*final(stream)) == stream_tokens(*old(stream)).push(
            Token::Punct(ch, spacing),
        ),
{
    let spacing = match spacing {
        Spacing::Alone => proc_macro2::Spacing::Alone,
        Spacing::Joint => proc_macro2::Spacing::Joint,
    };
    quote::ToTokens::to_tokens(&proc_macro2::Punct::new(ch, spacing), stream);
}

/// `proc_macro2::Group::new`, and the `quote::ToTokens` of the group: the
/// stream gains one group, which holds the tokens of `content` inside the
/// delimiter given.
#[verifier::external_body]
pub(crate) fn push_group(
    stream: &mut proc_macro2::TokenStream,
    delimiter: Delimiter,
    content: proc_macro2::TokenStream,
)
    ensures
        stream_tokens(*final(stream)) == stream_tokens(*old(stream)).push(
            Token::Group(delimiter, stream_tokens(content)),
        ),
{
    let delimiter = match delimiter {
        Delimiter::Parenthesis => proc_macro2::Delimiter::Parenthesis,
        Delimiter::Brace => proc_macro2::Delimiter::Brace,
        Delimiter::Bracket => proc_macro2::Delimiter::Bracket,
        Delimiter::Invisible => proc_macro2::Delimiter::None,
    };
    quote::ToTokens::to_tokens(&proc_macro2::Group::new(delimiter, content), stream);
}

/// The `quote::ToTokens` of `str`, which appends what
/// `proc_macro2::Literal::string` makes: the stream gains one string literal
/// whose value is `value`. Plain text needs no escape, so the literal reads
/// as the value between double quotes; other text is not let in.
#[verifier::external_body]
pub(crate) fn push_string(stream: &mut proc_macro2::TokenStream, value: &str)
    requires
        is_plain(value@),
    ensures
        stream_tokens(*final(stream)) == stream_tokens(*old(stream)).push(
            Token::Literal(quoted(value@)),
        ),
{
    quote::ToTokens::to_tokens(value, stream);
}

/// The `quote::ToTokens` of `proc_macro2::TokenStream`: the stream gains the
/// tokens of `more`, in their order, after its own.
#[verifier::external_body]
pub(crate) fn push_stream(stream: &mut proc_macro2::TokenStream, more: proc_macro2::TokenStream)
    ensures
        stream_tokens(*final(stream)) == stream_tokens(*old(stream)) + stream_tokens(more),
{
    quote::ToTokens::to_tokens(&more, stream);
}

} // verus!
