//! Rewrites of two annotated functions for a kernel that runs without an
//! operating system: the entry point, which the loader finds under the
//! symbol `main`, and the panic handler, which the runtime reaches through
//! the symbol `__arceos_panic_handler`.
//!
//! Both work on `proc_macro2` token streams, so that the attribute macros
//! built on them only convert the compiler's streams on the way in and out.

use vstd::prelude::*;

pub mod reading;
pub mod rewrite;
pub mod syntax;
pub mod token;

use crate::rewrite::{entry_point, entry_unit, panic_hook, panic_unit};
use crate::syntax::{parsed_function, FunctionDeclaration, Malformed};
use crate::token::stream_tokens;

verus! {

/// Marks the kernel entry point.
///
/// `item` is the annotated function; `_attr`, the arguments of the
/// attribute, is ignored. Where `item` is one function declaration, the
/// result is the function `main`, unmangled, without parameters or return
/// value, with the body of `item`. Anything else is refused.
pub fn main(_attr: proc_macro2::TokenStream, item: proc_macro2::TokenStream) -> (res: Result<
    proc_macro2::TokenStream,
    Malformed,
>)
    ensures
        match parsed_function(stream_tokens(item)) {
            Some(syntax) => {
                &&& syntax.wf()
                &&& res matches Ok(unit)
                &&& stream_tokens(unit) == entry_unit(syntax.body)
            },
            None => res is Err,
        },
{
    match FunctionDeclaration::parse(item) {
        Ok(declaration) => Ok(entry_point(declaration)),
        Err(malformed) => Err(malformed),
    }
}

/// Marks the panic handler.
///
/// `item` is the annotated function, which by convention takes the panic
/// information and does not return; `_attr` is ignored. Where `item` is one
/// function declaration, the result is the hook `__arceos_panic_handler`,
/// which forwards to the function by its name, and then the function itself.
/// Anything else is refused. The signature of the function is not looked at.
pub fn panic_handler(
    _attr: proc_macro2::TokenStream,
    item: proc_macro2::TokenStream,
) -> (res: Result<proc_macro2::TokenStream, Malformed>)
    ensures
        match parsed_function(stream_tokens(item)) {
            Some(syntax) => {
                &&& syntax.wf()
                &&& res matches Ok(unit)
                &&& stream_tokens(unit) == panic_unit(syntax.name, stream_tokens(item))
            },
            None => res is Err,
        },
{
    match FunctionDeclaration::parse(item) {
        Ok(declaration) => Ok(panic_hook(declaration)),
        Err(malformed) => Err(malformed),
    }
}

} // verus!
