//! Derivation of the wrapper type's name.
//!
//! When the request does not override the name, the wrapper type is named
//! after the function, converted to the capitalised type-naming convention
//! (`calculate` becomes `Calculate`, `async_calculator` becomes
//! `AsyncCalculator`). The conversion itself is done by an outside library;
//! its result is a function of the characters alone and is referred to by
//! name in the contracts.

use vstd::prelude::*;

verus! {

/// The capitalised type-naming form of a name, as the outside conversion
/// defines it.
pub uninterp spec fn pascal_of(s: Seq<char>) -> Seq<char>;

/// Relies on heck's `ToUpperCamelCase` for `str`: the conversion reads the
/// characters alone, so equal names give equal results.
#[verifier::external_body]
fn to_pascal_case(s: &str) -> (r: String)
    ensures
        r@ == pascal_of(s@),
{
    heck::ToUpperCamelCase::to_upper_camel_case(s)
}

/// The name of the wrapper type: the override when one was configured, else
/// the function's own name in the capitalised type-naming form.
pub fn derive_struct_name(override_name: &Option<String>, func_name: &String) -> (r: String)
    ensures
        match override_name {
            Some(n) => r@ == n@,
            None => r@ == pascal_of(func_name@),
        },
{
    match override_name {
        Some(n) => n.clone(),
        None => to_pascal_case(func_name.as_str()),
    }
}

} // verus!
