//! The strategy contract: a pair of fallible operations between typed values
//! and text, where every failure is reported as an absent result.

use serde::{Deserialize, Serialize};
use vstd::prelude::*;

verus! {

/// An interchangeable encoder and decoder over text.
pub trait Strategy {
    /// Encodes `value` as text. Any failure of the backend gives `None`.
    fn serialize<T>(&self, value: &T) -> (encoded: Option<String>) where T: ?Sized + Serialize;

    /// Decodes `s` into a value of type `T`, which may borrow from `s`. Any
    /// failure of the backend gives `None`.
    fn deserialize<'a, T>(&self, s: &'a str) -> (decoded: Option<T>) where T: Deserialize<'a>;
}

/// The text that an encoding produced, as a sequence of characters, or `None`
/// where the encoding failed.
pub open spec fn text_of(encoded: Option<String>) -> Option<Seq<char>> {
    match encoded {
        Some(text) => Some(text@),
        None => None,
    }
}

/// Whether `strategy`, asked to encode `value`, can end in `outcome`: the
/// text produced, or `None` for a failure. This is what the strategy's own
/// `serialize` promises of its result, read on the text's characters.
pub open spec fn encodes<S: Strategy, T: ?Sized + Serialize>(
    strategy: &S,
    value: &T,
    outcome: Option<Seq<char>>,
) -> bool {
    exists|encoded: Option<String>|
        text_of(encoded) == outcome && #[trigger] call_ensures(
            S::serialize::<T>,
            (strategy, value),
            encoded,
        )
}

/// Whether `strategy`, asked to decode `text` as a `T`, can end in `outcome`:
/// the value read, or `None` for a failure. This is what the strategy's own
/// `deserialize` promises of its result, read on the text's characters.
pub open spec fn decodes<'a, S: Strategy, T: Deserialize<'a>>(
    strategy: &S,
    text: Seq<char>,
    outcome: Option<T>,
) -> bool {
    exists|s: &'a str|
        s@ == text && #[trigger] call_ensures(S::deserialize::<T>, (strategy, s), outcome)
}

/// Collapses the result of a backend to the facade's two outcomes: the value
/// on success, and `None` on every error, whatever the error holds.
pub fn present_or_absent<V, E>(result: Result<V, E>) -> (outcome: Option<V>)
    ensures
        outcome == match result {
            Ok(value) => Some(value),
            Err(_) => None,
        },
{
    match result {
        Ok(value) => Some(value),
        _ => None,
    }
}

} // verus!
