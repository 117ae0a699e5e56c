//! What holds of every injector, whatever strategy it holds.

use crate::injector::StrategyInjector;
use crate::strategy::{decodes, encodes, Strategy};
use serde::{Deserialize, Serialize};
use vstd::prelude::*;

verus! {

/// An injector encodes as its strategy does: every outcome that `serialize`
/// can have on a value is one that the held strategy can have on that value,
/// present or absent, with the same text.
pub proof fn lemma_serialize_transparent<S: Strategy, T: Serialize>(
    injector: &StrategyInjector<S>,
    value: T,
    outcome: Option<Seq<char>>,
)
    ensures
        injector.serializes(value, outcome) ==> encodes(&injector.strategy(), &value, outcome),
{
}

/// An injector decodes as its strategy does: every outcome that `deserialize`
/// can have on a text is one that the held strategy can have on that text,
/// present or absent, with the same value.
pub proof fn lemma_deserialize_transparent<'a, S: Strategy, R: Deserialize<'a>>(
    injector: &StrategyInjector<S>,
    text: Seq<char>,
    outcome: Option<R>,
)
    ensures
        injector.deserializes(text, outcome) ==> decodes(&injector.strategy(), text, outcome),
{
}

/// One injector serves values of different types, in any order: whatever
/// `serialize` returns for a `A` and for a `B`, each outcome is one that the
/// held strategy can have on that value.
pub proof fn lemma_one_injector_two_types<S: Strategy, A: Serialize, B: Serialize>(
    injector: &StrategyInjector<S>,
    left: A,
    right: B,
    left_outcome: Option<Seq<char>>,
    right_outcome: Option<Seq<char>>,
)
    requires
        injector.serializes(left, left_outcome),
        injector.serializes(right, right_outcome),
    ensures
        encodes(&injector.strategy(), &left, left_outcome),
        encodes(&injector.strategy(), &right, right_outcome),
{
    lemma_serialize_transparent(injector, left, left_outcome);
    lemma_serialize_transparent(injector, right, right_outcome);
}

/// Whether the outcome of encoding a `T` with `strategy` is fixed by the
/// value: the strategy keeps no state that its result depends on.
pub open spec fn encoding_is_fixed<S: Strategy, T: Serialize>(strategy: &S) -> bool {
    forall|value: T, first: Option<Seq<char>>, second: Option<Seq<char>>|
        #[trigger] encodes(strategy, &value, first) && #[trigger] encodes(strategy, &value, second)
            ==> first == second
}

/// Whether the outcome of decoding a text as a `T` with `strategy` is fixed
/// by the text.
pub open spec fn decoding_is_fixed<'a, S: Strategy, T: Deserialize<'a>>(strategy: &S) -> bool {
    forall|text: Seq<char>, first: Option<T>, second: Option<T>|
        #[trigger] decodes(strategy, text, first) && #[trigger] decodes(strategy, text, second)
            ==> first == second
}

/// Whether `strategy` reads back every `T` that it wrote: decoding a text
/// that came from encoding a value gives that value, and does not fail.
pub open spec fn reads_back_what_it_wrote<'a, S: Strategy, T: Serialize + Deserialize<'a>>(
    strategy: &S,
) -> bool {
    forall|value: T, text: Seq<char>, decoded: Option<T>|
        #[trigger] encodes(strategy, &value, Some(text)) && #[trigger] decodes(
            strategy,
            text,
            decoded,
        ) ==> decoded == Some(value)
}

/// Whether `strategy` writes back every text that it read as a `T`, letter
/// for letter: encoding a value that came from decoding a text gives that
/// text, and does not fail. This is what a canonical encoder offers.
pub open spec fn writes_back_what_it_read<'a, S: Strategy, T: Serialize + Deserialize<'a>>(
    strategy: &S,
) -> bool {
    forall|text: Seq<char>, value: T, encoded: Option<Seq<char>>|
        #[trigger] decodes(strategy, text, Some(value)) && #[trigger] encodes(
            strategy,
            &value,
            encoded,
        ) ==> encoded == Some(text)
}

/// Encoding through an injector does not depend on earlier calls: where the
/// held strategy's outcome is fixed by the value, two calls of `serialize`
/// with the same value end the same way.
pub proof fn lemma_serialize_repeatable<S: Strategy, T: Serialize>(
    injector: &StrategyInjector<S>,
    value: T,
    first: Option<Seq<char>>,
    second: Option<Seq<char>>,
)
    requires
        encoding_is_fixed::<S, T>(&injector.strategy()),
        injector.serializes(value, first),
        injector.serializes(value, second),
    ensures
        first == second,
{
    lemma_serialize_transparent(injector, value, first);
    lemma_serialize_transparent(injector, value, second);
}

/// Decoding through an injector does not depend on earlier calls: where the
/// held strategy's outcome is fixed by the text, two calls of `deserialize`
/// with the same text end the same way.
pub proof fn lemma_deserialize_repeatable<'a, S: Strategy, R: Deserialize<'a>>(
    injector: &StrategyInjector<S>,
    text: Seq<char>,
    first: Option<R>,
    second: Option<R>,
)
    requires
        decoding_is_fixed::<S, R>(&injector.strategy()),
        injector.deserializes(text, first),
        injector.deserializes(text, second),
    ensures
        first == second,
{
    lemma_deserialize_transparent(injector, text, first);
    lemma_deserialize_transparent(injector, text, second);
}

/// Where the held strategy reads back what it wrote, so does the injector:
/// a text that `serialize` produced for a value is decoded by `deserialize`
/// to that value, and never to a failure.
pub proof fn lemma_injector_reads_back<'a, S: Strategy, T: Serialize + Deserialize<'a>>(
    injector: &StrategyInjector<S>,
    value: T,
    text: Seq<char>,
    decoded: Option<T>,
)
    requires
        reads_back_what_it_wrote::<S, T>(&injector.strategy()),
        injector.serializes(value, Some(text)),
        injector.deserializes(text, decoded),
    ensures
        decoded == Some(value),
{
    lemma_serialize_transparent(injector, value, Some(text));
    lemma_deserialize_transparent(injector, text, decoded);
}

/// Where the held strategy writes back what it read, so does the injector:
/// a value that `deserialize` read from a text is encoded by `serialize` to
/// that text, and never to a failure.
pub proof fn lemma_injector_writes_back<'a, S: Strategy, T: Serialize + Deserialize<'a>>(
    injector: &StrategyInjector<S>,
    text: Seq<char>,
    value: T,
    encoded: Option<Seq<char>>,
)
    requires
        writes_back_what_it_read::<S, T>(&injector.strategy()),
        injector.deserializes(text, Some(value)),
        injector.serializes(value, encoded),
    ensures
        encoded == Some(text),
{
    lemma_deserialize_transparent(injector, text, Some(value));
    lemma_serialize_transparent(injector, value, encoded);
}

} // verus!
