//! The injector: a holder of one strategy that offers the strategy's two
//! operations and forwards each call to it.

use crate::strategy::{decodes, encodes, text_of, Strategy};
use serde::{Deserialize, Serialize};
use vstd::prelude::*;

verus! {

/// Holds exactly one strategy, from construction on, and forwards typed calls
/// to it. It has no state of its own beside the strategy.
pub struct StrategyInjector<S: Strategy> {
    strategy: S,
}

impl<S: Strategy> StrategyInjector<S> {
    /// The strategy that this injector holds.
    pub closed spec fn strategy(&self) -> S {
        self.strategy
    }

    /// Whether `serialize`, called with `value`, can end in `outcome`: what
    /// `serialize` promises of its result, read on the text's characters.
    pub open spec fn serializes<T: Serialize>(&self, value: T, outcome: Option<Seq<char>>) -> bool {
        exists|encoded: Option<String>|
            text_of(encoded) == outcome && #[trigger] call_ensures(
                Self::serialize::<T>,
                (self, value),
                encoded,
            )
    }

    /// Whether `deserialize`, called with `text` for a `R`, can end in
    /// `outcome`: what `deserialize` promises of its result, read on the
    /// text's characters.
    pub open spec fn deserializes<'a, R: Deserialize<'a>>(
        &self,
        text: Seq<char>,
        outcome: Option<R>,
    ) -> bool {
        exists|s: &'a str|
            s@ == text && #[trigger] call_ensures(Self::deserialize::<R>, (self, s), outcome)
    }

    /// Makes an injector that holds `strategy`. This cannot fail.
    pub fn new(strategy: S) -> (injector: StrategyInjector<S>)
        ensures
            injector.strategy() == strategy,
    {
        Self { strategy }
    }

    /// Encodes `value` through the held strategy and hands back what the
    /// strategy returned, unchanged.
    pub fn serialize<T: Serialize>(&self, value: T) -> (encoded: Option<String>)
        ensures
            encodes(&self.strategy(), &value, text_of(encoded)),
    {
        self.strategy.serialize(&value)
    }

    /// Decodes `s` through the held strategy and hands back what the strategy
    /// returned, unchanged.
    pub fn deserialize<'a, R: Deserialize<'a>>(&self, s: &'a str) -> (decoded: Option<R>)
        ensures
            decodes(&self.strategy(), s@, decoded),
    {
        self.strategy.deserialize(s)
    }
}

} // verus!
