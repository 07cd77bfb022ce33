//! A guess between 1 and 100.
//!
//! A [`Guess`] can only be built by [`Guess::new`], which checks the
//! candidate against both bounds. A candidate outside the range is handed
//! back inside an [`OutOfRange`] that tells which bound it broke.

use crate::decimal::{decimal, push_decimal};
use crate::text::{lemma_occurs_between, occurs_in};
use vstd::prelude::*;
use vstd::string::*;

verus! {

/// The smallest value a guess may hold.
pub const MIN: i32 = 1;

/// The largest value a guess may hold.
pub const MAX: i32 = 100;

/// The bound that a rejected candidate broke.
#[derive(Clone, Copy, Debug, PartialEq, Eq, Structural)]
pub enum Bound {
    /// The candidate was smaller than [`MIN`].
    Lower,
    /// The candidate was larger than [`MAX`].
    Upper,
}

/// Why a candidate was rejected: the candidate itself and the bound it broke.
#[derive(Clone, Copy, Debug, PartialEq, Eq, Structural)]
pub struct OutOfRange {
    /// The value that was offered.
    pub candidate: i32,
    /// The bound that `candidate` lies beyond.
    pub bound: Bound,
}

impl OutOfRange {
    /// The limit that the candidate lies beyond.
    pub open spec fn limit(&self) -> int {
        match self.bound {
            Bound::Lower => MIN as int,
            Bound::Upper => MAX as int,
        }
    }

    /// The text of [`OutOfRange::message`]: which limit holds, then the
    /// candidate that broke it, both in decimal.
    pub open spec fn message_text(&self) -> Seq<char> {
        match self.bound {
            Bound::Lower => "Guess value must be greater than or equal to "@ + decimal(MIN as int)
                + ", got "@ + decimal(self.candidate as int) + "."@,
            Bound::Upper => "Guess value must be less than or equal to "@ + decimal(MAX as int)
                + ", got "@ + decimal(self.candidate as int),
        }
    }

    /// A sentence for a person to read. For the candidate 200 it is
    /// `Guess value must be less than or equal to 100, got 200`, for -5 it is
    /// `Guess value must be greater than or equal to 1, got -5.`
    pub fn message(&self) -> (text: String)
        ensures
            text@ == self.message_text(),
    {
        match self.bound {
            Bound::Lower => {
                let mut text = String::from_str("Guess value must be greater than or equal to ");
                push_decimal(&mut text, MIN);
                text.append(", got ");
                push_decimal(&mut text, self.candidate);
                text.append(".");
                text
            },
            Bound::Upper => {
                let mut text = String::from_str("Guess value must be less than or equal to ");
                push_decimal(&mut text, MAX);
                text.append(", got ");
                push_decimal(&mut text, self.candidate);
                text
            },
        }
    }

    /// The message always names, in decimal, both the limit that was broken
    /// and the candidate that broke it.
    pub proof fn lemma_message_names_limit_and_candidate(&self)
        ensures
            occurs_in(decimal(self.limit()), self.message_text()),
            occurs_in(decimal(self.candidate as int), self.message_text()),
    {
        let got = ", got "@;
        let candidate = decimal(self.candidate as int);
        match self.bound {
            Bound::Lower => {
                let head = "Guess value must be greater than or equal to "@;
                let limit = decimal(MIN as int);
                let tail = "."@;
                assert(self.message_text() =~= head + limit + (got + candidate + tail));
                lemma_occurs_between(head, limit, got + candidate + tail);
                assert(self.message_text() =~= (head + limit + got) + candidate + tail);
                lemma_occurs_between(head + limit + got, candidate, tail);
            },
            Bound::Upper => {
                let head = "Guess value must be less than or equal to "@;
                let limit = decimal(MAX as int);
                assert(self.message_text() =~= head + limit + (got + candidate));
                lemma_occurs_between(head, limit, got + candidate);
                assert(self.message_text() =~= (head + limit + got) + candidate + Seq::empty());
                lemma_occurs_between(head + limit + got, candidate, Seq::empty());
            },
        }
    }
}

/// An integer that is known to lie between [`MIN`] and [`MAX`], both included.
#[derive(Debug)]
pub struct Guess {
    value: i32,
}

impl View for Guess {
    type V = int;

    /// The integer that the guess holds.
    open spec fn view(&self) -> int {
        self.spec_get() as int
    }
}

impl Guess {
    #[verifier::type_invariant]
    spec fn in_range(&self) -> bool {
        MIN <= self.value <= MAX
    }

    /// What [`Guess::get`] returns; it is what `get` means inside a contract.
    pub closed spec fn spec_get(&self) -> i32 {
        self.value
    }

    /// Checks `value` against both bounds and wraps it if it passes.
    ///
    /// A value from 1 to 100 is accepted, and `get` on the guess returns it.
    /// A value below 1 is rejected for the lower bound, a value above 100 for
    /// the upper one; the rejection carries the value.
    pub fn new(value: i32) -> (result: Result<Guess, OutOfRange>)
        ensures
            MIN <= value <= MAX ==> result is Ok && result->Ok_0.get() == value,
            value < MIN ==> result == Err::<Guess, OutOfRange>(
                OutOfRange { candidate: value, bound: Bound::Lower },
            ),
            value > MAX ==> result == Err::<Guess, OutOfRange>(
                OutOfRange { candidate: value, bound: Bound::Upper },
            ),
    {
        if value < MIN {
            Err(OutOfRange { candidate: value, bound: Bound::Lower })
        } else if value > MAX {
            Err(OutOfRange { candidate: value, bound: Bound::Upper })
        } else {
            Ok(Guess { value })
        }
    }

    /// The value that was accepted when the guess was built. Reading changes
    /// nothing: every call on the same guess returns the same value, and
    /// that value is within the bounds.
    #[verifier::when_used_as_spec(spec_get)]
    pub fn get(&self) -> (value: i32)
        ensures
            value == self.get(),
            value == self@,
            MIN <= value <= MAX,
    {
        proof {
            use_type_invariant(self);
        }
        self.value
    }
}

} // verus!
