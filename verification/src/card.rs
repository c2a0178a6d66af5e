//! How many values a property may hold.

use crate::text::{decimal, decimal_string};
use vstd::prelude::*;
use vstd::string::*;

verus! {

/// The upper end of a range.
#[derive(Debug, Clone, Copy, PartialEq, Eq, Hash, Structural)]
pub enum Max {
    /// At most this many.
    Bounded(usize),
    /// No upper limit.
    Unbounded,
}

/// The number of values that a property is allowed to hold.
#[derive(Debug, Clone, Copy, PartialEq, Eq, Hash, Structural)]
pub enum Card {
    /// Exactly one value.
    One,
    /// No value or one.
    ZeroOrOne,
    /// Any number of values.
    ZeroOrMore,
    /// At least one value.
    OneOrMore,
    /// At least the first number of values and at most the second.
    Range(usize, Max),
}

impl Card {
    /// The cardinality "from `min` to `max`".
    pub fn range(min: usize, max: Max) -> (card: Card)
        ensures
            card == Card::Range(min, max),
    {
        Card::Range(min, max)
    }

    /// Whether a property with this cardinality may hold `count` values.
    pub open spec fn admits(self, count: nat) -> bool {
        match self {
            Card::One => count == 1,
            Card::ZeroOrOne => count <= 1,
            Card::ZeroOrMore => true,
            Card::OneOrMore => count >= 1,
            Card::Range(min, Max::Bounded(max)) => min <= count <= max,
            Card::Range(min, Max::Unbounded) => min <= count,
        }
    }

    /// The cardinality as it is printed: `1`, `?`, `*`, `+`, or the two ends
    /// of a range in braces, with `*` for an open upper end.
    pub open spec fn render(self) -> Seq<char> {
        match self {
            Card::One => "1"@,
            Card::ZeroOrOne => "?"@,
            Card::ZeroOrMore => "*"@,
            Card::OneOrMore => "+"@,
            Card::Range(min, Max::Bounded(max)) => "{"@ + decimal(min as nat) + ","@ + decimal(
                max as nat,
            ) + "}"@,
            Card::Range(min, Max::Unbounded) => "{"@ + decimal(min as nat) + ",*}"@,
        }
    }

    /// Writes the cardinality out.
    pub fn to_string(&self) -> (s: String)
        ensures
            s@ == self.render(),
    {
        match self {
            Card::One => String::from_str("1"),
            Card::ZeroOrOne => String::from_str("?"),
            Card::ZeroOrMore => String::from_str("*"),
            Card::OneOrMore => String::from_str("+"),
            Card::Range(min, Max::Bounded(max)) => {
                let mut s = String::from_str("{");
                s.append(decimal_string(*min as u64).as_str());
                s.append(",");
                s.append(decimal_string(*max as u64).as_str());
                s.append("}");
                s
            },
            Card::Range(min, Max::Unbounded) => {
                let mut s = String::from_str("{");
                s.append(decimal_string(*min as u64).as_str());
                s.append(",*}");
                s
            },
        }
    }

    /// Decides whether `count` values satisfy this cardinality.
    pub fn contains(&self, count: usize) -> (r: bool)
        ensures
            r == self.admits(count as nat),
    {
        match self {
            Card::One => count == 1,
            Card::ZeroOrOne => count <= 1,
            Card::ZeroOrMore => true,
            Card::OneOrMore => count >= 1,
            Card::Range(min, Max::Bounded(max)) => *min <= count && count <= *max,
            Card::Range(min, Max::Unbounded) => *min <= count,
        }
    }
}

} // verus!
