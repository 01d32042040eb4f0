//! What the ledger reports of an operation that it applied, and the line of
//! text that a host logs for it.

use crate::user::STARTING_POINTS;
use vstd::prelude::*;

verus! {

/// The notice of one applied operation.
#[derive(Clone, Copy, Debug, PartialEq, Eq, Structural)]
pub enum Event {
    /// A record was created under this id.
    Created { id: u32 },
    /// Points moved from the record `from` to the record `to`.
    Transferred { amount: u16, from: u32, to: u32 },
    /// The record under this id was removed.
    Closed { id: u32 },
}

/// The character for one decimal digit.
pub open spec fn digit(d: nat) -> char
    recommends
        d < 10,
{
    "0123456789"@[d as int]
}

/// A number in decimal, without sign or leading zeros.
pub open spec fn decimal(n: nat) -> Seq<char>
    decreases n,
{
    if n < 10 {
        seq![digit(n)]
    } else {
        decimal(n / 10) + seq![digit(n % 10)]
    }
}

fn digit_str(d: u32) -> (s: &'static str)
    requires
        d < 10,
    ensures
        s@ == seq![digit(d as nat)],
{
    let digits: &'static str = "0123456789";
    proof {
        reveal_strlit("0123456789");
    }
    let s = digits.substring_ascii(d as usize, d as usize + 1);
    assert(s@ =~= seq![digit(d as nat)]);
    s
}

fn append_decimal(text: &mut String, n: u32)
    ensures
        final(text)@ == old(text)@ + decimal(n as nat),
    decreases n,
{
    if n >= 10 {
        append_decimal(text, n / 10);
    }
    text.append(digit_str(n % 10));
}

impl Event {
    /// The line that describes this event.
    pub open spec fn text(&self) -> Seq<char> {
        match *self {
            Event::Created { id } => {
                "created user "@ + decimal(id as nat) + " with "@ + decimal(STARTING_POINTS as nat)
                    + " points"@
            },
            Event::Transferred { amount, from, to } => {
                "transferred "@ + decimal(amount as nat) + " from "@ + decimal(from as nat)
                    + " to "@ + decimal(to as nat)
            },
            Event::Closed { id } => "account closed for user "@ + decimal(id as nat),
        }
    }

    /// Writes out the line that describes this event.
    pub fn message(&self) -> (line: String)
        ensures
            line@ == self.text(),
    {
        match *self {
            Event::Created { id } => {
                let mut line = String::from_str("created user ");
                append_decimal(&mut line, id);
                line.append(" with ");
                append_decimal(&mut line, STARTING_POINTS as u32);
                line.append(" points");
                line
            },
            Event::Transferred { amount, from, to } => {
                let mut line = String::from_str("transferred ");
                append_decimal(&mut line, amount as u32);
                line.append(" from ");
                append_decimal(&mut line, from);
                line.append(" to ");
                append_decimal(&mut line, to);
                line
            },
            Event::Closed { id } => {
                let mut line = String::from_str("account closed for user ");
                append_decimal(&mut line, id);
                line
            },
        }
    }
}

} // verus!
