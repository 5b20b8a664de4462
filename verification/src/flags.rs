//! How the generated `get` turns the two flags into a variant.

use vstd::prelude::*;

verus! {

/// Which of the enum's two variants a flag selects: the first variant
/// (`Positive`, flag `--name`) or the second (`Negative`, flag `--no-name`).
#[derive(Clone, Copy, Debug, PartialEq, Eq, Structural)]
pub enum Polarity {
    Positive,
    Negative,
}

/// The variant that the generated `get` returns for the two flags: the first
/// variant when the positive flag is set, else the second variant when the
/// negative flag is set, else none. The generated `get` is written out as a
/// match with one arm per combination of the flags, each arm taken from this
/// function.
pub fn flag_choice(positive: bool, negative: bool) -> (r: Option<Polarity>)
    ensures
        r == (if positive {
            Some(Polarity::Positive)
        } else if negative {
            Some(Polarity::Negative)
        } else {
            None
        }),
{
    match (positive, negative) {
        (true, _) => Some(Polarity::Positive),
        (_, true) => Some(Polarity::Negative),
        _ => None,
    }
}

} // verus!
