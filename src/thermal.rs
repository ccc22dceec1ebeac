//! Keys of thermal sensors.

use vstd::prelude::*;

verus! {

/// What `str::to_uppercase` makes of a text.
pub uninterp spec fn upper_of(s: Seq<char>) -> Seq<char>;

/// Relies on str::to_uppercase: the result depends on the characters alone.
#[verifier::external_body]
fn uppercase(s: &str) -> (r: String)
    ensures
        r@ == upper_of(s@),
{
    s.to_uppercase()
}

/// `s` with each space turned into an underscore.
pub open spec fn spaces_to_underscores(s: Seq<char>) -> Seq<char> {
    s.map_values(|c: char| if c == ' ' { '_' } else { c })
}

/// Relies on str::replace: each space becomes an underscore, every other
/// character stays as it is.
#[verifier::external_body]
fn underscore_spaces(s: &str) -> (r: String)
    ensures
        r@ == spaces_to_underscores(s@),
{
    s.replace(' ', "_")
}

/// The key of a sensor whose label has already been upper-cased.
pub fn key_from_upper(upper: &str) -> (r: String)
    ensures
        r@ == spaces_to_underscores(upper@),
{
    underscore_spaces(upper)
}

/// The key of a sensor: its label upper-cased, with spaces turned into
/// underscores.
pub fn sensor_key(label: &str) -> (r: String)
    ensures
        r@ == spaces_to_underscores(upper_of(label@)),
{
    let upper = uppercase(label);
    key_from_upper(upper.as_str())
}

} // verus!
