use vstd::prelude::*;
use vstd::string::StringExecFns;

verus! {

/// The generic reading of a nonzero decimal digit: the reading used for a
/// digit in any position that has no irregular form of its own.
pub open spec fn digit_yomi(d: int) -> Seq<char>
    recommends
        1 <= d <= 9,
{
    if d == 1 {
        "ichi"@
    } else if d == 2 {
        "ni"@
    } else if d == 3 {
        "san"@
    } else if d == 4 {
        "yon"@
    } else if d == 5 {
        "go"@
    } else if d == 6 {
        "roku"@
    } else if d == 7 {
        "nana"@
    } else if d == 8 {
        "hachi"@
    } else {
        "kyu"@
    }
}

/// `s` ends with `suffix`.
pub open spec fn ends_with(s: Seq<char>, suffix: Seq<char>) -> bool {
    suffix.len() <= s.len() && s.subrange(s.len() - suffix.len(), s.len() as int) == suffix
}

/// Returns the generic reading of a digit in `1..=9`.
pub fn nonzero_digit_to_generic_yomi(digit: u32) -> (r: &'static str)
    requires
        1 <= digit <= 9,
    ensures
        r@ == digit_yomi(digit as int),
{
    match digit {
        1 => "ichi",
        2 => "ni",
        3 => "san",
        4 => "yon",
        5 => "go",
        6 => "roku",
        7 => "nana",
        8 => "hachi",
        _ => "kyu",
    }
}

/// The tens segment shared by years, minutes and seconds: empty for 0,
/// "juu " for 1, else the digit's reading joined to "-juu ".
pub open spec fn tens_yomi(t: int) -> Seq<char> {
    if t == 0 {
        Seq::empty()
    } else if t == 1 {
        "juu "@
    } else {
        digit_yomi(t) + "-juu "@
    }
}

/// Appends the tens segment of a year, a minute or a second.
pub(crate) fn push_tens(s: &mut String, t: u32)
    requires
        t <= 9,
    ensures
        final(s)@ == old(s)@ + tens_yomi(t as int),
{
    match t {
        0 => {},
        1 => s.append("juu "),
        v => {
            s.append(nonzero_digit_to_generic_yomi(v));
            s.append("-juu ");
        },
    }
}

} // verus!
