use vstd::prelude::*;
use vstd::string::StringExecFns;

use crate::error::DomainViolation;
use crate::lexicon::{digit_yomi, ends_with, nonzero_digit_to_generic_yomi, push_tens, tens_yomi};

verus! {

/// The thousands segment of a year: empty for 0, else the reading of the
/// thousands followed by one space.
pub open spec fn year_thousands_yomi(t: int) -> Seq<char> {
    if t == 0 {
        Seq::empty()
    } else if t == 1 {
        "sen "@
    } else if t == 3 {
        "san-zen "@
    } else if t == 8 {
        "hassen "@
    } else {
        digit_yomi(t) + "-sen "@
    }
}

/// The hundreds segment of a year: empty for 0, else the reading of the
/// hundreds followed by one space.
pub open spec fn year_hundreds_yomi(h: int) -> Seq<char> {
    if h == 0 {
        Seq::empty()
    } else if h == 1 {
        "hyaku "@
    } else if h == 3 {
        "san-byaku "@
    } else if h == 6 {
        "roppyaku "@
    } else if h == 8 {
        "happyaku "@
    } else {
        digit_yomi(h) + "-hyaku "@
    }
}

/// The reading of a nonzero ones digit of a year.
pub open spec fn year_ones_yomi(d: int) -> Seq<char> {
    if d == 4 {
        "yo"@
    } else if d == 9 {
        "ku"@
    } else {
        digit_yomi(d)
    }
}

/// The segment for the last two digits `v` of a year, taken as a unit.
pub open spec fn year_tail_yomi(v: int) -> Seq<char> {
    if v == 0 {
        Seq::empty()
    } else if v < 10 {
        year_ones_yomi(v) + " "@
    } else if v % 10 == 0 {
        tens_yomi(v / 10)
    } else {
        tens_yomi(v / 10) + year_ones_yomi(v % 10) + " "@
    }
}

/// The reading of a year in `1..=9999`.
pub open spec fn year_yomi(y: int) -> Seq<char> {
    year_thousands_yomi(y / 1000) + year_hundreds_yomi((y % 1000) / 100) + year_tail_yomi(y % 100)
        + "nen"@
}

fn push_year_thousands(s: &mut String, t: u32)
    requires
        t <= 9,
    ensures
        final(s)@ == old(s)@ + year_thousands_yomi(t as int),
{
    match t {
        0 => {},
        1 => s.append("sen "),
        3 => s.append("san-zen "),
        8 => s.append("hassen "),
        v => {
            s.append(nonzero_digit_to_generic_yomi(v));
            s.append("-sen ");
        },
    }
}

fn push_year_hundreds(s: &mut String, h: u32)
    requires
        h <= 9,
    ensures
        final(s)@ == old(s)@ + year_hundreds_yomi(h as int),
{
    match h {
        0 => {},
        1 => s.append("hyaku "),
        3 => s.append("san-byaku "),
        6 => s.append("roppyaku "),
        8 => s.append("happyaku "),
        v => {
            s.append(nonzero_digit_to_generic_yomi(v));
            s.append("-hyaku ");
        },
    }
}

fn year_ones_to_yomi(digit: u32) -> (r: &'static str)
    requires
        1 <= digit <= 9,
    ensures
        r@ == year_ones_yomi(digit as int),
{
    match digit {
        4 => "yo",
        9 => "ku",
        _ => nonzero_digit_to_generic_yomi(digit),
    }
}

/// Renders a year in `1..=9999`; any other year is a domain violation.
pub fn positive_year_to_yomi(year: u32) -> (r: Result<String, DomainViolation>)
    ensures
        r is Ok <==> 1 <= year <= 9999,
        r matches Ok(s) ==> s@ == year_yomi(year as int),
        r matches Err(e) ==> e == DomainViolation::Year,
{
    if year < 1 || year > 9999 {
        return Err(DomainViolation::Year);
    }
    let mut s = String::new();
    push_year_thousands(&mut s, year / 1000);
    push_year_hundreds(&mut s, (year % 1000) / 100);
    let tail = year % 100;
    if tail != 0 {
        if tail < 10 {
            s.append(year_ones_to_yomi(tail));
            s.append(" ");
        } else {
            push_tens(&mut s, tail / 10);
            let ones = tail % 10;
            if ones != 0 {
                s.append(year_ones_to_yomi(ones));
                s.append(" ");
            }
        }
    }
    s.append("nen");
    Ok(s)
}

/// A segment of a year's reading: empty, or ending in a space.
spec fn is_segment(s: Seq<char>) -> bool {
    s.len() == 0 || s.last() == ' '
}

proof fn lemma_join_segments(a: Seq<char>, b: Seq<char>)
    requires
        is_segment(a),
        is_segment(b),
    ensures
        is_segment(a + b),
        (a + b).len() == a.len() + b.len(),
{
    if b.len() == 0 {
        assert(a + b =~= a);
    }
}

proof fn lemma_year_segments(y: int)
    requires
        1 <= y <= 9999,
    ensures
        is_segment(year_thousands_yomi(y / 1000)),
        is_segment(year_hundreds_yomi((y % 1000) / 100)),
        is_segment(year_tail_yomi(y % 100)),
        year_thousands_yomi(y / 1000).len() + year_hundreds_yomi((y % 1000) / 100).len()
            + year_tail_yomi(y % 100).len() > 0,
{
    reveal_strlit(" ");
    reveal_strlit("sen ");
    reveal_strlit("san-zen ");
    reveal_strlit("hassen ");
    reveal_strlit("-sen ");
    reveal_strlit("hyaku ");
    reveal_strlit("san-byaku ");
    reveal_strlit("roppyaku ");
    reveal_strlit("happyaku ");
    reveal_strlit("-hyaku ");
    reveal_strlit("juu ");
    reveal_strlit("-juu ");
    let v = y % 100;
    if v >= 10 {
        let t = tens_yomi(v / 10);
        assert(is_segment(t));
        assert(t.len() > 0);
        if v % 10 != 0 {
            let o = year_ones_yomi(v % 10) + " "@;
            assert(is_segment(o));
            lemma_join_segments(t, o);
            assert(year_tail_yomi(v) == t + o);
        }
    }
}

/// Every year in `1..=9999` has a reading, and that reading ends with the
/// counter word "nen" after a space.
pub proof fn lemma_year_yomi_ends_with_nen(y: int)
    requires
        1 <= y <= 9999,
    ensures
        ends_with(year_yomi(y), " nen"@),
{
    reveal_strlit("nen");
    reveal_strlit(" nen");
    lemma_year_segments(y);
    let a = year_thousands_yomi(y / 1000);
    let b = year_hundreds_yomi((y % 1000) / 100);
    let c = year_tail_yomi(y % 100);
    lemma_join_segments(a, b);
    lemma_join_segments(a + b, c);
    let p = a + b + c;
    let r = year_yomi(y);
    assert(r == p + "nen"@);
    assert(r.subrange(r.len() - 4, r.len() as int) =~= " nen"@);
}

/// The reading of a month number before its counter word.
pub open spec fn month_word_yomi(m: int) -> Seq<char> {
    if m == 4 {
        "shi"@
    } else if m == 7 {
        "shichi"@
    } else if m == 9 {
        "ku"@
    } else if m == 10 {
        "juu"@
    } else if m == 11 {
        "juu-ichi"@
    } else if m == 12 {
        "juu-ni"@
    } else {
        digit_yomi(m)
    }
}

/// The reading of a month in `1..=12`.
pub open spec fn month_yomi(m: int) -> Seq<char> {
    month_word_yomi(m) + " gatsu"@
}

/// Renders a month in `1..=12`; any other month is a domain violation.
pub fn month_to_yomi(month: u32) -> (r: Result<String, DomainViolation>)
    ensures
        r is Ok <==> 1 <= month <= 12,
        r matches Ok(s) ==> s@ == month_yomi(month as int),
        r matches Err(e) ==> e == DomainViolation::Month,
{
    let word = match month {
        4 => "shi",
        7 => "shichi",
        9 => "ku",
        10 => "juu",
        11 => "juu-ichi",
        12 => "juu-ni",
        v => {
            if v < 1 || v > 9 {
                return Err(DomainViolation::Month);
            }
            nonzero_digit_to_generic_yomi(v)
        },
    };
    let mut s = String::from_str(word);
    s.append(" gatsu");
    Ok(s)
}

/// The reading of a day in `1..=10`: a word that already holds its counter.
pub open spec fn day_word_yomi(d: int) -> Seq<char> {
    if d == 1 {
        "tsuitachi"@
    } else if d == 2 {
        "futsuka"@
    } else if d == 3 {
        "mikka"@
    } else if d == 4 {
        "yokka"@
    } else if d == 5 {
        "itsuka"@
    } else if d == 6 {
        "muika"@
    } else if d == 7 {
        "nanoka"@
    } else if d == 8 {
        "youka"@
    } else if d == 9 {
        "kokonoka"@
    } else {
        "touka"@
    }
}

/// The tens segment of a day in `11..=31`.
pub open spec fn day_tens_yomi(t: int) -> Seq<char> {
    if t == 1 {
        "juu "@
    } else if t == 2 {
        "ni-juu "@
    } else {
        "san-juu "@
    }
}

/// The reading of a nonzero ones digit of a day.
pub open spec fn day_ones_yomi(d: int) -> Seq<char> {
    if d == 7 {
        "shichi"@
    } else if d == 9 {
        "ku"@
    } else {
        digit_yomi(d)
    }
}

/// The reading of a day in `1..=31`.
pub open spec fn day_yomi(d: int) -> Seq<char> {
    if d <= 10 {
        day_word_yomi(d)
    } else if d == 14 {
        "juu yokka"@
    } else if d == 20 {
        "hatsuka"@
    } else if d == 24 {
        "ni-juu yokka"@
    } else if d % 10 == 0 {
        day_tens_yomi(d / 10) + "nichi"@
    } else {
        day_tens_yomi(d / 10) + day_ones_yomi(d % 10) + " "@ + "nichi"@
    }
}

fn day_word_to_yomi(day: u32) -> (r: &'static str)
    requires
        1 <= day <= 10,
    ensures
        r@ == day_word_yomi(day as int),
{
    match day {
        1 => "tsuitachi",
        2 => "futsuka",
        3 => "mikka",
        4 => "yokka",
        5 => "itsuka",
        6 => "muika",
        7 => "nanoka",
        8 => "youka",
        9 => "kokonoka",
        _ => "touka",
    }
}

fn day_ones_to_yomi(digit: u32) -> (r: &'static str)
    requires
        1 <= digit <= 9,
    ensures
        r@ == day_ones_yomi(digit as int),
{
    match digit {
        7 => "shichi",
        9 => "ku",
        _ => nonzero_digit_to_generic_yomi(digit),
    }
}

/// Renders a day of the month in `1..=31`; any other day is a domain
/// violation.
pub fn day_to_yomi(day: u32) -> (r: Result<String, DomainViolation>)
    ensures
        r is Ok <==> 1 <= day <= 31,
        r matches Ok(s) ==> s@ == day_yomi(day as int),
        r matches Err(e) ==> e == DomainViolation::Day,
{
    if day < 1 || day > 31 {
        return Err(DomainViolation::Day);
    }
    if day <= 10 {
        return Ok(String::from_str(day_word_to_yomi(day)));
    }
    match day {
        14 => Ok(String::from_str("juu yokka")),
        20 => Ok(String::from_str("hatsuka")),
        24 => Ok(String::from_str("ni-juu yokka")),
        v => {
            let mut s = String::from_str(
                match v / 10 {
                    1 => "juu ",
                    2 => "ni-juu ",
                    _ => "san-juu ",
                },
            );
            let ones = v % 10;
            if ones != 0 {
                s.append(day_ones_to_yomi(ones));
                s.append(" ");
            }
            s.append("nichi");
            Ok(s)
        },
    }
}

} // verus!
