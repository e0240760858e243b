use vstd::prelude::*;
use vstd::string::StringExecFns;

use crate::error::DomainViolation;
use crate::lexicon::{digit_yomi, ends_with, nonzero_digit_to_generic_yomi, push_tens, tens_yomi};

verus! {

/// The tens segment of an hour in `1..=23`.
pub open spec fn hour_tens_yomi(t: int) -> Seq<char> {
    if t == 0 {
        Seq::empty()
    } else if t == 1 {
        "juu "@
    } else {
        "ni-juu "@
    }
}

/// The reading of a nonzero ones digit of an hour.
pub open spec fn hour_ones_yomi(d: int) -> Seq<char> {
    if d == 4 {
        "yo"@
    } else if d == 7 {
        "shichi"@
    } else if d == 9 {
        "ku"@
    } else {
        digit_yomi(d)
    }
}

/// The reading of an hour in `0..=23`.
pub open spec fn hour_yomi(h: int) -> Seq<char> {
    if h == 0 {
        "rei ji"@
    } else if h % 10 == 0 {
        hour_tens_yomi(h / 10) + "ji"@
    } else {
        hour_tens_yomi(h / 10) + hour_ones_yomi(h % 10) + " "@ + "ji"@
    }
}

fn hour_ones_to_yomi(digit: u32) -> (r: &'static str)
    requires
        1 <= digit <= 9,
    ensures
        r@ == hour_ones_yomi(digit as int),
{
    match digit {
        4 => "yo",
        7 => "shichi",
        9 => "ku",
        _ => nonzero_digit_to_generic_yomi(digit),
    }
}

/// Renders an hour of the 24-hour clock in `0..=23`; any other hour is a
/// domain violation.
pub fn hour_to_yomi(hour: u32) -> (r: Result<String, DomainViolation>)
    ensures
        r is Ok <==> hour <= 23,
        r matches Ok(s) ==> s@ == hour_yomi(hour as int),
        r matches Err(e) ==> e == DomainViolation::Hour,
{
    if hour > 23 {
        return Err(DomainViolation::Hour);
    }
    if hour == 0 {
        return Ok(String::from_str("rei ji"));
    }
    let mut s = String::new();
    match hour / 10 {
        0 => {},
        1 => s.append("juu "),
        _ => s.append("ni-juu "),
    }
    let ones = hour % 10;
    if ones != 0 {
        s.append(hour_ones_to_yomi(ones));
        s.append(" ");
    }
    s.append("ji");
    Ok(s)
}

/// The reading of a nonzero ones digit of a minute fused with the counter
/// word, whose first sound changes with the digit before it.
pub open spec fn minute_ones_yomi(d: int) -> Seq<char> {
    if d == 1 {
        "ippun"@
    } else if d == 2 {
        "ni hun"@
    } else if d == 3 {
        "san hun"@
    } else if d == 4 {
        "yon hun"@
    } else if d == 5 {
        "go hun"@
    } else if d == 6 {
        "roppun"@
    } else if d == 7 {
        "nana hun"@
    } else if d == 8 {
        "happun"@
    } else {
        "kyu hun"@
    }
}

/// The reading of a minute in `0..=59`.
pub open spec fn minute_yomi(m: int) -> Seq<char> {
    if m == 0 {
        "rei hun"@
    } else if m == 10 {
        "juppun"@
    } else if m % 10 == 0 {
        digit_yomi(m / 10) + " juppun"@
    } else {
        tens_yomi(m / 10) + minute_ones_yomi(m % 10)
    }
}

fn minute_ones_to_yomi(digit: u32) -> (r: &'static str)
    requires
        1 <= digit <= 9,
    ensures
        r@ == minute_ones_yomi(digit as int),
{
    match digit {
        1 => "ippun",
        2 => "ni hun",
        3 => "san hun",
        4 => "yon hun",
        5 => "go hun",
        6 => "roppun",
        7 => "nana hun",
        8 => "happun",
        _ => "kyu hun",
    }
}

/// Renders a minute in `0..=59`; any other minute is a domain violation.
pub fn minute_to_yomi(minute: u32) -> (r: Result<String, DomainViolation>)
    ensures
        r is Ok <==> minute <= 59,
        r matches Ok(s) ==> s@ == minute_yomi(minute as int),
        r matches Err(e) ==> e == DomainViolation::Minute,
{
    if minute > 59 {
        return Err(DomainViolation::Minute);
    }
    let tens = minute / 10;
    let ones = minute % 10;
    if minute == 0 {
        Ok(String::from_str("rei hun"))
    } else if ones == 0 {
        if tens == 1 {
            Ok(String::from_str("juppun"))
        } else {
            let mut s = String::from_str(nonzero_digit_to_generic_yomi(tens));
            s.append(" juppun");
            Ok(s)
        }
    } else {
        let mut s = String::new();
        push_tens(&mut s, tens);
        s.append(minute_ones_to_yomi(ones));
        Ok(s)
    }
}

/// A minute that is a nonzero multiple of ten reads as "juppun" alone, or as
/// the generic reading of its tens digit followed by " juppun"; it always
/// ends with "juppun" and never takes the "-juu" form followed by a counter.
pub proof fn lemma_minute_tens_use_juppun(m: int)
    requires
        1 <= m <= 59,
        m % 10 == 0,
    ensures
        minute_yomi(m) == (if m == 10 {
            "juppun"@
        } else {
            digit_yomi(m / 10) + " juppun"@
        }),
        ends_with(minute_yomi(m), "juppun"@),
{
    reveal_strlit("juppun");
    reveal_strlit(" juppun");
    let r = minute_yomi(m);
    if m == 10 {
        assert(r.subrange(0, r.len() as int) =~= r);
    } else {
        assert(r.subrange(r.len() - 6, r.len() as int) =~= "juppun"@);
    }
}

/// The reading of a second in `0..=59`.
pub open spec fn second_yomi(v: int) -> Seq<char> {
    if v == 0 {
        "rei byou"@
    } else if v % 10 == 0 {
        tens_yomi(v / 10) + "byou"@
    } else {
        tens_yomi(v / 10) + digit_yomi(v % 10) + " "@ + "byou"@
    }
}

/// Renders a second in `0..=59`; any other second is a domain violation.
pub fn sec_to_yomi(sec: u32) -> (r: Result<String, DomainViolation>)
    ensures
        r is Ok <==> sec <= 59,
        r matches Ok(s) ==> s@ == second_yomi(sec as int),
        r matches Err(e) ==> e == DomainViolation::Second,
{
    if sec > 59 {
        return Err(DomainViolation::Second);
    }
    if sec == 0 {
        return Ok(String::from_str("rei byou"));
    }
    let mut s = String::new();
    push_tens(&mut s, sec / 10);
    let ones = sec % 10;
    if ones != 0 {
        s.append(nonzero_digit_to_generic_yomi(ones));
        s.append(" ");
    }
    s.append("byou");
    Ok(s)
}

} // verus!
