use vstd::prelude::*;

verus! {

/// A day of the week.
#[derive(Debug, Clone, Copy, PartialEq, Eq, Structural)]
pub enum Weekday {
    Mon,
    Tue,
    Wed,
    Thu,
    Fri,
    Sat,
    Sun,
}

/// The reading of a weekday: the day's word followed by "youbi".
pub open spec fn weekday_yomi(w: Weekday) -> Seq<char> {
    match w {
        Weekday::Mon => "getsu youbi"@,
        Weekday::Tue => "ka youbi"@,
        Weekday::Wed => "sui youbi"@,
        Weekday::Thu => "moku youbi"@,
        Weekday::Fri => "kin youbi"@,
        Weekday::Sat => "do youbi"@,
        Weekday::Sun => "nichi youbi"@,
    }
}

/// Renders a weekday; every weekday has a reading.
pub fn weekday_to_yomi(weekday: Weekday) -> (r: &'static str)
    ensures
        r@ == weekday_yomi(weekday),
{
    match weekday {
        Weekday::Mon => "getsu youbi",
        Weekday::Tue => "ka youbi",
        Weekday::Wed => "sui youbi",
        Weekday::Thu => "moku youbi",
        Weekday::Fri => "kin youbi",
        Weekday::Sat => "do youbi",
        Weekday::Sun => "nichi youbi",
    }
}

/// Distinct weekdays have distinct readings, so the seven readings are in
/// one-to-one correspondence with the seven weekdays.
pub proof fn lemma_weekday_yomi_injective(a: Weekday, b: Weekday)
    ensures
        weekday_yomi(a) == weekday_yomi(b) ==> a == b,
{
    reveal_strlit("getsu youbi");
    reveal_strlit("ka youbi");
    reveal_strlit("sui youbi");
    reveal_strlit("moku youbi");
    reveal_strlit("kin youbi");
    reveal_strlit("do youbi");
    reveal_strlit("nichi youbi");
    if weekday_yomi(a) == weekday_yomi(b) {
        assert(weekday_yomi(a)[0] == weekday_yomi(b)[0]);
        assert(weekday_yomi(a)[1] == weekday_yomi(b)[1]);
    }
}

} // verus!
