use vstd::prelude::*;

verus! {

pub open spec fn is_digit(c: char) -> bool {
    '0' as u32 <= c as u32 && c as u32 <= '9' as u32
}

pub open spec fn digit_value(c: char) -> int {
    c as u32 - '0' as u32
}

pub open spec fn two_digit_value(a: char, b: char) -> int {
    digit_value(a) * 10 + digit_value(b)
}

/// "HH:MM" on the 24-hour clock: hours 00 to 23, minutes 00 to 59.
pub open spec fn valid_time(s: Seq<char>) -> bool {
    &&& s.len() == 5
    &&& is_digit(s[0]) && is_digit(s[1]) && s[2] == ':' && is_digit(s[3]) && is_digit(s[4])
    &&& two_digit_value(s[0], s[1]) < 24
    &&& two_digit_value(s[3], s[4]) < 60
}

pub open spec fn chars3(s: Seq<char>, a: char, b: char, c: char) -> bool {
    s.len() == 3 && s[0] == a && s[1] == b && s[2] == c
}

/// One of the seven English weekday abbreviations.
pub open spec fn is_weekday(s: Seq<char>) -> bool {
    ||| chars3(s, 'M', 'o', 'n')
    ||| chars3(s, 'T', 'u', 'e')
    ||| chars3(s, 'W', 'e', 'd')
    ||| chars3(s, 'T', 'h', 'u')
    ||| chars3(s, 'F', 'r', 'i')
    ||| chars3(s, 'S', 'a', 't')
    ||| chars3(s, 'S', 'u', 'n')
}

/// Weekday abbreviations separated by single commas, at least one.
pub open spec fn valid_day_list(s: Seq<char>) -> bool
    decreases s.len(),
{
    if s.len() == 3 {
        is_weekday(s)
    } else if s.len() > 4 {
        is_weekday(s.take(3)) && s[3] == ',' && valid_day_list(s.skip(4))
    } else {
        false
    }
}

pub open spec fn is_daily(s: Seq<char>) -> bool {
    s.len() == 5 && s[0] == 'D' && s[1] == 'a' && s[2] == 'i' && s[3] == 'l' && s[4] == 'y'
}

/// "Daily", or a comma-separated list of weekday abbreviations.
pub open spec fn valid_days(s: Seq<char>) -> bool {
    is_daily(s) || valid_day_list(s)
}

fn is_digit_char(c: char) -> (r: bool)
    ensures
        r == is_digit(c),
{
    '0' as u32 <= c as u32 && c as u32 <= '9' as u32
}

/// Whether `time` reads "HH:MM" with an hour below 24 and a minute below 60.
pub fn is_valid_time(time: &str) -> (r: bool)
    ensures
        r == valid_time(time@),
{
    if time.unicode_len() != 5 {
        return false;
    }
    let h1 = time.get_char(0);
    let h2 = time.get_char(1);
    let sep = time.get_char(2);
    let m1 = time.get_char(3);
    let m2 = time.get_char(4);
    if !(is_digit_char(h1) && is_digit_char(h2) && sep == ':' && is_digit_char(m1)
        && is_digit_char(m2)) {
        return false;
    }
    let hours: u32 = (h1 as u32 - '0' as u32) * 10 + (h2 as u32 - '0' as u32);
    let minutes: u32 = (m1 as u32 - '0' as u32) * 10 + (m2 as u32 - '0' as u32);
    hours < 24 && minutes < 60
}

fn weekday_at(s: &str, p: usize) -> (r: bool)
    requires
        p + 3 <= s@.len() <= usize::MAX,
    ensures
        r == is_weekday(s@.subrange(p as int, p + 3)),
{
    let a = s.get_char(p);
    let b = s.get_char(p + 1);
    let c = s.get_char(p + 2);
    let ghost w = s@.subrange(p as int, p + 3);
    assert(w[0] == a && w[1] == b && w[2] == c);
    (a == 'M' && b == 'o' && c == 'n') || (a == 'T' && b == 'u' && c == 'e') || (a == 'W' && b
        == 'e' && c == 'd') || (a == 'T' && b == 'h' && c == 'u') || (a == 'F' && b == 'r' && c
        == 'i') || (a == 'S' && b == 'a' && c == 't') || (a == 'S' && b == 'u' && c == 'n')
}

/// Whether `days` is "Daily" or weekday abbreviations joined by commas.
pub fn is_valid_days(days: &str) -> (r: bool)
    ensures
        r == valid_days(days@),
{
    let n = days.unicode_len();
    if n == 5 && days.get_char(0) == 'D' && days.get_char(1) == 'a' && days.get_char(2) == 'i'
        && days.get_char(3) == 'l' && days.get_char(4) == 'y' {
        return true;
    }
    assert(!is_daily(days@));
    let ghost s = days@;
    let mut p: usize = 0;
    assert(s.skip(0) =~= s);
    loop
        invariant
            p <= n,
            n == s.len(),
            s == days@,
            !is_daily(s),
            valid_day_list(s) == valid_day_list(s.skip(p as int)),
        decreases n - p,
    {
        let ghost rest = s.skip(p as int);
        if n - p == 3 {
            assert(rest =~= s.subrange(p as int, p + 3));
            return weekday_at(days, p);
        } else if n - p > 4 {
            assert(rest.take(3) =~= s.subrange(p as int, p + 3));
            assert(rest.skip(4) =~= s.skip(p + 4));
            assert(rest[3] == s[p + 3]);
            if !weekday_at(days, p) || days.get_char(p + 3) != ',' {
                return false;
            }
            p = p + 4;
        } else {
            return false;
        }
    }
}

} // verus!
