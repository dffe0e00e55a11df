//! RFC 3339 timestamps in UTC with millisecond precision, from epoch
//! milliseconds, on the proleptic Gregorian calendar.
use vstd::prelude::*;
use vstd::arithmetic::div_mod::{lemma_fundamental_div_mod, lemma_fundamental_div_mod_converse_div, lemma_fundamental_div_mod_converse_mod};
use crate::text::{decimal, fixed_digits, fixed_text, u64_text};

verus! {

pub const MS_PER_DAY: u128 = 86400000;
/// Days in a 400-year Gregorian era.
pub const DAYS_PER_ERA: u128 = 146097;
/// Whole eras added before dividing, so every quantity is non-negative.
pub const ERA_SHIFT: u128 = 800000;

/// The civil (year, month, day) of a day count since 1970-01-01, by the
/// era decomposition of the proleptic Gregorian calendar.
pub open spec fn civil_from_days(days: int) -> (int, int, int) {
    let z = days + 719468;
    let era = z / 146097;
    let doe = z % 146097;
    let yoe = (doe - doe / 1460 + doe / 36524 - doe / 146096) / 365;
    let doy = doe - (365 * yoe + yoe / 4 - yoe / 100);
    let mp = (5 * doy + 2) / 153;
    let d = doy - (153 * mp + 2) / 5 + 1;
    let m = if mp < 10 { mp + 3 } else { mp - 9 };
    (yoe + era * 400 + (if m <= 2 { 1int } else { 0 }), m, d)
}

/// The day count since 1970-01-01 of a civil date.
pub open spec fn days_from_civil(y: int, m: int, d: int) -> int {
    let y1 = if m <= 2 { y - 1 } else { y };
    let era = y1 / 400;
    let yoe = y1 - era * 400;
    let mp = if m > 2 { m - 3 } else { m + 9 };
    let doy = (153 * mp + 2) / 5 + d - 1;
    let doe = yoe * 365 + yoe / 4 - yoe / 100 + doy;
    era * 146097 + doe - 719468
}

/// A year as RFC 3339 writes it: four digits, with a sign outside 0000..=9999.
pub open spec fn year_text(y: int) -> Seq<char> {
    if 0 <= y <= 9999 {
        fixed_digits(y as nat, 4)
    } else if y > 9999 {
        seq!['+'] + decimal(y as nat)
    } else if -y <= 9999 {
        seq!['-'] + fixed_digits((-y) as nat, 4)
    } else {
        seq!['-'] + decimal((-y) as nat)
    }
}

/// `YYYY-MM-DDTHH:MM:SS.mmmZ` of an instant given in epoch milliseconds.
pub open spec fn rfc3339_text(epoch_ms: int) -> Seq<char> {
    let days = epoch_ms / 86400000;
    let ms = epoch_ms % 86400000;
    let c = civil_from_days(days);
    year_text(c.0) + seq!['-'] + fixed_digits(c.1 as nat, 2) + seq!['-'] + fixed_digits(c.2 as nat, 2) + seq!['T']
        + fixed_digits((ms / 3600000) as nat, 2) + seq![':'] + fixed_digits(((ms / 60000) % 60) as nat, 2) + seq![':']
        + fixed_digits(((ms / 1000) % 60) as nat, 2) + seq!['.'] + fixed_digits((ms % 1000) as nat, 3) + seq!['Z']
}


pub open spec fn yoe_of(doe: int) -> int {
    (doe - doe / 1460 + doe / 36524 - doe / 146096) / 365
}

pub open spec fn doy_of(doe: int) -> int {
    doe - (365 * yoe_of(doe) + yoe_of(doe) / 4 - yoe_of(doe) / 100)
}

proof fn lemma_era_day_bounds(doe: int)
    requires
        0 <= doe < 146097,
    ensures
        0 <= yoe_of(doe) <= 399,
        0 <= doy_of(doe) <= 365,
{
    assert(0 <= yoe_of(doe) <= 399 && 0 <= doy_of(doe) <= 365) by (nonlinear_arith)
        requires
            0 <= doe < 146097,
    ;
}


proof fn lemma_month_day_bounds(doy: int)
    requires
        0 <= doy <= 365,
    ensures
        0 <= (5 * doy + 2) / 153 <= 11,
        1 <= doy - (153 * ((5 * doy + 2) / 153) + 2) / 5 + 1 <= 31,
{
    assert(0 <= (5 * doy + 2) / 153 <= 11 && 1 <= doy - (153 * ((5 * doy + 2) / 153) + 2) / 5 + 1 <= 31) by (nonlinear_arith)
        requires
            0 <= doy <= 365,
    ;
}

fn year_string(y: i128) -> (s: String)
    requires
        -400000000000 <= y <= 400000000000,
    ensures
        s@ == year_text(y as int),
{
    if 0 <= y && y <= 9999 {
        fixed_text(y as u64, 4)
    } else if y > 9999 {
        let mut s = String::from_str("+");
        proof {
            reveal_strlit("+");
        }
        let d = u64_text(y as u64);
        s.append(d.as_str());
        s
    } else {
        let mut s = String::from_str("-");
        proof {
            reveal_strlit("-");
        }
        let magnitude = (-y) as u64;
        let d = if magnitude <= 9999 { fixed_text(magnitude, 4) } else { u64_text(magnitude) };
        s.append(d.as_str());
        s
    }
}

fn push_char_text(s: &mut String, c: &str)
    ensures
        final(s)@ == old(s)@ + c@,
{
    s.append(c);
}

/// The RFC 3339 text of an instant in epoch milliseconds, in UTC with
/// millisecond precision (`2026-01-01T00:00:00.000Z`).
pub fn rfc3339_millis(epoch_ms: i64) -> (s: String)
    ensures
        s@ == rfc3339_text(epoch_ms as int),
{
    let shift: i128 = 10098224640000000000;
    let x: u128 = (epoch_ms as i128 + shift) as u128;
    let ds = x / MS_PER_DAY;
    let msd = x % MS_PER_DAY;
    let ghost days = epoch_ms as int / 86400000;
    let ghost ms = epoch_ms as int % 86400000;
    proof {
        lemma_fundamental_div_mod(epoch_ms as int, 86400000);
        assert(x as int == (days + 116877600000) * 86400000 + ms) by (nonlinear_arith)
            requires
                x as int == epoch_ms as int + 10098224640000000000,
                epoch_ms as int == 86400000 * days + ms,
        ;
        lemma_fundamental_div_mod_converse_div(x as int, 86400000, days + 116877600000, ms);
        lemma_fundamental_div_mod_converse_mod(x as int, 86400000, days + 116877600000, ms);
    }
    let zs: u128 = ds + 719468;
    let era_s = zs / DAYS_PER_ERA;
    let doe = zs % DAYS_PER_ERA;
    let ghost z = days + 719468;
    proof {
        lemma_fundamental_div_mod(z, 146097);
        assert(zs as int == (z / 146097 + 800000) * 146097 + z % 146097) by (nonlinear_arith)
            requires
                zs as int == z + 116877600000,
                z == 146097 * (z / 146097) + z % 146097,
        ;
        lemma_fundamental_div_mod_converse_div(zs as int, 146097, z / 146097 + 800000, z % 146097);
        lemma_fundamental_div_mod_converse_mod(zs as int, 146097, z / 146097 + 800000, z % 146097);
        lemma_era_day_bounds(doe as int);
    }
    let yoe: u128 = (doe - doe / 1460 + doe / 36524 - doe / 146096) / 365;
    let doy: u128 = doe - (365 * yoe + yoe / 4 - yoe / 100);
    proof {
        lemma_month_day_bounds(doy as int);
    }
    let mp: u128 = (5 * doy + 2) / 153;
    let d: u128 = doy - (153 * mp + 2) / 5 + 1;
    let m: u128 = if mp < 10 { mp + 3 } else { mp - 9 };
    let year: i128 = yoe as i128 + era_s as i128 * 400 - 320000000 + if m <= 2 { 1i128 } else { 0i128 };
    let mut s = year_string(year);
    push_char_text(&mut s, "-");
    let month_text = fixed_text(m as u64, 2);
    s.append(month_text.as_str());
    push_char_text(&mut s, "-");
    let day_text = fixed_text(d as u64, 2);
    s.append(day_text.as_str());
    push_char_text(&mut s, "T");
    let hh = fixed_text((msd / 3600000) as u64, 2);
    s.append(hh.as_str());
    push_char_text(&mut s, ":");
    let mi = fixed_text(((msd / 60000) % 60) as u64, 2);
    s.append(mi.as_str());
    push_char_text(&mut s, ":");
    let ss = fixed_text(((msd / 1000) % 60) as u64, 2);
    s.append(ss.as_str());
    push_char_text(&mut s, ".");
    let mmm = fixed_text((msd % 1000) as u64, 3);
    s.append(mmm.as_str());
    push_char_text(&mut s, "Z");
    proof {
        reveal_strlit("-");
        reveal_strlit("T");
        reveal_strlit(":");
        reveal_strlit(".");
        reveal_strlit("Z");
        assert(s@ =~= rfc3339_text(epoch_ms as int));
    }
    s
}


/// Every day count names a valid civil date, and that date names the same
/// day count again: the calendar conversion loses nothing.
pub proof fn law_civil_date_roundtrip(days: int)
    ensures
        1 <= civil_from_days(days).1 <= 12,
        1 <= civil_from_days(days).2 <= 31,
        days_from_civil(civil_from_days(days).0, civil_from_days(days).1, civil_from_days(days).2) == days,
{
    let z = days + 719468;
    let era = z / 146097;
    let doe = z % 146097;
    lemma_fundamental_div_mod(z, 146097);
    lemma_era_day_bounds(doe);
    let yoe = yoe_of(doe);
    let doy = doy_of(doe);
    lemma_month_day_bounds(doy);
    let c = civil_from_days(days);
    let y1 = if c.1 <= 2 { c.0 - 1 } else { c.0 };
    assert(y1 == yoe + era * 400);
    assert(y1 == era * 400 + yoe);
    lemma_fundamental_div_mod_converse_div(y1, 400, era, yoe);
}

} // verus!
