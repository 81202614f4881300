//! Clock, identifiers and paging shared by every module.
use vstd::prelude::*;
use vstd::arithmetic::power::pow;

verus! {

/// Milliseconds in one second.
pub const MILLIS_PER_SECOND: i64 = 1000;

/// The current instant, in milliseconds since the Unix epoch.
///
/// Calls `chrono::Utc::now` and `DateTime::timestamp_millis`. The result
/// depends on the clock, so nothing is stated of it.
#[verifier::external_body]
pub(crate) fn now_millis() -> (r: i64)
    ensures
        in_time_range(r as int),
{
    chrono::Utc::now().timestamp_millis()
}

/// A fresh random identifier.
///
/// Calls `uuid::Uuid::new_v4` and returns it as a 128-bit integer
/// (`Uuid::as_u128`). It is random, so nothing is stated of it.
#[verifier::external_body]
pub(crate) fn new_id() -> (r: u128) {
    uuid::Uuid::new_v4().as_u128()
}


/// Earliest instant a `chrono::DateTime<Utc>` can hold, in milliseconds.
pub const MIN_INSTANT_MS: i64 = -8334601228800000;

/// Latest instant a `chrono::DateTime<Utc>` can hold, in whole milliseconds.
pub const MAX_INSTANT_MS: i64 = 8210266876799999;

/// Largest number of seconds a `chrono::TimeDelta` can be built from.
pub const MAX_DELTA_SECONDS: i64 = 9223372036854775;

/// Whether `ms` is an instant that `chrono::DateTime<Utc>` can represent.
pub open spec fn in_time_range(ms: int) -> bool {
    MIN_INSTANT_MS <= ms <= MAX_INSTANT_MS
}

/// What a sequence with one more element at its end contains.
pub(crate) proof fn lemma_push_contains<A>(s: Seq<A>, x: A, k: A)
    ensures
        s.push(x).contains(k) <==> s.contains(k) || k == x,
{
    if s.contains(k) {
        let i = choose|i: int| 0 <= i < s.len() && s[i] == k;
        assert(s.push(x)[i] == k);
    }
    if k == x {
        assert(s.push(x)[s.len() as int] == k);
    }
    if s.push(x).contains(k) {
        let i = choose|i: int| 0 <= i < s.len() + 1 && s.push(x)[i] == k;
        if i < s.len() {
            assert(s[i] == k);
        }
    }
}

/// What two sequences one after the other contain.
pub(crate) proof fn lemma_concat_contains<A>(s: Seq<A>, t: Seq<A>, k: A)
    ensures
        (s + t).contains(k) <==> s.contains(k) || t.contains(k),
{
    if s.contains(k) {
        let i = choose|i: int| 0 <= i < s.len() && s[i] == k;
        assert((s + t)[i] == k);
    }
    if t.contains(k) {
        let i = choose|i: int| 0 <= i < t.len() && t[i] == k;
        assert((s + t)[s.len() + i] == k);
    }
    if (s + t).contains(k) {
        let i = choose|i: int| 0 <= i < s.len() + t.len() && (s + t)[i] == k;
        if i < s.len() {
            assert(s[i] == k);
        } else {
            assert(t[i - s.len()] == k);
        }
    }
}

/// Integer division rounded toward zero, as Rust's `/` on signed integers
/// (for a positive divisor).
pub open spec fn div_toward_zero(a: int, b: int) -> int {
    if a >= 0 {
        a / b
    } else {
        -((-a) / b)
    }
}

/// `a / b` on 64-bit signed integers, for a positive divisor.
pub fn div_i64_toward_zero(a: i64, b: i64) -> (r: i64)
    requires
        b > 0,
    ensures
        r == div_toward_zero(a as int, b as int),
{
    if a >= 0 {
        a / b
    } else if a == i64::MIN {
        if b == 1 {
            assert(div_toward_zero(a as int, 1) == a) by (nonlinear_arith);
            a
        } else {
            let q: i64 = i64::MAX / b;
            let rem: i64 = i64::MAX % b;
            // -(2^63) / b: 2^63 = i64::MAX + 1
            if rem + 1 == b {
                assert((i64::MAX as int + 1) / (b as int) == q + 1) by (nonlinear_arith)
                    requires
                        q == i64::MAX as int / (b as int),
                        rem == i64::MAX as int % (b as int),
                        rem + 1 == b,
                        b > 1,
                ;
                -q - 1
            } else {
                assert((i64::MAX as int + 1) / (b as int) == q) by (nonlinear_arith)
                    requires
                        q == i64::MAX as int / (b as int),
                        rem == i64::MAX as int % (b as int),
                        rem + 1 < b,
                        b > 1,
                ;
                -q
            }
        }
    } else {
        let pos: i64 = -a;
        -(pos / b)
    }
}

/// Dividing by a negative number gives the opposite of dividing by its
/// magnitude, when rounding toward zero.
proof fn lemma_div_by_negative(a: int, b: int)
    requires
        b < 0,
    ensures
        div_toward_zero(a, b) == -div_toward_zero(a, -b),
{
    assert forall|x: int| x >= 0 implies #[trigger] (x / b) == -(x / (-b)) by {
        assert(x / b == -(x / (-b))) by (nonlinear_arith)
            requires
                b < 0,
                x >= 0,
        ;
    }
    if a >= 0 {
        assert(a / b == -(a / (-b)));
    } else {
        assert((-a) / b == -((-a) / (-b)));
    }
}

/// `a / b` on 64-bit signed integers, for any divisor Rust's `/` accepts:
/// not zero, and not `-1` under `i64::MIN`.
pub fn div_i64_truncating(a: i64, b: i64) -> (r: i64)
    requires
        b != 0,
        !(a == i64::MIN && b == -1),
    ensures
        r == div_toward_zero(a as int, b as int),
{
    if b > 0 {
        div_i64_toward_zero(a, b)
    } else {
        proof {
            lemma_div_by_negative(a as int, b as int);
        }
        if b == i64::MIN {
            let ghost m: int = -(b as int);
            if a == i64::MIN {
                assert(div_toward_zero(a as int, m) == -1) by (nonlinear_arith)
                    requires
                        a == -m,
                        m > 0,
                ;
                1
            } else {
                assert(div_toward_zero(a as int, m) == 0) by (nonlinear_arith)
                    requires
                        -m < a < m,
                        m > 0,
                ;
                0
            }
        } else {
            let pos: i64 = -b;
            let q = div_i64_toward_zero(a, pos);
            assert(q > i64::MIN) by (nonlinear_arith)
                requires
                    q == div_toward_zero(a as int, pos as int),
                    pos >= 1,
                    a >= i64::MIN,
                    pos == 1 ==> a > i64::MIN,
            {
                if a < 0 {
                    assert((-a) / (pos as int) <= -a);
                    if pos >= 2 {
                        assert((-a) / (pos as int) <= (-a) / 2);
                    }
                }
            }
            -q
        }
    }
}

/// The instant `seconds` seconds after `at_ms` (what adding
/// `chrono::Duration::seconds(seconds)` to a `DateTime<Utc>` gives).
pub open spec fn plus_seconds(at_ms: int, seconds: int) -> int {
    at_ms + seconds * 1000
}

/// Adds whole seconds to an instant.
pub fn add_seconds(at_ms: i64, seconds: i64) -> (r: i64)
    requires
        -MAX_DELTA_SECONDS <= seconds <= MAX_DELTA_SECONDS,
        in_time_range(plus_seconds(at_ms as int, seconds as int)),
    ensures
        r == plus_seconds(at_ms as int, seconds as int),
{
    at_ms + seconds * 1000
}

/// Number of whole seconds in a span of milliseconds, rounded toward zero
/// (what `chrono::Duration::num_seconds` gives for such a span).
pub open spec fn whole_seconds(span_ms: int) -> int {
    if span_ms >= 0 {
        span_ms / 1000
    } else {
        -((-span_ms) / 1000)
    }
}

/// Whole seconds from `earlier_ms` to `later_ms`, rounded toward zero.
pub fn seconds_between(earlier_ms: i64, later_ms: i64) -> (r: i64)
    requires
        i64::MIN <= later_ms - earlier_ms <= i64::MAX,
    ensures
        r == whole_seconds(later_ms - earlier_ms),
{
    let span = later_ms - earlier_ms;
    if span >= 0 {
        span / MILLIS_PER_SECOND
    } else if span == i64::MIN {
        let q: i64 = i64::MAX / MILLIS_PER_SECOND;
        assert(-(span as int) == i64::MAX + 1);
        assert((i64::MAX as int + 1) / 1000 == i64::MAX as int / 1000) by (nonlinear_arith);
        -q
    } else {
        let pos: i64 = -span;
        -(pos / MILLIS_PER_SECOND)
    }
}

/// Offset of the first row of page `page` (counted from one) when pages hold
/// `limit` rows: `(page - 1) * limit`.
pub fn page_offset(page: i32, limit: i32) -> (r: i32)
    requires
        page > i32::MIN,
        i32::MIN <= (page - 1) * limit <= i32::MAX,
    ensures
        r == (page - 1) * limit,
{
    (page - 1) * limit
}

/// A copy of an optional string.
pub fn clone_opt_string(o: &Option<String>) -> (r: Option<String>)
    ensures
        r == *o,
{
    match o {
        Some(x) => Some(x.clone()),
        None => None,
    }
}

/// The characters of a string (`str::chars`, collected).
#[verifier::external_body]
pub(crate) fn chars_of(s: &str) -> (r: Vec<char>)
    ensures
        r@ == s@,
{
    s.chars().collect()
}

/// Whether two texts are equal, character by character.
pub fn text_eq(a: &str, b: &str) -> (r: bool)
    ensures
        r == (a@ == b@),
{
    let x = chars_of(a);
    let y = chars_of(b);
    if x.len() != y.len() {
        return false;
    }
    let mut i: usize = 0;
    while i < x.len()
        invariant
            i <= x.len(),
            x.len() == y.len(),
            x@ == a@,
            y@ == b@,
            forall|k: int| 0 <= k < i ==> x@[k] == y@[k],
        decreases x.len() - i,
    {
        if x[i] != y[i] {
            return false;
        }
        i = i + 1;
    }
    assert(x@ =~= y@);
    true
}

/// What `str::to_lowercase` gives for a text.
pub uninterp spec fn unicode_lowercase(s: Seq<char>) -> Seq<char>;

/// A character with ASCII capitals turned to lower case.
pub open spec fn ascii_lower_char(c: char) -> char {
    if 'A' <= c && c <= 'Z' { ((c as u32) + 32) as char } else { c }
}

/// Whether every character of `s` is ASCII.
pub open spec fn all_ascii(s: Seq<char>) -> bool {
    forall|i: int| 0 <= i < s.len() ==> (#[trigger] s[i] as u32) < 128
}

/// `str::to_lowercase`; the result is named `unicode_lowercase`. Stated
/// besides: an ASCII text is lowered character by character, ASCII capitals
/// becoming small letters.
#[verifier::external_body]
pub(crate) fn lowercase(s: &str) -> (r: String)
    ensures
        r@ == unicode_lowercase(s@),
        all_ascii(s@) ==> r@ == s@.map_values(|c: char| ascii_lower_char(c)),
{
    s.to_lowercase()
}

/// An ASCII decimal digit.
pub open spec fn is_ascii_digit(c: char) -> bool {
    '0' <= c && c <= '9'
}

/// The value of a run of decimal digits, most significant first.
pub open spec fn decimal_value(s: Seq<char>) -> int
    decreases s.len(),
{
    if s.len() == 0 {
        0
    } else {
        decimal_value(s.drop_last()) * 10 + (s.last() as int - 48)
    }
}

/// What `str::parse::<i32>` gives for a text: an optional `+` or `-` sign
/// followed by one or more ASCII digits, whose value must fit in an `i32`;
/// `None` for any other text.
pub open spec fn parsed_i32(s: Seq<char>) -> Option<i32> {
    let signed = s.len() > 0 && (s[0] == '-' || s[0] == '+');
    let digits = if signed { s.drop_first() } else { s };
    let v = if signed && s[0] == '-' { -decimal_value(digits) } else { decimal_value(digits) };
    if digits.len() > 0 && all_digits(digits) && i32::MIN <= v <= i32::MAX {
        Some(v as i32)
    } else {
        None
    }
}

/// Every character of `s` is an ASCII decimal digit.
pub open spec fn all_digits(s: Seq<char>) -> bool {
    forall|i: int| 0 <= i < s.len() ==> is_ascii_digit(#[trigger] s[i])
}

/// A run of digits is worth at least as much as any of its prefixes.
proof fn lemma_decimal_prefix(s: Seq<char>, k: int)
    requires
        0 <= k <= s.len(),
        forall|i: int| 0 <= i < s.len() ==> is_ascii_digit(#[trigger] s[i]),
    ensures
        0 <= decimal_value(s.take(k)) <= decimal_value(s),
    decreases s.len(),
{
    if k == s.len() {
        assert(s.take(k) =~= s);
        if s.len() > 0 {
            lemma_decimal_prefix(s.drop_last(), k - 1);
            assert(s.drop_last().take(k - 1) =~= s.drop_last());
        }
    } else {
        assert(s.drop_last().take(k) =~= s.take(k));
        lemma_decimal_prefix(s.drop_last(), k);
    }
}

/// Parses the characters of `s` as an `i32`, as `str::parse` does:
/// `parsed_i32`.
pub(crate) fn parse_i32(s: &Vec<char>) -> (r: Option<i32>)
    ensures
        r == parsed_i32(s@),
{
    let n = s.len();
    if n == 0 {
        return None;
    }
    let signed = s[0] == '-' || s[0] == '+';
    let negative = s[0] == '-';
    let start: usize = if signed { 1 } else { 0 };
    let ghost digits = if signed { s@.drop_first() } else { s@ };
    assert(digits =~= s@.subrange(start as int, n as int));
    if start == n {
        return None;
    }
    let mut value: i64 = 0;
    let mut i: usize = start;
    while i < n
        invariant
            start <= i <= n,
            0 < n == s.len(),
            signed == (s@[0] == '-' || s@[0] == '+'),
            negative == (s@[0] == '-'),
            start == (if signed { 1usize } else { 0usize }),
            digits == (if signed { s@.drop_first() } else { s@ }),
            digits == s@.subrange(start as int, n as int),
            forall|k: int| start <= k < i ==> is_ascii_digit(#[trigger] s@[k]),
            value == decimal_value(s@.subrange(start as int, i as int)),
            0 <= value <= 2147483648,
        decreases n - i,
    {
        let c = s[i];
        if !('0' <= c && c <= '9') {
            assert(digits[i - start] == c);
            assert(!is_ascii_digit(digits[i - start]));
            assert(!all_digits(digits));
            assert(parsed_i32(s@) is None);
            return None;
        }
        let next: i64 = value * 10 + ((c as u32) - 48) as i64;
        assert(s@.subrange(start as int, i + 1).drop_last() =~= s@.subrange(start as int, i as int));
        assert(next == decimal_value(s@.subrange(start as int, i + 1)));
        if next > 2147483648 {
            proof {
                if all_digits(digits) {
                    lemma_decimal_prefix(digits, i + 1 - start);
                    assert(digits.take(i + 1 - start) =~= s@.subrange(start as int, i + 1));
                    assert(decimal_value(digits) > 2147483648);
                }
                assert(parsed_i32(s@) is None);
            }
            return None;
        }
        value = next;
        i = i + 1;
    }
    assert(all_digits(digits)) by {
        assert forall|k: int| 0 <= k < digits.len() implies is_ascii_digit(#[trigger] digits[k]) by {
            assert(digits[k] == s@[k + start]);
        }
    }
    let v: i64 = if negative { -value } else { value };
    if v < -2147483648 || v > 2147483647 {
        return None;
    }
    Some(v as i32)
}

/// Life-cycle state of a master record.
#[derive(Debug, Clone, Copy, PartialEq, Eq, Structural)]
pub enum RecordStatus {
    Draft,
    Active,
    Inactive,
}

/// A calendar date (proleptic Gregorian).
#[derive(Debug, Clone, Copy, PartialEq, Eq, Structural)]
pub struct CivilDate {
    pub year: i32,
    pub month: u32,
    pub day: u32,
}

/// Earliest year a `chrono::NaiveDate` can hold.
pub const MIN_DATE_YEAR: i32 = -262143;

/// Latest year a `chrono::NaiveDate` can hold.
pub const MAX_DATE_YEAR: i32 = 262142;

pub open spec fn is_leap_year(y: int) -> bool {
    (y % 4 == 0 && y % 100 != 0) || y % 400 == 0
}

pub open spec fn days_in_month(y: int, m: int) -> int {
    if m == 2 {
        if is_leap_year(y) { 29 } else { 28 }
    } else if m == 4 || m == 6 || m == 9 || m == 11 {
        30
    } else {
        31
    }
}

/// Whether year `y`, month `m`, day `d` is a date `chrono::NaiveDate` can hold.
pub open spec fn valid_date(y: int, m: int, d: int) -> bool {
    &&& MIN_DATE_YEAR <= y <= MAX_DATE_YEAR
    &&& 1 <= m <= 12
    &&& 1 <= d <= days_in_month(y, m)
}

pub open spec fn is_valid(d: CivilDate) -> bool {
    valid_date(d.year as int, d.month as int, d.day as int)
}

/// Whether year `y` of chrono's range is a leap year.
fn is_leap_year_exec(y: i32) -> (r: bool)
    requires
        MIN_DATE_YEAR <= y <= MAX_DATE_YEAR,
    ensures
        r == is_leap_year(y as int),
{
    // Shifting by a multiple of 400 years keeps the year's place in every
    // cycle and makes it positive.
    let z: i64 = y as i64 + 400000;
    proof {
        vstd::arithmetic::div_mod::lemma_mod_multiples_vanish(100000, y as int, 4);
        vstd::arithmetic::div_mod::lemma_mod_multiples_vanish(4000, y as int, 100);
        vstd::arithmetic::div_mod::lemma_mod_multiples_vanish(1000, y as int, 400);
    }
    (z % 4 == 0 && z % 100 != 0) || z % 400 == 0
}

/// Whether the date exists and lies in chrono's range, as
/// `chrono::NaiveDate::from_ymd_opt(y, m, d).is_some()` says.
pub fn date_exists(y: i32, m: u32, d: u32) -> (r: bool)
    ensures
        r == valid_date(y as int, m as int, d as int),
{
    if y < MIN_DATE_YEAR || y > MAX_DATE_YEAR || m < 1 || m > 12 || d < 1 {
        return false;
    }
    let last: u32 = if m == 2 {
        if is_leap_year_exec(y) { 29 } else { 28 }
    } else if m == 4 || m == 6 || m == 9 || m == 11 {
        30
    } else {
        31
    };
    d <= last
}

/// Days from 1970-01-01 to `d` in the proleptic Gregorian calendar.
pub open spec fn day_number(d: CivilDate) -> int {
    let y = if d.month <= 2 { d.year - 1 } else { d.year as int };
    let era = y / 400;
    let yoe = y - era * 400;
    let mp = if d.month > 2 { d.month - 3 } else { d.month + 9 };
    let doy = (153 * mp + 2) / 5 + d.day - 1;
    let doe = yoe * 365 + yoe / 4 - yoe / 100 + doy;
    era * 146097 + doe - 719468
}

/// Milliseconds in one day.
pub const MILLIS_PER_DAY: i64 = 86400000;

/// The first date `chrono::NaiveDate` can hold.
pub open spec fn first_date() -> CivilDate {
    CivilDate { year: MIN_DATE_YEAR, month: 1, day: 1 }
}

/// The last date `chrono::NaiveDate` can hold.
pub open spec fn last_date() -> CivilDate {
    CivilDate { year: MAX_DATE_YEAR, month: 12, day: 31 }
}

/// Whether the date with day number `n` lies in `chrono::NaiveDate`'s range.
pub open spec fn day_in_range(n: int) -> bool {
    day_number(first_date()) <= n <= day_number(last_date())
}

/// The UTC calendar date of the instant `ms` (`DateTime::date_naive` of
/// `DateTime::from_timestamp_millis`): the date whose day number is the
/// number of whole days since the epoch, rounded down.
#[verifier::external_body]
pub(crate) fn utc_date_of(ms: i64) -> (r: CivilDate)
    requires
        in_time_range(ms as int),
    ensures
        is_valid(r),
        day_number(r) == (ms as int) / (MILLIS_PER_DAY as int),
{
    let d = chrono::DateTime::from_timestamp_millis(ms).unwrap().date_naive();
    CivilDate {
        year: chrono::Datelike::year(&d),
        month: chrono::Datelike::month(&d),
        day: chrono::Datelike::day(&d),
    }
}

/// Adds whole days to a date (`NaiveDate::checked_add_signed` with
/// `TimeDelta::days`): `None` exactly when the result leaves chrono's range,
/// else the date `days` days later.
#[verifier::external_body]
pub(crate) fn add_days(d: CivilDate, days: i32) -> (r: Option<CivilDate>)
    requires
        is_valid(d),
    ensures
        r is Some <==> day_in_range(day_number(d) + days),
        r matches Some(x) ==> is_valid(x) && day_number(x) == day_number(d) + days,
{
    let date = chrono::NaiveDate::from_ymd_opt(d.year, d.month, d.day).unwrap();
    match date.checked_add_signed(chrono::TimeDelta::days(days as i64)) {
        Some(x) => Some(CivilDate {
            year: chrono::Datelike::year(&x),
            month: chrono::Datelike::month(&x),
            day: chrono::Datelike::day(&x),
        }),
        None => None,
    }
}

/// The ASCII digit for a value below ten.
pub open spec fn digit_char(v: int) -> char {
    (v + 48) as char
}

/// The decimal digits of `n`, with zeros in front up to `width` digits.
pub open spec fn padded_decimal(n: nat, width: nat) -> Seq<char>
    decreases n + width,
{
    if n < 10 && width <= 1 {
        seq![digit_char(n as int)]
    } else {
        padded_decimal(n / 10, if width > 0 { (width - 1) as nat } else { 0 })
            + seq![digit_char((n % 10) as int)]
    }
}

/// How chrono writes a year for `%Y`: four digits for the years 0 to 9999;
/// any other year with its sign, then at least four digits.
pub open spec fn year_text(y: int) -> Seq<char> {
    if 0 <= y <= 9999 {
        padded_decimal(y as nat, 4)
    } else if y < 0 {
        seq!['-'] + padded_decimal((-y) as nat, 4)
    } else {
        seq!['+'] + padded_decimal(y as nat, 4)
    }
}

/// The calendar date with day number `n`.
pub open spec fn date_of_day(n: int) -> CivilDate {
    choose|d: CivilDate| is_valid(d) && day_number(d) == n
}

/// What `DateTime<Utc>::format("%Y%m%d%H%M%S")` writes for the instant `ms`:
/// the year, month, day, hour, minute and second of its UTC date and time,
/// each but the year in two digits.
pub open spec fn compact_utc_stamp(ms: i64) -> Seq<char> {
    let date = date_of_day((ms as int) / (MILLIS_PER_DAY as int));
    let secs = ((ms as int) % (MILLIS_PER_DAY as int)) / 1000;
    year_text(date.year as int) + padded_decimal(date.month as nat, 2) + padded_decimal(date.day as nat, 2)
        + padded_decimal((secs / 3600) as nat, 2) + padded_decimal((secs % 3600 / 60) as nat, 2)
        + padded_decimal((secs % 60) as nat, 2)
}

/// Formats an instant as `%Y%m%d%H%M%S` in UTC: `compact_utc_stamp`.
#[verifier::external_body]
pub(crate) fn utc_stamp(ms: i64) -> (r: String)
    requires
        in_time_range(ms as int),
    ensures
        r@ == compact_utc_stamp(ms),
{
    chrono::DateTime::from_timestamp_millis(ms).unwrap().format("%Y%m%d%H%M%S").to_string()
}

/// The lower-case hexadecimal digit for a value below sixteen.
pub open spec fn hex_lower(v: int) -> char {
    if v < 10 { (v + 48) as char } else { (v + 87) as char }
}

/// The `k`-th of the 32 hexadecimal digits of `id`, most significant first.
pub open spec fn id_nibble(id: u128, k: int) -> int {
    (id as int / pow(16, (31 - k) as nat)) % 16
}

/// What `uuid::Uuid::from_u128(id).simple().to_string()` writes: the 32
/// lower-case hexadecimal digits of `id`, most significant first.
pub open spec fn uuid_simple(id: u128) -> Seq<char> {
    Seq::new(32, |k: int| hex_lower(id_nibble(id, k)))
}

/// What `uuid::Uuid::from_u128(id).to_string()` writes: the same digits in
/// groups of 8, 4, 4, 4 and 12, joined by hyphens.
pub open spec fn uuid_hyphenated(id: u128) -> Seq<char> {
    let h = uuid_simple(id);
    h.subrange(0, 8) + seq!['-'] + h.subrange(8, 12) + seq!['-'] + h.subrange(12, 16) + seq!['-']
        + h.subrange(16, 20) + seq!['-'] + h.subrange(20, 32)
}

/// `s` is `prefix` followed by the hyphenated text of some identifier.
pub open spec fn numbered_with(prefix: Seq<char>, s: Seq<char>) -> bool {
    exists|k: u128| s == prefix + #[trigger] uuid_hyphenated(k)
}

/// A lower-case hexadecimal digit or a hyphen.
pub open spec fn is_uuid_char(c: char) -> bool {
    ('0' <= c && c <= '9') || ('a' <= c && c <= 'f') || c == '-'
}

/// The hyphenated text of an identifier (`Uuid::from_u128`, `to_string`):
/// `uuid_hyphenated`, which has 36 characters, lower-case hexadecimal digits
/// and hyphens at positions 8, 13, 18 and 23.
#[verifier::external_body]
pub(crate) fn uuid_text(id: u128) -> (r: String)
    ensures
        r@ == uuid_hyphenated(id),
        r@.len() == 36,
        forall|i: int| 0 <= i < 36 ==> is_uuid_char(#[trigger] r@[i]),
        r@[8] == '-' && r@[13] == '-' && r@[18] == '-' && r@[23] == '-',
{
    uuid::Uuid::from_u128(id).to_string()
}

/// A character with ASCII small letters turned to capitals.
pub open spec fn ascii_upper_char(c: char) -> char {
    if 'a' <= c && c <= 'z' { ((c as u32) - 32) as char } else { c }
}

/// `ascii_upper_char` of one character.
pub fn upper_char(c: char) -> (r: char)
    ensures
        r == ascii_upper_char(c),
{
    if 'a' <= c && c <= 'z' {
        let u: u8 = ((c as u32) - 32) as u8;
        u as char
    } else {
        c
    }
}

/// Days from `from` to `to`.
pub open spec fn days_between(from: CivilDate, to: CivilDate) -> int {
    day_number(to) - day_number(from)
}

/// The day number of a date of chrono's range.
fn day_number_exec(d: CivilDate) -> (r: i64)
    requires
        is_valid(d),
    ensures
        r == day_number(d),
{
    let y: i64 = if d.month <= 2 { d.year as i64 - 1 } else { d.year as i64 };
    // Whole 400-year cycles before `y`, rounded down.
    let era: i64 = if y >= 0 {
        y / 400
    } else {
        let q: i64 = (399 - y) / 400;
        assert(-q == (y as int) / 400) by (nonlinear_arith)
            requires
                y < 0,
                q == (399 - y) / 400,
        ;
        -q
    };
    let yoe: i64 = y - era * 400;
    assert(0 <= yoe < 400) by (nonlinear_arith)
        requires
            era == (y as int) / 400,
            yoe == y - era * 400,
    ;
    assert(-700 <= era <= 700) by (nonlinear_arith)
        requires
            era == (y as int) / 400,
            -262144 <= y <= 262142,
    ;
    let mp: i64 = if d.month > 2 { d.month as i64 - 3 } else { d.month as i64 + 9 };
    let doy: i64 = (153 * mp + 2) / 5 + d.day as i64 - 1;
    let doe: i64 = yoe * 365 + yoe / 4 - yoe / 100 + doy;
    era * 146097 + doe - 719468
}

/// The number of days from `from` to `to`: what subtracting two
/// `chrono::NaiveDate`s and taking `TimeDelta::num_days` gives.
pub(crate) fn date_diff_days(from: CivilDate, to: CivilDate) -> (r: i64)
    requires
        is_valid(from),
        is_valid(to),
    ensures
        r == days_between(from, to),
{
    let a = day_number_exec(from);
    let b = day_number_exec(to);
    b - a
}

/// Whether `c` has the Unicode `White_Space` property (what
/// `char::is_whitespace` tests).
pub open spec fn is_white_space(c: char) -> bool {
    let u = c as u32;
    (0x9 <= u && u <= 0xD) || u == 0x20 || u == 0x85 || u == 0xA0 || u == 0x1680
        || (0x2000 <= u && u <= 0x200A) || u == 0x2028 || u == 0x2029 || u == 0x202F
        || u == 0x205F || u == 0x3000
}

pub fn white_space(c: char) -> (r: bool)
    ensures
        r == is_white_space(c),
{
    let u = c as u32;
    (0x9 <= u && u <= 0xD) || u == 0x20 || u == 0x85 || u == 0xA0 || u == 0x1680
        || (0x2000 <= u && u <= 0x200A) || u == 0x2028 || u == 0x2029 || u == 0x202F
        || u == 0x205F || u == 0x3000
}

/// Whether `s` is empty once surrounding white space is trimmed, that is,
/// whether it holds nothing but white space.
pub open spec fn is_blank(s: Seq<char>) -> bool {
    forall|i: int| 0 <= i < s.len() ==> is_white_space(#[trigger] s[i])
}

/// Whether a text holds nothing but white space (`str::trim` leaves it empty).
pub fn blank(s: &str) -> (r: bool)
    ensures
        r == is_blank(s@),
{
    let cs = chars_of(s);
    let mut i: usize = 0;
    while i < cs.len()
        invariant
            i <= cs.len(),
            cs@ == s@,
            forall|k: int| 0 <= k < i ==> is_white_space(#[trigger] cs@[k]),
        decreases cs.len() - i,
    {
        if !white_space(cs[i]) {
            return false;
        }
        i = i + 1;
    }
    true
}

/// A string made of the given characters (collected).
#[verifier::external_body]
pub(crate) fn string_of(chars: &Vec<char>) -> (r: String)
    ensures
        r@ == chars@,
{
    chars.iter().collect()
}

/// `s` with every occurrence of the non-empty pattern `p` replaced by `r`,
/// occurrences found from left to right without overlapping (what
/// `str::replace` does).
pub open spec fn replace_all(s: Seq<char>, p: Seq<char>, r: Seq<char>) -> Seq<char>
    decreases s.len(),
{
    if p.len() == 0 || s.len() < p.len() {
        s
    } else if s.take(p.len() as int) == p {
        r + replace_all(s.skip(p.len() as int), p, r)
    } else {
        seq![s[0]] + replace_all(s.skip(1), p, r)
    }
}

/// Whether `p` occurs somewhere in `s`.
pub open spec fn occurs_in(s: Seq<char>, p: Seq<char>) -> bool {
    exists|i: int| 0 <= i && i + p.len() <= s.len() && #[trigger] s.subrange(i, i + p.len()) == p
}

/// Replacing a pattern that does not occur leaves the text as it was.
pub proof fn lemma_replace_absent(s: Seq<char>, p: Seq<char>, r: Seq<char>)
    requires
        !occurs_in(s, p),
    ensures
        replace_all(s, p, r) == s,
    decreases s.len(),
{
    if p.len() == 0 || s.len() < p.len() {
    } else {
        if s.take(p.len() as int) == p {
            assert(s.subrange(0, 0 + p.len() as int) == s.take(p.len() as int));
        }
        let t = s.skip(1);
        if occurs_in(t, p) {
            let i = choose|i: int| 0 <= i && i + p.len() <= t.len() && #[trigger] t.subrange(i, i + p.len()) == p;
            assert(s.subrange(i + 1, i + 1 + p.len()) =~= t.subrange(i, i + p.len()));
        }
        lemma_replace_absent(t, p, r);
        assert(seq![s[0]] + t =~= s);
    }
}

/// Whether `p` occurs in `s` at position `i`.
fn occurs_at(s: &Vec<char>, p: &Vec<char>, i: usize) -> (b: bool)
    requires
        i + p.len() <= s.len(),
    ensures
        b == (s@.skip(i as int).take(p.len() as int) == p@),
{
    let mut k: usize = 0;
    while k < p.len()
        invariant
            k <= p.len(),
            i + p.len() <= s.len(),
            forall|j: int| 0 <= j < k ==> s@[i + j] == p@[j],
        decreases p.len() - k,
    {
        if s[i + k] != p[k] {
            assert(s@.skip(i as int).take(p.len() as int)[k as int] != p@[k as int]);
            return false;
        }
        k = k + 1;
    }
    assert(s@.skip(i as int).take(p.len() as int) =~= p@);
    true
}

/// Replaces every occurrence of the non-empty pattern `p` in `s` by `r`
/// (see `replace_all`).
pub fn replace_text(s: &str, p: &str, r: &str) -> (out: String)
    requires
        p@.len() > 0,
    ensures
        out@ == replace_all(s@, p@, r@),
{
    let sc = chars_of(s);
    let pc = chars_of(p);
    let rc = chars_of(r);
    let mut out: Vec<char> = Vec::new();
    let mut i: usize = 0;
    assert(sc@.skip(0) =~= sc@);
    assert(out@ + replace_all(sc@, pc@, rc@) =~= replace_all(sc@, pc@, rc@));
    while i < sc.len()
        invariant
            i <= sc.len(),
            sc@ == s@,
            pc@ == p@,
            rc@ == r@,
            pc.len() > 0,
            out@ + replace_all(sc@.skip(i as int), pc@, rc@) == replace_all(sc@, pc@, rc@),
        decreases sc.len() - i,
    {
        let ghost rest = sc@.skip(i as int);
        if pc.len() <= sc.len() - i && occurs_at(&sc, &pc, i) {
            assert(rest.skip(pc.len() as int) =~= sc@.skip(i + pc.len()));
            let mut k: usize = 0;
            let ghost before = out@;
            while k < rc.len()
                invariant
                    k <= rc.len(),
                    out@ == before + rc@.take(k as int),
                decreases rc.len() - k,
            {
                out.push(rc[k]);
                assert(rc@.take(k + 1) =~= rc@.take(k as int).push(rc@[k as int]));
                k = k + 1;
            }
            assert(rc@.take(rc.len() as int) =~= rc@);
            assert(out@ + replace_all(sc@.skip(i + pc.len()), pc@, rc@) =~= before + replace_all(rest, pc@, rc@));
            i = i + pc.len();
        } else {
            assert(rest.skip(1) =~= sc@.skip(i + 1));
            assert(rest[0] == sc@[i as int]);
            proof {
                if rest.len() < pc@.len() {
                    assert(replace_all(rest.skip(1), pc@, rc@) == rest.skip(1));
                    assert(seq![rest[0]] + rest.skip(1) =~= rest);
                }
            }
            let ghost before = out@;
            out.push(sc[i]);
            assert(out@ + replace_all(sc@.skip(i + 1), pc@, rc@) =~= before + replace_all(rest, pc@, rc@));
            i = i + 1;
        }
    }
    assert(sc@.skip(sc.len() as int) =~= Seq::<char>::empty());
    assert(out@ + Seq::<char>::empty() =~= out@);
    string_of(&out)
}

} // verus!
