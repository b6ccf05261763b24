use chrono::{Local, Timelike};
use vstd::prelude::*;
use vstd::string::StringExecFns;

use crate::number_text::{digit_char, digit_text, grouped, write_grouped};

verus! {

/// How long to pause after a successful request, so as not to overload the API's rate limit.
pub const SUCCESS_SLEEP_NANOS: u128 = 100_000_000;

/// How long to pause after a failed request.
pub const ERROR_SLEEP_NANOS: u128 = 100_000_000_000;

/// Counts and durations gathered while downloading a card list.
#[derive(Clone, Copy, Debug, PartialEq, Eq, Structural)]
pub struct Report {
    pub number_of_cards: u128,
    pub number_of_errors: u128,
    pub success_sleep_nanos: u128,
    pub error_sleep_nanos: u128,
    pub success_server_nanos: u128,
    pub error_server_nanos: u128,
}

/// The report with every count and duration zero.
pub open spec fn empty_report() -> Report {
    Report {
        number_of_cards: 0,
        number_of_errors: 0,
        success_sleep_nanos: 0,
        error_sleep_nanos: 0,
        success_server_nanos: 0,
        error_server_nanos: 0,
    }
}

/// The report of one successful request that took `server_nanos`.
pub open spec fn success_report(server_nanos: u128) -> Report {
    Report {
        number_of_cards: 1,
        number_of_errors: 0,
        success_sleep_nanos: SUCCESS_SLEEP_NANOS,
        error_sleep_nanos: 0,
        success_server_nanos: server_nanos,
        error_server_nanos: 0,
    }
}

/// The report of one failed request that took `server_nanos`.
pub open spec fn error_report(server_nanos: u128) -> Report {
    Report {
        number_of_cards: 0,
        number_of_errors: 1,
        success_sleep_nanos: 0,
        error_sleep_nanos: ERROR_SLEEP_NANOS,
        success_server_nanos: 0,
        error_server_nanos: server_nanos,
    }
}

/// Whether every field of `a + b` fits in a `u128`.
pub open spec fn can_sum(a: Report, b: Report) -> bool {
    &&& a.number_of_cards + b.number_of_cards <= u128::MAX
    &&& a.number_of_errors + b.number_of_errors <= u128::MAX
    &&& a.success_sleep_nanos + b.success_sleep_nanos <= u128::MAX
    &&& a.error_sleep_nanos + b.error_sleep_nanos <= u128::MAX
    &&& a.success_server_nanos + b.success_server_nanos <= u128::MAX
    &&& a.error_server_nanos + b.error_server_nanos <= u128::MAX
}

/// The field-wise sum of two reports.
pub open spec fn sum(a: Report, b: Report) -> Report {
    Report {
        number_of_cards: (a.number_of_cards + b.number_of_cards) as u128,
        number_of_errors: (a.number_of_errors + b.number_of_errors) as u128,
        success_sleep_nanos: (a.success_sleep_nanos + b.success_sleep_nanos) as u128,
        error_sleep_nanos: (a.error_sleep_nanos + b.error_sleep_nanos) as u128,
        success_server_nanos: (a.success_server_nanos + b.success_server_nanos) as u128,
        error_server_nanos: (a.error_server_nanos + b.error_server_nanos) as u128,
    }
}

/// The quotient of `a` by `b`, or nothing where `b` is zero.
pub open spec fn ratio(a: u128, b: u128) -> Option<u128> {
    if b == 0 {
        None
    } else {
        Some((a / b) as u128)
    }
}

/// A number as the report shows it: decimal, grouped by three with `_`.
pub open spec fn number_text(n: u128) -> Seq<char> {
    grouped(n as nat, "_"@)
}

/// An optional number as the report shows it: `N/A` where there is none.
pub open spec fn option_text(option: Option<u128>) -> Seq<char> {
    match option {
        Some(n) => number_text(n),
        None => "N/A"@,
    }
}

/// The text of a report: one `name: value` line for each field and each ratio.
pub open spec fn report_text(r: Report) -> Seq<char> {
    "number_of_cards: "@ + number_text(r.number_of_cards)
        + "\nnumber_of_errors: "@ + number_text(r.number_of_errors)
        + "\nsuccess_sleep_nanos: "@ + number_text(r.success_sleep_nanos)
        + "\nerror_sleep_nanos: "@ + number_text(r.error_sleep_nanos)
        + "\nsuccess_server_nanos: "@ + number_text(r.success_server_nanos)
        + "\nsuccess_server_nanos_per_card: "@
        + option_text(ratio(r.success_server_nanos, r.number_of_cards))
        + "\ncards_per_error: "@ + option_text(ratio(r.number_of_cards, r.number_of_errors))
        + "\nerror_server_nanos: "@ + number_text(r.error_server_nanos)
        + "\nerror_server_nanos_per_error: "@
        + option_text(ratio(r.error_server_nanos, r.number_of_errors))
        + "\nerror_server_nanos_per_card: "@
        + option_text(ratio(r.error_server_nanos, r.number_of_cards))
}

/// Adding the empty report changes nothing, on either side.
pub proof fn lemma_empty_report_is_identity(r: Report)
    ensures
        can_sum(empty_report(), r),
        can_sum(r, empty_report()),
        sum(empty_report(), r) == r,
        sum(r, empty_report()) == r,
{
}

/// The order in which two reports are added does not matter.
pub proof fn lemma_sum_commutative(a: Report, b: Report)
    ensures
        can_sum(a, b) == can_sum(b, a),
        sum(a, b) == sum(b, a),
{
}

/// Adding reports is associative: where `(a + b) + c` fits, so does `a + (b + c)`, and the
/// two are equal.
pub proof fn lemma_sum_associative(a: Report, b: Report, c: Report)
    requires
        can_sum(a, b),
        can_sum(sum(a, b), c),
    ensures
        can_sum(b, c),
        can_sum(a, sum(b, c)),
        sum(sum(a, b), c) == sum(a, sum(b, c)),
{
}

/// The report's text, line by line: each count and duration in decimal grouped by three
/// with `_`, and each ratio the floor of its quotient in the same form, or `N/A` where its
/// divisor is zero: the server time per card found, the cards per error, the server time
/// per error and the server time of the errors per card found.
pub proof fn lemma_report_lines(r: Report)
    ensures
        report_text(r) == "number_of_cards: "@ + grouped(r.number_of_cards as nat, "_"@)
            + "\nnumber_of_errors: "@ + grouped(r.number_of_errors as nat, "_"@)
            + "\nsuccess_sleep_nanos: "@ + grouped(r.success_sleep_nanos as nat, "_"@)
            + "\nerror_sleep_nanos: "@ + grouped(r.error_sleep_nanos as nat, "_"@)
            + "\nsuccess_server_nanos: "@ + grouped(r.success_server_nanos as nat, "_"@)
            + "\nsuccess_server_nanos_per_card: "@
            + (if r.number_of_cards == 0 { "N/A"@ } else { grouped((r.success_server_nanos / r.number_of_cards) as nat, "_"@) })
            + "\ncards_per_error: "@ + (if r.number_of_errors == 0 { "N/A"@ } else { grouped((r.number_of_cards / r.number_of_errors) as nat, "_"@) })
            + "\nerror_server_nanos: "@ + grouped(r.error_server_nanos as nat, "_"@)
            + "\nerror_server_nanos_per_error: "@
            + (if r.number_of_errors == 0 { "N/A"@ } else { grouped((r.error_server_nanos / r.number_of_errors) as nat, "_"@) })
            + "\nerror_server_nanos_per_card: "@
            + (if r.number_of_cards == 0 { "N/A"@ } else { grouped((r.error_server_nanos / r.number_of_cards) as nat, "_"@) }),
{
}

impl Report {
    pub fn new() -> (res: Self)
        ensures
            res == empty_report(),
    {
        Report {
            number_of_cards: 0,
            number_of_errors: 0,
            success_sleep_nanos: 0,
            error_sleep_nanos: 0,
            success_server_nanos: 0,
            error_server_nanos: 0,
        }
    }

    /// The report of one successful request: the server took `server_lookup_nanos`, and the
    /// caller pauses `SUCCESS_SLEEP_NANOS` so as not to overload the API's rate limit.
    pub fn card_success(server_lookup_nanos: u128) -> (res: Self)
        ensures
            res == success_report(server_lookup_nanos),
    {
        Report {
            number_of_cards: 1,
            number_of_errors: 0,
            success_sleep_nanos: SUCCESS_SLEEP_NANOS,
            error_sleep_nanos: 0,
            success_server_nanos: server_lookup_nanos,
            error_server_nanos: 0,
        }
    }

    /// The report of one failed request: the server took `server_lookup_nanos`, and the
    /// caller pauses `ERROR_SLEEP_NANOS`.
    pub fn card_error(server_lookup_nanos: u128) -> (res: Self)
        ensures
            res == error_report(server_lookup_nanos),
    {
        Report {
            number_of_cards: 0,
            number_of_errors: 1,
            success_sleep_nanos: 0,
            error_sleep_nanos: ERROR_SLEEP_NANOS,
            success_server_nanos: 0,
            error_server_nanos: server_lookup_nanos,
        }
    }

    /// Whether `self.add(other)` can be computed: no field overflows.
    pub fn can_add(&self, other: &Report) -> (res: bool)
        ensures
            res == can_sum(*self, *other),
    {
        self.number_of_cards.checked_add(other.number_of_cards).is_some()
            && self.number_of_errors.checked_add(other.number_of_errors).is_some()
            && self.success_sleep_nanos.checked_add(other.success_sleep_nanos).is_some()
            && self.error_sleep_nanos.checked_add(other.error_sleep_nanos).is_some()
            && self.success_server_nanos.checked_add(other.success_server_nanos).is_some()
            && self.error_server_nanos.checked_add(other.error_server_nanos).is_some()
    }

    /// The field-wise sum of two reports.
    pub fn add(self, other: Report) -> (res: Report)
        requires
            can_sum(self, other),
        ensures
            res == sum(self, other),
    {
        Report {
            number_of_cards: self.number_of_cards + other.number_of_cards,
            number_of_errors: self.number_of_errors + other.number_of_errors,
            success_sleep_nanos: self.success_sleep_nanos + other.success_sleep_nanos,
            error_sleep_nanos: self.error_sleep_nanos + other.error_sleep_nanos,
            success_server_nanos: self.success_server_nanos + other.success_server_nanos,
            error_server_nanos: self.error_server_nanos + other.error_server_nanos,
        }
    }

    /// The text of the report, one `name: value` line for each field and each ratio.
    pub fn to_text(&self) -> (res: String)
        ensures
            res@ == report_text(*self),
    {
        let mut text = String::from_str("number_of_cards: ");
        text.append(format_duh(&self.number_of_cards).as_str());
        text.append("\nnumber_of_errors: ");
        text.append(format_duh(&self.number_of_errors).as_str());
        text.append("\nsuccess_sleep_nanos: ");
        text.append(format_duh(&self.success_sleep_nanos).as_str());
        text.append("\nerror_sleep_nanos: ");
        text.append(format_duh(&self.error_sleep_nanos).as_str());
        text.append("\nsuccess_server_nanos: ");
        text.append(format_duh(&self.success_server_nanos).as_str());
        text.append("\nsuccess_server_nanos_per_card: ");
        text.append(
            format_option(&self.success_server_nanos.checked_div(self.number_of_cards)).as_str(),
        );
        text.append("\ncards_per_error: ");
        text.append(format_option(&self.number_of_cards.checked_div(self.number_of_errors)).as_str());
        text.append("\nerror_server_nanos: ");
        text.append(format_duh(&self.error_server_nanos).as_str());
        text.append("\nerror_server_nanos_per_error: ");
        text.append(
            format_option(&self.error_server_nanos.checked_div(self.number_of_errors)).as_str(),
        );
        text.append("\nerror_server_nanos_per_card: ");
        text.append(
            format_option(&self.error_server_nanos.checked_div(self.number_of_cards)).as_str(),
        );
        text
    }
}

/// An optional number as the report shows it: grouped decimal, or `N/A` where there is none.
pub fn format_option(option: &Option<u128>) -> (res: String)
    ensures
        res@ == option_text(*option),
{
    if let Some(number) = option {
        format_duh(number)
    } else {
        String::from_str("N/A")
    }
}

/// `number` in decimal, its digits grouped by three with `_` between the groups.
pub fn format_duh(number: &u128) -> (res: String)
    ensures
        res@ == number_text(*number),
{
    proof {
        reveal_strlit("_");
        vstd::utf8::is_ascii_chars_encode_utf8("_"@);
    }
    write_grouped(*number, "_")
}

/// Two decimal digits of `n`, zero-padded; `n` is below 100.
pub open spec fn two_digits(n: nat) -> Seq<char> {
    seq![digit_char(n / 10), digit_char(n % 10)]
}

/// `text` is a time of day as `hh:mm:ss`: an hour below 24, a minute below 60 and a second
/// of at most 60 (a leap second), each zero-padded to two digits.
pub open spec fn is_clock_text(text: Seq<char>) -> bool {
    exists|h: nat, m: nat, sec: nat|
        #![trigger two_digits(h), two_digits(m), two_digits(sec)]
        h < 24 && m < 60 && sec <= 60 && text == two_digits(h) + seq![':'] + two_digits(m)
            + seq![':'] + two_digits(sec)
}

/// The time of day as `%H:%M:%S` writes it: the hour, the minute and the second, each as
/// two zero-padded digits, separated by `:`. A `nanosecond` of a billion or more marks a
/// leap second, which shows as one more second (`23:59:60`).
pub open spec fn clock_text_of(hour: nat, minute: nat, second: nat, nanosecond: nat) -> Seq<char> {
    two_digits(hour) + seq![':'] + two_digits(minute) + seq![':'] + two_digits(
        second + nanosecond / 1_000_000_000,
    )
}

/// Calls `chrono`: `Local::now()` and its `Timelike` fields `hour()`, `minute()`, `second()`
/// and `nanosecond()`. The reading depends on the clock and the machine's time zone, so the
/// contract only claims the ranges chrono documents for every reading: the hour 0 to 23, the
/// minute 0 to 59, the second 0 to 59, and the nanosecond below two billion (a billion or
/// more during a leap second). Which time of day comes back is left unsaid.
#[verifier::external_body]
fn local_time_of_day() -> (res: (u32, u32, u32, u32))
    ensures
        res.0 < 24,
        res.1 < 60,
        res.2 < 60,
        res.3 < 2_000_000_000,
{
    let now = Local::now();
    (now.hour(), now.minute(), now.second(), now.nanosecond())
}

/// Two zero-padded decimal digits of `n`.
fn two_digit_text(n: u32) -> (res: String)
    requires
        n < 100,
    ensures
        res@ == two_digits(n as nat),
{
    String::from_str(digit_text((n / 10) as u64)).concat(digit_text((n % 10) as u64))
}

/// A time of day as `hh:mm:ss`, the way `%H:%M:%S` shows it.
pub fn clock_text(hour: u32, minute: u32, second: u32, nanosecond: u32) -> (res: String)
    requires
        hour < 24,
        minute < 60,
        second < 60,
        nanosecond < 2_000_000_000,
    ensures
        res@ == clock_text_of(hour as nat, minute as nat, second as nat, nanosecond as nat),
{
    proof {
        reveal_strlit(":");
    }
    let shown_second = second + nanosecond / 1_000_000_000;
    two_digit_text(hour).concat(":").concat(two_digit_text(minute).as_str()).concat(":").concat(
        two_digit_text(shown_second).as_str(),
    )
}

/// The local time of day, as `hh:mm:ss`.
pub fn now_string() -> (res: String)
    ensures
        is_clock_text(res@),
{
    let (hour, minute, second, nanosecond) = local_time_of_day();
    let res = clock_text(hour, minute, second, nanosecond);
    proof {
        let shown: nat = (second + nanosecond / 1_000_000_000) as nat;
        assert(two_digits(hour as nat) == two_digits(hour as nat));
        assert(two_digits(minute as nat) == two_digits(minute as nat));
        assert(two_digits(shown) == two_digits(shown));
        assert(res@ == two_digits(hour as nat) + seq![':'] + two_digits(minute as nat) + seq![':']
            + two_digits(shown));
    }
    res
}

} // verus!
