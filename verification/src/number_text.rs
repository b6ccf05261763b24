use num_format::{Buffer, CustomFormat, Grouping};
use vstd::prelude::*;
use vstd::string::StringExecFns;
use vstd::string::StringSliceAdditionalSpecFns;

verus! {

/// The character of a decimal digit.
pub open spec fn digit_char(d: nat) -> char {
    (d + 48) as char
}

/// The decimal digits of `n`, most significant first, with no leading zero.
pub open spec fn decimal(n: nat) -> Seq<char>
    decreases n,
{
    if n < 10 {
        seq![digit_char(n)]
    } else {
        decimal(n / 10).push(digit_char(n % 10))
    }
}

/// The three decimal digits of `n`, zero-padded; `n` is below 1000.
pub open spec fn three_digits(n: nat) -> Seq<char> {
    seq![digit_char(n / 100), digit_char((n / 10) % 10), digit_char(n % 10)]
}

/// The decimal digits of `n` in groups of three from the right, `separator` between the
/// groups (1234567 with "_" is "1_234_567").
pub open spec fn grouped(n: nat, separator: Seq<char>) -> Seq<char>
    decreases n,
{
    if n < 1000 {
        decimal(n)
    } else {
        grouped(n / 1000, separator) + separator + three_digits(n % 1000)
    }
}

/// Calls `num_format`: `Buffer::write_formatted` with a `CustomFormat` of standard grouping
/// (groups of three) and the given separator. The contract claims that the text is the
/// decimal digits of `number` grouped by three from the right with `separator` between the
/// groups, as the crate's core algorithm writes them (with an empty separator it writes the
/// plain digits, which is the same text). `CustomFormatBuilder::build` fails, and the
/// `unwrap` would panic, on a separator of more than 8 bytes: `requires` leaves that out.
#[verifier::external_body]
pub(crate) fn write_grouped(number: u128, separator: &str) -> (res: String)
    requires
        separator.spec_bytes().len() <= 8,
    ensures
        res@ == grouped(number as nat, separator@),
{
    let format = CustomFormat::builder().grouping(Grouping::Standard).separator(separator).build().unwrap();
    let mut buf = Buffer::new();
    buf.write_formatted(&number, &format);
    buf.as_str().to_string()
}

/// The text of one decimal digit.
pub(crate) fn digit_text(d: u64) -> (res: &'static str)
    requires
        d < 10,
    ensures
        res@ == seq![digit_char(d as nat)],
{
    proof {
        reveal_strlit("0");
        reveal_strlit("1");
        reveal_strlit("2");
        reveal_strlit("3");
        reveal_strlit("4");
        reveal_strlit("5");
        reveal_strlit("6");
        reveal_strlit("7");
        reveal_strlit("8");
        reveal_strlit("9");
    }
    match d {
        0 => "0",
        1 => "1",
        2 => "2",
        3 => "3",
        4 => "4",
        5 => "5",
        6 => "6",
        7 => "7",
        8 => "8",
        _ => "9",
    }
}

/// `n` in decimal, with no leading zero and no separator.
pub fn decimal_text(n: u64) -> (res: String)
    ensures
        res@ == decimal(n as nat),
    decreases n,
{
    if n < 10 {
        String::from_str(digit_text(n))
    } else {
        let head = decimal_text(n / 10);
        head.concat(digit_text(n % 10))
    }
}

} // verus!
