//! The text of a progress line.

use humansize::{file_size_opts, FileSize};
use vstd::prelude::*;

verus! {

/// The character for a digit.
pub open spec fn digit_char(digit: nat) -> char {
    if digit == 0 {
        '0'
    } else if digit == 1 {
        '1'
    } else if digit == 2 {
        '2'
    } else if digit == 3 {
        '3'
    } else if digit == 4 {
        '4'
    } else if digit == 5 {
        '5'
    } else if digit == 6 {
        '6'
    } else if digit == 7 {
        '7'
    } else if digit == 8 {
        '8'
    } else {
        '9'
    }
}

/// A number in decimal digits, without a sign and without leading zeros.
pub open spec fn decimal_text(n: nat) -> Seq<char>
    decreases n,
{
    if n < 10 {
        seq![digit_char(n)]
    } else {
        decimal_text(n / 10).push(digit_char(n % 10))
    }
}

/// What starts a progress line: the name with a colon and a space, or
/// nothing where the pipe has no name.
pub open spec fn prefix_text(name: Option<Seq<char>>) -> Seq<char> {
    match name {
        Some(n) => n + ": "@,
        None => Seq::empty(),
    }
}

/// A progress line, made of the sizes as they are to be shown and of the
/// fill level in percent.
pub open spec fn status_text(
    name: Option<Seq<char>>,
    read: Seq<char>,
    read_rate: Seq<char>,
    written: Seq<char>,
    write_rate: Seq<char>,
    fill_percent: nat,
    fill: Seq<char>,
) -> Seq<char> {
    prefix_text(name) + "Read "@ + read + " ("@ + read_rate + "/s), written "@ + written + " ("@
        + write_rate + "/s), fill "@ + decimal_text(fill_percent) + "%, "@ + fill
}

/// How a number of bytes is shown to a person: the text that humansize
/// makes of it in its conventional style, in units of 1024 under the names
/// B, KB, MB and so on. Nothing is proved of this text; it is only named.
pub uninterp spec fn human_size_text(bytes: u64) -> Seq<char>;

/// Calls `humansize::FileSize::file_size` on `bytes` with the options
/// `humansize::file_size_opts::CONVENTIONAL`.
///
/// Trusted, not proved: the text that comes back depends on `bytes` alone,
/// so it can be named `human_size_text(bytes)`. The contract claims nothing
/// else of it. The call does not fail for an unsigned number; if it did, the
/// text of the failure would be handed on in place of the size.
#[verifier::external_body]
fn human_size(bytes: u64) -> (text: String)
    ensures
        text@ == human_size_text(bytes),
{
    match bytes.file_size(file_size_opts::CONVENTIONAL) {
        Ok(text) | Err(text) => text,
    }
}

fn digit_str(digit: u64) -> (text: &'static str)
    requires
        digit < 10,
    ensures
        text@ == seq![digit_char(digit as nat)],
{
    proof {
        reveal_strlit("0");
        reveal_strlit("1");
        reveal_strlit("2");
        reveal_strlit("3");
        reveal_strlit("4");
        reveal_strlit("5");
        reveal_strlit("6");
        reveal_strlit("7");
        reveal_strlit("8");
        reveal_strlit("9");
    }
    let text = if digit == 0 {
        "0"
    } else if digit == 1 {
        "1"
    } else if digit == 2 {
        "2"
    } else if digit == 3 {
        "3"
    } else if digit == 4 {
        "4"
    } else if digit == 5 {
        "5"
    } else if digit == 6 {
        "6"
    } else if digit == 7 {
        "7"
    } else if digit == 8 {
        "8"
    } else {
        "9"
    };
    assert(text@ =~= seq![digit_char(digit as nat)]);
    text
}

/// Writes `n` in decimal digits.
pub fn decimal(n: u64) -> (text: String)
    ensures
        text@ == decimal_text(n as nat),
    decreases n,
{
    if n < 10 {
        String::from_str(digit_str(n))
    } else {
        let mut text = decimal(n / 10);
        text.append(digit_str(n % 10));
        assert(text@ =~= decimal_text(n as nat / 10).push(digit_char(n as nat % 10)));
        text
    }
}

/// Puts a progress line together from its parts.
pub fn compose_status(
    name: Option<&str>,
    read: &str,
    read_rate: &str,
    written: &str,
    write_rate: &str,
    fill_percent: u64,
    fill: &str,
) -> (line: String)
    ensures
        line@ == status_text(
            match name {
                Some(n) => Some(n@),
                None => None,
            },
            read@,
            read_rate@,
            written@,
            write_rate@,
            fill_percent as nat,
            fill@,
        ),
{
    let mut line = String::new();
    match name {
        Some(n) => {
            line.append(n);
            line.append(": ");
        },
        None => {},
    }
    assert(line@ =~= prefix_text(
        match name {
            Some(n) => Some(n@),
            None => None,
        },
    ));
    line.append("Read ");
    line.append(read);
    line.append(" (");
    line.append(read_rate);
    line.append("/s), written ");
    line.append(written);
    line.append(" (");
    line.append(write_rate);
    line.append("/s), fill ");
    let percent = decimal(fill_percent);
    line.append(percent.as_str());
    line.append("%, ");
    line.append(fill);
    line
}

/// Puts a progress line together from numbers of bytes, each shown as
/// `human_size_text` gives it.
pub fn status_line(
    name: Option<&str>,
    read: u64,
    read_rate: u64,
    written: u64,
    write_rate: u64,
    fill_percent: u64,
    fill: u64,
) -> (line: String)
    ensures
        line@ == status_text(
            match name {
                Some(n) => Some(n@),
                None => None,
            },
            human_size_text(read),
            human_size_text(read_rate),
            human_size_text(written),
            human_size_text(write_rate),
            fill_percent as nat,
            human_size_text(fill),
        ),
{
    let read_text = human_size(read);
    let read_rate_text = human_size(read_rate);
    let written_text = human_size(written);
    let write_rate_text = human_size(write_rate);
    let fill_text = human_size(fill);
    compose_status(
        name,
        read_text.as_str(),
        read_rate_text.as_str(),
        written_text.as_str(),
        write_rate_text.as_str(),
        fill_percent,
        fill_text.as_str(),
    )
}

} // verus!
