//! The text protocol on the command channel: command frames out, mode reports in.
//!
//! Every frame is 64 bytes. A command is ASCII text followed by NUL bytes up to
//! the frame size. A report begins with `dspMode=` and the decimal digits of the
//! current mode code; whatever follows the digits is padding.

use vstd::prelude::*;
use vstd::utf8::valid_utf8;
use crate::error::ProtocolFault;
use crate::position::MicPosition;
use crate::usb::FRAME_LEN;

verus! {

/// A command the firmware understands.
#[derive(Clone, Copy, Debug, PartialEq, Eq, Structural)]
pub enum Command {
    /// Ask for the current DSP mode.
    QueryMode,
    /// Switch the DSP to the mode of the given position.
    SetMode(MicPosition),
}

/// The bytes of the word `dspMode`.
pub open spec fn keyword() -> Seq<u8> {
    seq![0x64u8, 0x73u8, 0x70u8, 0x4du8, 0x6fu8, 0x64u8, 0x65u8]
}

/// The bytes of `dspMode=`, with which every mode report begins.
pub open spec fn report_prefix() -> Seq<u8> {
    keyword().push(0x3du8)
}

/// Whether a byte is an ASCII decimal digit.
pub open spec fn is_digit(byte: u8) -> bool {
    0x30 <= byte <= 0x39
}

/// The decimal digits of `n` as ASCII bytes, without leading zeros.
pub open spec fn decimal(n: nat) -> Seq<u8>
    decreases n,
{
    if n < 10 {
        seq![(0x30 + n) as u8]
    } else {
        decimal(n / 10).push((0x30 + n % 10) as u8)
    }
}

/// The number that a sequence of ASCII decimal digits writes.
pub open spec fn decimal_value(digits: Seq<u8>) -> nat
    decreases digits.len(),
{
    if digits.len() == 0 {
        0
    } else {
        10 * decimal_value(digits.drop_last()) + (digits.last() - 0x30) as nat
    }
}

/// Length of the longest run of decimal digits at the start of `bytes`.
pub open spec fn digit_run(bytes: Seq<u8>) -> nat
    decreases bytes.len(),
{
    if bytes.len() > 0 && is_digit(bytes[0]) {
        1 + digit_run(bytes.skip(1))
    } else {
        0
    }
}

/// `text` followed by NUL bytes up to the frame size.
pub open spec fn padded(text: Seq<u8>) -> Seq<u8>
    recommends
        text.len() <= FRAME_LEN,
{
    text + Seq::new((FRAME_LEN - text.len()) as nat, |i: int| 0u8)
}

impl Command {
    /// The command's text: `dspMode` for a query, `dspMode ` and the decimal
    /// mode code for a change of mode.
    pub open spec fn text(self) -> Seq<u8> {
        match self {
            Command::QueryMode => keyword(),
            Command::SetMode(position) => keyword().push(0x20u8) + decimal(position.spec_code() as nat),
        }
    }

    /// The 64 bytes that carry this command to the firmware.
    pub open spec fn spec_frame(self) -> Seq<u8> {
        padded(self.text())
    }

    /// The 64 bytes that carry this command to the firmware: the command's
    /// text, NUL-terminated and NUL-padded.
    pub fn frame(self) -> (frame: Vec<u8>)
        ensures
            frame@ == self.spec_frame(),
            frame@.len() == FRAME_LEN,
    {
        let mut frame: Vec<u8> = Vec::new();
        frame.push(0x64);
        frame.push(0x73);
        frame.push(0x70);
        frame.push(0x4d);
        frame.push(0x6f);
        frame.push(0x64);
        frame.push(0x65);
        match self {
            Command::QueryMode => {},
            Command::SetMode(position) => {
                frame.push(0x20);
                push_decimal(&mut frame, position.code());
            },
        }
        let ghost text = frame@;
        while frame.len() < FRAME_LEN
            invariant
                text.len() <= frame@.len() <= FRAME_LEN,
                frame@ =~= text + Seq::new((frame@.len() - text.len()) as nat, |i: int| 0u8),
            decreases FRAME_LEN - frame.len(),
        {
            frame.push(0);
        }
        frame
    }
}

/// A `u8` has at most three decimal digits.
pub proof fn decimal_of_byte(n: u8)
    ensures
        1 <= decimal(n as nat).len() <= 3,
        n < 10 ==> decimal(n as nat) =~= seq![(0x30 + n) as u8],
        10 <= n < 100 ==> decimal(n as nat) =~= seq![(0x30 + n / 10) as u8, (0x30 + n % 10) as u8],
        100 <= n ==> decimal(n as nat) =~= seq![
            (0x30 + n / 100) as u8,
            (0x30 + (n / 10) % 10) as u8,
            (0x30 + n % 10) as u8,
        ],
{
    reveal_with_fuel(decimal, 3);
}

/// Appends the decimal digits of `n` to `out`.
fn push_decimal(out: &mut Vec<u8>, n: u8)
    ensures
        final(out)@ == old(out)@ + decimal(n as nat),
{
    proof {
        decimal_of_byte(n);
    }
    if n >= 100 {
        out.push(0x30 + n / 100);
    }
    if n >= 10 {
        out.push(0x30 + (n / 10) % 10);
    }
    out.push(0x30 + n % 10);
}

/// What a response frame says about the DSP mode.
///
/// The frame must be UTF-8 text that begins with `dspMode=`. The longest run of
/// decimal digits after the prefix is read as a number; it must have at least
/// one digit, fit in eight bits, and be a known mode code. Nothing after the run
/// is looked at.
pub open spec fn mode_report(frame: Seq<u8>) -> Result<MicPosition, ProtocolFault> {
    if !valid_utf8(frame) {
        Err(ProtocolFault::NotText)
    } else if !report_prefix().is_prefix_of(frame) {
        Err(ProtocolFault::MissingPrefix)
    } else {
        let rest = frame.skip(report_prefix().len() as int);
        let digits = rest.take(digit_run(rest) as int);
        if digits.len() == 0 {
            Err(ProtocolFault::MissingNumber)
        } else if decimal_value(digits) > u8::MAX {
            Err(ProtocolFault::NumberTooLarge)
        } else {
            match MicPosition::of_code(decimal_value(digits) as u8) {
                Some(position) => Ok(position),
                None => Err(ProtocolFault::UnrecognizedMode(decimal_value(digits) as u8)),
            }
        }
    }
}

/// Whether `bytes` is UTF-8 text, as `std::str::from_utf8` judges it.
///
/// Trusted: the contract equates that function's success with UTF-8 validity
/// as vstd defines it.
#[verifier::external_body]
pub(crate) fn is_utf8(bytes: &[u8]) -> (valid: bool)
    ensures
        valid == valid_utf8(bytes@),
{
    std::str::from_utf8(bytes).is_ok()
}

/// Whether `frame` begins with `dspMode=`.
fn has_report_prefix(frame: &[u8]) -> (found: bool)
    ensures
        found == report_prefix().is_prefix_of(frame@),
{
    if frame.len() < 8 {
        return false;
    }
    let found = frame[0] == 0x64 && frame[1] == 0x73 && frame[2] == 0x70 && frame[3] == 0x4d
        && frame[4] == 0x6f && frame[5] == 0x64 && frame[6] == 0x65 && frame[7] == 0x3d;
    proof {
        let prefix = report_prefix();
        assert(prefix[0] == 0x64 && prefix[1] == 0x73 && prefix[2] == 0x70 && prefix[3] == 0x4d
            && prefix[4] == 0x6f && prefix[5] == 0x64 && prefix[6] == 0x65 && prefix[7] == 0x3d);
    }
    found
}

/// A run of `n` digits that ends at the end of `bytes` or before a byte that is
/// no digit is the longest run at the start of `bytes`.
pub proof fn digit_run_is(bytes: Seq<u8>, n: nat)
    requires
        n <= bytes.len(),
        forall|i: int| 0 <= i < n ==> is_digit(#[trigger] bytes[i]),
        n == bytes.len() || !is_digit(bytes[n as int]),
    ensures
        digit_run(bytes) == n,
    decreases n,
{
    if n > 0 {
        digit_run_is(bytes.skip(1), (n - 1) as nat);
    }
}

/// Reads a response frame: the position it reports, or why it reports none.
pub fn parse_mode_report(frame: &[u8]) -> (report: Result<MicPosition, ProtocolFault>)
    ensures
        report == mode_report(frame@),
{
    if !is_utf8(frame) {
        return Err(ProtocolFault::NotText);
    }
    if !has_report_prefix(frame) {
        return Err(ProtocolFault::MissingPrefix);
    }
    let ghost rest = frame@.skip(8);
    let mut end: usize = 8;
    // The number read so far, or 256 once it has left the range of a byte.
    let mut value: u16 = 0;
    while end < frame.len() && is_digit_byte(frame[end])
        invariant
            8 <= end <= frame.len(),
            rest == frame@.skip(8),
            forall|i: int| 0 <= i < end - 8 ==> is_digit(#[trigger] rest[i]),
            value <= 256,
            value == if decimal_value(rest.take(end - 8)) > u8::MAX {
                256
            } else {
                decimal_value(rest.take(end - 8))
            },
        decreases frame.len() - end,
    {
        let digit: u16 = (frame[end] - 0x30) as u16;
        proof {
            let before = rest.take(end - 8);
            let after = rest.take(end - 8 + 1);
            assert(after.drop_last() =~= before);
        }
        value = if value * 10 + digit > 255 {
            256
        } else {
            value * 10 + digit
        };
        end = end + 1;
    }
    proof {
        digit_run_is(rest, (end - 8) as nat);
    }
    if end == 8 {
        return Err(ProtocolFault::MissingNumber);
    }
    if value > 255 {
        return Err(ProtocolFault::NumberTooLarge);
    }
    let code: u8 = value as u8;
    match MicPosition::try_from(code) {
        Ok(position) => Ok(position),
        Err(_) => Err(ProtocolFault::UnrecognizedMode(code)),
    }
}

/// Whether a byte is an ASCII decimal digit.
fn is_digit_byte(byte: u8) -> (digit: bool)
    ensures
        digit == is_digit(byte),
{
    0x30 <= byte && byte <= 0x39
}

/// The decimal digits of a number are digits, and read back as that number.
pub proof fn decimal_reads_back(n: nat)
    ensures
        decimal(n).len() >= 1,
        forall|i: int| 0 <= i < decimal(n).len() ==> is_digit(#[trigger] decimal(n)[i]),
        decimal_value(decimal(n)) == n,
    decreases n,
{
    let digits = decimal(n);
    if n >= 10 {
        decimal_reads_back(n / 10);
        assert(digits.drop_last() =~= decimal(n / 10));
    } else {
        assert(decimal_value(digits.drop_last()) == 0);
    }
}

/// A report that names a mode code reads back as that code's position.
///
/// Take the text `dspMode=`, the decimal digits of `code`, and any ASCII
/// padding that does not begin with a digit: NUL bytes, a line end, or nothing.
/// Read as a report, it gives the position that `code` stands for, and the
/// fault `UnrecognizedMode` if `code` stands for none. So a device that
/// reports the mode it was last set to is read as being in the position that
/// was set.
pub proof fn report_of_code_reads_back(code: u8, padding: Seq<u8>)
    requires
        forall|i: int| 0 <= i < padding.len() ==> #[trigger] padding[i] < 0x80,
        padding.len() == 0 || !is_digit(padding[0]),
    ensures
        mode_report(report_prefix() + decimal(code as nat) + padding) == (match MicPosition::of_code(
            code,
        ) {
            Some(position) => Ok::<MicPosition, ProtocolFault>(position),
            None => Err(ProtocolFault::UnrecognizedMode(code)),
        }),
{
    let digits = decimal(code as nat);
    let frame = report_prefix() + digits + padding;
    decimal_reads_back(code as nat);
    assert(valid_utf8(frame)) by {
        vstd::utf8::partial_valid_utf8_extend_ascii_block(frame, 0, frame.len() as int);
        assert(frame.subrange(0, frame.len() as int) =~= frame);
    }
    let rest = frame.skip(8);
    digit_run_is(rest, digits.len());
    assert(rest.take(digits.len() as int) =~= digits);
}

} // verus!
