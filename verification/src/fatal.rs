//! The kernel's last-resort failure path: format a diagnostic for an
//! unrecoverable condition, emit it byte by byte through the privileged
//! call layer's console output, and bring the machine down. The
//! transition is one way: once taken, the firmware model is halted and no
//! further environment call verifies.

use vstd::prelude::*;
use vstd::string::StringExecFns;
use vstd::string::StringSliceAdditionalSpecFns;
use vstd::utf8::encode_utf8;
use crate::sbi::Firmware;
use crate::sbi::console_putchar;
use crate::sbi::shutdown;

verus! {

/// Where in the kernel's sources an unrecoverable condition was raised.
#[derive(Clone, PartialEq, Eq, Debug)]
pub struct SourceLocation {
    /// Identifier of the source file.
    pub file: String,
    /// Line within that file.
    pub line: usize,
}

/// The character standing for the decimal digit `d`.
pub open spec fn spec_digit_char(d: nat) -> char
    recommends
        d < 10,
{
    if d == 0 {
        '0'
    } else if d == 1 {
        '1'
    } else if d == 2 {
        '2'
    } else if d == 3 {
        '3'
    } else if d == 4 {
        '4'
    } else if d == 5 {
        '5'
    } else if d == 6 {
        '6'
    } else if d == 7 {
        '7'
    } else if d == 8 {
        '8'
    } else {
        '9'
    }
}

/// Decimal digits of `n`, most significant first, without leading zeros
/// (`0` itself is the single digit `0`).
pub open spec fn spec_dec_digits(n: nat) -> Seq<char>
    decreases n,
{
    if n < 10 {
        seq![spec_digit_char(n)]
    } else {
        spec_dec_digits(n / 10).push(spec_digit_char(n % 10))
    }
}

/// The diagnostic the fatal path emits: the source location when one is
/// known, otherwise a generic fallback carrying the raised message.
pub open spec fn spec_fatal_message(location: Option<SourceLocation>, message: Seq<char>) -> Seq<
    char,
> {
    match location {
        Some(l) => "panic occurred in file '"@ + l.file@ + "' at line "@ + spec_dec_digits(
            l.line as nat,
        ),
        None => "    Panic message: "@ + message,
    }
}

/// A diagnostic built with a source location carries the file identifier
/// and the line's decimal digits verbatim: the file name follows the
/// fixed prefix, and the digits end the message.
pub proof fn lemma_fatal_message_names_location(location: SourceLocation, message: Seq<char>)
    ensures
        ({
            let text = spec_fatal_message(Some(location), message);
            let file_at = "panic occurred in file '"@.len() as int;
            let digits = spec_dec_digits(location.line as nat);
            &&& text.subrange(file_at, file_at + location.file@.len()) == location.file@
            &&& text.subrange(text.len() - digits.len(), text.len() as int) == digits
        }),
{
    let text = spec_fatal_message(Some(location), message);
    let file_at = "panic occurred in file '"@.len() as int;
    let digits = spec_dec_digits(location.line as nat);
    assert(text.subrange(file_at, file_at + location.file@.len()) =~= location.file@);
    assert(text.subrange(text.len() - digits.len(), text.len() as int) =~= digits);
}

/// The one-character string of decimal digit `d`.
fn digit_str(d: usize) -> (s: &'static str)
    requires
        d < 10,
    ensures
        s@ == seq![spec_digit_char(d as nat)],
{
    proof {
        reveal_strlit("0");
        reveal_strlit("1");
        reveal_strlit("2");
        reveal_strlit("3");
        reveal_strlit("4");
        reveal_strlit("5");
        reveal_strlit("6");
        reveal_strlit("7");
        reveal_strlit("8");
        reveal_strlit("9");
        assert("0"@ =~= seq![spec_digit_char(0)]);
        assert("1"@ =~= seq![spec_digit_char(1)]);
        assert("2"@ =~= seq![spec_digit_char(2)]);
        assert("3"@ =~= seq![spec_digit_char(3)]);
        assert("4"@ =~= seq![spec_digit_char(4)]);
        assert("5"@ =~= seq![spec_digit_char(5)]);
        assert("6"@ =~= seq![spec_digit_char(6)]);
        assert("7"@ =~= seq![spec_digit_char(7)]);
        assert("8"@ =~= seq![spec_digit_char(8)]);
        assert("9"@ =~= seq![spec_digit_char(9)]);
    }
    if d == 0 {
        "0"
    } else if d == 1 {
        "1"
    } else if d == 2 {
        "2"
    } else if d == 3 {
        "3"
    } else if d == 4 {
        "4"
    } else if d == 5 {
        "5"
    } else if d == 6 {
        "6"
    } else if d == 7 {
        "7"
    } else if d == 8 {
        "8"
    } else {
        "9"
    }
}

/// Render `n` in decimal.
pub fn dec_string(n: usize) -> (s: String)
    ensures
        s@ == spec_dec_digits(n as nat),
    decreases n,
{
    let digit = n % 10;
    let rest = n / 10;
    if rest == 0 {
        digit_str(digit).to_owned()
    } else {
        let mut s = dec_string(rest);
        s.append(digit_str(digit));
        proof {
            assert(spec_dec_digits((n / 10) as nat) + seq![spec_digit_char((n % 10) as nat)]
                =~= spec_dec_digits((n / 10) as nat).push(spec_digit_char((n % 10) as nat)));
        }
        s
    }
}

/// Format the diagnostic of an unrecoverable condition: the source
/// location when one is known, otherwise the fallback text with the
/// raised message.
pub fn fatal_message(location: &Option<SourceLocation>, message: &str) -> (text: String)
    ensures
        text@ == spec_fatal_message(*location, message@),
{
    match location {
        Some(l) => {
            let mut text = "panic occurred in file '".to_owned();
            text.append(l.file.as_str());
            text.append("' at line ");
            let digits = dec_string(l.line);
            text.append(digits.as_str());
            text
        },
        None => {
            let mut text = "    Panic message: ".to_owned();
            text.append(message);
            text
        },
    }
}

/// Emit `text` byte by byte on the console through the privileged call
/// layer.
#[verifier::loop_isolation(false)]
pub fn print_str(firmware: &mut Firmware, text: &str)
    requires
        !old(firmware).halted,
    ensures
        final(firmware).console@ == old(firmware).console@ + encode_utf8(text@),
        final(firmware).timer == old(firmware).timer,
        final(firmware).halted == old(firmware).halted,
{
    let ghost pre = *firmware;
    let bytes = text.as_bytes();
    let n: usize = bytes.len();
    let mut i: usize = 0;
    while i < n
        invariant
            n == bytes.len(),
            0 <= i <= n,
            bytes@ == text.spec_bytes(),
            firmware.console@ == pre.console@ + bytes@.subrange(0, i as int),
            firmware.timer == pre.timer,
            firmware.halted == pre.halted,
        decreases n - i,
    {
        console_putchar(firmware, bytes[i] as usize);
        proof {
            assert(bytes@.subrange(0, i + 1) =~= bytes@.subrange(0, i as int).push(
                bytes@[i as int],
            ));
        }
        i = i + 1;
    }
    proof {
        assert(bytes@.subrange(0, n as int) =~= bytes@);
        assert(firmware.console@ =~= pre.console@ + encode_utf8(text@));
    }
}

/// Handle an unrecoverable kernel condition: emit the diagnostic and a
/// line break on the console, then request power-off. The firmware model
/// ends halted, and nothing that talks to the machine verifies past this
/// call.
pub fn fatal(firmware: &mut Firmware, location: &Option<SourceLocation>, message: &str)
    requires
        !old(firmware).halted,
    ensures
        final(firmware).halted,
        final(firmware).timer == old(firmware).timer,
        final(firmware).console@ == old(firmware).console@ + encode_utf8(
            spec_fatal_message(*location, message@),
        ) + encode_utf8("\n"@),
{
    let text = fatal_message(location, message);
    print_str(firmware, text.as_str());
    print_str(firmware, "\n");
    shutdown(firmware);
}

} // verus!
