//! What the user is told.
//!
//! Passkey Entry is the whole reason this exists: the controller picks a
//! six-digit passkey, the keyboard waits for the user to type it, and without
//! somewhere to display it the pairing simply times out.

use crate::pairing::PairingEvent;
use crate::task_types::Notice;
use vstd::prelude::*;
use vstd::string::StringExecFns;

verus! {

/// How a message is to be shown.
#[derive(Debug, Clone, Copy, PartialEq, Eq, Structural)]
pub enum Severity {
    Info,
    Error,
}

/// A message to the user.
pub struct Message {
    pub severity: Severity,
    pub text: String,
}

/// The character of a decimal digit.
pub open spec fn digit(d: int) -> char {
    if d == 0 {
        '0'
    } else if d == 1 {
        '1'
    } else if d == 2 {
        '2'
    } else if d == 3 {
        '3'
    } else if d == 4 {
        '4'
    } else if d == 5 {
        '5'
    } else if d == 6 {
        '6'
    } else if d == 7 {
        '7'
    } else if d == 8 {
        '8'
    } else {
        '9'
    }
}

/// A number in decimal, without leading zeros.
pub open spec fn decimal(n: nat) -> Seq<char>
    decreases n,
{
    if n < 10 {
        seq![digit(n as int)]
    } else {
        decimal(n / 10).push(digit((n % 10) as int))
    }
}

/// A number in decimal, filled up with leading zeros to `width` digits.
pub open spec fn zero_padded(n: nat, width: nat) -> Seq<char> {
    if decimal(n).len() < width {
        Seq::new((width - decimal(n).len()) as nat, |i: int| '0') + decimal(n)
    } else {
        decimal(n)
    }
}

/// What the user reads about a pairing step. Passkeys are six digits and must be
/// typed including leading zeros.
pub open spec fn pairing_text(event: PairingEvent) -> Seq<char> {
    match event {
        PairingEvent::PasskeyDisplay(passkey) => "Passkey "@ + zero_padded(passkey as nat, 6)
            + ": type it on the keyboard, then press Enter"@,
        PairingEvent::LegacyPin(pin) => "PIN "@ + pin@
            + ": type it on the keyboard, then press Enter"@,
        PairingEvent::JustWorks => "Pairing confirmed automatically"@,
        PairingEvent::PasskeyEntryUnsupported =>
            "Device wants a passkey typed on the bridge, which has no keys"@,
    }
}

/// How a pairing step is shown: as an error when pairing was declined.
pub open spec fn pairing_severity(event: PairingEvent) -> Severity {
    match event {
        PairingEvent::PasskeyEntryUnsupported => Severity::Error,
        _ => Severity::Info,
    }
}

/// The text of a decimal digit.
fn digit_text(d: u32) -> (r: &'static str)
    requires
        d < 10,
    ensures
        r@ == seq![digit(d as int)],
{
    proof {
        reveal_strlit("0");
        reveal_strlit("1");
        reveal_strlit("2");
        reveal_strlit("3");
        reveal_strlit("4");
        reveal_strlit("5");
        reveal_strlit("6");
        reveal_strlit("7");
        reveal_strlit("8");
        reveal_strlit("9");
    }
    let r: &'static str = match d {
        0 => "0",
        1 => "1",
        2 => "2",
        3 => "3",
        4 => "4",
        5 => "5",
        6 => "6",
        7 => "7",
        8 => "8",
        _ => "9",
    };
    assert(r@ == seq![digit(d as int)]);
    r
}

/// Append a number in decimal.
fn append_decimal(text: &mut String, n: u32)
    ensures
        final(text)@ == old(text)@ + decimal(n as nat),
    decreases n,
{
    if n >= 10 {
        append_decimal(text, n / 10);
    }
    text.append(digit_text(n % 10));
    assert(text@ == old(text)@ + decimal(n as nat));
}

/// The number of digits a number has in decimal.
fn decimal_len(n: u32) -> (r: u64)
    ensures
        r == decimal(n as nat).len(),
        1 <= r <= n + 1,
    decreases n,
{
    if n < 10 {
        1
    } else {
        decimal_len(n / 10) + 1
    }
}

/// The message for a pairing step the user has to see or act on.
pub fn pairing_message(event: PairingEvent) -> (r: Message)
    ensures
        r.text@ == pairing_text(event),
        r.severity == pairing_severity(event),
{
    match event {
        PairingEvent::PasskeyDisplay(passkey) => {
            let mut text: String = String::from_str("Passkey ");
            let ghost start = text@;
            let digits: u64 = decimal_len(passkey);
            let mut len: u64 = digits;
            assert(text@ == start + Seq::new((len - digits) as nat, |i: int| '0'));
            while len < 6
                invariant
                    digits == decimal(passkey as nat).len(),
                    digits <= len,
                    len <= 6 || len == digits,
                    text@ == start + Seq::new((len - digits) as nat, |i: int| '0'),
                decreases 6 - len,
            {
                text.append(digit_text(0));
                len = len + 1;
                assert(text@ == start + Seq::new((len - digits) as nat, |i: int| '0'));
            }
            append_decimal(&mut text, passkey);
            text.append(": type it on the keyboard, then press Enter");
            assert(text@ == pairing_text(event));
            Message { severity: Severity::Info, text }
        },
        PairingEvent::LegacyPin(pin) => {
            let mut text: String = String::from_str("PIN ");
            text.append(pin);
            text.append(": type it on the keyboard, then press Enter");
            Message { severity: Severity::Info, text }
        },
        PairingEvent::JustWorks => Message {
            severity: Severity::Info,
            text: String::from_str("Pairing confirmed automatically"),
        },
        PairingEvent::PasskeyEntryUnsupported => Message {
            severity: Severity::Error,
            text: String::from_str("Device wants a passkey typed on the bridge, which has no keys"),
        },
    }
}

/// What the user reads about an Inquiry.
pub open spec fn notice_text(notice: Notice) -> Seq<char> {
    match notice {
        Notice::InquiryStarting => "Classic Inquiry scan starting (~10s)..."@,
        Notice::InquiryFailed => "Classic Inquiry failed"@,
        Notice::InquiryCancelled => "Classic Inquiry cancelled"@,
        Notice::InquiryComplete => "Classic Inquiry scan complete"@,
    }
}

/// The message for a step of an Inquiry.
pub fn notice_message(notice: Notice) -> (r: Message)
    ensures
        r.text@ == notice_text(notice),
        r.severity == (if notice is InquiryFailed {
            Severity::Error
        } else {
            Severity::Info
        }),
{
    match notice {
        Notice::InquiryStarting => Message {
            severity: Severity::Info,
            text: String::from_str("Classic Inquiry scan starting (~10s)..."),
        },
        Notice::InquiryFailed => Message {
            severity: Severity::Error,
            text: String::from_str("Classic Inquiry failed"),
        },
        Notice::InquiryCancelled => Message {
            severity: Severity::Info,
            text: String::from_str("Classic Inquiry cancelled"),
        },
        Notice::InquiryComplete => Message {
            severity: Severity::Info,
            text: String::from_str("Classic Inquiry scan complete"),
        },
    }
}

/// The value of a decimal digit.
pub open spec fn digit_value(c: char) -> int {
    c as int - '0' as int
}

/// The value that a row of decimal digits spells out.
pub open spec fn digits_value(digits: Seq<char>) -> int
    decreases digits.len(),
{
    if digits.len() == 0 {
        0
    } else {
        10 * digits_value(digits.drop_last()) + digit_value(digits.last())
    }
}

proof fn lemma_decimal(n: nat)
    ensures
        decimal(n).len() >= 1,
        forall|i: int| 0 <= i < decimal(n).len() ==> '0' <= #[trigger] decimal(n)[i] <= '9',
        digits_value(decimal(n)) == n,
    decreases n,
{
    reveal_with_fuel(digits_value, 2);
    if n >= 10 {
        lemma_decimal(n / 10);
        assert(decimal(n).drop_last() == decimal(n / 10));
    }
}

proof fn lemma_padding_value(pad: nat, digits: Seq<char>)
    ensures
        digits_value(Seq::new(pad, |i: int| '0') + digits) == digits_value(digits),
    decreases digits.len(), pad,
{
    let zeros = Seq::new(pad, |i: int| '0');
    if digits.len() > 0 {
        lemma_padding_value(pad, digits.drop_last());
        assert((zeros + digits).drop_last() == zeros + digits.drop_last());
    } else if pad > 0 {
        lemma_padding_value((pad - 1) as nat, digits);
        assert((zeros + digits).drop_last() == Seq::new((pad - 1) as nat, |i: int| '0') + digits);
    }
}

proof fn lemma_decimal_len(n: nat)
    ensures
        n < 1_000_000 ==> decimal(n).len() <= 6,
{
    reveal_with_fuel(decimal, 7);
}

/// A passkey is shown as exactly six digits, and they spell it out.
pub proof fn law_passkey_is_six_digits(passkey: u32)
    requires
        passkey < 1_000_000,
    ensures
        zero_padded(passkey as nat, 6).len() == 6,
        forall|i: int|
            0 <= i < 6 ==> '0' <= #[trigger] zero_padded(passkey as nat, 6)[i] <= '9',
        digits_value(zero_padded(passkey as nat, 6)) == passkey,
{
    let n = passkey as nat;
    lemma_decimal(n);
    lemma_decimal_len(n);
    if decimal(n).len() < 6 {
        lemma_padding_value((6 - decimal(n).len()) as nat, decimal(n));
    }
}

/// Different passkeys are shown differently.
pub proof fn law_passkeys_are_told_apart(a: u32, b: u32)
    requires
        pairing_text(PairingEvent::PasskeyDisplay(a)) == pairing_text(
            PairingEvent::PasskeyDisplay(b),
        ),
    ensures
        a == b,
{
    let lead = "Passkey "@;
    let tail = ": type it on the keyboard, then press Enter"@;
    let (x, y) = (zero_padded(a as nat, 6), zero_padded(b as nat, 6));
    assert((lead + x + tail).len() == (lead + y + tail).len());
    assert((lead + x + tail).subrange(lead.len() as int, (lead.len() + x.len()) as int) == x);
    assert((lead + y + tail).subrange(lead.len() as int, (lead.len() + y.len()) as int) == y);
    lemma_decimal(a as nat);
    lemma_decimal(b as nat);
    if decimal(a as nat).len() < 6 {
        lemma_padding_value((6 - decimal(a as nat).len()) as nat, decimal(a as nat));
    }
    if decimal(b as nat).len() < 6 {
        lemma_padding_value((6 - decimal(b as nat).len()) as nat, decimal(b as nat));
    }
}

/// The message for any passkey is a lead, digits and an instruction. The digits
/// spell the passkey out; there are at least six of them, and more only if the
/// first one counts.
pub proof fn law_passkey_message_spells_the_passkey(passkey: u32)
    ensures
        ({
            let text = pairing_text(PairingEvent::PasskeyDisplay(passkey));
            let lead = "Passkey "@;
            let instruction = ": type it on the keyboard, then press Enter"@;
            let digits = text.subrange(
                lead.len() as int,
                text.len() - instruction.len(),
            );
            &&& text == lead + digits + instruction
            &&& digits.len() >= 6
            &&& digits.len() > 6 ==> digits[0] != '0'
            &&& forall|i: int| 0 <= i < digits.len() ==> '0' <= #[trigger] digits[i] <= '9'
            &&& digits_value(digits) == passkey
        }),
{
    let n = passkey as nat;
    let lead = "Passkey "@;
    let instruction = ": type it on the keyboard, then press Enter"@;
    let digits = zero_padded(n, 6);
    let text = lead + digits + instruction;
    assert(text.subrange(lead.len() as int, text.len() - instruction.len()) == digits);
    lemma_decimal(n);
    lemma_no_leading_zero(n);
    if decimal(n).len() < 6 {
        lemma_padding_value((6 - decimal(n).len()) as nat, decimal(n));
    }
}

proof fn lemma_no_leading_zero(n: nat)
    ensures
        n > 0 ==> decimal(n)[0] != '0',
        n == 0 ==> decimal(n).len() == 1,
        decimal(n).len() >= 1,
    decreases n,
{
    if n >= 10 {
        lemma_no_leading_zero(n / 10);
    }
}

/// The message for a legacy PIN holds the PIN as it is, whatever it is, between a
/// lead and an instruction.
pub proof fn law_pin_message_holds_the_pin(pin: &'static str)
    ensures
        ({
            let text = pairing_text(PairingEvent::LegacyPin(pin));
            let lead = "PIN "@;
            let instruction = ": type it on the keyboard, then press Enter"@;
            &&& text.len() == lead.len() + pin@.len() + instruction.len()
            &&& text.take(lead.len() as int) == lead
            &&& text.subrange(lead.len() as int, (lead.len() + pin@.len()) as int) == pin@
            &&& text.skip((lead.len() + pin@.len()) as int) == instruction
        }),
{
}

/// Only a declined pairing is shown as an error; what has no input says the same
/// every time.
pub proof fn law_only_declined_pairing_is_an_error(event: PairingEvent)
    ensures
        pairing_severity(event) is Error <==> event is PasskeyEntryUnsupported,
        event is JustWorks ==> pairing_text(event) == "Pairing confirmed automatically"@,
        event is PasskeyEntryUnsupported ==> pairing_text(event)
            == "Device wants a passkey typed on the bridge, which has no keys"@,
{
}

/// Every step of an Inquiry has its own text.
pub proof fn law_notices_by_text(notice: Notice)
    ensures
        notice is InquiryStarting ==> notice_text(notice)
            == "Classic Inquiry scan starting (~10s)..."@,
        notice is InquiryFailed ==> notice_text(notice) == "Classic Inquiry failed"@,
        notice is InquiryCancelled ==> notice_text(notice) == "Classic Inquiry cancelled"@,
        notice is InquiryComplete ==> notice_text(notice) == "Classic Inquiry scan complete"@,
{
}

} // verus!
