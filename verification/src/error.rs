//! Error type for CAN bus operations.

use vstd::prelude::*;
use vstd::string::StringExecFns;

verus! {

/// Errors returned by the operations of a CAN bus.
#[derive(Debug)]
pub enum CanIoError {
    /// The bus is disconnected, closed, or the backing driver has gone away.
    Disconnected,
    /// The provided CAN identifier was out of range for its width.
    InvalidId,
    /// Frame payload is too long for the requested frame kind.
    DataTooLong { got: usize, max: usize },
    /// A subscriber's queue overflowed and frames were dropped.
    /// The number reports how many frames were lost since the last
    /// successful receive.
    Lagged { dropped: u64 },
    /// Any backend-specific error, by its message.
    Backend(String),
}

/// The decimal digit of a number below ten.
pub open spec fn digit(n: nat) -> char
    recommends
        n < 10,
{
    ('0' as nat + n) as char
}

/// A number in decimal, without leading zeroes.
pub open spec fn decimal(n: nat) -> Seq<char>
    decreases n,
{
    if n < 10 {
        seq![digit(n)]
    } else {
        decimal(n / 10).push(digit(n % 10))
    }
}

impl CanIoError {
    /// The message that is displayed for the error.
    pub open spec fn text(self) -> Seq<char> {
        match self {
            CanIoError::Disconnected => "CAN bus disconnected"@,
            CanIoError::InvalidId => "invalid CAN identifier"@,
            CanIoError::DataTooLong { got, max } => "frame data too long: got "@ + decimal(
                got as nat,
            ) + " bytes, max "@ + decimal(max as nat),
            CanIoError::Lagged { dropped } => "subscriber lagged behind, "@ + decimal(
                dropped as nat,
            ) + " frames dropped"@,
            CanIoError::Backend(message) => message@,
        }
    }

    /// Wraps a backend-specific error, given by the message it displays.
    pub fn backend(message: String) -> (error: Self)
        ensures
            error == CanIoError::Backend(message),
    {
        CanIoError::Backend(message)
    }

    /// The message to display.
    pub fn message(&self) -> (message: String)
        ensures
            message@ == self.text(),
            self matches CanIoError::Backend(inner) ==> message@ == inner@,
    {
        match self {
            CanIoError::Disconnected => String::from_str("CAN bus disconnected"),
            CanIoError::InvalidId => String::from_str("invalid CAN identifier"),
            CanIoError::DataTooLong { got, max } => {
                let mut text = String::from_str("frame data too long: got ");
                append_decimal(&mut text, *got as u64);
                text.append(" bytes, max ");
                append_decimal(&mut text, *max as u64);
                text
            },
            CanIoError::Lagged { dropped } => {
                let mut text = String::from_str("subscriber lagged behind, ");
                append_decimal(&mut text, *dropped);
                text.append(" frames dropped");
                text
            },
            CanIoError::Backend(message) => message.clone(),
        }
    }
}

fn append_decimal(text: &mut String, n: u64)
    ensures
        final(text)@ == old(text)@ + decimal(n as nat),
    decreases n,
{
    if n >= 10 {
        append_decimal(text, n / 10);
    }
    text.append(digit_text((n % 10) as u8));
}

fn digit_text(n: u8) -> (text: &'static str)
    requires
        n < 10,
    ensures
        text@ == seq![digit(n as nat)],
{
    proof {
        reveal_strlit("0");
        reveal_strlit("1");
        reveal_strlit("2");
        reveal_strlit("3");
        reveal_strlit("4");
        reveal_strlit("5");
        reveal_strlit("6");
        reveal_strlit("7");
        reveal_strlit("8");
        reveal_strlit("9");
    }
    match n {
        0 => "0",
        1 => "1",
        2 => "2",
        3 => "3",
        4 => "4",
        5 => "5",
        6 => "6",
        7 => "7",
        8 => "8",
        _ => "9",
    }
}

/// The number that a text of decimal digits stands for.
pub open spec fn number_read(text: Seq<char>) -> int
    decreases text.len(),
{
    if text.len() == 0 {
        0
    } else {
        10 * number_read(text.drop_last()) + (text.last() as int - 48)
    }
}

/// A number is written in decimal digits, reads back as itself, and has no zero in
/// front unless it is 0.
pub proof fn law_decimal_reads_back(n: nat)
    ensures
        number_read(decimal(n)) == n,
        decimal(n).len() > 0,
        forall|i: int| 0 <= i < decimal(n).len() ==> 48 <= #[trigger] decimal(n)[i] as int <= 57,
        n > 0 ==> decimal(n)[0] as int != 48,
        n == 0 ==> decimal(n).len() == 1,
    decreases n,
{
    if n >= 10 {
        law_decimal_reads_back(n / 10);
        assert(decimal(n).drop_last() =~= decimal(n / 10));
    } else {
        assert(decimal(n).drop_last() =~= Seq::<char>::empty());
        reveal_with_fuel(number_read, 2);
    }
}

/// The message of a number that was exceeded, or of frames that were lost, gives
/// the numbers in full, in their places.
pub proof fn law_messages_give_the_numbers(got: usize, max: usize, dropped: u64, message: String)
    ensures
        (CanIoError::DataTooLong { got, max }).text() == "frame data too long: got "@ + decimal(
            got as nat,
        ) + " bytes, max "@ + decimal(max as nat),
        (CanIoError::Lagged { dropped }).text() == "subscriber lagged behind, "@ + decimal(
            dropped as nat,
        ) + " frames dropped"@,
        CanIoError::Disconnected.text() == "CAN bus disconnected"@,
        CanIoError::InvalidId.text() == "invalid CAN identifier"@,
        CanIoError::Backend(message).text() == message@,
{
}

} // verus!
