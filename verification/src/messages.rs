//! The texts that tell a user that an operation of the link has succeeded.

use vstd::prelude::*;
use vstd::string::StringExecFns;

verus! {

/// The character that stands for the digit `d`.
pub open spec fn digit_char(d: nat) -> char {
    if d == 0 {
        '0'
    } else if d == 1 {
        '1'
    } else if d == 2 {
        '2'
    } else if d == 3 {
        '3'
    } else if d == 4 {
        '4'
    } else if d == 5 {
        '5'
    } else if d == 6 {
        '6'
    } else if d == 7 {
        '7'
    } else if d == 8 {
        '8'
    } else {
        '9'
    }
}

/// The decimal numeral of `n` as text, without sign or leading zeros.
pub open spec fn decimal_chars(n: nat) -> Seq<char>
    decreases n,
{
    if n < 10 {
        seq![digit_char(n)]
    } else {
        decimal_chars(n / 10).push(digit_char(n % 10))
    }
}

/// What a user is told when a port has been opened.
pub open spec fn opened_text(port_name: Seq<char>, baud_rate: u32) -> Seq<char> {
    "Connected to "@ + port_name + " at "@ + decimal_chars(baud_rate as nat) + " baud"@
}

/// What a user is told when the port has been closed.
pub open spec fn closed_text() -> Seq<char> {
    "Serial port closed successfully"@
}

/// What a user is told when a connection attempt has ended on a port.
pub open spec fn connected_text(port_name: Seq<char>) -> Seq<char> {
    "Connected successfully to "@ + port_name
}

/// The text of one digit.
fn digit_str(d: u32) -> (text: &'static str)
    requires
        d < 10,
    ensures
        text@ == seq![digit_char(d as nat)],
{
    proof {
        reveal_strlit("0");
        reveal_strlit("1");
        reveal_strlit("2");
        reveal_strlit("3");
        reveal_strlit("4");
        reveal_strlit("5");
        reveal_strlit("6");
        reveal_strlit("7");
        reveal_strlit("8");
        reveal_strlit("9");
    }
    let text = if d == 0 {
        "0"
    } else if d == 1 {
        "1"
    } else if d == 2 {
        "2"
    } else if d == 3 {
        "3"
    } else if d == 4 {
        "4"
    } else if d == 5 {
        "5"
    } else if d == 6 {
        "6"
    } else if d == 7 {
        "7"
    } else if d == 8 {
        "8"
    } else {
        "9"
    };
    text
}

/// Writes `n` as a decimal numeral.
pub fn decimal_string(n: u32) -> (text: String)
    ensures
        text@ == decimal_chars(n as nat),
    decreases n,
{
    if n < 10 {
        String::from_str(digit_str(n))
    } else {
        let text = decimal_string(n / 10).concat(digit_str(n % 10));
        text
    }
}

/// Tells a user that a port has been opened.
pub fn opened_message(port_name: &str, baud_rate: u32) -> (text: String)
    ensures
        text@ == opened_text(port_name@, baud_rate),
{
    let baud = decimal_string(baud_rate);
    String::from_str("Connected to ").concat(port_name).concat(" at ").concat(
        baud.as_str(),
    ).concat(" baud")
}

/// Tells a user that the port has been closed.
pub fn closed_message() -> (text: String)
    ensures
        text@ == closed_text(),
{
    String::from_str("Serial port closed successfully")
}

/// Tells a user that a connection attempt has ended on a port.
pub fn connected_message(port_name: &str) -> (text: String)
    ensures
        text@ == connected_text(port_name@),
{
    String::from_str("Connected successfully to ").concat(port_name)
}

} // verus!
