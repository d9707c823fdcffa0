//! The settings that the pantry service is started with.

use vstd::prelude::*;
use vstd::string::StringExecFns;

verus! {

/// All settings of the service.
#[derive(Debug, PartialEq, Eq)]
pub struct Configuration {
    pub database: DatabaseConfiguration,
    pub server: ServerConfiguration,
}

/// Where the data is kept.
#[derive(Debug, PartialEq, Eq)]
pub struct DatabaseConfiguration {
    /// The locator of the data source. It is handed to the engine as it is.
    pub dsn: String,
}

/// Where the service listens.
#[derive(Debug, PartialEq, Eq)]
pub struct ServerConfiguration {
    pub host: String,
    pub port: u16,
}

/// The decimal digit for a number below ten.
pub open spec fn digit(value: nat) -> char {
    if value == 0 {
        '0'
    } else if value == 1 {
        '1'
    } else if value == 2 {
        '2'
    } else if value == 3 {
        '3'
    } else if value == 4 {
        '4'
    } else if value == 5 {
        '5'
    } else if value == 6 {
        '6'
    } else if value == 7 {
        '7'
    } else if value == 8 {
        '8'
    } else {
        '9'
    }
}

/// A number written in decimal digits, without leading zeros.
pub open spec fn decimal(number: nat) -> Seq<char>
    decreases number,
{
    if number < 10 {
        seq![digit(number)]
    } else {
        decimal(number / 10).push(digit(number % 10))
    }
}

/// The address `host:port`, the port in decimal.
pub open spec fn spec_address(host: Seq<char>, port: u16) -> Seq<char> {
    host + ":"@ + decimal(port as nat)
}

/// The one-letter text of a decimal digit.
fn digit_text(value: u16) -> (text: &'static str)
    requires
        value < 10,
    ensures
        text@ == seq![digit(value as nat)],
{
    proof {
        reveal_strlit("0");
        reveal_strlit("1");
        reveal_strlit("2");
        reveal_strlit("3");
        reveal_strlit("4");
        reveal_strlit("5");
        reveal_strlit("6");
        reveal_strlit("7");
        reveal_strlit("8");
        reveal_strlit("9");
    }
    let text = if value == 0 {
        "0"
    } else if value == 1 {
        "1"
    } else if value == 2 {
        "2"
    } else if value == 3 {
        "3"
    } else if value == 4 {
        "4"
    } else if value == 5 {
        "5"
    } else if value == 6 {
        "6"
    } else if value == 7 {
        "7"
    } else if value == 8 {
        "8"
    } else {
        "9"
    };
    assert(text@ =~= seq![digit(value as nat)]);
    text
}

/// `number` written in decimal digits.
pub fn decimal_text(number: u16) -> (text: String)
    ensures
        text@ == decimal(number as nat),
    decreases number,
{
    if number < 10 {
        String::from_str(digit_text(number))
    } else {
        let text = decimal_text(number / 10).concat(digit_text(number % 10));
        assert(text@ =~= decimal(number as nat));
        text
    }
}

impl ServerConfiguration {
    /// The address to listen on: the host, a colon, and the port in decimal.
    pub fn address(&self) -> (address: String)
        ensures
            address@ == spec_address(self.host@, self.port),
    {
        self.host.clone().concat(":").concat(decimal_text(self.port).as_str())
    }
}

} // verus!
