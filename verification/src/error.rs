//! The ways in which a proxied call fails.

use vstd::prelude::*;
use crate::text::{chars_of, joined, string_of};

verus! {

/// Why a call ended without a result. Every failure ends the call; the caller
/// is handed the message.
#[derive(Clone, Debug, PartialEq, Eq)]
pub enum ProxyError {
    /// A Jira request came without a base URL.
    InvalidInput,
    /// The transport could not complete the request.
    Network(String),
    /// The service answered outside the 2xx range.
    Upstream { status: u16, body: String },
    /// A 2xx answer did not hold JSON.
    Decode(String),
}

/// The decimal digit that stands for `d`.
pub open spec fn digit_char(d: nat) -> char
    recommends
        d < 10,
{
    if d == 0 {
        '0'
    } else if d == 1 {
        '1'
    } else if d == 2 {
        '2'
    } else if d == 3 {
        '3'
    } else if d == 4 {
        '4'
    } else if d == 5 {
        '5'
    } else if d == 6 {
        '6'
    } else if d == 7 {
        '7'
    } else if d == 8 {
        '8'
    } else {
        '9'
    }
}

/// `n` in decimal, without leading zeros.
pub open spec fn decimal(n: nat) -> Seq<char>
    decreases n,
{
    if n < 10 {
        seq![digit_char(n)]
    } else {
        decimal(n / 10).push(digit_char(n % 10))
    }
}

/// What the caller is told when no base URL was given.
pub open spec fn missing_url_message() -> Seq<char> {
    "URL Jiry jest wymagany"@
}

/// What the caller is told when the service answered `status` with `body`.
pub open spec fn upstream_message(status: nat, body: Seq<char>) -> Seq<char> {
    "Jira Error ("@ + decimal(status) + "): "@ + body
}

fn digit_of(d: u16) -> (c: char)
    requires
        d < 10,
    ensures
        c == digit_char(d as nat),
{
    if d == 0 {
        '0'
    } else if d == 1 {
        '1'
    } else if d == 2 {
        '2'
    } else if d == 3 {
        '3'
    } else if d == 4 {
        '4'
    } else if d == 5 {
        '5'
    } else if d == 6 {
        '6'
    } else if d == 7 {
        '7'
    } else if d == 8 {
        '8'
    } else {
        '9'
    }
}

/// `n` in decimal, without leading zeros.
pub fn decimal_digits(n: u16) -> (v: Vec<char>)
    ensures
        v@ == decimal(n as nat),
    decreases n,
{
    if n < 10 {
        vec![digit_of(n)]
    } else {
        let mut v: Vec<char> = decimal_digits(n / 10);
        v.push(digit_of(n % 10));
        v
    }
}

impl ProxyError {
    /// The message of this failure.
    pub open spec fn message_spec(&self) -> Seq<char> {
        match self {
            ProxyError::InvalidInput => missing_url_message(),
            ProxyError::Network(description) => description@,
            ProxyError::Upstream { status, body } => upstream_message(*status as nat, body@),
            ProxyError::Decode(description) => description@,
        }
    }

    /// The message that the caller is handed.
    pub fn message(&self) -> (m: String)
        ensures
            m@ == self.message_spec(),
    {
        match self {
            ProxyError::InvalidInput => string_of(&chars_of("URL Jiry jest wymagany")),
            ProxyError::Network(description) => description.clone(),
            ProxyError::Upstream { status, body } => {
                let head: Vec<char> = joined(&chars_of("Jira Error ("), &decimal_digits(*status));
                let head: Vec<char> = joined(&head, &chars_of("): "));
                string_of(&joined(&head, &chars_of(body.as_str())))
            },
            ProxyError::Decode(description) => description.clone(),
        }
    }
}

} // verus!
