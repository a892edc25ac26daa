use vstd::prelude::*;

use crate::error::SessionError;

verus! {

/// The character of a decimal digit.
pub open spec fn digit_char(d: nat) -> char
    recommends
        d < 10,
{
    if d == 0 {
        '0'
    } else if d == 1 {
        '1'
    } else if d == 2 {
        '2'
    } else if d == 3 {
        '3'
    } else if d == 4 {
        '4'
    } else if d == 5 {
        '5'
    } else if d == 6 {
        '6'
    } else if d == 7 {
        '7'
    } else if d == 8 {
        '8'
    } else {
        '9'
    }
}

/// `n` written in decimal, without leading zeros.
pub open spec fn decimal(n: nat) -> Seq<char>
    decreases n,
{
    if n < 10 {
        seq![digit_char(n)]
    } else {
        decimal(n / 10).push(digit_char(n % 10))
    }
}

pub open spec fn ready_text() -> Seq<char> {
    "Ready for new games"@
}

pub open spec fn waiting_text() -> Seq<char> {
    "Waiting for an opponent"@
}

pub open spec fn won_text() -> Seq<char> {
    "You won"@
}

pub open spec fn lost_text() -> Seq<char> {
    "You lost"@
}

pub open spec fn draw_text() -> Seq<char> {
    "Draw"@
}

/// What the user is told when a request failed.
pub open spec fn error_text(e: SessionError) -> Seq<char> {
    match e {
        SessionError::Transport => "Connection failed"@,
        SessionError::Status(code) => "Code : "@ + decimal(code as nat),
        SessionError::Decode => "Malformed response"@,
    }
}

fn digit_text(d: u16) -> (t: &'static str)
    requires
        d < 10,
    ensures
        t@ == seq![digit_char(d as nat)],
{
    proof {
        reveal_strlit("0");
        reveal_strlit("1");
        reveal_strlit("2");
        reveal_strlit("3");
        reveal_strlit("4");
        reveal_strlit("5");
        reveal_strlit("6");
        reveal_strlit("7");
        reveal_strlit("8");
        reveal_strlit("9");
    }
    let t = if d == 0 {
        "0"
    } else if d == 1 {
        "1"
    } else if d == 2 {
        "2"
    } else if d == 3 {
        "3"
    } else if d == 4 {
        "4"
    } else if d == 5 {
        "5"
    } else if d == 6 {
        "6"
    } else if d == 7 {
        "7"
    } else if d == 8 {
        "8"
    } else {
        "9"
    };
    assert(t@ =~= seq![digit_char(d as nat)]);
    t
}

/// Appends `n` in decimal to `s`.
pub fn push_decimal(s: &mut String, n: u16)
    ensures
        final(s)@ == old(s)@ + decimal(n as nat),
    decreases n,
{
    if n >= 10 {
        push_decimal(s, n / 10);
    }
    s.append(digit_text(n % 10));
    proof {
        if n >= 10 {
            assert(final(s)@ =~= old(s)@ + decimal(n as nat));
        }
    }
}

/// The text shown to the user for a failed request.
pub fn describe_error(e: SessionError) -> (t: String)
    ensures
        t@ == error_text(e),
{
    match e {
        SessionError::Transport => String::from_str("Connection failed"),
        SessionError::Status(code) => {
            let mut t = String::from_str("Code : ");
            push_decimal(&mut t, code);
            t
        },
        SessionError::Decode => String::from_str("Malformed response"),
    }
}

} // verus!
