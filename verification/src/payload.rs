//! The heartbeat message: the client identifier, a colon, and the time of
//! the tick as decimal seconds since the Unix epoch.

use vstd::prelude::*;
use vstd::string::StringExecFns;

verus! {

/// The character for one decimal digit.
pub open spec fn digit_char(d: int) -> char {
    if d == 0 {
        '0'
    } else if d == 1 {
        '1'
    } else if d == 2 {
        '2'
    } else if d == 3 {
        '3'
    } else if d == 4 {
        '4'
    } else if d == 5 {
        '5'
    } else if d == 6 {
        '6'
    } else if d == 7 {
        '7'
    } else if d == 8 {
        '8'
    } else {
        '9'
    }
}

/// The digit that a character stands for; 0 for any other character.
pub open spec fn digit_value(c: char) -> int {
    if c == '1' {
        1
    } else if c == '2' {
        2
    } else if c == '3' {
        3
    } else if c == '4' {
        4
    } else if c == '5' {
        5
    } else if c == '6' {
        6
    } else if c == '7' {
        7
    } else if c == '8' {
        8
    } else if c == '9' {
        9
    } else {
        0
    }
}

/// The decimal digits of a natural number, most significant first, without
/// leading zeros.
pub open spec fn decimal_digits(n: nat) -> Seq<char>
    decreases n,
{
    if n < 10 {
        seq![digit_char(n as int)]
    } else {
        decimal_digits(n / 10).push(digit_char((n % 10) as int))
    }
}

/// The decimal text of an integer: its digits, after a minus sign if it is
/// negative.
pub open spec fn decimal(n: int) -> Seq<char> {
    if n < 0 {
        seq!['-'] + decimal_digits((-n) as nat)
    } else {
        decimal_digits(n as nat)
    }
}

/// The number that a run of digits stands for.
pub open spec fn digits_value(s: Seq<char>) -> int
    decreases s.len(),
{
    if s.len() == 0 {
        0
    } else {
        digits_value(s.drop_last()) * 10 + digit_value(s.last())
    }
}

/// The integer that a decimal text stands for.
pub open spec fn decimal_value(s: Seq<char>) -> int {
    if s.len() > 0 && s[0] == '-' {
        -digits_value(s.skip(1))
    } else {
        digits_value(s)
    }
}

/// The payload of the heartbeat that a client sends at a given time.
pub open spec fn payload_text(client_id: Seq<char>, timestamp: int) -> Seq<char> {
    client_id + seq![':'] + decimal(timestamp)
}

/// The time that a client's payload carries: the number after the client
/// identifier and the colon.
pub open spec fn payload_timestamp(client_id: Seq<char>, payload: Seq<char>) -> int {
    decimal_value(payload.skip((client_id.len() + 1) as int))
}

/// The text of one decimal digit.
fn digit_str(d: u64) -> (r: &'static str)
    requires
        d < 10,
    ensures
        r@ == seq![digit_char(d as int)],
{
    proof {
        reveal_strlit("0");
        reveal_strlit("1");
        reveal_strlit("2");
        reveal_strlit("3");
        reveal_strlit("4");
        reveal_strlit("5");
        reveal_strlit("6");
        reveal_strlit("7");
        reveal_strlit("8");
        reveal_strlit("9");
    }
    let r = if d == 0 {
        "0"
    } else if d == 1 {
        "1"
    } else if d == 2 {
        "2"
    } else if d == 3 {
        "3"
    } else if d == 4 {
        "4"
    } else if d == 5 {
        "5"
    } else if d == 6 {
        "6"
    } else if d == 7 {
        "7"
    } else if d == 8 {
        "8"
    } else {
        "9"
    };
    assert(r@ =~= seq![digit_char(d as int)]);
    r
}

/// Appends the decimal digits of `n` to `out`.
fn push_digits(out: &mut String, n: u64)
    ensures
        final(out)@ == old(out)@ + decimal_digits(n as nat),
    decreases n,
{
    if n >= 10 {
        push_digits(out, n / 10);
    }
    let ghost before = out@;
    out.append(digit_str(n % 10));
    proof {
        if n >= 10 {
            assert(before == old(out)@ + decimal_digits((n / 10) as nat));
            assert(out@ =~= old(out)@ + decimal_digits((n / 10) as nat).push(
                digit_char((n % 10) as int),
            ));
        } else {
            assert(out@ =~= old(out)@ + seq![digit_char(n as int)]);
        }
    }
}

/// The decimal text of an integer.
pub fn decimal_string(n: i64) -> (r: String)
    ensures
        r@ == decimal(n as int),
{
    let mut out = String::new();
    if n < 0 {
        let magnitude: u64 = if n == i64::MIN {
            0x8000_0000_0000_0000u64
        } else {
            (-n) as u64
        };
        out.append("-");
        proof {
            reveal_strlit("-");
            assert(out@ =~= seq!['-']);
        }
        push_digits(&mut out, magnitude);
    } else {
        push_digits(&mut out, n as u64);
        assert(out@ =~= decimal_digits(n as nat));
    }
    out
}

/// Builds the heartbeat payload of `client_id` for a tick at `timestamp`
/// seconds since the Unix epoch.
pub fn heartbeat_payload(client_id: &str, timestamp: i64) -> (r: String)
    ensures
        r@ == payload_text(client_id@, timestamp as int),
{
    let digits = decimal_string(timestamp);
    let mut out = String::from_str(client_id);
    out.append(":");
    out.append(digits.as_str());
    proof {
        reveal_strlit(":");
        assert(":"@ =~= seq![':']);
    }
    out
}

/// The digits of a number start with a digit, never with a minus sign.
pub proof fn lemma_digits_start(n: nat)
    ensures
        decimal_digits(n).len() >= 1,
        decimal_digits(n)[0] != '-',
    decreases n,
{
    if n >= 10 {
        lemma_digits_start(n / 10);
    }
}

/// Reading the digits of a number gives the number back.
pub proof fn lemma_digits_round_trip(n: nat)
    ensures
        digits_value(decimal_digits(n)) == n,
    decreases n,
{
    if n < 10 {
        let s = decimal_digits(n);
        assert(s.drop_last() =~= Seq::<char>::empty());
        assert(digits_value(s.drop_last()) == 0);
    } else {
        lemma_digits_round_trip(n / 10);
        let s = decimal_digits(n);
        assert(s.drop_last() =~= decimal_digits(n / 10));
        assert(s.last() == digit_char((n % 10) as int));
    }
}

/// Reading the decimal text of an integer gives the integer back.
pub proof fn lemma_decimal_round_trip(n: int)
    ensures
        decimal_value(decimal(n)) == n,
{
    if n < 0 {
        let m = (-n) as nat;
        lemma_digits_round_trip(m);
        assert(decimal(n).skip(1) =~= decimal_digits(m));
    } else {
        lemma_digits_start(n as nat);
        lemma_digits_round_trip(n as nat);
    }
}

/// A payload carries the time of its tick: the number read back from it is
/// the timestamp that it was built from.
pub proof fn lemma_payload_carries_timestamp(client_id: Seq<char>, timestamp: int)
    ensures
        payload_timestamp(client_id, payload_text(client_id, timestamp)) == timestamp,
{
    lemma_decimal_round_trip(timestamp);
    assert(payload_text(client_id, timestamp).skip((client_id.len() + 1) as int) =~= decimal(timestamp));
}

/// Payloads keep the order of their ticks: while the clock does not run
/// backwards between two ticks, the timestamp in the later payload is not
/// below the one in the earlier payload.
pub proof fn lemma_payload_timestamps_ordered(client_id: Seq<char>, earlier: int, later: int)
    requires
        earlier <= later,
    ensures
        payload_timestamp(client_id, payload_text(client_id, earlier)) <= payload_timestamp(
            client_id,
            payload_text(client_id, later),
        ),
{
    lemma_payload_carries_timestamp(client_id, earlier);
    lemma_payload_carries_timestamp(client_id, later);
}

} // verus!
