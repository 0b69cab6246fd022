//! The activity tick that keeps a workspace from stopping while the editor is
//! open on it.

use vstd::prelude::*;

verus! {

/// The time between two activity ticks, in milliseconds (one minute).
pub const ACTIVITY_INTERVAL_MS: u64 = 60 * 1000;

/// The decimal digit of `d` (`0 <= d < 10`).
pub open spec fn digit_char(d: nat) -> char {
    (48 + d) as char
}

/// The decimal representation of `n`, without leading zeros.
pub open spec fn decimal(n: nat) -> Seq<char>
    decreases n,
{
    if n < 10 {
        seq![digit_char(n)]
    } else {
        decimal(n / 10).push(digit_char(n % 10))
    }
}

/// Appends the decimal representation of `n` to `out`.
fn push_decimal(n: u64, out: &mut String)
    ensures
        final(out)@ == old(out)@ + decimal(n as nat),
    decreases n,
{
    if n >= 10 {
        push_decimal(n / 10, out);
    }
    let d = n % 10;
    let c: char = if d == 0 {
        '0'
    } else if d == 1 {
        '1'
    } else if d == 2 {
        '2'
    } else if d == 3 {
        '3'
    } else if d == 4 {
        '4'
    } else if d == 5 {
        '5'
    } else if d == 6 {
        '6'
    } else if d == 7 {
        '7'
    } else if d == 8 {
        '8'
    } else {
        '9'
    };
    assert(c == digit_char((n % 10) as nat));
    out.push(c);
    if n < 10 {
        assert(old(out)@.push(c) == old(out)@ + seq![c]);
    }
}

/// The `Host` header of the activity tick sent through a port forward to
/// `port`: `127.0.0.1:` followed by the port in decimal.
pub open spec fn activity_host_text(port: u16) -> Seq<char> {
    "127.0.0.1:"@ + decimal(port as nat)
}

proof fn lemma_decimal_len(n: nat)
    ensures
        decimal(n).len() >= 1,
        n >= 10 ==> decimal(n).len() >= 2,
    decreases n,
{
    if n >= 10 {
        lemma_decimal_len(n / 10);
    }
}

/// Different numbers have different decimal representations, so activity
/// ticks for different ports carry different `Host` headers.
pub proof fn lemma_decimal_injective(a: nat, b: nat)
    ensures
        decimal(a) == decimal(b) ==> a == b,
    decreases a,
{
    lemma_decimal_len(a);
    lemma_decimal_len(b);
    if decimal(a) == decimal(b) {
        if a >= 10 && b >= 10 {
            assert(decimal(a).drop_last() == decimal(a / 10));
            assert(decimal(b).drop_last() == decimal(b / 10));
            lemma_decimal_injective(a / 10, b / 10);
            assert(decimal(a).last() == digit_char(a % 10));
            assert(decimal(b).last() == digit_char(b % 10));
        } else if a < 10 && b < 10 {
            assert(decimal(a)[0] == digit_char(a));
            assert(decimal(b)[0] == digit_char(b));
        }
    }
}

/// Activity ticks for different ports carry different `Host` headers.
pub proof fn lemma_activity_host_distinguishes_ports(p: u16, q: u16)
    ensures
        activity_host_text(p) == activity_host_text(q) ==> p == q,
{
    let base = "127.0.0.1:"@;
    if activity_host_text(p) == activity_host_text(q) {
        assert(decimal(p as nat) =~= activity_host_text(p).subrange(base.len() as int, activity_host_text(p).len() as int));
        assert(decimal(q as nat) =~= activity_host_text(q).subrange(base.len() as int, activity_host_text(q).len() as int));
        lemma_decimal_injective(p as nat, q as nat);
    }
}

/// The HTTP request that reports activity to a workspace: `POST` to
/// `/activity/tick` with the given headers.
pub struct ActivityTick {
    pub method: String,
    pub uri: String,
    pub connection: String,
    pub host: String,
}

/// The activity tick for the editor endpoint on `port`.
pub fn activity_tick(port: u16) -> (t: ActivityTick)
    ensures
        t.method@ == "POST"@,
        t.uri@ == "/activity/tick"@,
        t.connection@ == "close"@,
        t.host@ == activity_host_text(port),
{
    let mut host = String::from_str("127.0.0.1:");
    push_decimal(port as u64, &mut host);
    ActivityTick {
        method: String::from_str("POST"),
        uri: String::from_str("/activity/tick"),
        connection: String::from_str("close"),
        host,
    }
}

/// What one round of activity reporting came to.
#[derive(Clone, Copy, PartialEq, Eq, Structural, Debug)]
pub enum TickOutcome {
    /// The port of the pod could not be forwarded.
    PortForwardFailed,
    /// The forward gave no stream for the port.
    NoStream,
    /// The HTTP connection could not be set up.
    HandshakeFailed,
    /// The request could not be sent.
    RequestFailed,
    /// The request was sent.
    Delivered,
}

/// Whether activity reporting goes on after a round: only a delivered tick
/// leads to the next one; any failure ends the reporting.
pub fn keep_ticking(outcome: TickOutcome) -> (b: bool)
    ensures
        b <==> outcome == TickOutcome::Delivered,
{
    match outcome {
        TickOutcome::Delivered => true,
        _ => false,
    }
}

} // verus!
