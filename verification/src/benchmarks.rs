//! Report data of the TPS benchmarks that is not floating point: the
//! hardware description and the report's timestamp.
use vstd::prelude::*;
use vstd::string::StringExecFns;

verus! {

/// The machine a report was produced on.
#[derive(Debug, Clone)]
pub struct HardwareInfo {
    pub cpu: String,
    pub cores: usize,
    pub os: String,
}

/// The character of decimal digit `d`.
pub open spec fn digit(d: nat) -> char {
    if d == 0 {
        '0'
    } else if d == 1 {
        '1'
    } else if d == 2 {
        '2'
    } else if d == 3 {
        '3'
    } else if d == 4 {
        '4'
    } else if d == 5 {
        '5'
    } else if d == 6 {
        '6'
    } else if d == 7 {
        '7'
    } else if d == 8 {
        '8'
    } else {
        '9'
    }
}

/// The decimal representation of `n`, without leading zeros.
pub open spec fn decimal(n: nat) -> Seq<char>
    decreases n,
{
    if n < 10 {
        seq![digit(n)]
    } else {
        decimal(n / 10).push(digit(n % 10))
    }
}

/// The one-character string of digit `d`.
fn digit_str(d: u64) -> (r: &'static str)
    requires
        d < 10,
    ensures
        r@ == seq![digit(d as nat)],
{
    proof {
        reveal_strlit("0");
        reveal_strlit("1");
        reveal_strlit("2");
        reveal_strlit("3");
        reveal_strlit("4");
        reveal_strlit("5");
        reveal_strlit("6");
        reveal_strlit("7");
        reveal_strlit("8");
        reveal_strlit("9");
    }
    if d == 0 {
        "0"
    } else if d == 1 {
        "1"
    } else if d == 2 {
        "2"
    } else if d == 3 {
        "3"
    } else if d == 4 {
        "4"
    } else if d == 5 {
        "5"
    } else if d == 6 {
        "6"
    } else if d == 7 {
        "7"
    } else if d == 8 {
        "8"
    } else {
        "9"
    }
}

/// Appends the decimal representation of `n`.
fn append_decimal(s: &mut String, n: u64)
    ensures
        final(s)@ == old(s)@ + decimal(n as nat),
    decreases n,
{
    if n >= 10 {
        append_decimal(s, n / 10);
    }
    s.append(digit_str(n % 10));
    assert(final(s)@ =~= old(s)@ + decimal(n as nat));
}

/// The report timestamp for `secs` seconds since the Unix epoch:
/// `"unix:"` and the decimal number.
pub fn timestamp_label(secs: u64) -> (r: String)
    ensures
        r@ == "unix:"@ + decimal(secs as nat),
{
    let mut s = "unix:".to_owned();
    append_decimal(&mut s, secs);
    s
}

#[verifier::external_type_specification]
#[verifier::external_body]
pub struct ExSystemTime(std::time::SystemTime);

/// `std::time::SystemTime::now`: the current time; nothing is known of it.
#[verifier::external_body]
fn system_now() -> (r: std::time::SystemTime) {
    std::time::SystemTime::now()
}

/// `SystemTime::duration_since(UNIX_EPOCH)`: the time since the epoch, or
/// nothing for a time before it.
#[verifier::external_body]
fn since_unix_epoch(t: &std::time::SystemTime) -> (r: Option<core::time::Duration>) {
    t.duration_since(std::time::UNIX_EPOCH).ok()
}

/// `Duration::as_secs`: the whole seconds of a duration.
#[verifier::external_body]
fn whole_secs(d: &core::time::Duration) -> (r: u64) {
    d.as_secs()
}

/// The whole seconds elapsed since the epoch, or zero for a time before it.
pub open spec fn elapsed_or_zero(elapsed: Option<u64>) -> u64 {
    match elapsed {
        Some(s) => s,
        None => 0,
    }
}

/// The report timestamp for a time `elapsed` seconds after the epoch
/// (`None` for a time before it, which is labelled `"unix:0"`).
pub fn timestamp_from_elapsed(elapsed: Option<u64>) -> (r: String)
    ensures
        r@ == "unix:"@ + decimal(elapsed_or_zero(elapsed) as nat),
{
    let secs = match elapsed {
        Some(s) => s,
        None => 0,
    };
    timestamp_label(secs)
}

/// The report timestamp for the current time (seconds since the epoch, zero
/// for a clock set before it).
pub fn chrono_lite_timestamp() -> (r: String)
    ensures
        exists|elapsed: Option<u64>| r@ == "unix:"@ + decimal(elapsed_or_zero(elapsed) as nat),
{
    let now = system_now();
    let elapsed = match since_unix_epoch(&now) {
        Some(d) => Some(whole_secs(&d)),
        None => None,
    };
    timestamp_from_elapsed(elapsed)
}

} // verus!
