//! The texts of the control surface: the rate lines, the confirmations of the
//! control operations and the message of a refused request.

use crate::mode::{
    spec_mode_name, ControlError, ExecutionMode, Utilization, MILLIONTHS_PER_PERCENT,
};
use crate::orchestrator::StartOutcome;
use vstd::prelude::*;

verus! {

/// The character of one decimal digit.
pub open spec fn spec_digit_char(d: nat) -> char {
    if d == 0 {
        '0'
    } else if d == 1 {
        '1'
    } else if d == 2 {
        '2'
    } else if d == 3 {
        '3'
    } else if d == 4 {
        '4'
    } else if d == 5 {
        '5'
    } else if d == 6 {
        '6'
    } else if d == 7 {
        '7'
    } else if d == 8 {
        '8'
    } else {
        '9'
    }
}

/// The decimal numeral of `n`, without leading zeros.
pub open spec fn spec_decimal(n: nat) -> Seq<char>
    decreases n,
{
    if n < 10 {
        seq![spec_digit_char(n)]
    } else {
        spec_decimal(n / 10).push(spec_digit_char(n % 10))
    }
}

/// The digits of the fraction `frac / (10 * scale)`, most significant first,
/// without trailing zeros.
pub open spec fn spec_fraction(frac: nat, scale: nat) -> Seq<char>
    decreases scale,
{
    if frac == 0 || scale == 0 {
        Seq::<char>::empty()
    } else {
        seq![spec_digit_char(frac / scale)] + spec_fraction(frac % scale, scale / 10)
    }
}

/// A utilization in millionths of full load, written as a percentage: a minus
/// sign if negative, the whole percents, and after a point the ten-thousandths
/// without trailing zeros, if there are any.
pub open spec fn spec_percent_text(millionths: int) -> Seq<char> {
    let magnitude = if millionths < 0 {
        (-millionths) as nat
    } else {
        millionths as nat
    };
    let whole = magnitude / (MILLIONTHS_PER_PERCENT as nat);
    let frac = magnitude % (MILLIONTHS_PER_PERCENT as nat);
    let sign = if millionths < 0 {
        "-"@
    } else {
        Seq::<char>::empty()
    };
    let tail = if frac == 0 {
        Seq::<char>::empty()
    } else {
        "."@ + spec_fraction(frac, 1000)
    };
    sign + spec_decimal(whole) + tail
}

/// The whole percentage nearest to a utilization; a utilization halfway
/// between two goes to the even one.
pub open spec fn spec_rounded_percent(millionths: nat) -> nat {
    let whole = millionths / (MILLIONTHS_PER_PERCENT as nat);
    let rest = millionths % (MILLIONTHS_PER_PERCENT as nat);
    if rest > 5000 || (rest == 5000 && whole % 2 == 1) {
        whole + 1
    } else {
        whole
    }
}

/// The word that a confirmation uses for an outcome.
pub open spec fn spec_outcome_word(outcome: StartOutcome) -> Seq<char> {
    match outcome {
        StartOutcome::Started => "started"@,
        StartOutcome::AlreadyRunning => "already running"@,
        StartOutcome::Restarted => "restarted"@,
    }
}

/// The line that answers a rate query: the rate in decimal and a line feed.
pub open spec fn spec_rate_line(rate: nat) -> Seq<char> {
    spec_decimal(rate) + "\n"@
}

/// The confirmation of a request for a mode: it names the outcome and the
/// mode, and for the duty-cycle mode the target as a whole percentage.
pub open spec fn spec_start_message(
    outcome: StartOutcome,
    mode: ExecutionMode,
    target: nat,
) -> Seq<char> {
    let head = "CPU stress test "@ + spec_outcome_word(outcome) + " with mode: "@ + spec_mode_name(
        mode,
    );
    if mode == ExecutionMode::Bursty {
        head + ", utilization: "@ + spec_decimal(spec_rounded_percent(target)) + "%\n"@
    } else {
        head + "\n"@
    }
}

/// The message of a refused request.
pub open spec fn spec_error_message(error: ControlError) -> Seq<char> {
    match error {
        ControlError::InvalidUtilization { millionths } => {
            "Error: utilization must be between 0 and 100 (got "@ + spec_percent_text(
                millionths as int,
            ) + ")\n"@
        },
    }
}

fn digit_text(d: u64) -> (text: &'static str)
    requires
        d < 10,
    ensures
        text@ == seq![spec_digit_char(d as nat)],
{
    proof {
        reveal_strlit("0");
        reveal_strlit("1");
        reveal_strlit("2");
        reveal_strlit("3");
        reveal_strlit("4");
        reveal_strlit("5");
        reveal_strlit("6");
        reveal_strlit("7");
        reveal_strlit("8");
        reveal_strlit("9");
    }
    let text: &'static str = if d == 0 {
        "0"
    } else if d == 1 {
        "1"
    } else if d == 2 {
        "2"
    } else if d == 3 {
        "3"
    } else if d == 4 {
        "4"
    } else if d == 5 {
        "5"
    } else if d == 6 {
        "6"
    } else if d == 7 {
        "7"
    } else if d == 8 {
        "8"
    } else {
        "9"
    };
    assert(text@ =~= seq![spec_digit_char(d as nat)]);
    text
}

/// Appends the decimal numeral of `n` to `out`.
pub fn append_decimal(out: &mut String, n: u64)
    ensures
        final(out)@ == old(out)@ + spec_decimal(n as nat),
    decreases n,
{
    if n >= 10 {
        append_decimal(out, n / 10);
    }
    out.append(digit_text(n % 10));
    proof {
        if n >= 10 {
            assert(old(out)@ + spec_decimal(n as nat / 10) + seq![spec_digit_char(n as nat % 10)]
                =~= old(out)@ + spec_decimal(n as nat));
        } else {
            assert(old(out)@ + seq![spec_digit_char(n as nat % 10)] =~= old(out)@ + spec_decimal(
                n as nat,
            ));
        }
    }
}

/// The decimal numeral of `n`.
pub fn decimal(n: u64) -> (text: String)
    ensures
        text@ == spec_decimal(n as nat),
{
    let mut text: String = String::new();
    append_decimal(&mut text, n);
    assert(Seq::<char>::empty() + spec_decimal(n as nat) =~= spec_decimal(n as nat));
    text
}

/// The answer to a rate query.
pub fn rate_line(rate: u64) -> (line: String)
    ensures
        line@ == spec_rate_line(rate as nat),
{
    let mut line: String = decimal(rate);
    line.append("\n");
    line
}

/// The whole percentage nearest to `target`, ties to even.
pub fn rounded_percent(target: Utilization) -> (percent: u32)
    ensures
        percent == spec_rounded_percent(target@),
        percent <= 100,
{
    let millionths: u32 = target.millionths();
    let whole: u32 = millionths / 10_000;
    let rest: u32 = millionths % 10_000;
    if rest > 5000 || (rest == 5000 && whole % 2 == 1) {
        whole + 1
    } else {
        whole
    }
}

/// The confirmation of a request for a mode.
pub fn start_message(outcome: StartOutcome, mode: ExecutionMode, target: Utilization) -> (text:
    String)
    ensures
        text@ == spec_start_message(outcome, mode, target@),
{
    let mut text: String = String::from_str("CPU stress test ");
    match outcome {
        StartOutcome::Started => text.append("started"),
        StartOutcome::AlreadyRunning => text.append("already running"),
        StartOutcome::Restarted => text.append("restarted"),
    }
    text.append(" with mode: ");
    text.append(mode.name());
    if mode == ExecutionMode::Bursty {
        text.append(", utilization: ");
        append_decimal(&mut text, rounded_percent(target) as u64);
        text.append("%\n");
    } else {
        text.append("\n");
    }
    text
}

/// The confirmation of a stop.
pub fn stop_message() -> (text: String)
    ensures
        text@ == "CPU stress test stopped\n"@,
{
    String::from_str("CPU stress test stopped\n")
}

fn append_fraction(out: &mut String, frac: u64, scale: u64)
    requires
        scale == 1000 || scale == 100 || scale == 10 || scale == 1 || scale == 0,
        frac < 10 * scale || (scale == 0 && frac == 0),
    ensures
        final(out)@ == old(out)@ + spec_fraction(frac as nat, scale as nat),
    decreases scale,
{
    if frac == 0 || scale == 0 {
        assert(old(out)@ + Seq::<char>::empty() =~= old(out)@);
    } else {
        out.append(digit_text(frac / scale));
        append_fraction(out, frac % scale, scale / 10);
        assert(old(out)@ + seq![spec_digit_char(frac as nat / scale as nat)] + spec_fraction(
            frac as nat % scale as nat,
            scale as nat / 10,
        ) =~= old(out)@ + spec_fraction(frac as nat, scale as nat));
    }
}

/// Appends a utilization in millionths of full load as a percentage.
pub fn append_percent(out: &mut String, millionths: i64)
    ensures
        final(out)@ == old(out)@ + spec_percent_text(millionths as int),
{
    let magnitude: u64 = if millionths < 0 {
        out.append("-");
        (-(millionths + 1)) as u64 + 1
    } else {
        millionths as u64
    };
    let ghost signed = out@;
    append_decimal(out, magnitude / 10_000);
    let frac: u64 = magnitude % 10_000;
    if frac != 0 {
        out.append(".");
        append_fraction(out, frac, 1000);
    }
    proof {
        let sign = if millionths < 0 {
            "-"@
        } else {
            Seq::<char>::empty()
        };
        assert(signed =~= old(out)@ + sign);
        let whole = spec_decimal(magnitude as nat / 10_000);
        if frac != 0 {
            assert(old(out)@ + sign + whole + "."@ + spec_fraction(frac as nat, 1000) =~= old(
                out,
            )@ + (sign + whole + ("."@ + spec_fraction(frac as nat, 1000))));
        } else {
            assert(old(out)@ + sign + whole =~= old(out)@ + (sign + whole + Seq::<char>::empty()));
        }
    }
}

/// The message that tells the caller why a request was refused.
pub fn error_message(error: ControlError) -> (text: String)
    ensures
        text@ == spec_error_message(error),
{
    match error {
        ControlError::InvalidUtilization { millionths } => {
            let mut text: String = String::from_str(
                "Error: utilization must be between 0 and 100 (got ",
            );
            append_percent(&mut text, millionths);
            text.append(")\n");
            text
        },
    }
}

} // verus!
