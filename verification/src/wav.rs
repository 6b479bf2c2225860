//! Writing a finished recording as a 16-bit mono PCM file: the order in which
//! the file is created, fed and finalized, the error each step can end in, and
//! the name the file is given.

use vstd::prelude::*;
use crate::capture::{check_length, CaptureError, EncodeStage, MIN_SAMPLES};

verus! {

/// The encoded file has one channel.
pub const WAV_CHANNELS: u16 = 1;

/// Every sample of the encoded file is a signed 16-bit integer.
pub const WAV_BITS_PER_SAMPLE: u16 = 16;

/// Where the encoder stands.
#[derive(Clone, Copy, Debug, PartialEq, Eq, Structural)]
pub enum EncodePhase {
    /// The file is being created and its header written.
    Creating,
    /// The sample at `index` is being written.
    Writing { index: usize },
    /// All samples are written; the sizes are being flushed into the header.
    Finalizing,
    /// The encoder has said how the encoding ended.
    Finished,
}

/// What the encoder asks for next.
#[derive(Debug, PartialEq, Eq)]
pub enum EncodeAction {
    /// Create the file and write its header.
    Create,
    /// Write the sample at `index` of the log.
    Write { index: usize },
    /// Flush the computed sizes into the header.
    Finalize,
    /// The file is complete.
    Done,
    /// Encoding failed. The partial file must not be read; the caller may
    /// only try to remove it.
    Abort(CaptureError),
    /// The encoder had finished before; nothing is done.
    Nothing,
}

/// The phase and action that follow when the step asked for in `phase` ended
/// with `outcome`, for a log of `total` samples.
pub open spec fn encode_next(phase: EncodePhase, total: usize, outcome: Result<(), String>) -> (
    EncodePhase,
    EncodeAction,
) {
    match (phase, outcome) {
        (EncodePhase::Creating, Ok(_)) => if total > 0 {
            (EncodePhase::Writing { index: 0 }, EncodeAction::Write { index: 0 })
        } else {
            (EncodePhase::Finalizing, EncodeAction::Finalize)
        },
        (EncodePhase::Creating, Err(detail)) => (
            EncodePhase::Finished,
            EncodeAction::Abort(CaptureError::EncodeFailed(EncodeStage::Create, detail)),
        ),
        (EncodePhase::Writing { index }, Ok(_)) => if index + 1 < total {
            (
                EncodePhase::Writing { index: (index + 1) as usize },
                EncodeAction::Write { index: (index + 1) as usize },
            )
        } else {
            (EncodePhase::Finalizing, EncodeAction::Finalize)
        },
        (EncodePhase::Writing { index }, Err(detail)) => (
            EncodePhase::Finished,
            EncodeAction::Abort(CaptureError::EncodeFailed(EncodeStage::Write, detail)),
        ),
        (EncodePhase::Finalizing, Ok(_)) => (EncodePhase::Finished, EncodeAction::Done),
        (EncodePhase::Finalizing, Err(detail)) => (
            EncodePhase::Finished,
            EncodeAction::Abort(CaptureError::EncodeFailed(EncodeStage::Finalize, detail)),
        ),
        (EncodePhase::Finished, _) => (EncodePhase::Finished, EncodeAction::Nothing),
    }
}

/// The first thing an encoder asks for: the file.
pub fn encode_begin() -> (r: (EncodePhase, EncodeAction))
    ensures
        r.0 == EncodePhase::Creating,
        r.1 is Create,
{
    (EncodePhase::Creating, EncodeAction::Create)
}

/// Advances the encoder: `outcome` is how the step it asked for last ended,
/// `total` the number of samples in the log.
pub fn encode_step(phase: EncodePhase, total: usize, outcome: Result<(), String>) -> (r: (
    EncodePhase,
    EncodeAction,
))
    ensures
        r == encode_next(phase, total, outcome),
{
    match (phase, outcome) {
        (EncodePhase::Creating, Ok(_)) => {
            if total > 0 {
                (EncodePhase::Writing { index: 0 }, EncodeAction::Write { index: 0 })
            } else {
                (EncodePhase::Finalizing, EncodeAction::Finalize)
            }
        },
        (EncodePhase::Creating, Err(detail)) => (
            EncodePhase::Finished,
            EncodeAction::Abort(CaptureError::EncodeFailed(EncodeStage::Create, detail)),
        ),
        (EncodePhase::Writing { index }, Ok(_)) => {
            if index < total && index + 1 < total {
                (EncodePhase::Writing { index: index + 1 }, EncodeAction::Write { index: index + 1 })
            } else {
                (EncodePhase::Finalizing, EncodeAction::Finalize)
            }
        },
        (EncodePhase::Writing { index: _ }, Err(detail)) => (
            EncodePhase::Finished,
            EncodeAction::Abort(CaptureError::EncodeFailed(EncodeStage::Write, detail)),
        ),
        (EncodePhase::Finalizing, Ok(_)) => (EncodePhase::Finished, EncodeAction::Done),
        (EncodePhase::Finalizing, Err(detail)) => (
            EncodePhase::Finished,
            EncodeAction::Abort(CaptureError::EncodeFailed(EncodeStage::Finalize, detail)),
        ),
        (EncodePhase::Finished, _) => (EncodePhase::Finished, EncodeAction::Nothing),
    }
}

/// The phase an encoder is in after `steps` steps that all succeeded.
pub open spec fn phase_after(total: usize, steps: nat) -> EncodePhase
    decreases steps,
{
    if steps == 0 {
        EncodePhase::Creating
    } else {
        encode_next(phase_after(total, (steps - 1) as nat), total, Ok(())).0
    }
}

/// While every step succeeds, the encoder writes the samples in the order of
/// the log, each exactly once: after the file is created and `k` samples are
/// written it is writing sample `k`, and after the last sample it finalizes
/// and then is finished.
pub proof fn lemma_samples_are_written_in_order(total: usize, steps: nat)
    ensures
        1 <= steps <= total ==> phase_after(total, steps) == (EncodePhase::Writing {
            index: (steps - 1) as usize,
        }),
        steps == total + 1 ==> phase_after(total, steps) == EncodePhase::Finalizing,
        steps >= total + 2 ==> phase_after(total, steps) == EncodePhase::Finished,
    decreases steps,
{
    if steps > 0 {
        lemma_samples_are_written_in_order(total, (steps - 1) as nat);
    }
}

/// A step that fails ends the encoding at once, with the error of the stage
/// that was under way.
pub proof fn lemma_failure_names_its_stage(phase: EncodePhase, total: usize, detail: String)
    ensures
        phase != EncodePhase::Finished ==> encode_next(phase, total, Err(detail)).0
            == EncodePhase::Finished,
        phase == EncodePhase::Creating ==> encode_next(phase, total, Err(detail)).1
            == EncodeAction::Abort(CaptureError::EncodeFailed(EncodeStage::Create, detail)),
        phase is Writing ==> encode_next(phase, total, Err(detail)).1 == EncodeAction::Abort(
            CaptureError::EncodeFailed(EncodeStage::Write, detail),
        ),
        phase == EncodePhase::Finalizing ==> encode_next(phase, total, Err(detail)).1
            == EncodeAction::Abort(CaptureError::EncodeFailed(EncodeStage::Finalize, detail)),
{
}

/// The character of a decimal digit.
pub open spec fn digit_char(d: nat) -> char {
    if d == 0 {
        '0'
    } else if d == 1 {
        '1'
    } else if d == 2 {
        '2'
    } else if d == 3 {
        '3'
    } else if d == 4 {
        '4'
    } else if d == 5 {
        '5'
    } else if d == 6 {
        '6'
    } else if d == 7 {
        '7'
    } else if d == 8 {
        '8'
    } else {
        '9'
    }
}

/// Whether a character is a decimal digit.
pub open spec fn is_digit(c: char) -> bool {
    c == '0' || c == '1' || c == '2' || c == '3' || c == '4' || c == '5' || c == '6' || c == '7'
        || c == '8' || c == '9'
}

/// A number in decimal, without leading zeros.
pub open spec fn decimal(n: nat) -> Seq<char>
    decreases n,
{
    if n < 10 {
        seq![digit_char(n)]
    } else {
        decimal(n / 10).push(digit_char(n % 10))
    }
}

/// The name of the file a recording is written to, for the time the
/// recording was stopped, in milliseconds, and the id of this process.
pub open spec fn recording_name(stopped_ms: nat, process: nat) -> Seq<char> {
    "scrivano_recording_"@ + decimal(stopped_ms) + "_"@ + decimal(process) + ".wav"@
}

/// One decimal digit as text.
fn digit_str(d: u64) -> (r: &'static str)
    requires
        d < 10,
    ensures
        r@ == seq![digit_char(d as nat)],
{
    proof {
        reveal_strlit("0");
        reveal_strlit("1");
        reveal_strlit("2");
        reveal_strlit("3");
        reveal_strlit("4");
        reveal_strlit("5");
        reveal_strlit("6");
        reveal_strlit("7");
        reveal_strlit("8");
        reveal_strlit("9");
    }
    let r = if d == 0 {
        "0"
    } else if d == 1 {
        "1"
    } else if d == 2 {
        "2"
    } else if d == 3 {
        "3"
    } else if d == 4 {
        "4"
    } else if d == 5 {
        "5"
    } else if d == 6 {
        "6"
    } else if d == 7 {
        "7"
    } else if d == 8 {
        "8"
    } else {
        "9"
    };
    r
}

/// Writes a number in decimal.
pub fn decimal_string(n: u64) -> (r: String)
    ensures
        r@ == decimal(n as nat),
    decreases n,
{
    if n < 10 {
        digit_str(n).to_owned()
    } else {
        let mut out = decimal_string(n / 10);
        out.append(digit_str(n % 10));
        out
    }
}

/// Names the file of a recording after the time it was stopped and the
/// process that made it, so that two recordings never share a file.
pub fn recording_file_name(stopped_ms: u64, process: u32) -> (name: String)
    ensures
        name@ == recording_name(stopped_ms as nat, process as nat),
{
    let mut name = "scrivano_recording_".to_owned();
    let stamp = decimal_string(stopped_ms);
    name.append(stamp.as_str());
    name.append("_");
    let id = decimal_string(process as u64);
    name.append(id.as_str());
    name.append(".wav");
    name
}

/// Decides whether a sample log is encoded at all, and if so under which
/// file name: a log shorter than the accidental-tap guard allows is refused
/// before any file is named or created.
pub fn plan_encoding(sample_count: usize, stopped_ms: u64, process: u32) -> (r: Result<
    String,
    CaptureError,
>)
    ensures
        sample_count < MIN_SAMPLES ==> r == Err::<String, CaptureError>(
            CaptureError::RecordingTooShort,
        ),
        sample_count >= MIN_SAMPLES ==> (r matches Ok(name) && name@ == recording_name(
            stopped_ms as nat,
            process as nat,
        )),
{
    match check_length(sample_count) {
        Ok(_) => Ok(recording_file_name(stopped_ms, process)),
        Err(e) => Err(e),
    }
}

/// A number in decimal consists of digits only, and of at least one.
pub proof fn lemma_decimal_is_digits(n: nat)
    ensures
        decimal(n).len() >= 1,
        forall|i: int| 0 <= i < decimal(n).len() ==> is_digit(#[trigger] decimal(n)[i]),
    decreases n,
{
    if n >= 10 {
        lemma_decimal_is_digits(n / 10);
    }
}

/// Different numbers are written differently.
pub proof fn lemma_decimal_is_injective(a: nat, b: nat)
    requires
        decimal(a) == decimal(b),
    ensures
        a == b,
    decreases a,
{
    lemma_decimal_is_digits(a / 10);
    lemma_decimal_is_digits(b / 10);
    if a < 10 && b < 10 {
        assert(seq![digit_char(a)][0] == digit_char(a));
        assert(seq![digit_char(b)][0] == digit_char(b));
    } else if a >= 10 && b >= 10 {
        let x = decimal(a / 10);
        let y = decimal(b / 10);
        assert(x.push(digit_char(a % 10)).last() == y.push(digit_char(b % 10)).last());
        assert(x =~= x.push(digit_char(a % 10)).drop_last());
        assert(y =~= y.push(digit_char(b % 10)).drop_last());
        lemma_decimal_is_injective(a / 10, b / 10);
    }
}

/// Two texts of digits, each followed by a character that is no digit and
/// then by anything, are the same text of digits if the whole is the same.
proof fn lemma_digits_end_at_mark(
    x: Seq<char>,
    y: Seq<char>,
    mark: char,
    rest_x: Seq<char>,
    rest_y: Seq<char>,
)
    requires
        forall|i: int| 0 <= i < x.len() ==> is_digit(#[trigger] x[i]),
        forall|i: int| 0 <= i < y.len() ==> is_digit(#[trigger] y[i]),
        !is_digit(mark),
        x.push(mark) + rest_x == y.push(mark) + rest_y,
    ensures
        x == y,
        rest_x == rest_y,
{
    let whole_x = x.push(mark) + rest_x;
    let whole_y = y.push(mark) + rest_y;
    if x.len() < y.len() {
        assert(whole_x[x.len() as int] == mark);
        assert(whole_y[x.len() as int] == y[x.len() as int]);
    }
    if y.len() < x.len() {
        assert(whole_y[y.len() as int] == mark);
        assert(whole_x[y.len() as int] == x[y.len() as int]);
    }
    assert(x =~= whole_x.subrange(0, x.len() as int));
    assert(y =~= whole_y.subrange(0, y.len() as int));
    assert(rest_x =~= whole_x.subrange(x.len() as int + 1, whole_x.len() as int));
    assert(rest_y =~= whole_y.subrange(y.len() as int + 1, whole_y.len() as int));
}

/// Recordings stopped at different times, or made by different processes,
/// are written to files of different names.
pub proof fn lemma_recording_names_do_not_collide(
    stopped_a: nat,
    process_a: nat,
    stopped_b: nat,
    process_b: nat,
)
    requires
        recording_name(stopped_a, process_a) == recording_name(stopped_b, process_b),
    ensures
        stopped_a == stopped_b,
        process_a == process_b,
{
    reveal_strlit("scrivano_recording_");
    reveal_strlit("_");
    reveal_strlit(".wav");
    let head = "scrivano_recording_"@;
    let name_a = recording_name(stopped_a, process_a);
    let name_b = recording_name(stopped_b, process_b);
    lemma_decimal_is_digits(stopped_a);
    lemma_decimal_is_digits(stopped_b);
    lemma_decimal_is_digits(process_a);
    lemma_decimal_is_digits(process_b);
    let body_a = decimal(stopped_a).push('_') + (decimal(process_a).push('.') + seq!['w', 'a', 'v']);
    let body_b = decimal(stopped_b).push('_') + (decimal(process_b).push('.') + seq!['w', 'a', 'v']);
    assert(body_a =~= name_a.subrange(head.len() as int, name_a.len() as int));
    assert(body_b =~= name_b.subrange(head.len() as int, name_b.len() as int));
    lemma_digits_end_at_mark(
        decimal(stopped_a),
        decimal(stopped_b),
        '_',
        decimal(process_a).push('.') + seq!['w', 'a', 'v'],
        decimal(process_b).push('.') + seq!['w', 'a', 'v'],
    );
    lemma_digits_end_at_mark(
        decimal(process_a),
        decimal(process_b),
        '.',
        seq!['w', 'a', 'v'],
        seq!['w', 'a', 'v'],
    );
    lemma_decimal_is_injective(stopped_a, stopped_b);
    lemma_decimal_is_injective(process_a, process_b);
}

} // verus!
