//! Audio device selection rules: which device carries the transceiver's
//! audio, and which one is the operator's speaker.
use vstd::prelude::*;

verus! {

/// Channels on each side of the duplex stream (interleaved stereo).
pub const STREAM_CHANNELS: i32 = 2;

/// Sample rate of the duplex stream, in hertz.
pub const SAMPLE_RATE_HZ: u32 = 48_000;

/// Frames handed to each invocation of the audio callback.
pub const FRAMES_PER_BUFFER: u32 = 64;

/// A character with ASCII capitals folded to lower case.
pub open spec fn ascii_folded(c: char) -> int {
    if 'A' <= c <= 'Z' {
        c as int + 32
    } else {
        c as int
    }
}

/// Equal up to the case of ASCII letters.
pub open spec fn eq_ignoring_ascii_case(a: Seq<char>, b: Seq<char>) -> bool {
    &&& a.len() == b.len()
    &&& forall|i: int| 0 <= i < a.len() ==> #[trigger] ascii_folded(a[i]) == ascii_folded(b[i])
}

/// `needle` occurs in `haystack` as a run of consecutive characters.
pub open spec fn contains_run(haystack: Seq<char>, needle: Seq<char>) -> bool {
    exists|i: int|
        0 <= i && i + needle.len() <= haystack.len() && #[trigger] haystack.subrange(
            i,
            i + needle.len(),
        ) == needle
}

/// The names under which the operator's speakers are known.
pub open spec fn speaker_name(x: Seq<char>) -> bool {
    ||| eq_ignoring_ascii_case(x, "built-in output"@)
    ||| eq_ignoring_ascii_case(x, "macbook pro speakers"@)
    ||| eq_ignoring_ascii_case(x, "speakers (realtek high definition audio"@)
}

/// Relies on `str::eq_ignore_ascii_case`: equal up to the case of ASCII
/// letters.
#[verifier::external_body]
fn same_ignoring_ascii_case(a: &str, b: &str) -> (r: bool)
    ensures
        r == eq_ignoring_ascii_case(a@, b@),
{
    a.eq_ignore_ascii_case(b)
}

/// Relies on `str::contains` with a `&str` pattern: true when the pattern
/// occurs in the string.
#[verifier::external_body]
fn contains_str(haystack: &str, needle: &str) -> (r: bool)
    ensures
        r == contains_run(haystack@, needle@),
{
    haystack.contains(needle)
}

/// Whether a device name is one of the known speaker outputs, ignoring the
/// case of ASCII letters.
pub fn is_speaker_name(x: &str) -> (r: bool)
    ensures
        r == speaker_name(x@),
{
    same_ignoring_ascii_case(x, "built-in output") || same_ignoring_ascii_case(
        x,
        "macbook pro speakers",
    ) || same_ignoring_ascii_case(x, "speakers (realtek high definition audio")
}

/// The transceiver's audio input: a stereo input that runs at 48 kHz and
/// whose name mentions `QDX`.
pub fn is_qdx_input_device(name: &str, max_input_channels: i32, supports_48k: bool) -> (r: bool)
    ensures
        r == (max_input_channels == STREAM_CHANNELS && supports_48k && contains_run(
            name@,
            "QDX"@,
        )),
{
    max_input_channels == STREAM_CHANNELS && supports_48k && contains_str(name, "QDX")
}

/// The operator's speaker: a stereo output that runs at 48 kHz and has a
/// known speaker name.
pub fn is_speaker_output_device(name: &str, max_output_channels: i32, supports_48k: bool) -> (r:
    bool)
    ensures
        r == (speaker_name(name@) && max_output_channels == STREAM_CHANNELS && supports_48k),
{
    is_speaker_name(name) && max_output_channels == STREAM_CHANNELS && supports_48k
}

/// Whether a device listing reports 48 kHz support: a side with channels
/// that accepts that rate.
pub fn reports_48k_support(
    max_input_channels: i32,
    input_48k: bool,
    max_output_channels: i32,
    output_48k: bool,
) -> (r: bool)
    ensures
        r == ((max_input_channels > 0 && input_48k) || (max_output_channels > 0 && output_48k)),
{
    (max_input_channels > 0 && input_48k) || (max_output_channels > 0 && output_48k)
}

} // verus!
