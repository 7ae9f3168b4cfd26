//! Small decisions of the macOS and Windows media controls: what the status
//! of the media-key helper means, how the playback-state adapter's output is
//! read, and which WinRT error codes mean that a media session is gone.

use vstd::prelude::*;
use crate::text::{trim, trimmed, str_eq};

verus! {

broadcast use vstd::string::group_string_axioms;

/// Why posting the play/pause media key failed.
#[derive(Debug)]
pub enum MediaKeyError {
    /// The CoreGraphics event source could not be created.
    EventSource,
    /// The CoreGraphics media key events could not be created.
    KeyEvents,
    /// The helper returned a status it does not document.
    UnexpectedStatus(i32),
}

/// The decimal digit `d`.
pub open spec fn digit_char(d: nat) -> char {
    if d == 0 {
        '0'
    } else if d == 1 {
        '1'
    } else if d == 2 {
        '2'
    } else if d == 3 {
        '3'
    } else if d == 4 {
        '4'
    } else if d == 5 {
        '5'
    } else if d == 6 {
        '6'
    } else if d == 7 {
        '7'
    } else if d == 8 {
        '8'
    } else {
        '9'
    }
}

/// `n` written in decimal, without leading zeros.
pub open spec fn decimal(n: nat) -> Seq<char>
    decreases n,
{
    if n < 10 {
        seq![digit_char(n)]
    } else {
        decimal(n / 10).push(digit_char(n % 10))
    }
}

/// `n` written in decimal as `Display` writes an `i32`: a minus sign before
/// a negative number.
pub open spec fn decimal_i32(n: i32) -> Seq<char> {
    if n < 0 {
        seq!['-'] + decimal((-(n as int)) as nat)
    } else {
        decimal(n as nat)
    }
}

fn digit_str(d: u64) -> (s: &'static str)
    requires
        d < 10,
    ensures
        s@ == seq![digit_char(d as nat)],
{
    if d == 0 {
        proof { reveal_strlit("0"); }
        "0"
    } else if d == 1 {
        proof { reveal_strlit("1"); }
        "1"
    } else if d == 2 {
        proof { reveal_strlit("2"); }
        "2"
    } else if d == 3 {
        proof { reveal_strlit("3"); }
        "3"
    } else if d == 4 {
        proof { reveal_strlit("4"); }
        "4"
    } else if d == 5 {
        proof { reveal_strlit("5"); }
        "5"
    } else if d == 6 {
        proof { reveal_strlit("6"); }
        "6"
    } else if d == 7 {
        proof { reveal_strlit("7"); }
        "7"
    } else if d == 8 {
        proof { reveal_strlit("8"); }
        "8"
    } else {
        proof { reveal_strlit("9"); }
        "9"
    }
}

/// Appends `n` in decimal to `out`.
fn push_decimal(out: &mut String, n: u64)
    ensures
        final(out)@ == old(out)@ + decimal(n as nat),
    decreases n,
{
    if n >= 10 {
        push_decimal(out, n / 10);
    }
    out.append(digit_str(n % 10));
    proof {
        if n >= 10 {
            assert(final(out)@ =~= old(out)@ + decimal(n as nat));
        } else {
            assert(final(out)@ =~= old(out)@ + decimal(n as nat));
        }
    }
}

/// `n` in decimal, as `n.to_string()` gives it.
pub fn i32_decimal(n: i32) -> (s: String)
    ensures
        s@ == decimal_i32(n),
{
    let mut s = String::new();
    if n < 0 {
        s.append("-");
        proof { reveal_strlit("-"); }
        let magnitude: u64 = (0i64 - (n as i64)) as u64;
        push_decimal(&mut s, magnitude);
    } else {
        push_decimal(&mut s, n as u64);
    }
    s
}

/// The text shown for a failed media-key post.
pub open spec fn media_key_message(e: MediaKeyError) -> Seq<char> {
    match e {
        MediaKeyError::EventSource => "Failed to create CoreGraphics event source for media key"@,
        MediaKeyError::KeyEvents => "Failed to create CoreGraphics media key events"@,
        MediaKeyError::UnexpectedStatus(s) =>
            "Media key command returned unexpected status "@ + decimal_i32(s),
    }
}

impl MediaKeyError {
    /// The text shown for this error.
    pub fn message(&self) -> (m: String)
        ensures
            m@ == media_key_message(*self),
    {
        match self {
            MediaKeyError::EventSource => String::from_str(
                "Failed to create CoreGraphics event source for media key",
            ),
            MediaKeyError::KeyEvents => String::from_str(
                "Failed to create CoreGraphics media key events",
            ),
            MediaKeyError::UnexpectedStatus(s) => String::from_str(
                "Media key command returned unexpected status ",
            ).concat(i32_decimal(*s).as_str()),
        }
    }
}

/// Reads the status returned by the native play/pause media-key helper:
/// 0 is success, -3 and -4 are the documented failures.
pub fn media_key_result(status: i32) -> (r: Result<(), MediaKeyError>)
    ensures
        status == 0 <==> r is Ok,
        status == -3 <==> r matches Err(MediaKeyError::EventSource),
        status == -4 <==> r matches Err(MediaKeyError::KeyEvents),
        r matches Err(MediaKeyError::UnexpectedStatus(s)) ==> s == status,
{
    if status == 0 {
        Ok(())
    } else if status == -3 {
        Err(MediaKeyError::EventSource)
    } else if status == -4 {
        Err(MediaKeyError::KeyEvents)
    } else {
        Err(MediaKeyError::UnexpectedStatus(status))
    }
}

/// The error for an adapter output that is neither "true" nor "false".
pub open spec fn unexpected_output_message(output: Seq<char>) -> Seq<char> {
    "Unexpected MediaRemote state adapter output: "@ + trim(output)
}

/// Reads what the MediaRemote playback-state adapter printed: "true" or
/// "false", around white space.
pub fn parse_adapter_output(stdout: &str) -> (r: Result<bool, String>)
    ensures
        trim(stdout@) == "true"@ <==> r == Ok::<bool, String>(true),
        trim(stdout@) == "false"@ <==> r == Ok::<bool, String>(false),
        r matches Err(m) ==> m@ == unexpected_output_message(stdout@),
        r is Err <==> (trim(stdout@) != "true"@ && trim(stdout@) != "false"@),
{
    proof {
        reveal_strlit("true");
        reveal_strlit("false");
        assert("true"@.len() == 4);
        assert("false"@.len() == 5);
        assert("true"@ != "false"@);
    }
    let out = trimmed(stdout);
    if str_eq(out, "true") {
        Ok(true)
    } else if str_eq(out, "false") {
        Ok(false)
    } else {
        Err(String::from_str("Unexpected MediaRemote state adapter output: ").concat(out))
    }
}

/// The error for an adapter run that exited with a failure.
pub open spec fn adapter_failed_message(stderr: Seq<char>) -> Seq<char> {
    "MediaRemote state adapter failed: "@ + trim(stderr)
}

/// Reads a run of the MediaRemote playback-state adapter: a failed exit is
/// an error carrying the trimmed standard error; otherwise the standard
/// output is read as [`parse_adapter_output`] reads it.
pub fn adapter_result(success: bool, stdout: &str, stderr: &str) -> (r: Result<bool, String>)
    ensures
        !success ==> (r matches Err(m) && m@ == adapter_failed_message(stderr@)),
        success && trim(stdout@) == "true"@ ==> r == Ok::<bool, String>(true),
        success && trim(stdout@) == "false"@ ==> r == Ok::<bool, String>(false),
        success && trim(stdout@) != "true"@ && trim(stdout@) != "false"@ ==> (r matches Err(m)
            && m@ == unexpected_output_message(stdout@)),
{
    if !success {
        return Err(String::from_str("MediaRemote state adapter failed: ").concat(trimmed(stderr)));
    }
    parse_adapter_output(stdout)
}

/// `E_NOTFOUND`: the element (the media session) is not found.
pub const E_NOTFOUND: i32 = 0x80070490u32 as i32;

/// `E_FAIL`, which WinRT returns for a session that just went away.
pub const E_FAIL: i32 = 0x80004005u32 as i32;

/// Whether a WinRT error code means that the media session is gone.
pub fn session_missing_error(code: i32) -> (r: bool)
    ensures
        r == (code == E_NOTFOUND || code == E_FAIL),
{
    code == E_NOTFOUND || code == E_FAIL
}

} // verus!
