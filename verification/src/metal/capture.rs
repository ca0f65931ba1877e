//! GPU traces. While a capture is active, every command buffer and kernel launch is recorded,
//! for a trace file that is written when the capture stops.

use vstd::prelude::*;
use vstd::utf8::encode_utf8;

use crate::call::{report, reports, status_text, Step};
use crate::error::{Exception, ExceptionView, Location};

verus! {

/// A call that starts or stops a capture.
pub enum CaptureCall {
    /// `mlx_metal_start_capture`, with the bytes of a C string.
    Start(Vec<u8>),
    /// `mlx_metal_stop_capture`.
    Stop,
}

/// A text that a C string cannot hold.
pub open spec fn has_nul(text: Seq<char>) -> bool {
    encode_utf8(text).contains(0)
}

/// The bytes of `path` with a zero behind them, or nothing where one of them is zero itself.
fn c_string(path: &str) -> (bytes: Option<Vec<u8>>)
    ensures
        match bytes {
            Some(b) => !has_nul(path@) && b@ == encode_utf8(path@).push(0),
            None => has_nul(path@),
        },
{
    let mut bytes: Vec<u8> = path.as_bytes_vec();
    let mut i: usize = 0;
    while i < bytes.len()
        invariant
            i <= bytes@.len(),
            bytes@ == encode_utf8(path@),
            forall|j: int| 0 <= j < i ==> bytes@[j] != 0,
        decreases bytes@.len() - i,
    {
        if bytes[i] == 0 {
            assert(bytes@.contains(bytes@[i as int]));
            return None;
        }
        i = i + 1;
    }
    bytes.push(0);
    Some(bytes)
}

/// Starts a capture that is written to `path`. Only one can be active at a time. A path with a
/// zero byte in it is refused before anything is called.
pub fn start_capture(path: &str, reply: Option<i32>, here: &Location) -> (step: Step<
    CaptureCall,
    Result<(), Exception>,
>)
    ensures
        has_nul(path@) ==> (step matches Step::Done(Err(e)) && e@ == (ExceptionView {
            what: "metal::start_capture: path contains NUL byte"@,
            location: here@,
        })),
        !has_nul(path@) ==> match reply {
            None => step matches Step::Call(CaptureCall::Start(bytes)) && bytes@ == encode_utf8(
                path@,
            ).push(0),
            Some(rc) => step matches Step::Done(result) && reports(
                result,
                rc,
                (),
                status_text(
                    "metal::start_capture failed (rc="@,
                    rc,
                    "); see stderr for MLX diagnostic"@,
                ),
                here@,
            ),
        },
{
    match c_string(path) {
        None => Step::Done(
            Err(
                Exception::custom(
                    "metal::start_capture: path contains NUL byte".to_owned(),
                    here,
                ),
            ),
        ),
        Some(bytes) => match reply {
            None => Step::Call(CaptureCall::Start(bytes)),
            Some(rc) => Step::Done(
                report(
                    rc,
                    (),
                    "metal::start_capture failed (rc=",
                    "); see stderr for MLX diagnostic",
                    here,
                ),
            ),
        },
    }
}

/// Stops the capture: pending work is flushed, and the trace file is closed.
pub fn stop_capture(reply: Option<i32>, here: &Location) -> (step: Step<
    CaptureCall,
    Result<(), Exception>,
>)
    ensures
        match reply {
            None => step matches Step::Call(CaptureCall::Stop),
            Some(rc) => step matches Step::Done(result) && reports(
                result,
                rc,
                (),
                status_text(
                    "metal::stop_capture failed (rc="@,
                    rc,
                    "); see stderr for MLX diagnostic"@,
                ),
                here@,
            ),
        },
{
    match reply {
        None => Step::Call(CaptureCall::Stop),
        Some(rc) => Step::Done(
            report(
                rc,
                (),
                "metal::stop_capture failed (rc=",
                "); see stderr for MLX diagnostic",
                here,
            ),
        ),
    }
}

} // verus!
