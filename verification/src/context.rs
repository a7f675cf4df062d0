//! Creation of the window's OpenGL rendering context, as a sequence of system
//! calls of which each may fail.

use vstd::prelude::*;

verus! {

/// Pixel format flag: the buffer can draw to a window (`PFD_DRAW_TO_WINDOW`).
pub const PFD_DRAW_TO_WINDOW: u32 = 0x0000_0004;

/// Pixel format flag: the buffer supports OpenGL (`PFD_SUPPORT_OPENGL`).
pub const PFD_SUPPORT_OPENGL: u32 = 0x0000_0020;

/// Pixel format flag: the buffer is double-buffered (`PFD_DOUBLEBUFFER`).
pub const PFD_DOUBLEBUFFER: u32 = 0x0000_0001;

/// Pixel type of red, green, blue and alpha components (`PFD_TYPE_RGBA`).
pub const PFD_TYPE_RGBA: u8 = 0;

/// The interval, in display refreshes, between two presented frames.
pub const SWAP_INTERVAL: i32 = 1;

/// The pixel format that the window asks the driver for.
#[derive(Clone, Copy, Debug, PartialEq, Eq, Structural)]
pub struct PixelFormat {
    /// Version of the descriptor's layout.
    pub version: u16,
    /// Properties of the pixel buffer, a union of `PFD_` flags.
    pub flags: u32,
    /// Kind of pixel data.
    pub pixel_type: u8,
    /// Bits of colour in each pixel.
    pub color_bits: u8,
    /// Bits of alpha in each pixel.
    pub alpha_bits: u8,
    /// Bits of the depth buffer for each pixel.
    pub depth_bits: u8,
}

/// Whether `flags` holds every bit of `flag`.
pub open spec fn has_flag(flags: u32, flag: u32) -> bool {
    flags & flag == flag
}

/// The format the demo draws in: a double-buffered RGBA window surface for
/// OpenGL with 32 bits of colour, 8 of alpha and 32 of depth.
pub fn pixel_format() -> (format: PixelFormat)
    ensures
        format == (PixelFormat {
            version: 1,
            flags: 0x25,
            pixel_type: PFD_TYPE_RGBA,
            color_bits: 32,
            alpha_bits: 8,
            depth_bits: 32,
        }),
        has_flag(format.flags, PFD_DRAW_TO_WINDOW),
        has_flag(format.flags, PFD_SUPPORT_OPENGL),
        has_flag(format.flags, PFD_DOUBLEBUFFER),
{
    let flags: u32 = PFD_DRAW_TO_WINDOW | PFD_SUPPORT_OPENGL | PFD_DOUBLEBUFFER;
    assert(flags == 0x25 && flags & 0x4 == 0x4 && flags & 0x20 == 0x20 && flags & 0x1 == 0x1)
        by (bit_vector)
        requires
            flags == 0x4u32 | 0x20u32 | 0x1u32,
    ;
    PixelFormat {
        version: 1,
        flags,
        pixel_type: PFD_TYPE_RGBA,
        color_bits: 32,
        alpha_bits: 8,
        depth_bits: 32,
    }
}

/// A system call on the way to a current rendering context, in the order in
/// which the calls are made.
#[derive(Clone, Copy, Debug, PartialEq, Eq, Structural)]
pub enum Stage {
    /// Find the closest pixel format the device context supports.
    ChoosePixelFormat,
    /// Give the device context that pixel format.
    SetPixelFormat,
    /// Create a rendering context for the device context.
    CreateContext,
    /// Make the rendering context current on the calling thread.
    MakeCurrent,
}

/// How the creation goes on once a call has returned.
#[derive(Clone, Copy, Debug, PartialEq, Eq, Structural)]
pub enum Progress {
    /// Make this call next.
    Call(Stage),
    /// This call failed. Report it by name and make no further call.
    Failed(Stage),
    /// Every call succeeded. Load the OpenGL entry points and set the swap
    /// interval to `SWAP_INTERVAL`.
    Ready,
}

impl Stage {
    /// The call that follows this one, if any does.
    pub open spec fn successor(self) -> Option<Stage> {
        match self {
            Stage::ChoosePixelFormat => Some(Stage::SetPixelFormat),
            Stage::SetPixelFormat => Some(Stage::CreateContext),
            Stage::CreateContext => Some(Stage::MakeCurrent),
            Stage::MakeCurrent => None,
        }
    }

    /// The name of the system function, as an error report shows it.
    pub fn api_name(self) -> (name: &'static str)
        ensures
            self == Stage::ChoosePixelFormat ==> name@ == "ChoosePixelFormat"@,
            self == Stage::SetPixelFormat ==> name@ == "SetPixelFormat"@,
            self == Stage::CreateContext ==> name@ == "wglCreateContext"@,
            self == Stage::MakeCurrent ==> name@ == "wglMakeCurrent"@,
    {
        match self {
            Stage::ChoosePixelFormat => "ChoosePixelFormat",
            Stage::SetPixelFormat => "SetPixelFormat",
            Stage::CreateContext => "wglCreateContext",
            Stage::MakeCurrent => "wglMakeCurrent",
        }
    }
}

/// The call at position `index` of the sequence.
pub open spec fn stage_at(index: int) -> Stage {
    if index <= 0 {
        Stage::ChoosePixelFormat
    } else if index == 1 {
        Stage::SetPixelFormat
    } else if index == 2 {
        Stage::CreateContext
    } else {
        Stage::MakeCurrent
    }
}

/// How the creation goes on when the call `stage` has returned `result`.
/// Each of the four calls reports failure by a result of zero: no pixel
/// format, `FALSE`, or a null context.
pub open spec fn progress(stage: Stage, result: isize) -> Progress {
    if result == 0 {
        Progress::Failed(stage)
    } else {
        match stage.successor() {
            Some(next) => Progress::Call(next),
            None => Progress::Ready,
        }
    }
}

/// Where the creation stands once the calls from `stage` on have returned
/// `results`, one after the other, for as long as calls are made.
pub open spec fn progress_from(stage: Stage, results: Seq<isize>) -> Progress
    decreases results.len(),
{
    if results.len() == 0 {
        Progress::Call(stage)
    } else {
        match progress(stage, results[0]) {
            Progress::Call(next) => progress_from(next, results.skip(1)),
            done => done,
        }
    }
}

/// The caption of the dialog that reports a failure.
pub fn error_caption() -> (caption: &'static str)
    ensures
        caption@ == "Window::create"@,
{
    "Window::create"
}

/// The call with which the creation starts.
pub fn first_stage() -> (stage: Stage)
    ensures
        stage == Stage::ChoosePixelFormat,
{
    Stage::ChoosePixelFormat
}

/// Decides how the creation goes on when the call `stage` has returned
/// `result`, the integer or the address that the system handed back.
pub fn advance(stage: Stage, result: isize) -> (next: Progress)
    ensures
        next == progress(stage, result),
{
    if result == 0 {
        Progress::Failed(stage)
    } else {
        match stage {
            Stage::ChoosePixelFormat => Progress::Call(Stage::SetPixelFormat),
            Stage::SetPixelFormat => Progress::Call(Stage::CreateContext),
            Stage::CreateContext => Progress::Call(Stage::MakeCurrent),
            Stage::MakeCurrent => Progress::Ready,
        }
    }
}

/// The window handle that the creation hands out beside the device context,
/// where `window` is the handle of the window that was opened: that handle
/// once every call has succeeded, and the null handle otherwise.
pub fn window_handle(progress: Progress, window: usize) -> (handle: usize)
    ensures
        progress == Progress::Ready ==> handle == window,
        progress != Progress::Ready ==> handle == 0,
{
    match progress {
        Progress::Ready => window,
        _ => 0,
    }
}

/// A window comes out of the creation exactly if each of the four calls
/// succeeds. Otherwise the creation fails at the first call that returns
/// zero, whatever the later ones would have returned.
pub proof fn lemma_ready_iff_every_call_succeeds(results: Seq<isize>)
    requires
        results.len() == 4,
    ensures
        progress_from(Stage::ChoosePixelFormat, results) == Progress::Ready
            <==> (forall|i: int| 0 <= i < 4 ==> results[i] != 0),
        forall|k: int|
            0 <= k < 4 && results[k] == 0 && (forall|j: int| 0 <= j < k ==> results[j] != 0)
                ==> progress_from(Stage::ChoosePixelFormat, results)
                    == Progress::Failed(stage_at(k)),
{
    reveal_with_fuel(progress_from, 5);
    let r1 = results.skip(1);
    let r2 = r1.skip(1);
    let r3 = r2.skip(1);
    assert(r1[0] == results[1]);
    assert(r2[0] == results[2]);
    assert(r3[0] == results[3]);
    assert(r3.skip(1).len() == 0);
}

} // verus!
