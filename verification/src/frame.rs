//! What the demo draws: one quad, cleared and redrawn every frame under a
//! time that advances by a sixtieth of a second per frame.

use vstd::prelude::*;

verus! {

/// Number of vertices of the quad.
pub const VERTEX_COUNT: i32 = 4;

/// Number of coordinates of each vertex.
pub const COMPONENTS: i32 = 3;

/// Size in bytes of one coordinate in the vertex buffer, a 32-bit float.
pub const COMPONENT_BYTES: i32 = 4;

/// Number of frames that make up one second of animation time.
pub const FRAMES_PER_SECOND: u64 = 60;

/// The corners of the unit square in the plane `z = 0`, in the order in which
/// a triangle strip covers it.
pub open spec fn unit_square() -> Seq<Seq<int>> {
    seq![seq![-1, -1, 0], seq![1, -1, 0], seq![-1, 1, 0], seq![1, 1, 0]]
}

/// The quad's vertices. Every coordinate is a whole number, which a 32-bit
/// float holds exactly.
pub fn quad_vertices() -> (quad: [[i8; 3]; 4])
    ensures
        forall|i: int, j: int|
            0 <= i < 4 && 0 <= j < 3 ==> (#[trigger] quad@[i]@[j]) as int == unit_square()[i][j],
{
    let quad: [[i8; 3]; 4] = [[-1, -1, 0], [1, -1, 0], [-1, 1, 0], [1, 1, 0]];
    quad
}

/// How the vertex buffer is laid out and handed to the vertex shader.
#[derive(Clone, Copy, Debug, PartialEq, Eq, Structural)]
pub struct VertexLayout {
    /// Index of the vertex attribute that receives the positions.
    pub location: u32,
    /// Number of coordinates of each vertex.
    pub components: i32,
    /// Distance in bytes from one vertex to the next.
    pub stride: i32,
    /// Offset in bytes of the first vertex in the buffer.
    pub offset: usize,
    /// Size in bytes of the whole buffer.
    pub buffer_bytes: isize,
}

/// The layout of the quad's buffer: tightly packed positions of three floats
/// each, bound to attribute 0.
pub fn vertex_layout() -> (layout: VertexLayout)
    ensures
        layout == (VertexLayout {
            location: 0,
            components: 3,
            stride: 12,
            offset: 0,
            buffer_bytes: 48,
        }),
        layout.stride == COMPONENTS * COMPONENT_BYTES,
        layout.buffer_bytes == VERTEX_COUNT * layout.stride,
{
    let stride: i32 = COMPONENTS * COMPONENT_BYTES;
    let buffer_bytes: i32 = VERTEX_COUNT * stride;
    VertexLayout {
        location: 0,
        components: COMPONENTS,
        stride,
        offset: 0,
        buffer_bytes: buffer_bytes as isize,
    }
}

/// A colour. Each channel is given in tenths of full intensity, so that 10
/// stands for 1.0.
#[derive(Clone, Copy, Debug, PartialEq, Eq, Structural)]
pub struct Color {
    pub red: u8,
    pub green: u8,
    pub blue: u8,
    pub alpha: u8,
}

/// The colour every frame starts from: (0.4, 1.0, 0.9, 0.0).
pub fn clear_color() -> (color: Color)
    ensures
        color == (Color { red: 4, green: 10, blue: 9, alpha: 0 }),
{
    Color { red: 4, green: 10, blue: 9, alpha: 0 }
}

/// The name of the shader uniform that receives the animation time.
pub fn time_uniform() -> (name: &'static str)
    ensures
        name@ == "iTime"@,
{
    "iTime"
}

/// The outcome of building a shader or a program, as drawing goes on with it.
#[derive(Clone, Debug, PartialEq, Eq)]
pub struct Build {
    /// The handle to draw with: zero where the build failed.
    pub handle: u32,
    /// The driver's diagnostic text, to be reported, where the build failed.
    pub diagnostic: Option<String>,
}

/// The handle of a shader or program whose build has finished with `status`,
/// the value the driver gives for its compile or link status: the handle
/// itself unless the status is zero, which reports a failure.
pub fn checked_handle(handle: u32, status: i32) -> (checked: Option<u32>)
    ensures
        status != 0 ==> checked == Some(handle),
        status == 0 ==> checked is None,
{
    if status != 0 {
        Some(handle)
    } else {
        None
    }
}

/// Settles the outcome of a build. A failure does not stop the program: its
/// diagnostic is kept for the report, and drawing goes on with the null
/// handle.
pub fn settle(outcome: Result<u32, String>) -> (build: Build)
    ensures
        match outcome {
            Ok(handle) => build.handle == handle && build.diagnostic is None,
            Err(log) => build.handle == 0 && build.diagnostic == Some(log),
        },
{
    match outcome {
        Ok(handle) => Build { handle, diagnostic: None },
        Err(log) => Build { handle: 0, diagnostic: Some(log) },
    }
}

/// One drawing operation of a frame.
#[derive(Clone, Copy, Debug, PartialEq, Eq, Structural)]
pub enum Command {
    /// Clear the colour buffer to this colour.
    Clear(Color),
    /// Bind the shader program.
    UseProgram,
    /// Set the time uniform to this many sixtieths of a second.
    SetTime { sixtieths: u64 },
    /// Bind the quad's vertex array.
    BindVertexArray,
    /// Draw `count` vertices, from vertex `first` on, as a triangle strip.
    DrawStrip { first: i32, count: i32 },
    /// Present the back buffer.
    Present,
}

/// The operations that draw the frame at time `sixtieths`, in order.
pub open spec fn frame_plan(sixtieths: u64) -> Seq<Command> {
    seq![
        Command::Clear(Color { red: 4, green: 10, blue: 9, alpha: 0 }),
        Command::UseProgram,
        Command::SetTime { sixtieths },
        Command::BindVertexArray,
        Command::DrawStrip { first: 0, count: 4 },
        Command::Present,
    ]
}

/// The animation time, counted in sixtieths of a second. It starts at zero
/// and advances by one with every frame that is drawn.
#[derive(Clone, Copy, Debug, PartialEq, Eq)]
pub struct FrameClock {
    sixtieths: u64,
}

impl View for FrameClock {
    type V = nat;

    closed spec fn view(&self) -> nat {
        self.sixtieths as nat
    }
}

impl FrameClock {
    /// The clock of a program that has drawn nothing yet.
    pub fn new() -> (clock: FrameClock)
        ensures
            clock@ == 0,
    {
        FrameClock { sixtieths: 0 }
    }

    /// The time in sixtieths of a second.
    pub fn sixtieths(&self) -> (time: u64)
        ensures
            time == self@,
    {
        self.sixtieths
    }
}

/// What the main loop does once the message pump has returned.
#[derive(Clone, Debug, PartialEq, Eq)]
pub enum Turn {
    /// Carry out these operations, then run the pump again.
    Frame(Vec<Command>),
    /// Leave the loop and end the process with this exit code.
    Exit { code: u32 },
}

/// The time after a turn of the main loop that started at time `time`.
pub open spec fn next_time(time: nat, keep_running: bool) -> nat {
    if keep_running {
        time + 1
    } else {
        time
    }
}

/// The time after a run of the main loop from time `start`, in which the
/// message pump has given the answers `pumped`, one for each turn.
pub open spec fn time_after(start: nat, pumped: Seq<bool>) -> nat
    decreases pumped.len(),
{
    if pumped.len() == 0 {
        start
    } else {
        next_time(time_after(start, pumped.drop_last()), pumped.last())
    }
}

/// Decides one turn of the main loop from the pump's answer.
///
/// While the pump says to go on, the turn draws one frame at the clock's
/// time and advances the clock by exactly one sixtieth of a second. Once it
/// says to stop, the process ends with exit code 0 and the clock stands.
pub fn turn(clock: &mut FrameClock, keep_running: bool) -> (action: Turn)
    requires
        keep_running ==> old(clock)@ < u64::MAX,
    ensures
        final(clock)@ == next_time(old(clock)@, keep_running),
        keep_running ==> (action matches Turn::Frame(commands)
            && commands@ == frame_plan(old(clock)@ as u64)),
        !keep_running ==> action == (Turn::Exit { code: 0 }),
{
    if keep_running {
        let sixtieths: u64 = clock.sixtieths;
        let mut commands: Vec<Command> = Vec::new();
        commands.push(Command::Clear(clear_color()));
        commands.push(Command::UseProgram);
        commands.push(Command::SetTime { sixtieths });
        commands.push(Command::BindVertexArray);
        commands.push(Command::DrawStrip { first: 0, count: VERTEX_COUNT });
        commands.push(Command::Present);
        clock.sixtieths = sixtieths + 1;
        assert(commands@ =~= frame_plan(sixtieths));
        Turn::Frame(commands)
    } else {
        Turn::Exit { code: 0 }
    }
}

/// Each turn that draws a frame adds exactly one sixtieth of a second to the
/// time of the run, and a turn that draws none adds nothing.
pub proof fn lemma_frame_adds_one_sixtieth(start: nat, pumped: Seq<bool>)
    ensures
        time_after(start, pumped.push(true)) == time_after(start, pumped) + 1,
        time_after(start, pumped.push(false)) == time_after(start, pumped),
{
    assert(pumped.push(true).drop_last() =~= pumped);
    assert(pumped.push(false).drop_last() =~= pumped);
}

/// The time never runs backwards: at any point of a run it is at least what
/// it was at every earlier point.
pub proof fn lemma_time_never_decreases(start: nat, pumped: Seq<bool>, earlier: int, later: int)
    requires
        0 <= earlier <= later <= pumped.len(),
    ensures
        start <= time_after(start, pumped.take(earlier)) <= time_after(start, pumped.take(later)),
    decreases later,
{
    if later == 0 {
        assert(pumped.take(0).len() == 0);
    } else if earlier == later {
        lemma_time_never_decreases(start, pumped, earlier - 1, earlier - 1);
        assert(pumped.take(later).drop_last() =~= pumped.take(later - 1));
    } else {
        lemma_time_never_decreases(start, pumped, earlier, later - 1);
        assert(pumped.take(later).drop_last() =~= pumped.take(later - 1));
    }
}

} // verus!
