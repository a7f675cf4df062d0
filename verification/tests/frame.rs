use miniwingl::frame::{
    checked_handle, clear_color, quad_vertices, settle, time_uniform, turn, vertex_layout, Build,
    Color, Command, FrameClock, Turn, VertexLayout, COMPONENTS, COMPONENT_BYTES,
    FRAMES_PER_SECOND, VERTEX_COUNT,
};

fn frame_at(clock: &mut FrameClock) -> Vec<Command> {
    match turn(clock, true) {
        Turn::Frame(commands) => commands,
        Turn::Exit { .. } => panic!("the loop ended while it was told to go on"),
    }
}

#[test]
fn quad_vertices_are_unit_square_corners() {
    let quad = quad_vertices();
    let uploaded: Vec<[f32; 3]> = quad
        .iter()
        .map(|v| [f32::from(v[0]), f32::from(v[1]), f32::from(v[2])])
        .collect();
    assert_eq!(
        uploaded,
        vec![
            [-1.0f32, -1.0, 0.0],
            [1.0, -1.0, 0.0],
            [-1.0, 1.0, 0.0],
            [1.0, 1.0, 0.0],
        ]
    );
}

#[test]
fn quad_has_four_vertices_of_three_components() {
    let quad = quad_vertices();
    assert_eq!(quad.len(), 4);
    for vertex in quad {
        assert_eq!(vertex.len(), 3);
    }
    assert_eq!(VERTEX_COUNT, 4);
    assert_eq!(COMPONENTS, 3);
    assert_eq!(COMPONENT_BYTES, 4);
}

#[test]
fn vertex_layout_is_tightly_packed() {
    assert_eq!(
        vertex_layout(),
        VertexLayout { location: 0, components: 3, stride: 12, offset: 0, buffer_bytes: 48 }
    );
}

#[test]
fn vertex_layout_matches_float_sizes() {
    let layout = vertex_layout();
    let float_bytes = std::mem::size_of::<f32>();
    assert_eq!(layout.stride as usize, 3 * float_bytes);
    assert_eq!(layout.buffer_bytes as usize, std::mem::size_of::<[[f32; 3]; 4]>());
}

#[test]
fn clear_color_is_exact() {
    let color = clear_color();
    assert_eq!(color, Color { red: 4, green: 10, blue: 9, alpha: 0 });
    let rgba = [
        f32::from(color.red) / 10.0,
        f32::from(color.green) / 10.0,
        f32::from(color.blue) / 10.0,
        f32::from(color.alpha) / 10.0,
    ];
    assert_eq!(rgba, [0.4f32, 1.0, 0.9, 0.0]);
}

#[test]
fn time_uniform_name() {
    assert_eq!(time_uniform(), "iTime");
}

#[test]
fn clock_starts_at_zero() {
    assert_eq!(FrameClock::new().sixtieths(), 0);
}

#[test]
fn time_advances_one_sixtieth_per_frame() {
    let mut clock = FrameClock::new();
    for frame in 0u64..240 {
        assert_eq!(clock.sixtieths(), frame);
        let commands = frame_at(&mut clock);
        assert!(commands.contains(&Command::SetTime { sixtieths: frame }));
        assert_eq!(clock.sixtieths(), frame + 1);
    }
    assert_eq!(FRAMES_PER_SECOND, 60);
    assert_eq!(clock.sixtieths() as f64 / FRAMES_PER_SECOND as f64, 4.0);
}

#[test]
fn time_never_decreases() {
    let mut clock = FrameClock::new();
    let mut last = clock.sixtieths();
    for keep_running in [true, true, false, true, false, false, true] {
        turn(&mut clock, keep_running);
        assert!(clock.sixtieths() >= last);
        assert_eq!(clock.sixtieths() - last, u64::from(keep_running));
        last = clock.sixtieths();
    }
    assert_eq!(last, 4);
}

#[test]
fn time_uniform_grows_by_a_sixtieth_of_a_second() {
    let mut clock = FrameClock::new();
    let mut seconds: Vec<f64> = Vec::new();
    for _ in 0..121 {
        match frame_at(&mut clock)[2] {
            Command::SetTime { sixtieths } => seconds.push(sixtieths as f64 / 60.0),
            other => panic!("expected the time uniform, found {:?}", other),
        }
    }
    assert_eq!(seconds[0], 0.0);
    assert_eq!(seconds[30], 0.5);
    assert_eq!(seconds[60], 1.0);
    assert_eq!(seconds[120], 2.0);
    for pair in seconds.windows(2) {
        assert!(pair[0] < pair[1]);
        assert!((pair[1] - pair[0] - 1.0 / 60.0).abs() < 1e-12);
    }
}

#[test]
fn first_frame_is_drawn_at_time_zero() {
    let mut clock = FrameClock::new();
    let commands = frame_at(&mut clock);
    assert_eq!(commands[2], Command::SetTime { sixtieths: 0 });
    let seconds = match commands[2] {
        Command::SetTime { sixtieths } => sixtieths as f32 / 60.0,
        _ => unreachable!(),
    };
    assert_eq!(seconds, 0.0f32);
}

#[test]
fn frame_operations_in_order() {
    let mut clock = FrameClock::new();
    frame_at(&mut clock);
    frame_at(&mut clock);
    let commands = frame_at(&mut clock);
    assert_eq!(
        commands,
        vec![
            Command::Clear(Color { red: 4, green: 10, blue: 9, alpha: 0 }),
            Command::UseProgram,
            Command::SetTime { sixtieths: 2 },
            Command::BindVertexArray,
            Command::DrawStrip { first: 0, count: 4 },
            Command::Present,
        ]
    );
}

#[test]
fn frame_clears_with_the_clear_color() {
    let mut clock = FrameClock::new();
    assert_eq!(frame_at(&mut clock)[0], Command::Clear(clear_color()));
}

#[test]
fn stopping_exits_with_code_zero_and_keeps_time() {
    let mut clock = FrameClock::new();
    frame_at(&mut clock);
    assert_eq!(turn(&mut clock, false), Turn::Exit { code: 0 });
    assert_eq!(clock.sixtieths(), 1);
}

#[test]
fn stopping_at_once_draws_nothing() {
    let mut clock = FrameClock::new();
    assert_eq!(turn(&mut clock, false), Turn::Exit { code: 0 });
    assert_eq!(clock.sixtieths(), 0);
}

#[test]
fn checked_handle_passes_successful_build() {
    assert_eq!(checked_handle(3, 1), Some(3));
    assert_eq!(checked_handle(0, 1), Some(0));
    assert_eq!(checked_handle(9, -1), Some(9));
}

#[test]
fn checked_handle_rejects_failed_build() {
    assert_eq!(checked_handle(3, 0), None);
    assert_eq!(checked_handle(u32::MAX, 0), None);
}

#[test]
fn settle_keeps_successful_handle() {
    assert_eq!(settle(Ok(17)), Build { handle: 17, diagnostic: None });
}

#[test]
fn settle_failure_yields_null_handle_and_diagnostic() {
    let log = String::from("0:1(1): error: syntax error, unexpected IDENTIFIER");
    let build = settle(Err(log.clone()));
    assert_eq!(build.handle, 0);
    assert_eq!(build.diagnostic, Some(log));
    assert!(!build.diagnostic.unwrap().is_empty());
}

#[test]
fn settle_keeps_empty_diagnostic_as_it_is() {
    assert_eq!(
        settle(Err(String::new())),
        Build { handle: 0, diagnostic: Some(String::new()) }
    );
}
