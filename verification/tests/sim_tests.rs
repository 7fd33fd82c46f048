use life::board::Board;
use life::board::initial_board;
use life::program::ShaderProgram;
use life::program::Uniform;
use life::sim::BlitTarget;
use life::sim::FrameClock;
use life::sim::GlAction;
use life::sim::LoopState;
use life::sim::SimulationLoop;
use life::sim::THROTTLE_MS;
use life::texture::SwappableTexture;
use life::texture::TextureOptions;

fn board_from_cells(width: usize, height: usize, cells: &[(usize, usize)]) -> Board {
    let mut board = Board::new(width, height);
    for &(r, c) in cells {
        board.set_alive(r, c);
    }
    board
}

fn double_buffer(initial: Board) -> SwappableTexture {
    // Host handles: texture 1 wrapped by framebuffer 11, texture 2 by 12.
    SwappableTexture::create(initial, TextureOptions::demo(), 1, 11, 2, 12)
}

fn program_with(handle: u32, uniforms: &[(&str, i32)]) -> ShaderProgram {
    let uniforms = uniforms
        .iter()
        .map(|&(name, location)| Uniform { name: name.to_string(), location })
        .collect();
    ShaderProgram { handle, uniforms }
}

fn demo_loop(initial: Board) -> SimulationLoop {
    let display = program_with(100, &[("u_texture", 0)]);
    let step = program_with(200, &[("u_texture", 0), ("u_texel_size", 1)]);
    SimulationLoop::new(display, step, double_buffer(initial)).unwrap()
}

#[test]
fn swap_twice_is_identity() {
    let mut buffer = double_buffer(initial_board());
    let read_before = buffer.read();
    let write_before = buffer.write();
    buffer.swap();
    assert_ne!(buffer.read(), read_before);
    assert_ne!(buffer.write(), write_before);
    buffer.swap();
    assert_eq!(buffer.read(), read_before);
    assert_eq!(buffer.write(), write_before);
}

#[test]
fn initial_state_fidelity() {
    // Immediately after creation, the read buffer's pixels equal the
    // buffer passed to create, byte for byte — and so does the write
    // buffer, so the very first read is well-defined in either role.
    let seed = initial_board();
    let seed_bytes = seed.bytes.clone();
    let mut buffer = double_buffer(seed);
    assert_eq!(buffer.read_board().bytes, seed_bytes);
    buffer.swap();
    assert_eq!(buffer.read_board().bytes, seed_bytes);
}

#[test]
fn write_target_never_aliases_read_texture() {
    // Framebuffer 11 wraps texture 1 and framebuffer 12 wraps texture 2:
    // in both role assignments the write framebuffer's texture differs
    // from the read texture.
    let mut buffer = double_buffer(initial_board());
    assert_eq!(buffer.read(), 1);
    assert_eq!(buffer.write(), 12);
    buffer.swap();
    assert_eq!(buffer.read(), 2);
    assert_eq!(buffer.write(), 11);
}

#[test]
fn frame_clock_throttles_at_the_threshold() {
    let mut clock = FrameClock::new();
    assert_eq!(THROTTLE_MS, 50);
    assert!(clock.due(0));
    clock.record(0);
    assert!(!clock.due(10));
    assert!(!clock.due(50));
    assert!(clock.due(51));
}

#[test]
fn throttle_schedule_steps_three_of_six_frames() {
    // Callback timestamps {0, 10, 20, 60, 65, 130} ms with a 50 ms
    // threshold: exactly the frames at 0, 60 and 130 execute a
    // simulation step and swap; the others are no-op re-arms.
    let mut sim = demo_loop(initial_board());
    sim.armed(1);
    let schedule = [
        (0u64, true),
        (10, false),
        (20, false),
        (60, true),
        (65, false),
        (130, true),
    ];
    let mut steps: usize = 0;
    let mut handle: i32 = 2;
    for &(now, expect_step) in schedule.iter() {
        let actions = sim.on_frame(now);
        assert_eq!(actions.len(), if expect_step { 7 } else { 0 }, "at {} ms", now);
        if expect_step {
            steps += 1;
        }
        // The loop always re-arms, below the threshold too.
        assert_eq!(sim.state, LoopState::WaitingForFrame);
        sim.armed(handle);
        handle += 1;
    }
    assert_eq!(steps, 3);
}

#[test]
fn step_issues_the_exact_draw_sequence() {
    let mut sim = demo_loop(initial_board());
    sim.armed(1);
    let actions = sim.on_frame(0);
    assert_eq!(
        actions,
        vec![
            GlAction::UseProgram(100),
            GlAction::BindTexture { location: 0, texture: 1 },
            GlAction::Blit(BlitTarget::Screen),
            GlAction::UseProgram(200),
            GlAction::BindTexture { location: 0, texture: 1 },
            GlAction::BindTexelSize { location: 1, width: 32, height: 32 },
            GlAction::Blit(BlitTarget::Framebuffer(12)),
        ]
    );
    // The completed step swapped the roles: the next read samples the
    // texture just drawn into.
    assert_eq!(sim.board.read(), 2);
    assert_eq!(sim.board.write(), 11);
}

#[test]
fn on_frame_advances_the_model_board() {
    let horizontal = board_from_cells(32, 32, &[(10, 13), (10, 14), (10, 15)]);
    let vertical = board_from_cells(32, 32, &[(9, 14), (10, 14), (11, 14)]);
    let mut sim = demo_loop(board_from_cells(32, 32, &[(10, 13), (10, 14), (10, 15)]));
    sim.armed(1);
    sim.on_frame(0);
    assert_eq!(sim.board.read_board().bytes, vertical.bytes);
    // The write buffer still holds the state just stepped from.
    sim.board.swap();
    assert_eq!(sim.board.read_board().bytes, horizontal.bytes);
}

#[test]
fn unknown_uniform_blocks_loop_creation() {
    let display = program_with(100, &[]);
    let step = program_with(200, &[("u_texture", 0), ("u_texel_size", 1)]);
    let result = SimulationLoop::new(display, step, double_buffer(initial_board()));
    match result {
        Err(life::errors::LifeError::UnknownUniform { name }) => {
            assert_eq!(name, "u_texture");
        },
        _ => panic!("expected an unknown-uniform failure"),
    }

    let display = program_with(100, &[("u_texture", 0)]);
    let step = program_with(200, &[("u_texture", 0)]);
    let result = SimulationLoop::new(display, step, double_buffer(initial_board()));
    match result {
        Err(life::errors::LifeError::UnknownUniform { name }) => {
            assert_eq!(name, "u_texel_size");
        },
        _ => panic!("expected an unknown-uniform failure"),
    }
}

#[test]
fn stop_hands_back_the_pending_handle() {
    let mut sim = demo_loop(initial_board());
    assert_eq!(sim.state, LoopState::Idle);
    sim.armed(7);
    assert_eq!(sim.state, LoopState::WaitingForFrame);
    assert_eq!(sim.stop(), Some(7));
    assert_eq!(sim.state, LoopState::Idle);
    assert_eq!(sim.stop(), None);
}
