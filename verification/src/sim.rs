//! The simulation loop: program selection, uniform binding, blit
//! sequencing, double-buffer swap and frame-rate throttling, decided once
//! per scheduled callback. The loop never touches the GPU itself: each
//! invocation returns the exact graphics calls the host must issue, in
//! order, and the host re-arms the callback afterwards.

use vstd::prelude::*;

use crate::errors::LifeError;
use crate::program::spec_lookup;
use crate::program::ShaderProgram;
use crate::texture::SwappableTexture;

verus! {

/// Milliseconds that must have elapsed since the last executed step before
/// another one runs: a deliberate cap near 20 simulation steps per second,
/// decoupled from the display's refresh rate.
pub const THROTTLE_MS: u64 = 50;

/// The wall-clock state of the throttle: the timestamp, in milliseconds,
/// of the last executed simulation step; unset before the first one.
pub struct FrameClock {
    pub last: Option<u64>,
}

impl FrameClock {
    /// A step is due at `now` when no step has run yet, or when more than
    /// `THROTTLE_MS` milliseconds have passed since the last one.
    pub open spec fn spec_due(self, now: u64) -> bool {
        match self.last {
            None => true,
            Some(last) => now - last > THROTTLE_MS,
        }
    }

    /// A clock that has recorded no step yet.
    pub fn new() -> (clock: FrameClock)
        ensures
            clock.last is None,
    {
        FrameClock { last: None }
    }

    /// Decides whether a step is due at time `now`.
    pub fn due(&self, now: u64) -> (due: bool)
        ensures
            due == self.spec_due(now),
    {
        match self.last {
            None => true,
            Some(last) => now > last && now - last > THROTTLE_MS,
        }
    }

    /// Records that a step executed at time `now`.
    pub fn record(&mut self, now: u64)
        ensures
            final(self).last == Some(now),
    {
        self.last = Some(now);
    }
}

/// Where a full-surface draw lands: the visible surface, or the offscreen
/// framebuffer with the given host handle.
#[derive(Debug, Clone, Copy, PartialEq, Eq)]
pub enum BlitTarget {
    Screen,
    Framebuffer(u32),
}

/// One graphics call the host must issue during a step, in the order
/// returned. Handles and locations are the host's identifiers, handed in
/// when the programs and textures were created.
#[derive(Debug, Clone, Copy, PartialEq, Eq)]
pub enum GlAction {
    /// Activate the program with this handle.
    UseProgram(u32),
    /// Bind the sampler uniform at `location` to the texture with handle
    /// `texture`.
    BindTexture { location: i32, texture: u32 },
    /// Bind the two-component uniform at `location` to the texel size
    /// (1/width, 1/height) of a board of these dimensions.
    BindTexelSize { location: i32, width: usize, height: usize },
    /// Issue exactly one full-surface draw against the target, through
    /// whichever program and uniforms the previous actions bound.
    Blit(BlitTarget),
}

/// Where the loop stands between invocations. `Stepping` holds only while
/// an invocation executes its simulation and draw cycle.
#[derive(Debug, Clone, Copy, PartialEq, Eq, Structural)]
pub enum LoopState {
    Idle,
    WaitingForFrame,
    Stepping,
}

/// The owned context of the running demo: the two programs with their
/// resolved uniform locations, the double buffer, the throttle clock, the
/// loop state, and the host's handle for the pending scheduled callback.
pub struct SimulationLoop {
    pub display_program: ShaderProgram,
    pub step_program: ShaderProgram,
    pub board: SwappableTexture,
    pub clock: FrameClock,
    pub state: LoopState,
    pub scheduled: Option<i32>,
    pub display_texture_location: i32,
    pub step_texture_location: i32,
    pub step_texel_size_location: i32,
}

impl SimulationLoop {
    pub open spec fn wf(self) -> bool {
        self.board.wf()
    }

    /// The exact graphics calls of one executed step: the display pass
    /// copies the current state unchanged to the visible surface, then the
    /// update pass draws the next state into the write framebuffer, which
    /// never aliases the texture being sampled.
    pub open spec fn spec_step_actions(self) -> Seq<GlAction> {
        seq![
            GlAction::UseProgram(self.display_program.handle),
            GlAction::BindTexture {
                location: self.display_texture_location,
                texture: self.board.spec_read_texture(),
            },
            GlAction::Blit(BlitTarget::Screen),
            GlAction::UseProgram(self.step_program.handle),
            GlAction::BindTexture {
                location: self.step_texture_location,
                texture: self.board.spec_read_texture(),
            },
            GlAction::BindTexelSize {
                location: self.step_texel_size_location,
                width: self.board.spec_read_board().width,
                height: self.board.spec_read_board().height,
            },
            GlAction::Blit(BlitTarget::Framebuffer(self.board.spec_write_framebuffer())),
        ]
    }

    /// Assembles the loop in `Idle`, resolving once the uniform locations
    /// the two passes bind: `u_texture` of the display program, and
    /// `u_texture` and `u_texel_size` of the step program. Fails with
    /// `UnknownUniform` — the demo's only setup failure decided here —
    /// exactly when a program lacks one of those active uniforms, the
    /// display program checked first.
    pub fn new(
        display_program: ShaderProgram,
        step_program: ShaderProgram,
        board: SwappableTexture,
    ) -> (result: Result<SimulationLoop, LifeError>)
        requires
            board.wf(),
        ensures
            (result matches Ok(l) ==> {
                &&& l.wf()
                &&& l.display_program == display_program
                &&& l.step_program == step_program
                &&& l.board == board
                &&& l.clock.last is None
                &&& l.state == LoopState::Idle
                &&& l.scheduled is None
                &&& spec_lookup(display_program.uniforms@, "u_texture"@) == Some(
                    l.display_texture_location,
                )
                &&& spec_lookup(step_program.uniforms@, "u_texture"@) == Some(
                    l.step_texture_location,
                )
                &&& spec_lookup(step_program.uniforms@, "u_texel_size"@) == Some(
                    l.step_texel_size_location,
                )
            }),
            (result matches Err(e) ==> {
                &&& (spec_lookup(display_program.uniforms@, "u_texture"@) is None || spec_lookup(
                    step_program.uniforms@,
                    "u_texture"@,
                ) is None || spec_lookup(step_program.uniforms@, "u_texel_size"@) is None)
                &&& e matches LifeError::UnknownUniform { name } && (if spec_lookup(
                    display_program.uniforms@,
                    "u_texture"@,
                ) is None || spec_lookup(step_program.uniforms@, "u_texture"@) is None {
                    name@ == "u_texture"@
                } else {
                    name@ == "u_texel_size"@
                })
            }),
    {
        let u_texture: String = "u_texture".to_owned();
        let u_texel_size: String = "u_texel_size".to_owned();
        let display_texture_location = match display_program.uniform_location(&u_texture) {
            Ok(location) => location,
            Err(e) => {
                return Err(e);
            },
        };
        let step_texture_location = match step_program.uniform_location(&u_texture) {
            Ok(location) => location,
            Err(e) => {
                return Err(e);
            },
        };
        let step_texel_size_location = match step_program.uniform_location(&u_texel_size) {
            Ok(location) => location,
            Err(e) => {
                return Err(e);
            },
        };
        Ok(
            SimulationLoop {
                display_program,
                step_program,
                board,
                clock: FrameClock::new(),
                state: LoopState::Idle,
                scheduled: None,
                display_texture_location,
                step_texture_location,
                step_texel_size_location,
            },
        )
    }

    /// Enters `WaitingForFrame`, remembering the host's handle for the
    /// callback it just registered: once at startup, then after every
    /// invocation's re-registration.
    pub fn armed(&mut self, handle: i32)
        ensures
            *final(self) == (SimulationLoop {
                state: LoopState::WaitingForFrame,
                scheduled: Some(handle),
                ..*old(self)
            }),
    {
        self.state = LoopState::WaitingForFrame;
        self.scheduled = Some(handle);
    }

    /// Stops the loop: hands back the handle of the pending callback, if
    /// any, so the host can deregister it, and returns to `Idle`.
    pub fn stop(&mut self) -> (handle: Option<i32>)
        ensures
            handle == old(self).scheduled,
            *final(self) == (SimulationLoop {
                state: LoopState::Idle,
                scheduled: None,
                ..*old(self)
            }),
    {
        let handle = self.scheduled;
        self.scheduled = None;
        self.state = LoopState::Idle;
        handle
    }

    /// One scheduled invocation. When the throttle admits a step at `now`,
    /// the clock records `now`, the returned actions are exactly the
    /// display and update passes of `spec_step_actions`, and the double
    /// buffer advances and swaps; on earlier invocations nothing changes
    /// and no draw is issued. Either way the invocation consumes the fired
    /// callback's handle and the loop stays alive in `WaitingForFrame`,
    /// for the host to re-arm.
    pub fn on_frame(&mut self, now: u64) -> (actions: Vec<GlAction>)
        requires
            old(self).wf(),
            old(self).state == LoopState::WaitingForFrame,
        ensures
            final(self).wf(),
            final(self).state == LoopState::WaitingForFrame,
            final(self).scheduled is None,
            final(self).display_program == old(self).display_program,
            final(self).step_program == old(self).step_program,
            final(self).display_texture_location == old(self).display_texture_location,
            final(self).step_texture_location == old(self).step_texture_location,
            final(self).step_texel_size_location == old(self).step_texel_size_location,
            old(self).clock.spec_due(now) ==> {
                &&& final(self).clock.last == Some(now)
                &&& actions@ == old(self).spec_step_actions()
                &&& old(self).board.spec_advanced_to(final(self).board)
            },
            !old(self).clock.spec_due(now) ==> {
                &&& final(self).clock == old(self).clock
                &&& final(self).board == old(self).board
                &&& actions@ == Seq::<GlAction>::empty()
            },
    {
        self.state = LoopState::Stepping;
        self.scheduled = None;
        let mut actions: Vec<GlAction> = Vec::new();
        if self.clock.due(now) {
            self.clock.record(now);
            let dimensions = self.board.dimensions();
            actions.push(GlAction::UseProgram(self.display_program.handle));
            actions.push(
                GlAction::BindTexture {
                    location: self.display_texture_location,
                    texture: self.board.read(),
                },
            );
            actions.push(GlAction::Blit(BlitTarget::Screen));
            actions.push(GlAction::UseProgram(self.step_program.handle));
            actions.push(
                GlAction::BindTexture {
                    location: self.step_texture_location,
                    texture: self.board.read(),
                },
            );
            actions.push(
                GlAction::BindTexelSize {
                    location: self.step_texel_size_location,
                    width: dimensions.0,
                    height: dimensions.1,
                },
            );
            actions.push(GlAction::Blit(BlitTarget::Framebuffer(self.board.write())));
            self.board.advance();
            proof {
                assert(actions@ =~= old(self).spec_step_actions());
            }
        }
        self.state = LoopState::WaitingForFrame;
        actions
    }
}

} // verus!
