use vstd::prelude::*;

use crate::camera::{CameraController, ElementState, Key};

verus! {

/// A size in physical pixels.
#[derive(Clone, Copy, PartialEq, Eq, Structural, Debug)]
pub struct Size {
    pub width: u32,
    pub height: u32,
}

impl Size {
    /// A size that can be drawn to: neither side is zero.
    pub open spec fn drawable(self) -> bool {
        self.width > 0 && self.height > 0
    }
}

/// A window event, reduced to what the renderer decides on.
#[derive(Clone, Copy, PartialEq, Eq, Structural, Debug)]
pub enum WindowEvent {
    CloseRequested,
    Resized(Size),
    ScaleFactorChanged(Size),
    /// A key went down or up; `key` is `None` when the host could not name it.
    KeyboardInput { state: ElementState, key: Option<Key> },
    Other,
}

/// What the host has to do after an event was dispatched.
#[derive(Clone, Copy, PartialEq, Eq, Structural, Debug)]
pub enum InputResponse {
    /// Stop the event loop and leave.
    Exit,
    /// Configure the surface, and recreate the depth texture if there is one,
    /// at the state's new `config` size.
    Reconfigure,
    /// Handled here; nothing for the host to do.
    Consumed,
    /// Not handled here; the host may apply its default handling.
    Ignored,
}

/// Why the next swapchain image could not be acquired.
#[derive(Clone, Copy, PartialEq, Eq, Structural, Debug)]
pub enum AcquireError {
    Timeout,
    Outdated,
    Lost,
    OutOfMemory,
}

/// What a frame does once acquisition has been tried.
#[derive(Clone, Copy, PartialEq, Eq, Structural, Debug)]
pub enum FrameStep {
    /// The image was acquired: record, submit and present it.
    Present,
    /// The surface was lost: configure it again at `config` and skip the frame.
    Reconfigure,
    /// Out of memory: the state now asks to exit; nothing is presented.
    Exit,
    /// Skip this frame and try again with the next one.
    Skip,
}

/// The renderer's decision state. The GPU handles live with the caller; this
/// records the sizes they must have, the selected pipeline and buffer set,
/// the held movement keys and whether the program should end.
///
/// Build it with `State::new`; every method keeps `wf`.
#[derive(Clone, Copy, PartialEq, Eq, Structural, Debug)]
pub struct State {
    /// The window's size as last applied.
    pub size: Size,
    /// The swapchain configuration's width and height.
    pub config: Size,
    /// The depth texture's size, when depth testing is in use.
    pub depth: Option<Size>,
    pub pipeline_count: usize,
    pub current_pipeline: usize,
    pub buffer_set_count: usize,
    pub current_buffer_set: usize,
    pub camera_controller: CameraController,
    pub exit_requested: bool,
}

/// The index after `i` in a cycle of `n`.
pub open spec fn next_index(i: nat, n: nat) -> nat {
    (i + 1) % n
}

impl State {
    pub open spec fn wf(self) -> bool {
        &&& self.config == self.size
        &&& (self.depth matches Some(d) ==> d == self.config)
        &&& 0 < self.pipeline_count
        &&& self.current_pipeline < self.pipeline_count
        &&& 0 < self.buffer_set_count
        &&& self.current_buffer_set < self.buffer_set_count
    }

    pub open spec fn with_next_pipeline(self) -> State {
        State {
            current_pipeline: next_index(
                self.current_pipeline as nat,
                self.pipeline_count as nat,
            ) as usize,
            ..self
        }
    }

    pub open spec fn with_next_buffer_set(self) -> State {
        State {
            current_buffer_set: next_index(
                self.current_buffer_set as nat,
                self.buffer_set_count as nat,
            ) as usize,
            ..self
        }
    }

    /// The state after a resize to `s`: a drawable size becomes the window
    /// size, the swapchain size and the depth texture's size; a size with a
    /// zero side changes nothing.
    pub open spec fn resized(self, s: Size) -> State {
        if s.drawable() {
            State {
                size: s,
                config: s,
                depth: match self.depth {
                    Some(_) => Some(s),
                    None => None,
                },
                ..self
            }
        } else {
            self
        }
    }

    pub open spec fn resize_response(s: Size) -> InputResponse {
        if s.drawable() {
            InputResponse::Reconfigure
        } else {
            InputResponse::Consumed
        }
    }

    /// How a key event is dispatched: Escape pressed exits, Q pressed selects
    /// the next pipeline, B pressed the next buffer set, and any other named
    /// key goes to the camera controller.
    pub open spec fn after_key(self, state: ElementState, key: Option<Key>) -> (State, InputResponse) {
        match key {
            None => (self, InputResponse::Ignored),
            Some(k) => if state == ElementState::Pressed && k == Key::Escape {
                (State { exit_requested: true, ..self }, InputResponse::Exit)
            } else if state == ElementState::Pressed && k == Key::Q {
                (self.with_next_pipeline(), InputResponse::Consumed)
            } else if state == ElementState::Pressed && k == Key::B {
                (self.with_next_buffer_set(), InputResponse::Consumed)
            } else {
                let c = self.camera_controller.after_key(state, k);
                (
                    State { camera_controller: c, ..self },
                    if crate::camera::movement_of(k).is_some() {
                        InputResponse::Consumed
                    } else {
                        InputResponse::Ignored
                    },
                )
            },
        }
    }

    /// The state and response after dispatching `e`.
    pub open spec fn after_event(self, e: WindowEvent) -> (State, InputResponse) {
        match e {
            WindowEvent::CloseRequested => (
                State { exit_requested: true, ..self },
                InputResponse::Exit,
            ),
            WindowEvent::Resized(s) => (self.resized(s), State::resize_response(s)),
            WindowEvent::ScaleFactorChanged(s) => (self.resized(s), State::resize_response(s)),
            WindowEvent::KeyboardInput { state, key } => self.after_key(state, key),
            WindowEvent::Other => (self, InputResponse::Ignored),
        }
    }

    /// The state and step once acquiring the frame's image gave `acquired`.
    /// Only a successful acquisition is presented. A lost surface is
    /// reconfigured by resizing to the current size; running out of memory
    /// asks to exit; any other failure skips the frame and changes nothing.
    pub open spec fn after_acquire(self, acquired: Result<(), AcquireError>) -> (State, FrameStep) {
        match acquired {
            Ok(()) => (self, FrameStep::Present),
            Err(AcquireError::Lost) => (
                self.resized(self.size),
                if self.size.drawable() {
                    FrameStep::Reconfigure
                } else {
                    FrameStep::Skip
                },
            ),
            Err(AcquireError::OutOfMemory) => (
                State { exit_requested: true, ..self },
                FrameStep::Exit,
            ),
            Err(_) => (self, FrameStep::Skip),
        }
    }

    /// A fresh state for a window of `size`, with `pipeline_count` pipelines
    /// and `buffer_set_count` vertex/index buffer sets, the first of each
    /// selected, and a depth texture iff `depth_test`.
    pub fn new(size: Size, pipeline_count: usize, buffer_set_count: usize, depth_test: bool) -> (r: State)
        requires
            pipeline_count > 0,
            buffer_set_count > 0,
        ensures
            r.wf(),
            r.size == size,
            r.config == size,
            r.depth == (if depth_test { Some(size) } else { None::<Size> }),
            r.pipeline_count == pipeline_count,
            r.current_pipeline == 0,
            r.buffer_set_count == buffer_set_count,
            r.current_buffer_set == 0,
            r.camera_controller == CameraController::released(),
            !r.exit_requested,
    {
        State {
            size,
            config: size,
            depth: if depth_test { Some(size) } else { None },
            pipeline_count,
            current_pipeline: 0,
            buffer_set_count,
            current_buffer_set: 0,
            camera_controller: CameraController::new(),
            exit_requested: false,
        }
    }

    /// Selects the next pipeline, wrapping round after the last.
    pub fn next_pipeline(&mut self)
        requires
            old(self).wf(),
        ensures
            *final(self) == old(self).with_next_pipeline(),
            final(self).wf(),
    {
        self.current_pipeline = (self.current_pipeline + 1) % self.pipeline_count;
    }

    /// Selects the next vertex/index buffer set, wrapping round after the last.
    pub fn next_buffer_set(&mut self)
        requires
            old(self).wf(),
        ensures
            *final(self) == old(self).with_next_buffer_set(),
            final(self).wf(),
    {
        self.current_buffer_set = (self.current_buffer_set + 1) % self.buffer_set_count;
    }

    /// Applies a new window size. Returns true iff the size is drawable, in
    /// which case the caller configures the surface at `config` and recreates
    /// the depth texture at `depth`; otherwise nothing changed.
    pub fn resize(&mut self, new_size: Size) -> (reconfigure: bool)
        requires
            old(self).wf(),
        ensures
            *final(self) == old(self).resized(new_size),
            reconfigure == new_size.drawable(),
            final(self).wf(),
    {
        if new_size.width > 0 && new_size.height > 0 {
            self.size = new_size;
            self.config = new_size;
            if self.depth.is_some() {
                self.depth = Some(new_size);
            }
            true
        } else {
            false
        }
    }

    fn keyboard_input(&mut self, state: ElementState, key: Option<Key>) -> (r: InputResponse)
        requires
            old(self).wf(),
        ensures
            (*final(self), r) == old(self).after_key(state, key),
    {
        match key {
            None => InputResponse::Ignored,
            Some(k) => {
                let pressed = state == ElementState::Pressed;
                if pressed && k == Key::Escape {
                    self.exit_requested = true;
                    InputResponse::Exit
                } else if pressed && k == Key::Q {
                    self.next_pipeline();
                    InputResponse::Consumed
                } else if pressed && k == Key::B {
                    self.next_buffer_set();
                    InputResponse::Consumed
                } else if self.camera_controller.process_events(state, k) {
                    InputResponse::Consumed
                } else {
                    InputResponse::Ignored
                }
            },
        }
    }

    /// Dispatches a window event: a close request or Escape asks to exit, a
    /// resize or scale change resizes, Q and B cycle the pipeline and the
    /// buffer set, and movement keys go to the camera controller.
    pub fn input(&mut self, event: &WindowEvent) -> (r: InputResponse)
        requires
            old(self).wf(),
        ensures
            (*final(self), r) == old(self).after_event(*event),
            final(self).wf(),
    {
        match *event {
            WindowEvent::CloseRequested => {
                self.exit_requested = true;
                InputResponse::Exit
            },
            WindowEvent::Resized(s) | WindowEvent::ScaleFactorChanged(s) => {
                if self.resize(s) {
                    InputResponse::Reconfigure
                } else {
                    InputResponse::Consumed
                }
            },
            WindowEvent::KeyboardInput { state, key } => self.keyboard_input(state, key),
            WindowEvent::Other => InputResponse::Ignored,
        }
    }

    /// Classifies the outcome of acquiring the frame's image and applies it:
    /// see `after_acquire`. Present is returned iff the image was acquired.
    pub fn on_acquire(&mut self, acquired: Result<(), AcquireError>) -> (step: FrameStep)
        requires
            old(self).wf(),
        ensures
            (*final(self), step) == old(self).after_acquire(acquired),
            (step == FrameStep::Present) == acquired.is_ok(),
            final(self).wf(),
    {
        match acquired {
            Ok(()) => FrameStep::Present,
            Err(AcquireError::Lost) => {
                let size = self.size;
                if self.resize(size) {
                    FrameStep::Reconfigure
                } else {
                    FrameStep::Skip
                }
            },
            Err(AcquireError::OutOfMemory) => {
                self.exit_requested = true;
                FrameStep::Exit
            },
            Err(_) => FrameStep::Skip,
        }
    }
}


impl State {
    /// The state after applying each size of `sizes` in turn.
    pub open spec fn resized_all(self, sizes: Seq<Size>) -> State
        decreases sizes.len(),
    {
        if sizes.len() == 0 {
            self
        } else {
            self.resized_all(sizes.drop_last()).resized(sizes.last())
        }
    }

    /// The state after selecting the next pipeline `k` times.
    pub open spec fn cycle_pipelines(self, k: nat) -> State
        decreases k,
    {
        if k == 0 {
            self
        } else {
            self.cycle_pipelines((k - 1) as nat).with_next_pipeline()
        }
    }

    /// The state after selecting the next buffer set `k` times.
    pub open spec fn cycle_buffer_sets(self, k: nat) -> State
        decreases k,
    {
        if k == 0 {
            self
        } else {
            self.cycle_buffer_sets((k - 1) as nat).with_next_buffer_set()
        }
    }
}

/// After any non-empty run of drawable resizes, the swapchain configuration
/// has the size of the last one, and a depth texture, if there is one, has
/// that size too.
pub proof fn lemma_resizes_track_last(s: State, sizes: Seq<Size>)
    requires
        s.wf(),
        sizes.len() > 0,
        forall|i: int| 0 <= i < sizes.len() ==> (#[trigger] sizes[i]).drawable(),
    ensures
        s.resized_all(sizes).wf(),
        s.resized_all(sizes).config == sizes.last(),
        s.resized_all(sizes).size == sizes.last(),
        s.resized_all(sizes).depth.is_some() == s.depth.is_some(),
        s.resized_all(sizes).depth matches Some(d) ==> d == sizes.last(),
    decreases sizes.len(),
{
    if sizes.len() > 1 {
        let front = sizes.drop_last();
        assert forall|i: int| 0 <= i < front.len() implies (#[trigger] front[i]).drawable() by {
            assert(front[i] == sizes[i]);
        }
        lemma_resizes_track_last(s, front);
    } else {
        assert(s.resized_all(sizes.drop_last()) == s);
    }
}

/// Resizing to a size with a zero width or height leaves the state,
/// swapchain configuration and depth texture included, as it was.
pub proof fn lemma_zero_resize_is_noop(s: State, size: Size)
    requires
        size.width == 0 || size.height == 0,
    ensures
        s.resized(size) == s,
        s.after_event(WindowEvent::Resized(size)).0 == s,
        s.after_event(WindowEvent::ScaleFactorChanged(size)).0 == s,
{
}

proof fn lemma_pipeline_cycle_index(s: State, k: nat)
    requires
        s.wf(),
    ensures
        s.cycle_pipelines(k) == (State {
            current_pipeline: ((s.current_pipeline + k) % (s.pipeline_count as int)) as usize,
            ..s
        }),
    decreases k,
{
    let n = s.pipeline_count as int;
    if k == 0 {
        vstd::arithmetic::div_mod::lemma_small_mod(s.current_pipeline as nat, n as nat);
    } else {
        lemma_pipeline_cycle_index(s, (k - 1) as nat);
        let a = s.current_pipeline + (k - 1);
        vstd::arithmetic::div_mod::lemma_add_mod_noop(a, 1, n);
        if n == 1 {
            assert(a % n == 0);
            assert((a + 1) % n == 0);
        } else {
            vstd::arithmetic::div_mod::lemma_small_mod(1, n as nat);
        }
    }
}

proof fn lemma_buffer_set_cycle_index(s: State, k: nat)
    requires
        s.wf(),
    ensures
        s.cycle_buffer_sets(k) == (State {
            current_buffer_set: ((s.current_buffer_set + k) % (s.buffer_set_count as int)) as usize,
            ..s
        }),
    decreases k,
{
    let n = s.buffer_set_count as int;
    if k == 0 {
        vstd::arithmetic::div_mod::lemma_small_mod(s.current_buffer_set as nat, n as nat);
    } else {
        lemma_buffer_set_cycle_index(s, (k - 1) as nat);
        let a = s.current_buffer_set + (k - 1);
        vstd::arithmetic::div_mod::lemma_add_mod_noop(a, 1, n);
        if n == 1 {
            assert(a % n == 0);
            assert((a + 1) % n == 0);
        } else {
            vstd::arithmetic::div_mod::lemma_small_mod(1, n as nat);
        }
    }
}

/// Selecting the next pipeline as many times as there are pipelines gives
/// back the state it started from.
pub proof fn lemma_pipeline_cycle(s: State)
    requires
        s.wf(),
    ensures
        s.cycle_pipelines(s.pipeline_count as nat) == s,
{
    lemma_pipeline_cycle_index(s, s.pipeline_count as nat);
    vstd::arithmetic::div_mod::lemma_mod_add_multiples_vanish(
        s.current_pipeline as int,
        s.pipeline_count as int,
    );
    vstd::arithmetic::div_mod::lemma_small_mod(s.current_pipeline as nat, s.pipeline_count as nat);
}

/// Selecting the next buffer set as many times as there are sets gives back
/// the state it started from; selecting the next buffer set never touches
/// the pipeline index, nor the other way round, so the two commute.
pub proof fn lemma_buffer_set_cycle(s: State)
    requires
        s.wf(),
    ensures
        s.cycle_buffer_sets(s.buffer_set_count as nat) == s,
        s.with_next_buffer_set().current_pipeline == s.current_pipeline,
        s.with_next_pipeline().current_buffer_set == s.current_buffer_set,
        s.with_next_pipeline().with_next_buffer_set() == s.with_next_buffer_set().with_next_pipeline(),
{
    lemma_buffer_set_cycle_index(s, s.buffer_set_count as nat);
    vstd::arithmetic::div_mod::lemma_mod_add_multiples_vanish(
        s.current_buffer_set as int,
        s.buffer_set_count as int,
    );
    vstd::arithmetic::div_mod::lemma_small_mod(s.current_buffer_set as nat, s.buffer_set_count as nat);
}

/// A failed acquisition never presents. A lost surface gives one
/// reconfiguration at the current size (none for a zero-sized window) and
/// leaves the state as it was; running out of memory sets the exit flag
/// and changes nothing else; any other failure skips the frame and changes
/// nothing.
pub proof fn lemma_acquire_failure(s: State, e: AcquireError)
    requires
        s.wf(),
    ensures
        s.after_acquire(Err(e)).1 != FrameStep::Present,
        e == AcquireError::Lost ==> s.after_acquire(Err(e)) == (s, if s.size.drawable() {
            FrameStep::Reconfigure
        } else {
            FrameStep::Skip
        }),
        e == AcquireError::OutOfMemory ==> s.after_acquire(Err(e)) == (State { exit_requested: true, ..s }, FrameStep::Exit),
        (e == AcquireError::Timeout || e == AcquireError::Outdated) ==> s.after_acquire(Err(e)) == (s, FrameStep::Skip),
{
}

} // verus!
