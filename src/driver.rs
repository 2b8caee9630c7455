use vstd::prelude::*;

use crate::surface::{Extent, SurfaceState};

verus! {

/// Why the next presentable image could not be acquired.
#[derive(Clone, Copy, Debug, PartialEq, Eq, Structural)]
pub enum AcquireError {
    Timeout,
    Outdated,
    Lost,
    OutOfMemory,
}

/// A failure that is expected to resolve on the next frame.
#[derive(Clone, Copy, Debug, PartialEq, Eq, Structural)]
pub enum TransientKind {
    Timeout,
    Outdated,
}

/// The classified outcome of one frame.
#[derive(Clone, Copy, Debug, PartialEq, Eq, Structural)]
pub enum FrameStatus {
    Success,
    Lost,
    OutOfMemory,
    Transient(TransientKind),
}

/// What a window reports.
#[derive(Clone, Copy, Debug, PartialEq, Eq, Structural)]
pub enum WindowInput {
    Resized(Extent),
    ScaleFactorChanged(Extent),
    CloseRequested,
    EscapePressed,
    Other,
}

/// What the platform event loop delivers.
#[derive(Clone, Copy, Debug, PartialEq, Eq, Structural)]
pub enum LoopEvent {
    /// An input of some window; `ours` tells whether it is the one drawn to.
    Window { ours: bool, input: WindowInput },
    RedrawRequested,
    RedrawEventsCleared,
    Other,
}

/// What the caller must do after a transition.
#[derive(Clone, Copy, Debug, PartialEq, Eq, Structural)]
pub enum Action {
    Nothing,
    /// Apply the current surface configuration to the device.
    ApplyConfig,
    /// Render one frame, then hand its status to `handle_frame`.
    RenderFrame,
    /// Ask the window for another redraw.
    RequestRedraw,
    /// Report a transient failure and go on.
    Report(TransientKind),
    /// Leave the event loop.
    Exit,
}

/// The status of a frame whose image acquisition gave `r`.
pub open spec fn spec_classify(r: Result<(), AcquireError>) -> FrameStatus {
    match r {
        Ok(()) => FrameStatus::Success,
        Err(AcquireError::Lost) => FrameStatus::Lost,
        Err(AcquireError::OutOfMemory) => FrameStatus::OutOfMemory,
        Err(AcquireError::Timeout) => FrameStatus::Transient(TransientKind::Timeout),
        Err(AcquireError::Outdated) => FrameStatus::Transient(TransientKind::Outdated),
    }
}

/// Classifies the result of acquiring a frame's image.
pub fn classify(r: Result<(), AcquireError>) -> (s: FrameStatus)
    ensures
        s == spec_classify(r),
{
    match r {
        Ok(()) => FrameStatus::Success,
        Err(AcquireError::Lost) => FrameStatus::Lost,
        Err(AcquireError::OutOfMemory) => FrameStatus::OutOfMemory,
        Err(AcquireError::Timeout) => FrameStatus::Transient(TransientKind::Timeout),
        Err(AcquireError::Outdated) => FrameStatus::Transient(TransientKind::Outdated),
    }
}

/// The state of the event loop: the surface it draws to and whether it runs.
pub struct Driver<F> {
    surface: SurfaceState<F>,
    running: bool,
}

/// The action that an event calls for while the loop runs.
pub open spec fn event_action<F>(s: SurfaceState<F>, ev: LoopEvent) -> Action {
    match ev {
        LoopEvent::Window { ours, input } => if !ours {
            Action::Nothing
        } else {
            match input {
                WindowInput::CloseRequested | WindowInput::EscapePressed => Action::Exit,
                WindowInput::Resized(size) | WindowInput::ScaleFactorChanged(size) => if size.has_area() {
                    Action::ApplyConfig
                } else {
                    Action::Nothing
                },
                WindowInput::Other => Action::Nothing,
            }
        },
        LoopEvent::RedrawRequested => Action::RenderFrame,
        LoopEvent::RedrawEventsCleared => Action::RequestRedraw,
        LoopEvent::Other => Action::Nothing,
    }
}

/// The surface after an event while the loop runs.
pub open spec fn event_surface<F>(s: SurfaceState<F>, ev: LoopEvent) -> SurfaceState<F> {
    match ev {
        LoopEvent::Window { ours: true, input: WindowInput::Resized(size) } => s.resized(size),
        LoopEvent::Window {
            ours: true,
            input: WindowInput::ScaleFactorChanged(size),
        } => s.resized(size),
        _ => s,
    }
}

/// The size recorded after an event while the loop runs.
pub open spec fn event_size<F>(s: SurfaceState<F>, ev: LoopEvent) -> Extent {
    match ev {
        LoopEvent::Window { ours: true, input: WindowInput::Resized(size) } => if size.has_area() {
            size
        } else {
            s.spec_size()
        },
        LoopEvent::Window {
            ours: true,
            input: WindowInput::ScaleFactorChanged(size),
        } => if size.has_area() {
            size
        } else {
            s.spec_size()
        },
        _ => s.spec_size(),
    }
}

/// The action that a frame status calls for while the loop runs.
pub open spec fn frame_action(st: FrameStatus) -> Action {
    match st {
        FrameStatus::Success => Action::Nothing,
        FrameStatus::Lost => Action::ApplyConfig,
        FrameStatus::OutOfMemory => Action::Exit,
        FrameStatus::Transient(k) => Action::Report(k),
    }
}

impl<F> Driver<F> {
    pub closed spec fn spec_surface(&self) -> SurfaceState<F> {
        self.surface
    }

    pub closed spec fn spec_running(&self) -> bool {
        self.running
    }

    pub open spec fn wf(&self) -> bool {
        self.spec_surface().wf()
    }

    /// The action taken on an event: none once the loop has stopped.
    pub open spec fn action_on_event(self, ev: LoopEvent) -> Action {
        if self.spec_running() {
            event_action(self.spec_surface(), ev)
        } else {
            Action::Nothing
        }
    }

    /// The action taken on a frame status: none once the loop has stopped.
    pub open spec fn action_on_frame(self, st: FrameStatus) -> Action {
        if self.spec_running() {
            frame_action(st)
        } else {
            Action::Nothing
        }
    }

    /// The state after an event: a stopped loop stays as it is, a running one
    /// stops exactly when the event asks to exit.
    pub closed spec fn after_event(self, ev: LoopEvent) -> Driver<F> {
        if self.running {
            Driver {
                surface: event_surface(self.surface, ev),
                running: event_action(self.surface, ev) != Action::Exit,
            }
        } else {
            self
        }
    }

    /// The state after a frame status: the surface keeps its configuration,
    /// and a running loop stops exactly when the status asks to exit.
    pub closed spec fn after_frame(self, st: FrameStatus) -> Driver<F> {
        if self.running {
            Driver { surface: self.surface, running: frame_action(st) != Action::Exit }
        } else {
            self
        }
    }

    /// A running loop over a configured surface.
    pub fn new(surface: SurfaceState<F>) -> (r: Self)
        ensures
            r.spec_surface() == surface,
            r.spec_running(),
    {
        Driver { surface, running: true }
    }

    /// Whether the window input is consumed before the loop looks at it.
    /// Nothing is consumed: every input goes on to the loop.
    pub fn input(&mut self, _input: &WindowInput) -> (consumed: bool)
        ensures
            !consumed,
            *final(self) == *old(self),
    {
        false
    }

    /// Per-frame state update, made before each frame. There is no state to
    /// advance between frames.
    pub fn update(&mut self)
        ensures
            *final(self) == *old(self),
    {
    }

    fn stop(&mut self) -> (a: Action)
        ensures
            a == Action::Exit,
            final(self).spec_surface() == old(self).spec_surface(),
            !final(self).spec_running(),
    {
        self.running = false;
        Action::Exit
    }

    /// Takes one event of the platform loop. A stopped loop ignores events.
    pub fn handle_event(&mut self, ev: LoopEvent) -> (a: Action)
        requires
            old(self).wf(),
        ensures
            final(self).wf(),
            a == old(self).action_on_event(ev),
            *final(self) == old(self).after_event(ev),
            final(self).spec_surface().spec_config().format == old(self).spec_surface().spec_config().format,
            old(self).spec_running() ==> {
                &&& final(self).spec_surface() == event_surface(old(self).spec_surface(), ev)
                &&& final(self).spec_surface().spec_size() == event_size(old(self).spec_surface(), ev)
                &&& final(self).spec_running() <==> a != Action::Exit
            },
            !old(self).spec_running() ==> *final(self) == *old(self),
    {
        if !self.running {
            return Action::Nothing;
        }
        match ev {
            LoopEvent::Window { ours, input } => {
                if !ours || self.input(&input) {
                    return Action::Nothing;
                }
                match input {
                    WindowInput::CloseRequested | WindowInput::EscapePressed => self.stop(),
                    WindowInput::Resized(size) | WindowInput::ScaleFactorChanged(size) => {
                        if self.surface.reconfigure(size) {
                            Action::ApplyConfig
                        } else {
                            Action::Nothing
                        }
                    },
                    WindowInput::Other => Action::Nothing,
                }
            },
            LoopEvent::RedrawRequested => {
                self.update();
                Action::RenderFrame
            },
            LoopEvent::RedrawEventsCleared => Action::RequestRedraw,
            LoopEvent::Other => Action::Nothing,
        }
    }

    /// Takes the status of the frame rendered for `Action::RenderFrame`.
    /// A lost surface is handled as a resize to the recorded size.
    pub fn handle_frame(&mut self, status: FrameStatus) -> (a: Action)
        requires
            old(self).wf(),
        ensures
            final(self).wf(),
            a == old(self).action_on_frame(status),
            *final(self) == old(self).after_frame(status),
            final(self).spec_surface() == old(self).spec_surface(),
            old(self).spec_running() ==> (final(self).spec_running() <==> a != Action::Exit),
            !old(self).spec_running() ==> *final(self) == *old(self),
    {
        if !self.running {
            return Action::Nothing;
        }
        match status {
            FrameStatus::Success => Action::Nothing,
            FrameStatus::Lost => {
                let size = self.surface.size();
                if self.surface.reconfigure(size) {
                    Action::ApplyConfig
                } else {
                    Action::Nothing
                }
            },
            FrameStatus::OutOfMemory => self.stop(),
            FrameStatus::Transient(k) => Action::Report(k),
        }
    }

    pub fn is_running(&self) -> (r: bool)
        ensures
            r == self.spec_running(),
    {
        self.running
    }

    pub fn surface(&self) -> (r: &SurfaceState<F>)
        ensures
            *r == self.spec_surface(),
    {
        &self.surface
    }
}

/// The actions taken on a sequence of events, one for each event in turn.
pub open spec fn actions_on_events<F>(d: Driver<F>, evs: Seq<LoopEvent>) -> Seq<Action>
    decreases evs.len(),
{
    if evs.len() == 0 {
        Seq::empty()
    } else {
        seq![d.action_on_event(evs[0])] + actions_on_events(d.after_event(evs[0]), evs.drop_first())
    }
}

/// A resize of the drawn window to a size without area leaves the loop's
/// state as it is and calls for no action.
pub proof fn zero_area_resize_changes_nothing<F>(d: Driver<F>, size: Extent, scale_change: bool)
    requires
        d.wf(),
        !size.has_area(),
    ensures
        ({
            let input = if scale_change {
                WindowInput::ScaleFactorChanged(size)
            } else {
                WindowInput::Resized(size)
            };
            let ev = LoopEvent::Window { ours: true, input };
            d.after_event(ev) == d && d.action_on_event(ev) == Action::Nothing
        }),
{
    d.spec_surface().lemma_resized(size);
}

/// A resize of the drawn window to a size with area, while the loop runs,
/// records exactly that size in the surface and its configuration and calls
/// for one application of the configuration.
pub proof fn resize_records_size_and_applies_once<F>(d: Driver<F>, size: Extent, scale_change: bool)
    requires
        d.wf(),
        d.spec_running(),
        size.has_area(),
    ensures
        ({
            let input = if scale_change {
                WindowInput::ScaleFactorChanged(size)
            } else {
                WindowInput::Resized(size)
            };
            let ev = LoopEvent::Window { ours: true, input };
            let after = d.after_event(ev).spec_surface();
            &&& d.action_on_event(ev) == Action::ApplyConfig
            &&& after.spec_size() == size
            &&& after.spec_config().width == size.width
            &&& after.spec_config().height == size.height
            &&& after.spec_config().format == d.spec_surface().spec_config().format
            &&& d.after_event(ev).spec_running()
        }),
{
    d.spec_surface().lemma_resized(size);
}

/// A lost surface, while the loop runs, calls for one application of the
/// configuration with the recorded size, and not for another frame; the
/// surface keeps its state and the loop goes on.
pub proof fn lost_surface_reapplies_recorded_size<F>(d: Driver<F>)
    requires
        d.wf(),
        d.spec_running(),
    ensures
        d.action_on_frame(FrameStatus::Lost) == Action::ApplyConfig,
        d.after_frame(FrameStatus::Lost).spec_surface() == d.spec_surface().resized(
            d.spec_surface().spec_size(),
        ),
        d.after_frame(FrameStatus::Lost).spec_surface().spec_size() == d.spec_surface().spec_size(),
        d.after_frame(FrameStatus::Lost).spec_running(),
        forall|st: FrameStatus| d.action_on_frame(st) != Action::RenderFrame,
{
    d.spec_surface().lemma_resized(d.spec_surface().spec_size());
}

/// A stopped loop answers every event with no action and stays stopped.
pub proof fn stopped_loop_does_nothing<F>(d: Driver<F>, evs: Seq<LoopEvent>)
    requires
        !d.spec_running(),
    ensures
        actions_on_events(d, evs).len() == evs.len(),
        forall|i: int| 0 <= i < evs.len() ==> actions_on_events(d, evs)[i] == Action::Nothing,
    decreases evs.len(),
{
    if evs.len() > 0 {
        assert(d.after_event(evs[0]) == d);
        stopped_loop_does_nothing(d, evs.drop_first());
        let rest = actions_on_events(d, evs.drop_first());
        assert forall|i: int| 0 <= i < evs.len() implies actions_on_events(d, evs)[i]
            == Action::Nothing by {
            if i > 0 {
                assert(actions_on_events(d, evs)[i] == rest[i - 1]);
            }
        }
    }
}

/// Running out of GPU memory ends the loop: the status calls for exit, and
/// no event after it gets an action, so no frame is rendered again.
pub proof fn out_of_memory_ends_loop<F>(d: Driver<F>, later: Seq<LoopEvent>)
    requires
        d.spec_running(),
    ensures
        d.action_on_frame(FrameStatus::OutOfMemory) == Action::Exit,
        !d.after_frame(FrameStatus::OutOfMemory).spec_running(),
        forall|i: int|
            0 <= i < later.len() ==> actions_on_events(
                d.after_frame(FrameStatus::OutOfMemory),
                later,
            )[i] == Action::Nothing,
        forall|st: FrameStatus|
            d.after_frame(FrameStatus::OutOfMemory).action_on_frame(st) == Action::Nothing,
{
    stopped_loop_does_nothing(d.after_frame(FrameStatus::OutOfMemory), later);
}

} // verus!
