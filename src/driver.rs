use vstd::prelude::*;

use crate::panels::ColorControl;
use crate::state::{example_selector, Example, SelectorInput, State};

verus! {

/// Whether the frame loop goes on.
#[derive(Clone, Copy, Debug, PartialEq, Eq, Structural)]
pub enum Phase {
    Running,
    Quitting,
}

/// What the event pump does after handing one event on.
#[derive(Clone, Copy, Debug, PartialEq, Eq, Structural)]
pub enum Drain {
    Continue,
    Stop,
}

/// The UI-building steps of one frame, between its start and its render.
#[derive(Clone, Copy, Debug, PartialEq, Eq, Structural)]
pub enum Build {
    /// The UI library's own demo window.
    DemoWindow,
    /// The example selector panel.
    Selector,
    /// The panel of the chosen example, if one is chosen.
    ActivePanel,
    /// The full-viewport backdrop behind the panels.
    Backdrop,
}

/// The frame loop's own state: its phase, whether the selector panel is still
/// open, and the demo state.
#[derive(Clone, Copy, Debug, PartialEq, Eq, Structural)]
pub struct Driver {
    pub phase: Phase,
    pub run: bool,
    pub state: State,
}

impl Driver {
    pub open spec fn initial() -> Driver {
        Driver { phase: Phase::Running, run: true, state: State::initial() }
    }

    /// A quit event ends the loop; once quitting, the loop stays so.
    pub open spec fn after_event(self, quit: bool) -> Driver {
        if quit {
            Driver { phase: Phase::Quitting, ..self }
        } else {
            self
        }
    }

    pub open spec fn spec_builds(self) -> Seq<Build> {
        if self.run {
            seq![Build::DemoWindow, Build::Selector, Build::ActivePanel, Build::Backdrop]
        } else {
            seq![Build::DemoWindow, Build::ActivePanel, Build::Backdrop]
        }
    }

    /// The steps of the next frame, or `None` when no further frame is drawn.
    pub open spec fn spec_frame(self) -> Option<Seq<Build>> {
        if self.phase == Phase::Quitting {
            None
        } else {
            Some(self.spec_builds())
        }
    }

    /// The panel builder to run: none while no example is chosen.
    pub open spec fn spec_active_panel(self) -> Option<Example> {
        if self.state.example == Example::Unselected {
            None
        } else {
            Some(self.state.example)
        }
    }

    pub fn new() -> (d: Driver)
        ensures
            d == Driver::initial(),
    {
        Driver { phase: Phase::Running, run: true, state: State::new() }
    }

    pub fn is_running(&self) -> (r: bool)
        ensures
            r == (self.phase == Phase::Running),
    {
        self.phase == Phase::Running
    }

    /// Takes one drained event, after it was handed to the UI input adapter, and
    /// says whether draining goes on.
    pub fn on_event(&mut self, quit: bool) -> (r: Drain)
        ensures
            *final(self) == old(self).after_event(quit),
            r == (if final(self).phase == Phase::Quitting {
                Drain::Stop
            } else {
                Drain::Continue
            }),
    {
        if quit {
            self.phase = Phase::Quitting;
        }
        if self.phase == Phase::Quitting {
            Drain::Stop
        } else {
            Drain::Continue
        }
    }

    /// The UI steps of the frame that follows draining, in order; `None` once a
    /// quit was seen, so that nothing more is built, rendered or presented.
    pub fn frame(&self) -> (r: Option<Vec<Build>>)
        ensures
            match r {
                Some(v) => self.spec_frame() == Some(v@),
                None => self.spec_frame() is None,
            },
    {
        if self.phase == Phase::Quitting {
            return None;
        }
        let mut v: Vec<Build> = Vec::new();
        v.push(Build::DemoWindow);
        if self.run {
            v.push(Build::Selector);
        }
        v.push(Build::ActivePanel);
        v.push(Build::Backdrop);
        assert(v@ =~= self.spec_builds());
        Some(v)
    }

    /// Applies what the selector panel reported this frame.
    pub fn on_selector(&mut self, input: SelectorInput)
        ensures
            final(self).phase == old(self).phase,
            final(self).run == (old(self).run && !input.close),
            final(self).state == old(self).state.after_selector(input),
    {
        example_selector(&mut self.run, input, &mut self.state);
    }

    /// Applies a click on a color button of the panel shown.
    pub fn on_click(&mut self, c: ColorControl)
        ensures
            *final(self) == (Driver { state: old(self).state.clicked(c), ..*old(self) }),
    {
        self.state.click(c);
    }

    /// Called after the selector ran: the one panel builder to run this frame.
    pub fn active_panel(&self) -> (r: Option<Example>)
        ensures
            r == self.spec_active_panel(),
    {
        if self.state.example == Example::Unselected {
            None
        } else {
            Some(self.state.example)
        }
    }
}

} // verus!
