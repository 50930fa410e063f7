use vstd::prelude::*;

use crate::panels::ColorControl;

verus! {

/// Which demo panel the selector has chosen.
#[derive(Clone, Copy, Debug, PartialEq, Eq, Structural)]
pub enum Example {
    Unselected,
    Basics,
    Alpha,
    InputFormat,
}

impl Example {
    /// The selector's number for this choice; `Unselected` is 0.
    pub open spec fn spec_number(self) -> u32 {
        match self {
            Example::Unselected => 0,
            Example::Basics => 1,
            Example::Alpha => 2,
            Example::InputFormat => 3,
        }
    }

    pub open spec fn spec_title(self) -> Seq<char> {
        match self {
            Example::Unselected => ""@,
            Example::Basics => "Example 1: Basics"@,
            Example::Alpha => "Example 2: Alpha component"@,
            Example::InputFormat => "Example 3: Input format"@,
        }
    }

    /// The label of this choice in the selector, which is also its panel's title.
    pub fn title(&self) -> (r: &'static str)
        ensures
            r@ == self.spec_title(),
    {
        match self {
            Example::Unselected => "",
            Example::Basics => "Example 1: Basics",
            Example::Alpha => "Example 2: Alpha component",
            Example::InputFormat => "Example 3: Input format",
        }
    }

    pub fn number(&self) -> (r: u32)
        ensures
            r == self.spec_number(),
    {
        match self {
            Example::Unselected => 0,
            Example::Basics => 1,
            Example::Alpha => 2,
            Example::InputFormat => 3,
        }
    }
}

/// The message shown on the notification line.
#[derive(Clone, Copy, Debug, PartialEq, Eq, Structural)]
pub enum Notice {
    Empty,
    BlackClicked,
    RedClicked,
    BigClicked,
    NoTooltipClicked,
}

impl Notice {
    pub open spec fn spec_text(self) -> Seq<char> {
        match self {
            Notice::Empty => ""@,
            Notice::BlackClicked => "*** Black button was clicked"@,
            Notice::RedClicked => "*** Red button was clicked"@,
            Notice::BigClicked => "*** BIG button was clicked"@,
            Notice::NoTooltipClicked => "*** No tooltip button was clicked"@,
        }
    }

    pub fn text(&self) -> (r: &'static str)
        ensures
            r@ == self.spec_text(),
    {
        match self {
            Notice::Empty => "",
            Notice::BlackClicked => "*** Black button was clicked",
            Notice::RedClicked => "*** Red button was clicked",
            Notice::BigClicked => "*** BIG button was clicked",
            Notice::NoTooltipClicked => "*** No tooltip button was clicked",
        }
    }
}

/// The demo's only mutable record.
#[derive(Clone, Copy, Debug, PartialEq, Eq, Structural)]
pub struct State {
    pub example: Example,
    pub notify_text: Notice,
}

impl State {
    pub open spec fn initial() -> State {
        State { example: Example::Unselected, notify_text: Notice::Empty }
    }

    /// The state after the selector switched to `e`.
    pub open spec fn selected(self, e: Example) -> State {
        State { example: e, notify_text: Notice::Empty }
    }

    pub fn new() -> (s: State)
        ensures
            s == State::initial(),
    {
        State { example: Example::Unselected, notify_text: Notice::Empty }
    }

    /// Clears the notification line.
    pub fn reset(&mut self)
        ensures
            final(self).notify_text == Notice::Empty,
            final(self).example == old(self).example,
    {
        self.notify_text = Notice::Empty;
    }
}

/// What the selector panel reported in one frame: a press on each of its three
/// radio buttons, and a press on its close control.
#[derive(Clone, Copy, Debug, PartialEq, Eq, Structural)]
pub struct SelectorInput {
    pub basics: bool,
    pub alpha: bool,
    pub input_format: bool,
    pub close: bool,
}

impl SelectorInput {
    /// The choice the selector ends on: the last pressed radio button in drawing
    /// order, or `None` when none was pressed.
    pub open spec fn chosen(self) -> Option<Example> {
        if self.input_format {
            Some(Example::InputFormat)
        } else if self.alpha {
            Some(Example::Alpha)
        } else if self.basics {
            Some(Example::Basics)
        } else {
            None
        }
    }

    /// A frame in which only the radio button of `e` was pressed.
    pub open spec fn press(e: Example) -> SelectorInput {
        SelectorInput {
            basics: e == Example::Basics,
            alpha: e == Example::Alpha,
            input_format: e == Example::InputFormat,
            close: false,
        }
    }
}

impl State {
    pub open spec fn after_selector(self, input: SelectorInput) -> State {
        match input.chosen() {
            Some(e) => self.selected(e),
            None => self,
        }
    }

    /// A click on `c` posts its notice when `c` is on the panel shown; any other
    /// click leaves the state as it is.
    pub open spec fn clicked(self, c: ColorControl) -> State {
        if c.spec_panel() == self.example {
            match c.spec_notice() {
                Some(n) => State { notify_text: n, ..self },
                None => self,
            }
        } else {
            self
        }
    }

    pub fn click(&mut self, c: ColorControl)
        ensures
            *final(self) == old(self).clicked(c),
    {
        if c.panel() == self.example {
            match c.notice() {
                Some(n) => self.notify_text = n,
                None => {},
            }
        }
    }
}

/// Applies one frame of the selector panel. Each pressed radio button selects its
/// example, a later one overriding an earlier one, and any press clears the
/// notification line, also when the example stays the same. The close control
/// clears `run`.
pub fn example_selector(run: &mut bool, input: SelectorInput, state: &mut State)
    ensures
        *final(run) == (*old(run) && !input.close),
        *final(state) == old(state).after_selector(input),
{
    let mut pressed = false;
    if input.basics {
        state.example = Example::Basics;
        pressed = true;
    }
    if input.alpha {
        state.example = Example::Alpha;
        pressed = true;
    }
    if input.input_format {
        state.example = Example::InputFormat;
        pressed = true;
    }
    if pressed {
        state.reset();
    }
    if input.close {
        *run = false;
    }
}

impl Default for State {
    fn default() -> (s: State)
        ensures
            s == State::initial(),
    {
        State::new()
    }
}

} // verus!
