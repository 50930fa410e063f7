use vstd::prelude::*;

use crate::driver::{Build, Driver, Phase};
use crate::panels::{layout, ColorControl, Widget};
use crate::state::{Example, Notice, SelectorInput, State};

verus! {

/// The state after the selector reported, frame after frame, a press on each
/// option of `presses` in turn.
pub open spec fn after_presses(s: State, presses: Seq<Example>) -> State
    decreases presses.len(),
{
    if presses.len() == 0 {
        s
    } else {
        after_presses(s, presses.drop_last()).after_selector(
            SelectorInput::press(presses.last()),
        )
    }
}

/// The driver after taking each event of `quits` in turn, `true` for a quit.
pub open spec fn after_events(d: Driver, quits: Seq<bool>) -> Driver
    decreases quits.len(),
{
    if quits.len() == 0 {
        d
    } else {
        after_events(d, quits.drop_last()).after_event(quits.last())
    }
}

/// How often `b` occurs in `s`.
pub open spec fn occurrences(s: Seq<Build>, b: Build) -> nat
    decreases s.len(),
{
    if s.len() == 0 {
        0
    } else {
        occurrences(s.drop_last(), b) + if s.last() == b {
            1nat
        } else {
            0nat
        }
    }
}

/// After each press in any run of selector presses, the example is the option
/// just pressed and the notification line is empty.
pub proof fn lemma_selector_presses(s: State, presses: Seq<Example>)
    requires
        forall|i: int| 0 <= i < presses.len() ==> presses[i] != Example::Unselected,
    ensures
        forall|i: int|
            0 <= i < presses.len() ==> after_presses(s, #[trigger] presses.take(i + 1)) == (
            State { example: presses[i], notify_text: Notice::Empty }),
{
    assert forall|i: int| 0 <= i < presses.len() implies after_presses(
        s,
        #[trigger] presses.take(i + 1),
    ) == (State { example: presses[i], notify_text: Notice::Empty }) by {
        assert(presses.take(i + 1).drop_last() =~= presses.take(i));
        assert(presses.take(i + 1).last() == presses[i]);
    }
}

/// A click on a button of the panel shown posts that button's own notice, or
/// leaves the notification line as it was when the button posts none; the
/// chosen example stays.
pub proof fn lemma_click_posts_notice(s: State, c: ColorControl)
    requires
        layout(s.example).contains(Widget::Button(c)),
    ensures
        s.clicked(c).example == s.example,
        s.clicked(c).notify_text == match c.spec_notice() {
            Some(n) => n,
            None => s.notify_text,
        },
{
    assert(c.spec_panel() == s.example);
}

/// Switching the selector from one example to another clears the notification
/// line, whatever it held.
pub proof fn lemma_switch_clears(s: State, input: SelectorInput)
    requires
        input.chosen() is Some,
        input.chosen()->0 != s.example,
    ensures
        s.after_selector(input).example == input.chosen()->0,
        s.after_selector(input).notify_text == Notice::Empty,
{
}

/// Each frame of a running loop holds the panel step exactly once, and that
/// step runs no builder while no example is chosen and the chosen one
/// otherwise.
pub proof fn lemma_one_panel_per_frame(d: Driver)
    requires
        d.phase == Phase::Running,
    ensures
        d.spec_frame() is Some,
        occurrences(d.spec_frame()->0, Build::ActivePanel) == 1,
        d.spec_active_panel() is None <==> d.state.example == Example::Unselected,
        d.spec_active_panel() is Some ==> d.spec_active_panel()->0 == d.state.example,
        layout(Example::Unselected).len() == 0,
{
    reveal_with_fuel(occurrences, 5);
    let b = d.spec_builds();
    if d.run {
        assert(b.drop_last() =~= seq![Build::DemoWindow, Build::Selector, Build::ActivePanel]);
        assert(b.drop_last().drop_last() =~= seq![Build::DemoWindow, Build::Selector]);
        assert(b.drop_last().drop_last().drop_last() =~= seq![Build::DemoWindow]);
        assert(b.drop_last().drop_last().drop_last().drop_last() =~= Seq::<Build>::empty());
    } else {
        assert(b.drop_last() =~= seq![Build::DemoWindow, Build::ActivePanel]);
        assert(b.drop_last().drop_last() =~= seq![Build::DemoWindow]);
        assert(b.drop_last().drop_last().drop_last() =~= Seq::<Build>::empty());
    }
}

/// Once a quit event is drained, no further frame is built, rendered or
/// presented, whatever events come after it.
pub proof fn lemma_quit_ends_loop(d: Driver, later: Seq<bool>)
    ensures
        after_events(d.after_event(true), later).phase == Phase::Quitting,
        after_events(d.after_event(true), later).spec_frame() is None,
    decreases later.len(),
{
    if later.len() > 0 {
        lemma_quit_ends_loop(d, later.drop_last());
    }
}

} // verus!
