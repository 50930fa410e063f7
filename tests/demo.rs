use color_buttons::panels::{
    example_1, example_2, example_3, panel_layout, BASICS_INTRO, HSVA_CAPTION,
};
use color_buttons::{
    example_selector, Build, ButtonStyle, ColorControl, Drain, Driver, Example, InputMode,
    Notice, Phase, Preview, SelectorInput, Size, State, Widget,
};

fn press(e: Example) -> SelectorInput {
    SelectorInput {
        basics: e == Example::Basics,
        alpha: e == Example::Alpha,
        input_format: e == Example::InputFormat,
        close: false,
    }
}

fn no_press() -> SelectorInput {
    SelectorInput { basics: false, alpha: false, input_format: false, close: false }
}

fn buttons(widgets: &[Widget]) -> Vec<ColorControl> {
    let mut r = Vec::new();
    for w in widgets {
        if let Widget::Button(c) = w {
            r.push(*c);
        }
    }
    r
}

#[test]
fn initial_state_is_unselected_and_empty() {
    let s = State::new();
    assert_eq!(s.example, Example::Unselected);
    assert_eq!(s.notify_text, Notice::Empty);
    assert_eq!(State::default(), s);
    assert_eq!(s.notify_text.text(), "");
}

#[test]
fn reset_clears_only_the_notice() {
    let mut s = State { example: Example::Basics, notify_text: Notice::BigClicked };
    s.reset();
    assert_eq!(s, State { example: Example::Basics, notify_text: Notice::Empty });
}

#[test]
fn end_to_end_scenario() {
    let mut run = true;
    let mut s = State::default();
    assert_eq!(s, State { example: Example::Unselected, notify_text: Notice::Empty });
    example_selector(&mut run, press(Example::Alpha), &mut s);
    assert_eq!(s, State { example: Example::Alpha, notify_text: Notice::Empty });
    s.click(ColorControl::AlphaIgnored);
    assert_eq!(s, State { example: Example::Alpha, notify_text: Notice::Empty });
    example_selector(&mut run, press(Example::Basics), &mut s);
    assert_eq!(s, State { example: Example::Basics, notify_text: Notice::Empty });
    s.click(ColorControl::Red);
    assert_eq!(s, State { example: Example::Basics, notify_text: Notice::RedClicked });
    assert_eq!(s.notify_text.text(), "*** Red button was clicked");
    assert!(run);
}

#[test]
fn every_press_selects_and_clears() {
    let mut run = true;
    let mut s = State::new();
    let presses = [
        Example::Basics,
        Example::InputFormat,
        Example::InputFormat,
        Example::Alpha,
        Example::Basics,
    ];
    for e in presses {
        s.notify_text = Notice::BlackClicked;
        example_selector(&mut run, press(e), &mut s);
        assert_eq!(s.example, e);
        assert_eq!(s.notify_text, Notice::Empty);
    }
}

#[test]
fn later_radio_button_wins() {
    let mut run = true;
    let mut s = State::new();
    let input = SelectorInput { basics: true, alpha: false, input_format: true, close: false };
    example_selector(&mut run, input, &mut s);
    assert_eq!(s.example, Example::InputFormat);
}

#[test]
fn no_press_keeps_state() {
    let mut run = true;
    let mut s = State { example: Example::Basics, notify_text: Notice::NoTooltipClicked };
    example_selector(&mut run, no_press(), &mut s);
    assert_eq!(s, State { example: Example::Basics, notify_text: Notice::NoTooltipClicked });
    assert!(run);
}

#[test]
fn close_control_clears_run() {
    let mut run = true;
    let mut s = State::new();
    let input = SelectorInput { close: true, ..no_press() };
    example_selector(&mut run, input, &mut s);
    assert!(!run);
    assert_eq!(s, State::new());
}

#[test]
fn basics_buttons_post_their_notices() {
    let cases = [
        (ColorControl::Black, Notice::BlackClicked, "*** Black button was clicked"),
        (ColorControl::Red, Notice::RedClicked, "*** Red button was clicked"),
        (ColorControl::Big, Notice::BigClicked, "*** BIG button was clicked"),
        (ColorControl::NoTooltip, Notice::NoTooltipClicked, "*** No tooltip button was clicked"),
    ];
    for (c, n, text) in cases {
        let mut s = State { example: Example::Basics, notify_text: Notice::Empty };
        s.click(c);
        assert_eq!(s, State { example: Example::Basics, notify_text: n });
        assert_eq!(s.notify_text.text(), text);
    }
}

#[test]
fn alpha_and_input_format_buttons_post_nothing() {
    let mut s = State { example: Example::Alpha, notify_text: Notice::Empty };
    for c in buttons(&example_2()) {
        s.click(c);
        assert_eq!(s, State { example: Example::Alpha, notify_text: Notice::Empty });
    }
    let mut s = State { example: Example::InputFormat, notify_text: Notice::Empty };
    for c in buttons(&example_3()) {
        s.click(c);
        assert_eq!(s, State { example: Example::InputFormat, notify_text: Notice::Empty });
    }
}

#[test]
fn click_outside_the_shown_panel_is_ignored() {
    let mut s = State { example: Example::Alpha, notify_text: Notice::Empty };
    s.click(ColorControl::Black);
    assert_eq!(s.notify_text, Notice::Empty);
    let mut s = State::new();
    s.click(ColorControl::Red);
    assert_eq!(s, State::new());
}

#[test]
fn switching_clears_a_posted_notice() {
    let mut run = true;
    let mut s = State::new();
    example_selector(&mut run, press(Example::Basics), &mut s);
    s.click(ColorControl::Big);
    assert_eq!(s.notify_text, Notice::BigClicked);
    example_selector(&mut run, press(Example::InputFormat), &mut s);
    assert_eq!(s, State { example: Example::InputFormat, notify_text: Notice::Empty });
}

#[test]
fn reselecting_the_same_example_clears_too() {
    let mut run = true;
    let mut s = State { example: Example::Basics, notify_text: Notice::RedClicked };
    example_selector(&mut run, press(Example::Basics), &mut s);
    assert_eq!(s, State { example: Example::Basics, notify_text: Notice::Empty });
}

#[test]
fn no_panel_while_unselected() {
    let d = Driver::new();
    assert_eq!(d.active_panel(), None);
    assert!(panel_layout(Example::Unselected).is_empty());
}

#[test]
fn one_panel_per_frame() {
    for e in [Example::Basics, Example::Alpha, Example::InputFormat] {
        let mut d = Driver::new();
        d.on_selector(press(e));
        assert_eq!(d.active_panel(), Some(e));
        let f = d.frame().unwrap();
        assert_eq!(f.iter().filter(|b| **b == Build::ActivePanel).count(), 1);
        assert!(!panel_layout(e).is_empty());
    }
}

#[test]
fn frame_order() {
    let d = Driver::new();
    assert_eq!(
        d.frame(),
        Some(vec![Build::DemoWindow, Build::Selector, Build::ActivePanel, Build::Backdrop])
    );
    let mut d = Driver::new();
    d.on_selector(SelectorInput { close: true, ..no_press() });
    assert!(!d.run);
    assert_eq!(d.frame(), Some(vec![Build::DemoWindow, Build::ActivePanel, Build::Backdrop]));
    assert!(d.is_running());
}

#[test]
fn quit_stops_draining_and_skips_the_frame() {
    let mut d = Driver::new();
    assert_eq!(d.on_event(false), Drain::Continue);
    assert!(d.frame().is_some());
    assert_eq!(d.on_event(true), Drain::Stop);
    assert_eq!(d.phase, Phase::Quitting);
    assert!(!d.is_running());
    assert_eq!(d.frame(), None);
    assert_eq!(d.on_event(false), Drain::Stop);
    assert_eq!(d.frame(), None);
}

#[test]
fn driver_click_reaches_state() {
    let mut d = Driver::new();
    d.on_selector(press(Example::Basics));
    d.on_click(ColorControl::NoTooltip);
    assert_eq!(d.state.notify_text, Notice::NoTooltipClicked);
    d.on_selector(press(Example::Alpha));
    assert_eq!(d.state.notify_text, Notice::Empty);
}

#[test]
fn basics_layout_order() {
    let w = example_1();
    assert_eq!(w.len(), 10);
    assert_eq!(w[0], Widget::Wrapped(BASICS_INTRO));
    assert!(BASICS_INTRO.starts_with("Color button is a widget"));
    assert!(BASICS_INTRO.contains("rectangle. It also"));
    assert_eq!(w[1], Widget::NoticeLine);
    assert_eq!(w[2], Widget::Text("This button is black:"));
    assert_eq!(
        buttons(&w),
        vec![ColorControl::Black, ColorControl::Red, ColorControl::Big, ColorControl::NoTooltip]
    );
}

#[test]
fn alpha_and_input_format_layouts() {
    let w = example_2();
    assert_eq!(w.len(), 16);
    assert_eq!(w[3], Widget::Spacing);
    assert_eq!(w[7], Widget::Separator);
    assert_eq!(
        buttons(&w),
        vec![
            ColorControl::AlphaIgnored,
            ColorControl::PreviewOpaque,
            ColorControl::PreviewHalfAlpha,
            ColorControl::PreviewAlpha
        ]
    );
    let w = example_3();
    assert_eq!(w.len(), 5);
    assert_eq!(w[3], Widget::Text(HSVA_CAPTION));
    assert_eq!(buttons(&w), vec![ColorControl::RgbaRed, ColorControl::HsvaBlack]);
    assert_eq!(panel_layout(Example::Alpha), example_2());
}

#[test]
fn button_styles() {
    let plain = ButtonStyle {
        tooltip: true,
        alpha: true,
        preview: None,
        input_mode: None,
        custom_size: None,
    };
    assert_eq!(ColorControl::Black.style(), plain);
    assert_eq!(
        ColorControl::Big.style(),
        ButtonStyle { custom_size: Some(Size { width: 100, height: 50 }), ..plain }
    );
    assert_eq!(ColorControl::NoTooltip.style(), ButtonStyle { tooltip: false, ..plain });
    assert_eq!(ColorControl::AlphaIgnored.style(), ButtonStyle { alpha: false, ..plain });
    assert_eq!(
        ColorControl::PreviewHalfAlpha.style(),
        ButtonStyle { preview: Some(Preview::HalfAlpha), ..plain }
    );
    assert_eq!(
        ColorControl::HsvaBlack.style(),
        ButtonStyle { input_mode: Some(InputMode::Hsv), ..plain }
    );
}

#[test]
fn labels_titles_and_numbers() {
    assert_eq!(ColorControl::Big.label(), "Green color");
    assert_eq!(ColorControl::PreviewAlpha.label(), "Red + ColorPreview::Alpha");
    assert_eq!(ColorControl::HsvaBlack.panel(), Example::InputFormat);
    assert_eq!(ColorControl::Black.notice(), Some(Notice::BlackClicked));
    assert_eq!(ColorControl::RgbaRed.notice(), None);
    assert_eq!(Example::Alpha.title(), "Example 2: Alpha component");
    assert_eq!(Example::Unselected.number(), 0);
    assert_eq!(Example::InputFormat.number(), 3);
}
