use vstd::prelude::*;

use crate::state::{Example, Notice};

verus! {

/// How a color button shows its alpha channel.
#[derive(Clone, Copy, Debug, PartialEq, Eq, Structural)]
pub enum Preview {
    Opaque,
    HalfAlpha,
    Alpha,
}

/// How a color button reads its four components.
#[derive(Clone, Copy, Debug, PartialEq, Eq, Structural)]
pub enum InputMode {
    Rgb,
    Hsv,
}

/// The options a color button is built with; `None` leaves the widget's default.
#[derive(Clone, Copy, Debug, PartialEq, Eq, Structural)]
pub struct ButtonStyle {
    pub tooltip: bool,
    pub alpha: bool,
    pub preview: Option<Preview>,
    pub input_mode: Option<InputMode>,
    pub custom_size: Option<Size>,
}

/// A button size in pixels.
#[derive(Clone, Copy, Debug, PartialEq, Eq, Structural)]
pub struct Size {
    pub width: u32,
    pub height: u32,
}

/// Every color button of the three demo panels.
#[derive(Clone, Copy, Debug, PartialEq, Eq, Structural)]
pub enum ColorControl {
    Black,
    Red,
    Big,
    NoTooltip,
    AlphaIgnored,
    PreviewOpaque,
    PreviewHalfAlpha,
    PreviewAlpha,
    RgbaRed,
    HsvaBlack,
}

pub open spec fn plain_style() -> ButtonStyle {
    ButtonStyle { tooltip: true, alpha: true, preview: None, input_mode: None, custom_size: None }
}

impl ColorControl {
    /// The panel this button belongs to.
    pub open spec fn spec_panel(self) -> Example {
        match self {
            ColorControl::Black | ColorControl::Red | ColorControl::Big
            | ColorControl::NoTooltip => Example::Basics,
            ColorControl::AlphaIgnored | ColorControl::PreviewOpaque
            | ColorControl::PreviewHalfAlpha | ColorControl::PreviewAlpha => Example::Alpha,
            ColorControl::RgbaRed | ColorControl::HsvaBlack => Example::InputFormat,
        }
    }

    /// The notice a click on this button posts, if it posts one.
    pub open spec fn spec_notice(self) -> Option<Notice> {
        match self {
            ColorControl::Black => Some(Notice::BlackClicked),
            ColorControl::Red => Some(Notice::RedClicked),
            ColorControl::Big => Some(Notice::BigClicked),
            ColorControl::NoTooltip => Some(Notice::NoTooltipClicked),
            _ => None,
        }
    }

    pub open spec fn spec_label(self) -> Seq<char> {
        match self {
            ColorControl::Black => "Black color"@,
            ColorControl::Red => "Red color"@,
            ColorControl::Big => "Green color"@,
            ColorControl::NoTooltip => "No tooltip"@,
            ColorControl::AlphaIgnored => "Red color"@,
            ColorControl::PreviewOpaque => "Red + ColorPreview::Opaque"@,
            ColorControl::PreviewHalfAlpha => "Red + ColorPreview::HalfAlpha"@,
            ColorControl::PreviewAlpha => "Red + ColorPreview::Alpha"@,
            ColorControl::RgbaRed => "RGBA red"@,
            ColorControl::HsvaBlack => "HSVA black"@,
        }
    }

    pub open spec fn spec_style(self) -> ButtonStyle {
        match self {
            ColorControl::Big => ButtonStyle { custom_size: Some(Size { width: 100, height: 50 }), ..plain_style() },
            ColorControl::NoTooltip => ButtonStyle { tooltip: false, ..plain_style() },
            ColorControl::AlphaIgnored => ButtonStyle { alpha: false, ..plain_style() },
            ColorControl::PreviewOpaque => ButtonStyle {
                preview: Some(Preview::Opaque),
                ..plain_style()
            },
            ColorControl::PreviewHalfAlpha => ButtonStyle {
                preview: Some(Preview::HalfAlpha),
                ..plain_style()
            },
            ColorControl::PreviewAlpha => ButtonStyle {
                preview: Some(Preview::Alpha),
                ..plain_style()
            },
            ColorControl::HsvaBlack => ButtonStyle {
                input_mode: Some(InputMode::Hsv),
                ..plain_style()
            },
            _ => plain_style(),
        }
    }

    pub fn panel(&self) -> (r: Example)
        ensures
            r == self.spec_panel(),
    {
        match self {
            ColorControl::Black | ColorControl::Red | ColorControl::Big
            | ColorControl::NoTooltip => Example::Basics,
            ColorControl::AlphaIgnored | ColorControl::PreviewOpaque
            | ColorControl::PreviewHalfAlpha | ColorControl::PreviewAlpha => Example::Alpha,
            ColorControl::RgbaRed | ColorControl::HsvaBlack => Example::InputFormat,
        }
    }

    pub fn notice(&self) -> (r: Option<Notice>)
        ensures
            r == self.spec_notice(),
    {
        match self {
            ColorControl::Black => Some(Notice::BlackClicked),
            ColorControl::Red => Some(Notice::RedClicked),
            ColorControl::Big => Some(Notice::BigClicked),
            ColorControl::NoTooltip => Some(Notice::NoTooltipClicked),
            _ => None,
        }
    }

    /// The button's label, which is also its tooltip heading.
    pub fn label(&self) -> (r: &'static str)
        ensures
            r@ == self.spec_label(),
    {
        match self {
            ColorControl::Black => "Black color",
            ColorControl::Red => "Red color",
            ColorControl::Big => "Green color",
            ColorControl::NoTooltip => "No tooltip",
            ColorControl::AlphaIgnored => "Red color",
            ColorControl::PreviewOpaque => "Red + ColorPreview::Opaque",
            ColorControl::PreviewHalfAlpha => "Red + ColorPreview::HalfAlpha",
            ColorControl::PreviewAlpha => "Red + ColorPreview::Alpha",
            ColorControl::RgbaRed => "RGBA red",
            ColorControl::HsvaBlack => "HSVA black",
        }
    }

    pub fn style(&self) -> (r: ButtonStyle)
        ensures
            r == self.spec_style(),
    {
        let plain = ButtonStyle {
            tooltip: true,
            alpha: true,
            preview: None,
            input_mode: None,
            custom_size: None,
        };
        match self {
            ColorControl::Big => ButtonStyle { custom_size: Some(Size { width: 100, height: 50 }), ..plain },
            ColorControl::NoTooltip => ButtonStyle { tooltip: false, ..plain },
            ColorControl::AlphaIgnored => ButtonStyle { alpha: false, ..plain },
            ColorControl::PreviewOpaque => ButtonStyle { preview: Some(Preview::Opaque), ..plain },
            ColorControl::PreviewHalfAlpha => ButtonStyle {
                preview: Some(Preview::HalfAlpha),
                ..plain
            },
            ColorControl::PreviewAlpha => ButtonStyle { preview: Some(Preview::Alpha), ..plain },
            ColorControl::HsvaBlack => ButtonStyle { input_mode: Some(InputMode::Hsv), ..plain },
            _ => plain,
        }
    }
}

} // verus!

verus! {

/// One line of a demo panel, top to bottom.
#[derive(Clone, Copy, Debug, PartialEq, Eq)]
pub enum Widget {
    Text(&'static str),
    Wrapped(&'static str),
    /// The current notification line.
    NoticeLine,
    Button(ColorControl),
    Separator,
    Spacing,
}

pub const BASICS_INTRO: &'static str =
    "Color button is a widget that displays a color value as a clickable rectangle. \
     It also supports a tooltip with detailed information about the color value. \
     Try hovering over and clicking these buttons!";

pub const BLACK_CAPTION: &'static str = "This button is black:";

pub const RED_CAPTION: &'static str = "This button is red:";

pub const BIG_CAPTION: &'static str = "This button is BIG because it has a custom size:";

pub const NO_TOOLTIP_CAPTION: &'static str = "This button doesn't use the tooltip at all:";

pub const ALPHA_INTRO: &'static str =
    "The displayed color is passed to the button as four float values between \
     0.0 - 1.0 (RGBA). If you don't care about the alpha component, it can be \
     disabled and it won't show up in the tooltip";

pub const ALPHA_IGNORED_CAPTION: &'static str = "This button ignores the alpha component:";

pub const ALPHA_CHOICE: &'static str =
    "If you *do* care about the alpha component, you can choose how it's \
     displayed in the button and the tooltip";

pub const OPAQUE_CAPTION: &'static str =
    "ColorPreview::Opaque (default) doesn't show the alpha component at all";

pub const HALF_ALPHA_CAPTION: &'static str =
    "ColorPreview::HalfAlpha divides the color area into two halves and uses a \
     checkerboard pattern in one half to illustrate the alpha component";

pub const FULL_ALPHA_CAPTION: &'static str =
    "ColorPreview::Alpha uses a checkerboard pattern in the entire color area to \
     illustrate the alpha component";

pub const RGBA_CAPTION: &'static str =
    "This button interprets the input value [1.0, 0.0, 0.0, 1.0] as RGB(A) (default):";

pub const HSVA_CAPTION: &'static str =
    "This button interprets the input value [1.0, 0.0, 0.0, 1.0] as HSV(A):";

pub open spec fn basics_layout() -> Seq<Widget> {
    seq![
        Widget::Wrapped(BASICS_INTRO),
        Widget::NoticeLine,
        Widget::Text(BLACK_CAPTION),
        Widget::Button(ColorControl::Black),
        Widget::Text(RED_CAPTION),
        Widget::Button(ColorControl::Red),
        Widget::Text(BIG_CAPTION),
        Widget::Button(ColorControl::Big),
        Widget::Text(NO_TOOLTIP_CAPTION),
        Widget::Button(ColorControl::NoTooltip),
    ]
}

pub open spec fn alpha_layout() -> Seq<Widget> {
    seq![
        Widget::Wrapped(ALPHA_INTRO),
        Widget::Text(ALPHA_IGNORED_CAPTION),
        Widget::Button(ColorControl::AlphaIgnored),
        Widget::Spacing,
        Widget::Spacing,
        Widget::Spacing,
        Widget::Wrapped(ALPHA_CHOICE),
        Widget::Separator,
        Widget::Wrapped(OPAQUE_CAPTION),
        Widget::Button(ColorControl::PreviewOpaque),
        Widget::Separator,
        Widget::Wrapped(HALF_ALPHA_CAPTION),
        Widget::Button(ColorControl::PreviewHalfAlpha),
        Widget::Separator,
        Widget::Wrapped(FULL_ALPHA_CAPTION),
        Widget::Button(ColorControl::PreviewAlpha),
    ]
}

pub open spec fn input_format_layout() -> Seq<Widget> {
    seq![
        Widget::Text(RGBA_CAPTION),
        Widget::Button(ColorControl::RgbaRed),
        Widget::Separator,
        Widget::Text(HSVA_CAPTION),
        Widget::Button(ColorControl::HsvaBlack),
    ]
}

/// What the panel of `e` shows; nothing while no example is chosen.
pub open spec fn layout(e: Example) -> Seq<Widget> {
    match e {
        Example::Unselected => seq![],
        Example::Basics => basics_layout(),
        Example::Alpha => alpha_layout(),
        Example::InputFormat => input_format_layout(),
    }
}

/// The basics panel: four buttons, each of which posts a notice.
pub fn example_1() -> (r: Vec<Widget>)
    ensures
        r@ == basics_layout(),
{
    let r = vec![
        Widget::Wrapped(BASICS_INTRO),
        Widget::NoticeLine,
        Widget::Text(BLACK_CAPTION),
        Widget::Button(ColorControl::Black),
        Widget::Text(RED_CAPTION),
        Widget::Button(ColorControl::Red),
        Widget::Text(BIG_CAPTION),
        Widget::Button(ColorControl::Big),
        Widget::Text(NO_TOOLTIP_CAPTION),
        Widget::Button(ColorControl::NoTooltip),
    ];
    assert(r@ =~= basics_layout());
    r
}

/// The alpha panel: a button without alpha and the three preview modes.
pub fn example_2() -> (r: Vec<Widget>)
    ensures
        r@ == alpha_layout(),
{
    let r = vec![
        Widget::Wrapped(ALPHA_INTRO),
        Widget::Text(ALPHA_IGNORED_CAPTION),
        Widget::Button(ColorControl::AlphaIgnored),
        Widget::Spacing,
        Widget::Spacing,
        Widget::Spacing,
        Widget::Wrapped(ALPHA_CHOICE),
        Widget::Separator,
        Widget::Wrapped(OPAQUE_CAPTION),
        Widget::Button(ColorControl::PreviewOpaque),
        Widget::Separator,
        Widget::Wrapped(HALF_ALPHA_CAPTION),
        Widget::Button(ColorControl::PreviewHalfAlpha),
        Widget::Separator,
        Widget::Wrapped(FULL_ALPHA_CAPTION),
        Widget::Button(ColorControl::PreviewAlpha),
    ];
    assert(r@ =~= alpha_layout());
    r
}

/// The input-format panel: one value read as RGBA and as HSVA.
pub fn example_3() -> (r: Vec<Widget>)
    ensures
        r@ == input_format_layout(),
{
    let r = vec![
        Widget::Text(RGBA_CAPTION),
        Widget::Button(ColorControl::RgbaRed),
        Widget::Separator,
        Widget::Text(HSVA_CAPTION),
        Widget::Button(ColorControl::HsvaBlack),
    ];
    assert(r@ =~= input_format_layout());
    r
}

/// The widgets of the panel that `e` selects.
pub fn panel_layout(e: Example) -> (r: Vec<Widget>)
    ensures
        r@ == layout(e),
{
    match e {
        Example::Unselected => {
            let r: Vec<Widget> = Vec::new();
            assert(r@ =~= layout(e));
            r
        },
        Example::Basics => example_1(),
        Example::Alpha => example_2(),
        Example::InputFormat => example_3(),
    }
}

} // verus!
