//! What the modals show: their widgets, in paint order, with their texts and places. The card
//! itself, the fonts' sizes and the end of the header come from the painter; a focused widget
//! is drawn in a tile of its own, so that everything here is drawn unfocused.
use vstd::prelude::*;

use crate::app::diagnostics::DIAGNOSTICS_SUBTITLE;
use crate::app::experimental::EXPERIMENTAL_SUBTITLE;
use crate::app::forget::{forget_host_subtitle, FORGET_TAIL};
use crate::app::scroll::{elapsed, since};
use crate::app::speedtest::{apply_text, recommended_kbps, speed_test_apply_label, BitrateRange};
use crate::app::wake::{wake_status_text, wake_title};
use crate::app::wakesettings::{WAKE_SETTINGS_SUBTITLE, WAKE_TITLE_HEAD};
use crate::app::{App, AppView, Screen, SpeedTestState, SpeedTestView};
use crate::geometry::Rect;
use crate::seqs::views;

verus! {

broadcast use crate::seqs::group_views;

/// The largest length that a card is laid out with.
pub const MAX_SPAN: i32 = 0x0100_0000;

pub const PAIRING_BUTTON_H: u32 = 64;

pub const PAIRING_MARGIN: i32 = 40;

pub const BUTTON_ROW_H: u32 = 72;

pub const PIN_LIMIT_BUTTON_W: u32 = 200;

pub const FIELD_H: u32 = 80;

pub const PAIRING_SUBTITLE: &'static str = "Two ways to pair with this host — either one works.";

pub const APPROVE_CAPTION: &'static str = "Then approve this TV on the host.";

pub const PIN_CAPTION: &'static str = "Enter the PIN shown on the host.";

pub const BITRATE_WARNING: &'static str = "May be unstable on Wi-Fi — try Ethernet if streaming drops.";

pub const SEND_LOGS_SUBTITLE: &'static str = "This uploads this session's log file to the app developer to help diagnose problems. Logs can include host names, IP addresses, and game titles. Only send them if you're comfortable sharing that.";

/// A colour.
#[derive(Clone, Copy, Debug, PartialEq, Eq, Structural)]
pub enum Ink {
    White,
    Muted,
    Error,
    Warning,
    Accent,
}

/// An icon.
#[derive(Clone, Copy, Debug, PartialEq, Eq, Structural)]
pub enum Icon {
    Power,
    Signal,
    Delete,
    Send,
}

/// A button of a question.
#[derive(Debug)]
pub struct ConfirmButton {
    pub icon: Option<Icon>,
    pub label: String,
    pub ink: Ink,
}

/// A `ConfirmButton` as values.
pub struct ButtonView {
    pub icon: Option<Icon>,
    pub label: Seq<char>,
    pub ink: Ink,
}

impl View for ConfirmButton {
    type V = ButtonView;

    open spec fn view(&self) -> ButtonView {
        ButtonView { icon: self.icon, label: self.label@, ink: self.ink }
    }
}

/// Something to draw.
#[derive(Debug)]
pub enum Widget {
    /// The card and the cross that closes it.
    Shell { card: Rect, cross: Ink },
    /// The title and the line below it.
    Header { card: Rect, title: String, text: String, ink: Ink },
    /// The button that stands out.
    Primary { rect: Rect, text: String },
    /// A line in the middle of `rect`'s width.
    Centred { rect: Rect, top: i32, text: String },
    /// A word between two lines.
    Divider { rect: Rect, top: i32, text: String },
    /// A digit of the PIN in its cell.
    Digit { place: usize, top: i32, digit: u8 },
    /// Text in as many lines as it takes.
    Wrapped { rect: Rect, text: String, ink: Ink },
    /// Text on one line.
    Text { left: i32, top: i32, text: String, ink: Ink },
    /// A faint line.
    Line { rect: Rect },
    /// The two buttons of a question.
    Confirm { rect: Rect, first: ConfirmButton, second: ConfirmButton },
    /// The only button, always focused.
    Single { rect: Rect, text: String },
    /// A title, the line below it and the modal's rows.
    List { card: Rect, title: String, text: String },
    /// The field that an address is typed in.
    Field { rect: Rect },
    /// What is typed in it, in the type of a title.
    Typed { left: i32, top: i32, text: String },
    /// The bar behind it, which does not blink.
    Caret { rect: Rect },
}

/// A `Widget` as values.
pub enum WidgetView {
    Shell { card: Rect, cross: Ink },
    Header { card: Rect, title: Seq<char>, text: Seq<char>, ink: Ink },
    Primary { rect: Rect, text: Seq<char> },
    Centred { rect: Rect, top: i32, text: Seq<char> },
    Divider { rect: Rect, top: i32, text: Seq<char> },
    Digit { place: usize, top: i32, digit: u8 },
    Wrapped { rect: Rect, text: Seq<char>, ink: Ink },
    Text { left: i32, top: i32, text: Seq<char>, ink: Ink },
    Line { rect: Rect },
    Confirm { rect: Rect, first: ButtonView, second: ButtonView },
    Single { rect: Rect, text: Seq<char> },
    List { card: Rect, title: Seq<char>, text: Seq<char> },
    Field { rect: Rect },
    Typed { left: i32, top: i32, text: Seq<char> },
    Caret { rect: Rect },
}

impl View for Widget {
    type V = WidgetView;

    open spec fn view(&self) -> WidgetView {
        match *self {
            Widget::Shell { card, cross } => WidgetView::Shell { card, cross },
            Widget::Header { card, title, text, ink } => WidgetView::Header {
                card,
                title: title@,
                text: text@,
                ink,
            },
            Widget::Primary { rect, text } => WidgetView::Primary { rect, text: text@ },
            Widget::Centred { rect, top, text } => WidgetView::Centred { rect, top, text: text@ },
            Widget::Divider { rect, top, text } => WidgetView::Divider { rect, top, text: text@ },
            Widget::Digit { place, top, digit } => WidgetView::Digit { place, top, digit },
            Widget::Wrapped { rect, text, ink } => WidgetView::Wrapped { rect, text: text@, ink },
            Widget::Text { left, top, text, ink } => WidgetView::Text {
                left,
                top,
                text: text@,
                ink,
            },
            Widget::Line { rect } => WidgetView::Line { rect },
            Widget::Confirm { rect, first, second } => WidgetView::Confirm {
                rect,
                first: first@,
                second: second@,
            },
            Widget::Single { rect, text } => WidgetView::Single { rect, text: text@ },
            Widget::List { card, title, text } => WidgetView::List {
                card,
                title: title@,
                text: text@,
            },
            Widget::Field { rect } => WidgetView::Field { rect },
            Widget::Typed { left, top, text } => WidgetView::Typed { left, top, text: text@ },
            Widget::Caret { rect } => WidgetView::Caret { rect },
        }
    }
}

/// What the painter knows of an open modal.
#[derive(Clone, Copy, Debug, PartialEq, Eq, Structural)]
pub struct CardMetrics {
    pub card: Rect,
    /// Where the title and the line below it end.
    pub header_end: i32,
    /// The height of a line of small text.
    pub value_h: i32,
    /// The height of a PIN digit's cell.
    pub digit_h: u32,
}

impl CardMetrics {
    /// Whether the lengths are those of a screen.
    pub open spec fn wf(self) -> bool {
        &&& -MAX_SPAN <= self.card.x <= MAX_SPAN
        &&& -MAX_SPAN <= self.card.y <= MAX_SPAN
        &&& self.card.w <= MAX_SPAN
        &&& self.card.h <= MAX_SPAN
        &&& -MAX_SPAN <= self.header_end <= MAX_SPAN
        &&& 0 <= self.value_h <= MAX_SPAN
        &&& self.digit_h <= MAX_SPAN
    }

    /// The card without `margin` at either side.
    pub open spec fn inner_w(self, margin: u32) -> u32 {
        if self.card.w >= 2 * margin {
            (self.card.w - 2 * margin) as u32
        } else {
            0
        }
    }

    /// The row of buttons below the header.
    pub open spec fn button_row(self) -> Rect {
        Rect {
            x: (self.card.x + 32) as i32,
            y: (self.header_end + 32) as i32,
            w: self.inner_w(32),
            h: BUTTON_ROW_H,
        }
    }

    /// The field for an address.
    pub open spec fn field(self) -> Rect {
        Rect {
            x: (self.card.x + 32) as i32,
            y: (self.header_end + 20) as i32,
            w: self.inner_w(32),
            h: FIELD_H,
        }
    }

    /// The only button of the alert, in the middle.
    pub open spec fn alert_button(self) -> Rect {
        Rect {
            x: (self.card.x + half(self.card.w - PIN_LIMIT_BUTTON_W)) as i32,
            y: (self.header_end + 32) as i32,
            w: PIN_LIMIT_BUTTON_W,
            h: BUTTON_ROW_H,
        }
    }

    fn inner_width(&self, margin: u32) -> (w: u32)
        requires
            margin <= 1000,
        ensures
            w == self.inner_w(margin),
    {
        if self.card.w >= 2 * margin {
            self.card.w - 2 * margin
        } else {
            0
        }
    }

    /// The row of buttons below the header.
    pub fn speed_test_buttons_rect(&self) -> (r: Rect)
        requires
            self.wf(),
        ensures
            r == self.button_row(),
    {
        Rect {
            x: self.card.x + 32,
            y: self.header_end + 32,
            w: self.inner_width(32),
            h: BUTTON_ROW_H,
        }
    }

    /// The field for an address, also for the system's keyboard.
    pub fn address_field_rect(&self) -> (r: Rect)
        requires
            self.wf(),
        ensures
            r == self.field(),
    {
        Rect { x: self.card.x + 32, y: self.header_end + 20, w: self.inner_width(32), h: FIELD_H }
    }
}

/// What the painter knows of an address that is being typed.
#[derive(Clone, Copy, Debug, PartialEq, Eq, Structural)]
pub struct TypedMetrics {
    /// The field as it is drawn while it has the focus.
    pub drawn: Rect,
    /// The width of the text, and the height of its line.
    pub text_w: u32,
    pub title_h: i32,
}

impl TypedMetrics {
    /// Whether the lengths are those of a screen.
    pub open spec fn wf(self) -> bool {
        &&& -MAX_SPAN <= self.drawn.x <= MAX_SPAN
        &&& -MAX_SPAN <= self.drawn.y <= MAX_SPAN
        &&& self.drawn.w <= MAX_SPAN
        &&& self.drawn.h <= MAX_SPAN
        &&& self.text_w <= MAX_SPAN
        &&& 0 <= self.title_h <= MAX_SPAN
    }

    /// Where the text starts.
    pub open spec fn text_left(self) -> int {
        self.drawn.x + 24
    }

    /// Where the text's line starts, in the middle of the field's height.
    pub open spec fn text_top(self) -> int {
        self.drawn.y + half(self.drawn.h - self.title_h)
    }

    /// The bar right behind the text.
    pub open spec fn caret(self) -> Rect {
        Rect {
            x: (self.text_left() + self.text_w + 6) as i32,
            y: (self.drawn.y + 16) as i32,
            w: 3,
            h: (if self.drawn.h >= 32 {
                self.drawn.h - 32
            } else {
                0
            }) as u32,
        }
    }
}

/// Half of `n`, towards zero.
pub open spec fn half(n: int) -> int {
    if n >= 0 {
        n / 2
    } else {
        -((-n) / 2)
    }
}

/// The height of a card with a row of buttons, or without, from where its header ends.
pub fn speed_test_card_height(header_end: i32, buttons: bool) -> (h: i32)
    requires
        -MAX_SPAN <= header_end <= MAX_SPAN,
    ensures
        h == header_end + 32 + (if buttons {
            72 + 32
        } else {
            0
        }),
{
    if buttons {
        header_end + 32 + 72 + 32
    } else {
        header_end + 32
    }
}

/// The height of a card with an address field, from where its header ends.
pub fn address_card_height(header_end: i32) -> (h: i32)
    requires
        -MAX_SPAN <= header_end <= MAX_SPAN,
    ensures
        h == header_end + 20 + 80 + 32,
{
    header_end + 20 + 80 + 32
}

/// Where the parts of the pairing card are.
#[derive(Clone, Copy, Debug, PartialEq, Eq, Structural)]
pub struct PairingLayout {
    pub button: Rect,
    pub button_caption_y: i32,
    pub or_y: i32,
    pub pin_caption_y: i32,
    pub pin_y: i32,
    pub status_y: i32,
    pub content: Rect,
}

/// Where the parts of the pairing card are: the button below the header, its caption, the
/// divider, the caption of the PIN, its digits and the status below each other.
pub open spec fn pairing_layout_of(m: CardMetrics) -> PairingLayout {
    let content = Rect {
        x: (m.card.x + PAIRING_MARGIN) as i32,
        y: m.card.y,
        w: m.inner_w(PAIRING_MARGIN as u32),
        h: 0,
    };
    let button = Rect {
        x: content.x,
        y: (m.header_end + 26) as i32,
        w: content.w,
        h: PAIRING_BUTTON_H,
    };
    let button_caption_y = button.y + 64 + 12;
    let or_y = button_caption_y + m.value_h + 20;
    let pin_caption_y = or_y + m.value_h + 20;
    let pin_y = pin_caption_y + m.value_h + 14;
    let status_y = pin_y + m.digit_h + 22;
    PairingLayout {
        button,
        button_caption_y: button_caption_y as i32,
        or_y: or_y as i32,
        pin_caption_y: pin_caption_y as i32,
        pin_y: pin_y as i32,
        status_y: status_y as i32,
        content,
    }
}

/// Where the parts of the pairing card are.
pub fn pairing_layout(m: &CardMetrics) -> (l: PairingLayout)
    requires
        m.wf(),
    ensures
        l == pairing_layout_of(*m),
{
    let content = Rect {
        x: m.card.x + PAIRING_MARGIN,
        y: m.card.y,
        w: m.inner_width(PAIRING_MARGIN as u32),
        h: 0,
    };
    let button = Rect { x: content.x, y: m.header_end + 26, w: content.w, h: PAIRING_BUTTON_H };
    let button_caption_y: i32 = button.y + 64 + 12;
    let or_y: i32 = button_caption_y + m.value_h + 20;
    let pin_caption_y: i32 = or_y + m.value_h + 20;
    let pin_y: i32 = pin_caption_y + m.value_h + 14;
    let status_y: i32 = pin_y + m.digit_h as i32 + 22;
    PairingLayout { button, button_caption_y, or_y, pin_caption_y, pin_y, status_y, content }
}

/// The height of the pairing card, with room for a status of two lines.
pub fn pairing_card_height(m: &CardMetrics) -> (h: i32)
    requires
        m.wf(),
    ensures
        h == pairing_layout_of(*m).status_y + 2 * (m.value_h + 6) + 26,
{
    let l = pairing_layout(m);
    l.status_y + 2 * (m.value_h + 6) + 26
}

/// Where the list of the settings card is, and how high the card is.
pub fn settings_content(card: &Rect, chrome_top: u32, content_h: u32) -> (r: Rect)
    requires
        -MAX_SPAN <= card.x <= MAX_SPAN,
        -MAX_SPAN <= card.y <= MAX_SPAN,
        card.w <= MAX_SPAN,
        chrome_top <= MAX_SPAN,
    ensures
        r.x == card.x + 40,
        r.y == card.y + chrome_top,
        r.w == (if card.w >= 80 {
            card.w - 80
        } else {
            0
        }),
        r.h == content_h,
{
    Rect {
        x: card.x + 40,
        y: card.y + chrome_top as i32,
        w: if card.w >= 80 {
            card.w - 80
        } else {
            0
        },
        h: content_h,
    }
}

pub open spec fn wake_first() -> ButtonView {
    ButtonView { icon: Some(Icon::Power), label: "Wake host"@, ink: Ink::Accent }
}

pub open spec fn cancel_button() -> ButtonView {
    ButtonView { icon: None, label: "Cancel"@, ink: Ink::White }
}

pub open spec fn close_button() -> ButtonView {
    ButtonView { icon: None, label: "Close"@, ink: Ink::White }
}

pub open spec fn forget_first() -> ButtonView {
    ButtonView { icon: Some(Icon::Delete), label: "Forget"@, ink: Ink::Error }
}

pub open spec fn send_first() -> ButtonView {
    ButtonView { icon: Some(Icon::Send), label: "Send"@, ink: Ink::Error }
}

/// The buttons of the wake prompt.
pub fn wake_buttons() -> (r: (ConfirmButton, ConfirmButton))
    ensures
        r.0@ == wake_first(),
        r.1@ == cancel_button(),
{
    (
        ConfirmButton {
            icon: Some(Icon::Power),
            label: "Wake host".to_owned(),
            ink: Ink::Accent,
        },
        ConfirmButton { icon: None, label: "Cancel".to_owned(), ink: Ink::White },
    )
}

/// The buttons of the question whether to forget a host.
pub fn forget_buttons() -> (r: (ConfirmButton, ConfirmButton))
    ensures
        r.0@ == forget_first(),
        r.1@ == cancel_button(),
{
    (
        ConfirmButton { icon: Some(Icon::Delete), label: "Forget".to_owned(), ink: Ink::Error },
        ConfirmButton { icon: None, label: "Cancel".to_owned(), ink: Ink::White },
    )
}

/// The buttons of the question whether to send the log.
pub fn send_logs_buttons() -> (r: (ConfirmButton, ConfirmButton))
    ensures
        r.0@ == send_first(),
        r.1@ == cancel_button(),
{
    (
        ConfirmButton { icon: Some(Icon::Send), label: "Send".to_owned(), ink: Ink::Error },
        ConfirmButton { icon: None, label: "Cancel".to_owned(), ink: Ink::White },
    )
}

/// The buttons of a finished speed test.
pub fn speed_test_buttons(apply_label: String) -> (r: (ConfirmButton, ConfirmButton))
    ensures
        r.0@ == (ButtonView { icon: Some(Icon::Signal), label: apply_label@, ink: Ink::Accent }),
        r.1@ == close_button(),
{
    (
        ConfirmButton { icon: Some(Icon::Signal), label: apply_label, ink: Ink::Accent },
        ConfirmButton { icon: None, label: "Close".to_owned(), ink: Ink::White },
    )
}

impl AppView {
    /// The card, and its cross, which lights up under the pointer.
    pub open spec fn shell(self, card: Rect) -> WidgetView {
        WidgetView::Shell {
            card,
            cross: if self.nav.hover_close {
                Ink::White
            } else {
                Ink::Muted
            },
        }
    }

    /// The card with a title and a line below it.
    pub open spec fn headed(self, card: Rect, title: Seq<char>, text: Seq<char>) -> Seq<WidgetView> {
        seq![self.shell(card), WidgetView::Header { card, title, text, ink: Ink::Muted }]
    }

    /// The card with a title, a line below it and rows.
    pub open spec fn listing(self, card: Rect, title: Seq<char>, text: Seq<char>) -> Seq<
        WidgetView,
    > {
        seq![self.shell(card), WidgetView::List { card, title, text }]
    }

    /// The first `n` digits of the PIN.
    pub open spec fn digit_cells(self, top: i32, n: nat) -> Seq<WidgetView> {
        Seq::new(
            n,
            |i: int|
                WidgetView::Digit { place: i as usize, top, digit: self.pairing.pin_digits[i] },
        )
    }

    /// The status of a pairing, where there is one: an error unless it is under way.
    pub open spec fn pairing_note(self, l: PairingLayout) -> Seq<WidgetView> {
        match self.pairing.pairing_status {
            None => seq![],
            Some(text) => seq![
                WidgetView::Wrapped {
                    rect: Rect { x: l.content.x, y: l.status_y, w: l.content.w, h: 0 },
                    text,
                    ink: if self.pairing.pairing_busy {
                        Ink::Muted
                    } else {
                        Ink::Error
                    },
                },
            ],
        }
    }

    /// The pairing card: asking for access first, as that always works, then the PIN.
    pub open spec fn pairing_widgets(self, m: CardMetrics, request_label: Seq<char>) -> Seq<
        WidgetView,
    > {
        let l = pairing_layout_of(m);
        self.headed(m.card, "Pair with host"@, PAIRING_SUBTITLE@) + seq![
            WidgetView::Primary { rect: l.button, text: request_label },
            WidgetView::Centred { rect: l.content, top: l.button_caption_y, text: APPROVE_CAPTION@ },
            WidgetView::Divider { rect: l.content, top: l.or_y, text: "or"@ },
            WidgetView::Centred { rect: l.content, top: l.pin_caption_y, text: PIN_CAPTION@ },
        ] + self.digit_cells(l.pin_y, 4) + self.pairing_note(l)
    }

    /// The wake prompt: a question where the host can be woken, else a message.
    pub open spec fn wake_widgets(self, card: Rect, buttons: Rect) -> Seq<WidgetView> {
        match self.wake {
            None => seq![],
            Some(w) => {
                let head = self.headed(card, w.title_text(), w.modal_text());
                if w.mac.len() == 0 {
                    head
                } else {
                    head.push(
                        WidgetView::Confirm {
                            rect: buttons,
                            first: wake_first(),
                            second: cancel_button(),
                        },
                    )
                }
            },
        }
    }

    /// The speed test: buttons once it has ended, red once it has failed.
    pub open spec fn speed_test_widgets(self, m: CardMetrics, range: BitrateRange) -> Seq<
        WidgetView,
    > {
        let head = seq![
            self.shell(m.card),
            WidgetView::Header {
                card: m.card,
                title: "Network speed test"@,
                text: self.speed.status_text(range),
                ink: if self.speed.speed_test matches Some(SpeedTestView::Failed(_)) {
                    Ink::Error
                } else {
                    Ink::Muted
                },
            },
        ];
        if self.speed.ended() {
            head.push(
                WidgetView::Confirm {
                    rect: m.button_row(),
                    first: ButtonView {
                        icon: Some(Icon::Signal),
                        label: apply_text(self.speed.advice(range)),
                        ink: Ink::Accent,
                    },
                    second: close_button(),
                },
            )
        } else {
            head
        }
    }

    /// The question whether to forget a host, where there is one to forget.
    pub open spec fn forget_widgets(self, card: Rect, buttons: Rect) -> Seq<WidgetView> {
        match self.menu_entry() {
            None => seq![],
            Some(e) => self.headed(card, "Forget this host?"@, e.name() + FORGET_TAIL@).push(
                WidgetView::Confirm { rect: buttons, first: forget_first(), second: cancel_button() },
            ),
        }
    }

    /// The settings card: the rows are in a tile of their own; a high bitrate is warned of.
    pub open spec fn settings_widgets(self, card: Rect, content: Rect, warn_above: u32) -> Seq<
        WidgetView,
    > {
        let head = seq![
            self.shell(card),
            WidgetView::Text {
                left: (card.x + 40) as i32,
                top: (card.y + 36) as i32,
                text: "Settings"@,
                ink: Ink::White,
            },
            WidgetView::Line {
                rect: Rect {
                    x: (card.x + 40) as i32,
                    y: (card.y + 88) as i32,
                    w: if card.w >= 80 {
                        (card.w - 80) as u32
                    } else {
                        0
                    },
                    h: 1,
                },
            },
        ];
        if self.prefs.settings.bitrate_kbps > warn_above {
            head.push(
                WidgetView::Text {
                    left: content.x,
                    top: (content.y + content.h + 16) as i32,
                    text: BITRATE_WARNING@,
                    ink: Ink::Warning,
                },
            )
        } else {
            head
        }
    }

    /// The title of the address form.
    pub open spec fn address_title(self) -> Seq<char> {
        if self.nav.screen is EditHost {
            "Edit address"@
        } else {
            "Add host"@
        }
    }

    /// The address form, with what is typed so far and the bar behind it.
    pub open spec fn address_widgets(
        self,
        m: CardMetrics,
        t: TypedMetrics,
        typed: Seq<char>,
    ) -> Seq<WidgetView> {
        self.headed(m.card, self.address_title(), self.address_line()).push(
            WidgetView::Field { rect: m.field() },
        ).push(
            WidgetView::Typed {
                left: t.text_left() as i32,
                top: t.text_top() as i32,
                text: typed,
            },
        ).push(WidgetView::Caret { rect: t.caret() })
    }

    /// The question whether to send the log to the developer.
    pub open spec fn send_logs_widgets(self, card: Rect, buttons: Rect) -> Seq<WidgetView> {
        self.headed(card, "Send logs to developer?"@, SEND_LOGS_SUBTITLE@).push(
            WidgetView::Confirm { rect: buttons, first: send_first(), second: cancel_button() },
        )
    }

    /// The alert that no more cards can be pinned.
    pub open spec fn pin_limit_widgets(self, m: CardMetrics, message: Seq<char>) -> Seq<
        WidgetView,
    > {
        self.headed(m.card, "Pin limit reached"@, message).push(
            WidgetView::Single { rect: m.alert_button(), text: "OK"@ },
        )
    }
}

impl App {
    /// The card and its cross.
    pub fn draw_modal_shell(&self, card: &Rect) -> (w: Widget)
        ensures
            w@ == self@.shell(*card),
    {
        Widget::Shell {
            card: *card,
            cross: if self.nav.hover_close {
                Ink::White
            } else {
                Ink::Muted
            },
        }
    }

    fn with_header(&self, card: &Rect, title: &str, text: String) -> (out: Vec<Widget>)
        ensures
            views(out@) == self@.headed(*card, title@, text@),
    {
        let mut out: Vec<Widget> = Vec::new();
        out.push(self.draw_modal_shell(card));
        out.push(Widget::Header { card: *card, title: title.to_owned(), text, ink: Ink::Muted });
        assert(views(out@) =~= self@.headed(*card, title@, text@));
        out
    }

    fn with_list(&self, card: &Rect, title: String, text: String) -> (out: Vec<Widget>)
        ensures
            views(out@) == self@.listing(*card, title@, text@),
    {
        let mut out: Vec<Widget> = Vec::new();
        out.push(self.draw_modal_shell(card));
        out.push(Widget::List { card: *card, title, text });
        assert(views(out@) =~= self@.listing(*card, title@, text@));
        out
    }

    fn add_digits(&self, top: i32, out: &mut Vec<Widget>)
        ensures
            views(final(out)@) == views(old(out)@) + self@.digit_cells(top, 4),
    {
        let ghost base = views(out@);
        let mut i: usize = 0;
        assert(views(out@) =~= base + self@.digit_cells(top, 0));
        while i < 4
            invariant
                i <= 4,
                views(out@) == base + self@.digit_cells(top, i as nat),
            decreases 4 - i,
        {
            out.push(Widget::Digit { place: i, top, digit: self.pairing.pin_digits[i] });
            i += 1;
            assert(views(out@) =~= base + self@.digit_cells(top, i as nat));
        }
    }

    /// What the pairing card shows.
    pub fn render_pairing(&self, m: &CardMetrics, request_label: &str) -> (out: Vec<Widget>)
        requires
            m.wf(),
        ensures
            views(out@) == self@.pairing_widgets(*m, request_label@),
    {
        let l = pairing_layout(m);
        let mut out = self.with_header(&m.card, "Pair with host", PAIRING_SUBTITLE.to_owned());
        out.push(Widget::Primary { rect: l.button, text: request_label.to_owned() });
        out.push(
            Widget::Centred {
                rect: l.content,
                top: l.button_caption_y,
                text: APPROVE_CAPTION.to_owned(),
            },
        );
        out.push(Widget::Divider { rect: l.content, top: l.or_y, text: "or".to_owned() });
        out.push(
            Widget::Centred {
                rect: l.content,
                top: l.pin_caption_y,
                text: PIN_CAPTION.to_owned(),
            },
        );
        self.add_digits(l.pin_y, &mut out);
        match &self.pairing.pairing_status {
            None => {},
            Some(text) => {
                out.push(
                    Widget::Wrapped {
                        rect: Rect { x: l.content.x, y: l.status_y, w: l.content.w, h: 0 },
                        text: text.clone(),
                        ink: if self.pairing.pairing_busy {
                            Ink::Muted
                        } else {
                            Ink::Error
                        },
                    },
                );
            },
        }
        assert(views(out@) =~= self@.pairing_widgets(*m, request_label@));
        out
    }

    /// What the wake prompt shows.
    pub fn render_wake(&self, card: &Rect, buttons: &Rect) -> (out: Vec<Widget>)
        ensures
            views(out@) == self@.wake_widgets(*card, *buttons),
    {
        match &self.wake {
            None => {
                let out: Vec<Widget> = Vec::new();
                assert(views(out@) =~= self@.wake_widgets(*card, *buttons));
                out
            },
            Some(w) => {
                let mut out = self.with_header(card, wake_title(w), wake_status_text(w));
                if w.mac.len() > 0 {
                    let (first, second) = wake_buttons();
                    out.push(Widget::Confirm { rect: *buttons, first, second });
                }
                out
            },
        }
    }

    /// What the speed test shows.
    pub fn render_speed_test(&self, m: &CardMetrics, range: &BitrateRange) -> (out: Vec<Widget>)
        requires
            m.wf(),
        ensures
            views(out@) == self@.speed_test_widgets(*m, *range),
    {
        let mut out: Vec<Widget> = Vec::new();
        out.push(self.draw_modal_shell(&m.card));
        let failed = match &self.speed.speed_test {
            Some(SpeedTestState::Failed(_)) => true,
            _ => false,
        };
        out.push(
            Widget::Header {
                card: m.card,
                title: "Network speed test".to_owned(),
                text: self.speed_test_status(range),
                ink: if failed {
                    Ink::Error
                } else {
                    Ink::Muted
                },
            },
        );
        let (over, advice) = match &self.speed.speed_test {
            Some(SpeedTestState::Done { outcome, .. }) => (true, recommended_kbps(outcome, range)),
            Some(SpeedTestState::Failed(_)) => (true, None),
            _ => (false, None),
        };
        if over {
            let (first, second) = speed_test_buttons(speed_test_apply_label(advice));
            out.push(Widget::Confirm { rect: m.speed_test_buttons_rect(), first, second });
        }
        assert(views(out@) =~= self@.speed_test_widgets(*m, *range));
        out
    }

    /// What the question whether to forget a host shows.
    pub fn render_forget_host(&self, card: &Rect, buttons: &Rect) -> (out: Vec<Widget>)
        ensures
            views(out@) == self@.forget_widgets(*card, *buttons),
    {
        match self.host_menu_entry() {
            None => {
                let out: Vec<Widget> = Vec::new();
                assert(views(out@) =~= self@.forget_widgets(*card, *buttons));
                out
            },
            Some(i) => {
                let name = self.hosts.entries[i].name();
                let mut out = self.with_header(
                    card,
                    "Forget this host?",
                    forget_host_subtitle(name.as_str()),
                );
                let (first, second) = forget_buttons();
                out.push(Widget::Confirm { rect: *buttons, first, second });
                out
            },
        }
    }

    /// What the question whether to send the log shows.
    pub fn render_send_logs(&self, card: &Rect, buttons: &Rect) -> (out: Vec<Widget>)
        ensures
            views(out@) == self@.send_logs_widgets(*card, *buttons),
    {
        let mut out = self.with_header(
            card,
            "Send logs to developer?",
            SEND_LOGS_SUBTITLE.to_owned(),
        );
        let (first, second) = send_logs_buttons();
        out.push(Widget::Confirm { rect: *buttons, first, second });
        out
    }

    /// What the settings card shows round its rows.
    pub fn render_settings(&self, card: &Rect, content: &Rect, warn_above: u32) -> (out: Vec<
        Widget,
    >)
        requires
            -MAX_SPAN <= card.x <= MAX_SPAN,
            -MAX_SPAN <= card.y <= MAX_SPAN,
            -MAX_SPAN <= content.y <= MAX_SPAN,
            content.h <= MAX_SPAN,
        ensures
            views(out@) == self@.settings_widgets(*card, *content, warn_above),
    {
        let mut out: Vec<Widget> = Vec::new();
        out.push(self.draw_modal_shell(card));
        out.push(
            Widget::Text {
                left: card.x + 40,
                top: card.y + 36,
                text: "Settings".to_owned(),
                ink: Ink::White,
            },
        );
        out.push(
            Widget::Line {
                rect: Rect {
                    x: card.x + 40,
                    y: card.y + 88,
                    w: if card.w >= 80 {
                        card.w - 80
                    } else {
                        0
                    },
                    h: 1,
                },
            },
        );
        if self.prefs.settings.bitrate_kbps > warn_above {
            out.push(
                Widget::Text {
                    left: content.x,
                    top: content.y + content.h as i32 + 16,
                    text: BITRATE_WARNING.to_owned(),
                    ink: Ink::Warning,
                },
            );
        }
        assert(views(out@) =~= self@.settings_widgets(*card, *content, warn_above));
        out
    }

    /// What the form for an address shows, for a new host or a saved one. `typed` is the text in
    /// its field so far.
    pub fn render_host_address_form(&self, m: &CardMetrics, t: &TypedMetrics, typed: &str) -> (out: Vec<
        Widget,
    >)
        requires
            m.wf(),
            t.wf(),
        ensures
            views(out@) == self@.address_widgets(*m, *t, typed@),
    {
        let title = if self.nav.screen == Screen::EditHost {
            "Edit address"
        } else {
            "Add host"
        };
        let mut out = self.with_header(&m.card, title, self.address_subtitle());
        out.push(Widget::Field { rect: m.address_field_rect() });
        let left: i32 = t.drawn.x + 24;
        let spare: i32 = t.drawn.h as i32 - t.title_h;
        let lead: i32 = if spare >= 0 {
            spare / 2
        } else {
            -((-spare) / 2)
        };
        out.push(Widget::Typed { left, top: t.drawn.y + lead, text: typed.to_owned() });
        let h: u32 = if t.drawn.h >= 32 {
            t.drawn.h - 32
        } else {
            0
        };
        let caret = Rect { x: left + t.text_w as i32 + 6, y: t.drawn.y + 16, w: 3, h };
        out.push(Widget::Caret { rect: caret });
        assert(views(out@) =~= self@.address_widgets(*m, *t, typed@));
        out
    }

    /// What the alert that no more cards can be pinned shows.
    pub fn render_pin_limit(&self, m: &CardMetrics, message: &str) -> (out: Vec<Widget>)
        requires
            m.wf(),
        ensures
            views(out@) == self@.pin_limit_widgets(*m, message@),
    {
        let mut out = self.with_header(&m.card, "Pin limit reached", message.to_owned());
        let spare: i32 = m.card.w as i32 - PIN_LIMIT_BUTTON_W as i32;
        let left: i32 = if spare >= 0 {
            spare / 2
        } else {
            -((-spare) / 2)
        };
        out.push(
            Widget::Single {
                rect: Rect {
                    x: m.card.x + left,
                    y: m.header_end + 32,
                    w: PIN_LIMIT_BUTTON_W,
                    h: BUTTON_ROW_H,
                },
                text: "OK".to_owned(),
            },
        );
        out
    }

    /// What the host menu shows.
    pub fn render_host_menu(&self, card: &Rect) -> (out: Vec<Widget>)
        ensures
            views(out@) == self@.listing(*card, self@.menu_title(), self@.menu_subtitle()),
    {
        self.with_list(card, self.host_menu_title(), self.host_menu_subtitle())
    }

    /// What the wake settings show.
    pub fn render_wake_settings(&self, card: &Rect) -> (out: Vec<Widget>)
        ensures
            views(out@) == self@.listing(
                *card,
                WAKE_TITLE_HEAD@ + self@.menu_title(),
                WAKE_SETTINGS_SUBTITLE@,
            ),
    {
        self.with_list(card, self.wake_settings_title(), WAKE_SETTINGS_SUBTITLE.to_owned())
    }

    /// What the experimental settings show.
    pub fn render_experimental(&self, card: &Rect) -> (out: Vec<Widget>)
        ensures
            views(out@) == self@.listing(*card, "Experimental"@, EXPERIMENTAL_SUBTITLE@),
    {
        self.with_list(card, "Experimental".to_owned(), EXPERIMENTAL_SUBTITLE.to_owned())
    }

    /// What the diagnostics show.
    pub fn render_diagnostics(&self, card: &Rect) -> (out: Vec<Widget>)
        ensures
            views(out@) == self@.listing(*card, "Diagnostics"@, DIAGNOSTICS_SUBTITLE@),
    {
        self.with_list(card, "Diagnostics".to_owned(), DIAGNOSTICS_SUBTITLE.to_owned())
    }

    /// What the About card shows round its document.
    pub fn render_about(&self, card: &Rect, version: &str) -> (out: Vec<Widget>)
        ensures
            views(out@) == self@.headed(*card, "About & licenses"@, "Version "@ + version@),
    {
        let mut text = "Version ".to_owned();
        text.append(version);
        self.with_header(card, "About & licenses", text)
    }
}

/// How far the list of choices has faded.
#[derive(Clone, Copy, Debug, PartialEq, Eq, Structural)]
pub enum DropdownAlpha {
    /// It fades in since then.
    Opening { since: Option<u64> },
    /// It fades out since then.
    Closing { at: u64 },
}

/// The list of choices to draw: its row, the choice that is focused, and its fade.
#[derive(Clone, Copy, Debug, PartialEq, Eq, Structural)]
pub struct DropdownDraw {
    pub row: usize,
    pub focused: usize,
    pub alpha: DropdownAlpha,
}

/// Where a switch is.
#[derive(Clone, Copy, Debug, PartialEq, Eq, Structural)]
pub enum SwitchMotion {
    /// At rest.
    Still { on: bool },
    /// On its way there since then.
    Turning { at: u64, to: bool },
}

impl AppView {
    /// The list of choices to draw: the open one, or one that is still fading out.
    pub open spec fn dropdown_to_draw(self, fade_ms: u64, now: u64) -> Option<DropdownDraw> {
        match self.prefs.dropdown {
            Some(dd) => Some(
                DropdownDraw {
                    row: dd.row,
                    focused: dd.focused,
                    alpha: DropdownAlpha::Opening { since: self.prefs.dropdown_fade.opened_at },
                },
            ),
            None => match self.prefs.dropdown_fade.closing {
                Some((at, row, focused)) => if elapsed(now, at) < fade_ms {
                    Some(DropdownDraw { row, focused, alpha: DropdownAlpha::Closing { at } })
                } else {
                    None
                },
                None => None,
            },
        }
    }

    /// Where a switch is that is to be on or not.
    pub open spec fn switch_motion(self, target_on: bool) -> SwitchMotion {
        match self.nav.switch_anim {
            Some((at, from_on)) => if from_on != target_on {
                SwitchMotion::Turning { at, to: target_on }
            } else {
                SwitchMotion::Still { on: target_on }
            },
            None => SwitchMotion::Still { on: target_on },
        }
    }
}

impl App {
    /// The list of choices to draw.
    pub fn dropdown_draw_state(&self, fade_ms: u64, now: u64) -> (r: Option<DropdownDraw>)
        ensures
            r == self@.dropdown_to_draw(fade_ms, now),
    {
        match self.prefs.dropdown {
            Some(dd) => Some(
                DropdownDraw {
                    row: dd.row,
                    focused: dd.focused,
                    alpha: DropdownAlpha::Opening { since: self.prefs.dropdown_fade.opened_at },
                },
            ),
            None => match self.prefs.dropdown_fade.closing {
                Some((at, row, focused)) => if since(now, at) < fade_ms {
                    Some(DropdownDraw { row, focused, alpha: DropdownAlpha::Closing { at } })
                } else {
                    None
                },
                None => None,
            },
        }
    }

    /// Where a switch is.
    pub fn toggle_frac(&self, target_on: bool) -> (r: SwitchMotion)
        ensures
            r == self@.switch_motion(target_on),
    {
        match self.nav.switch_anim {
            Some((at, from_on)) => if from_on != target_on {
                SwitchMotion::Turning { at, to: target_on }
            } else {
                SwitchMotion::Still { on: target_on }
            },
            None => SwitchMotion::Still { on: target_on },
        }
    }
}

/// The parts of the pairing card stand below each other, in the order that they are drawn in.
pub proof fn law_pairing_parts_in_order(m: CardMetrics)
    requires
        m.wf(),
    ensures
        ({
            let l = pairing_layout_of(m);
            &&& m.header_end < l.button.y
            &&& l.button.y + l.button.h < l.button_caption_y
            &&& l.button_caption_y + m.value_h < l.or_y
            &&& l.or_y + m.value_h < l.pin_caption_y
            &&& l.pin_caption_y + m.value_h < l.pin_y
            &&& l.pin_y + m.digit_h < l.status_y
        }),
{
}

/// A host that cannot be woken is not offered to be: its prompt has no buttons.
pub proof fn law_no_address_no_buttons(s: AppView, card: Rect, buttons: Rect)
    requires
        s.wake is Some,
    ensures
        s.wake_widgets(card, buttons).len() == (if s.wake->0.mac.len() == 0 {
            2nat
        } else {
            3nat
        }),
{
}

/// The pairing card shows the button that asks for access, then the four digits as they stand, in
/// their places, and below them what there is to say, as an error unless a pairing is under way.
pub proof fn law_pairing_card_shows_the_pin(s: AppView, m: CardMetrics, label: Seq<char>, i: int)
    requires
        0 <= i < 4,
    ensures
        ({
            let all = s.pairing_widgets(m, label);
            let l = pairing_layout_of(m);
            &&& all.len() == 10 + if s.pairing.pairing_status is Some {
                1int
            } else {
                0int
            }
            &&& all[1] matches WidgetView::Header { title, .. } && title == "Pair with host"@
            &&& all[2] == WidgetView::Primary { rect: l.button, text: label }
            &&& all[6 + i] matches WidgetView::Digit { place, digit, top } && place == i && digit
                == s.pairing.pin_digits[i] && top == l.pin_y
            &&& s.pairing.pairing_status matches Some(said) ==> (all[10] matches
                WidgetView::Wrapped { text, ink, .. } && text == said && ink == if s.pairing.pairing_busy {
                Ink::Muted
            } else {
                Ink::Error
            })
        }),
{
}

/// The button of the pairing card lies below its header, as wide as the card less a margin of 40
/// on either side.
pub proof fn law_pairing_button_lies_in_the_card(m: CardMetrics)
    requires
        m.wf(),
        m.card.w >= 80,
    ensures
        ({
            let b = pairing_layout_of(m).button;
            &&& b.x == m.card.x + 40 && b.x + b.w + 40 == m.card.x + m.card.w
            &&& b.y == m.header_end + 26 && b.h == 64
        }),
{
}

/// A question shows what it asks and its two buttons, what it does first and "Cancel" second: the
/// wake prompt where the host can be woken, and the one about forgetting a host, named in it.
pub proof fn law_questions_show_their_buttons(s: AppView, card: Rect, buttons: Rect)
    ensures
        s.wake matches Some(w) ==> (w.mac.len() > 0 ==> {
            let all = s.wake_widgets(card, buttons);
            &&& all[1] matches WidgetView::Header { title, text, .. } && title == w.title_text()
                && text == w.modal_text()
            &&& all[2] matches WidgetView::Confirm { rect, first, second } && rect == buttons
                && first.label == "Wake host"@ && second.label == "Cancel"@
        }),
        s.menu_entry() matches Some(e) ==> {
            let all = s.forget_widgets(card, buttons);
            &&& all[1] matches WidgetView::Header { title, text, .. } && title
                == "Forget this host?"@ && text == e.name()
                + " will be removed from this TV. You can pair with it again later."@
            &&& all[2] matches WidgetView::Confirm { rect, first, second } && rect == buttons
                && first.label == "Forget"@ && first.ink == Ink::Error && second.label == "Cancel"@
        },
        ({
            let all = s.send_logs_widgets(card, buttons);
            all[2] matches WidgetView::Confirm { first, second, .. } && first.label == "Send"@
                && second.label == "Cancel"@
        }),
{
}

/// The measurement shows its text, red once it has failed, and its two buttons once it has ended
/// and not before.
pub proof fn law_measurement_is_shown(s: AppView, m: CardMetrics, range: BitrateRange)
    ensures
        ({
            let all = s.speed_test_widgets(m, range);
            let ended = s.speed.speed_test matches Some(x) && (x is Done || x is Failed);
            &&& all.len() == if ended {
                3int
            } else {
                2int
            }
            &&& all[1] matches WidgetView::Header { text, ink, .. } && text
                == s.speed.status_text(range) && (ink == Ink::Error) == (s.speed.speed_test
                matches Some(x) && x is Failed)
            &&& ended ==> (all[2] matches WidgetView::Confirm { first, second, .. } && first.label
                == apply_text(s.speed.advice(range)) && second.label == "Close"@)
        }),
{
}

/// The settings card warns of the bitrate exactly above the limit, below its list.
pub proof fn law_settings_warn_of_the_bitrate(
    s: AppView,
    card: Rect,
    content: Rect,
    warn_above: u32,
)
    requires
        -MAX_SPAN <= content.y <= MAX_SPAN,
        content.h <= MAX_SPAN,
    ensures
        ({
            let all = s.settings_widgets(card, content, warn_above);
            let warned = s.prefs.settings.bitrate_kbps > warn_above;
            &&& all.len() == if warned {
                4int
            } else {
                3int
            }
            &&& warned ==> (all[3] matches WidgetView::Text { left, top, ink, text } && left
                == content.x && top == content.y + content.h + 16 && ink == Ink::Warning && text
                == BITRATE_WARNING@)
        }),
{
}

/// The form shows which of the two it is, the field, what is typed in it and the bar right behind
/// that.
pub proof fn law_form_shows_what_is_typed(
    s: AppView,
    m: CardMetrics,
    t: TypedMetrics,
    typed: Seq<char>,
)
    requires
        t.wf(),
    ensures
        ({
            let all = s.address_widgets(m, t, typed);
            &&& all.len() == 5
            &&& all[1] matches WidgetView::Header { title, text, .. } && title == (if s.nav.screen
                == Screen::EditHost {
                "Edit address"@
            } else {
                "Add host"@
            }) && text == s.address_line()
            &&& all[2] == WidgetView::Field { rect: m.field() }
            &&& all[3] matches WidgetView::Typed { left, text, .. } && text == typed && left
                == t.drawn.x + 24
            &&& all[4] matches WidgetView::Caret { rect } && rect.x == t.drawn.x + 24 + t.text_w + 6
        }),
{
}

/// The cross of every card is lit while the pointer is on it.
pub proof fn law_cross_is_lit(s: AppView, card: Rect, title: Seq<char>, text: Seq<char>)
    ensures
        s.headed(card, title, text)[0] == (WidgetView::Shell {
            card,
            cross: if s.nav.hover_close {
                Ink::White
            } else {
                Ink::Muted
            },
        }),
        s.headed(card, title, text)[1] == (WidgetView::Header {
            card,
            title,
            text,
            ink: Ink::Muted,
        }),
        s.listing(card, title, text)[0] == s.headed(card, title, text)[0],
        s.listing(card, title, text)[1] == (WidgetView::List { card, title, text }),
{
}

/// The list of choices that is drawn is the open one, or the one that was closed less than the
/// time of its fade ago.
pub proof fn law_list_fades_out(s: AppView, fade_ms: u64, now: u64)
    ensures
        s.prefs.dropdown matches Some(dd) ==> (s.dropdown_to_draw(fade_ms, now) matches Some(d)
            && d.row == dd.row && d.focused == dd.focused && d.alpha is Opening),
        s.prefs.dropdown is None ==> (s.prefs.dropdown_fade.closing matches Some((at, row, focused))
            ==> if now < at + fade_ms && fade_ms > 0 {
            s.dropdown_to_draw(fade_ms, now) == Some(
                DropdownDraw { row, focused, alpha: DropdownAlpha::Closing { at } },
            )
        } else {
            s.dropdown_to_draw(fade_ms, now) is None
        }),
        s.prefs.dropdown is None && s.prefs.dropdown_fade.closing is None ==> s.dropdown_to_draw(
            fade_ms,
            now,
        ) is None,
{
}

/// A switch slides to where it is to be from the other side, and rests there otherwise.
pub proof fn law_switch_slides_to_its_place(s: AppView, target_on: bool)
    ensures
        s.nav.switch_anim matches Some((at, from)) ==> s.switch_motion(target_on) == (if from
            != target_on {
            SwitchMotion::Turning { at, to: target_on }
        } else {
            SwitchMotion::Still { on: target_on }
        }),
        s.nav.switch_anim is None ==> s.switch_motion(target_on) == (SwitchMotion::Still {
            on: target_on,
        }),
{
}

/// The parts of the pairing card stand below each other, each as far from the one before it as the
/// card's measures say.
pub proof fn law_pairing_parts_stand_apart(m: CardMetrics)
    requires
        m.wf(),
    ensures
        ({
            let l = pairing_layout_of(m);
            &&& l.button.y == m.header_end + 26
            &&& l.button_caption_y == l.button.y + l.button.h + 12
            &&& l.or_y == l.button_caption_y + m.value_h + 20
            &&& l.pin_caption_y == l.or_y + m.value_h + 20
            &&& l.pin_y == l.pin_caption_y + m.value_h + 14
            &&& l.status_y == l.pin_y + m.digit_h + 22
            &&& l.content.y == m.card.y && l.content.h == 0
            &&& l.content.x == l.button.x && l.content.w == l.button.w
        }),
{
}

/// The text of a field begins a margin into it and stands in the middle of its height, and the bar
/// is right behind it, as far from the top as from the bottom.
pub proof fn law_text_stands_in_its_field(m: TypedMetrics)
    requires
        m.wf(),
    ensures
        m.text_left() == m.drawn.x + 24,
        -1 <= (m.text_top() - m.drawn.y) - (m.drawn.y + m.drawn.h - (m.text_top() + m.title_h)) <= 1,
        m.caret().x == m.text_left() + m.text_w + 6,
        m.caret().w == 3,
        m.caret().y - m.drawn.y == 16,
        m.drawn.h >= 32 ==> (m.drawn.y + m.drawn.h) - (m.caret().y + m.caret().h) == 16,
        m.drawn.h < 32 ==> m.caret().h == 0,
{
}

} // verus!
