//! Pixel layout of the tray window: three stacked panels of one shared
//! width, their children, and the client size that holds them.
use vstd::prelude::*;

verus! {

pub const FONT_POINT_SIZE: u32 = 13;

pub const SECTION_TITLE_FONT_POINT_SIZE: u32 = 18;

pub const HEADING_FONT_POINT_SIZE: u32 = 15;

pub const HDR_FONT_POINT_SIZE: u32 = 10;

/// Font weights of the window's text: regular, semibold and bold.
pub const FONT_WEIGHT_NORMAL: u32 = 400;

pub const FONT_WEIGHT_SEMIBOLD: u32 = 600;

pub const FONT_WEIGHT_BOLD: u32 = 700;

/// Largest width or height, in pixels, of a metric or a measured text that
/// the layout takes; within it no coordinate of the layout leaves `i32`.
pub const LAYOUT_LIMIT: u32 = 0x100_0000;

#[derive(Clone, Copy, Debug, PartialEq, Eq, Structural)]
pub struct Size {
    pub width: u32,
    pub height: u32,
}

impl Size {
    pub fn new(width: u32, height: u32) -> (s: Self)
        ensures
            s == (Size { width, height }),
    {
        Size { width, height }
    }
}

#[derive(Clone, Copy, Debug, PartialEq, Eq, Structural)]
pub struct Rect {
    pub x: i32,
    pub y: i32,
    pub width: u32,
    pub height: u32,
}

/// A rectangle from coordinates taken as integers.
pub open spec fn rect_at(x: int, y: int, width: int, height: int) -> Rect {
    Rect { x: x as i32, y: y as i32, width: width as u32, height: height as u32 }
}

/// A size from dimensions taken as integers.
pub open spec fn size_of(width: int, height: int) -> Size {
    Size { width: width as u32, height: height as u32 }
}

impl Rect {
    pub fn new(x: i32, y: i32, width: u32, height: u32) -> (r: Self)
        ensures
            r == (Rect { x, y, width, height }),
    {
        Rect { x, y, width, height }
    }

    pub open spec fn right_spec(self) -> int {
        self.x + (self.width as i32)
    }

    pub open spec fn bottom_spec(self) -> int {
        self.y + (self.height as i32)
    }

    /// The first column right of the rectangle.
    pub fn right(self) -> (r: i32)
        requires
            i32::MIN <= self.right_spec() <= i32::MAX,
        ensures
            r == self.right_spec(),
    {
        self.x + self.width as i32
    }

    /// The first row below the rectangle.
    pub fn bottom(self) -> (r: i32)
        requires
            i32::MIN <= self.bottom_spec() <= i32::MAX,
        ensures
            r == self.bottom_spec(),
    {
        self.y + self.height as i32
    }

    pub fn size(self) -> (s: Size)
        ensures
            s == (Size { width: self.width, height: self.height }),
    {
        Size::new(self.width, self.height)
    }
}

#[derive(Clone, Copy, Debug, PartialEq, Eq, Structural)]
pub struct UiMetrics {
    pub window_padding: u32,
    pub section_gap: u32,
    pub status_gap: u32,
    pub title_gap: u32,
    pub card_padding: u32,
    pub gap_small: u32,
    pub gap_standard: u32,
    pub gap_large: u32,
    pub header_row_gap: u32,
    pub row_gap: u32,
    pub control_row_height: u32,
    pub slider_height: u32,
    pub slider_y_offset: u32,
    pub refresh_button_height: u32,
    pub refresh_button_padding_x: u32,
    pub refresh_icon_gap: u32,
    pub monitor_preview_box: Size,
    pub refresh_icon_box: Size,
    pub row_icon_box: Size,
    pub input_indicator_box: Size,
    pub input_tb_icon_box: Size,
    pub input_dp_icon_box: Size,
    pub input_hdmi_icon_box: Size,
    pub slider_min_width: u32,
    pub value_field_size: Size,
    pub stepper_button_size: Size,
    pub input_card_height: u32,
    pub input_card_padding_x: u32,
    pub input_card_gap: u32,
    pub separator_inset: u32,
    pub separator_thickness: u32,
}

/// The metrics of the window as designed.
pub open spec fn default_metrics() -> UiMetrics {
    UiMetrics {
        window_padding: 16,
        section_gap: 18,
        status_gap: 10,
        title_gap: 8,
        card_padding: 16,
        gap_small: 8,
        gap_standard: 12,
        gap_large: 20,
        header_row_gap: 8,
        row_gap: 18,
        control_row_height: 44,
        slider_height: 36,
        slider_y_offset: 15,
        refresh_button_height: 32,
        refresh_button_padding_x: 10,
        refresh_icon_gap: 10,
        monitor_preview_box: Size { width: 112, height: 72 },
        refresh_icon_box: Size { width: 22, height: 22 },
        row_icon_box: Size { width: 24, height: 24 },
        input_indicator_box: Size { width: 24, height: 24 },
        input_tb_icon_box: Size { width: 24, height: 24 },
        input_dp_icon_box: Size { width: 36, height: 36 },
        input_hdmi_icon_box: Size { width: 36, height: 36 },
        slider_min_width: 220,
        value_field_size: Size { width: 52, height: 38 },
        stepper_button_size: Size { width: 28, height: 19 },
        input_card_height: 44,
        input_card_padding_x: 16,
        input_card_gap: 12,
        separator_inset: 18,
        separator_thickness: 1,
    }
}

impl Default for UiMetrics {
    fn default() -> (m: Self)
        ensures
            m == default_metrics(),
    {
        UiMetrics {
            window_padding: 16,
            section_gap: 18,
            status_gap: 10,
            title_gap: 8,
            card_padding: 16,
            gap_small: 8,
            gap_standard: 12,
            gap_large: 20,
            header_row_gap: 8,
            row_gap: 18,
            control_row_height: 44,
            slider_height: 36,
            slider_y_offset: 15,
            refresh_button_height: 32,
            refresh_button_padding_x: 10,
            refresh_icon_gap: 10,
            monitor_preview_box: Size::new(112, 72),
            refresh_icon_box: Size::new(22, 22),
            row_icon_box: Size::new(24, 24),
            input_indicator_box: Size::new(24, 24),
            input_tb_icon_box: Size::new(24, 24),
            input_dp_icon_box: Size::new(36, 36),
            input_hdmi_icon_box: Size::new(36, 36),
            slider_min_width: 220,
            value_field_size: Size::new(52, 38),
            stepper_button_size: Size::new(28, 19),
            input_card_height: 44,
            input_card_padding_x: 16,
            input_card_gap: 12,
            separator_inset: 18,
            separator_thickness: 1,
        }
    }
}

#[derive(Clone, Copy, Debug, PartialEq, Eq, Structural)]
pub struct FontSpec {
    pub height: u32,
    pub weight: u32,
}

impl FontSpec {
    pub fn new(height: u32, weight: u32) -> (f: Self)
        ensures
            f == (FontSpec { height, weight }),
    {
        FontSpec { height, weight }
    }
}

pub fn body_font_spec() -> (f: FontSpec)
    ensures
        f == (FontSpec { height: FONT_POINT_SIZE, weight: FONT_WEIGHT_NORMAL }),
{
    FontSpec::new(FONT_POINT_SIZE, FONT_WEIGHT_NORMAL)
}

pub fn hdr_font_spec() -> (f: FontSpec)
    ensures
        f == (FontSpec { height: HDR_FONT_POINT_SIZE, weight: FONT_WEIGHT_NORMAL }),
{
    FontSpec::new(HDR_FONT_POINT_SIZE, FONT_WEIGHT_NORMAL)
}

pub fn section_font_spec() -> (f: FontSpec)
    ensures
        f == (FontSpec { height: SECTION_TITLE_FONT_POINT_SIZE, weight: FONT_WEIGHT_SEMIBOLD }),
{
    FontSpec::new(SECTION_TITLE_FONT_POINT_SIZE, FONT_WEIGHT_SEMIBOLD)
}

pub fn heading_font_spec() -> (f: FontSpec)
    ensures
        f == (FontSpec { height: HEADING_FONT_POINT_SIZE, weight: FONT_WEIGHT_BOLD }),
{
    FontSpec::new(HEADING_FONT_POINT_SIZE, FONT_WEIGHT_BOLD)
}

#[derive(Clone, Copy, Debug, PartialEq, Eq, Structural)]
pub struct TextMetrics {
    pub monitor_title: Size,
    pub input_summary: Size,
    pub hdr_status: Size,
    pub refresh_label: Size,
    pub picture_title: Size,
    pub input_title: Size,
    pub brightness_label: Size,
    pub contrast_label: Size,
    pub status: Size,
    pub input_tb_label: Size,
    pub input_dp_label: Size,
    pub input_hdmi_label: Size,
}

#[derive(Clone, Copy, Debug, PartialEq, Eq, Structural)]
pub struct WindowLayout {
    pub client_size: Size,
    pub shared_panel_width: u32,
    pub header_min_size: Size,
    pub picture_min_size: Size,
    pub input_min_size: Size,
    pub header_frame: Rect,
    pub monitor_preview: Rect,
    pub monitor_title: Rect,
    pub header_separator: Rect,
    pub input_summary: Rect,
    pub hdr_status: Rect,
    pub refresh_button: Rect,
    pub refresh_icon: Rect,
    pub refresh_text: Rect,
    pub picture_title: Rect,
    pub picture_frame: Rect,
    pub brightness_icon: Rect,
    pub brightness_label: Rect,
    pub brightness_slider: Rect,
    pub brightness_value: Rect,
    pub brightness_up: Rect,
    pub brightness_down: Rect,
    pub contrast_icon: Rect,
    pub contrast_label: Rect,
    pub contrast_slider: Rect,
    pub contrast_value: Rect,
    pub contrast_up: Rect,
    pub contrast_down: Rect,
    pub picture_separator: Rect,
    pub input_title: Rect,
    pub input_frame: Rect,
    pub input_tb_card: Rect,
    pub input_tb_radio: Rect,
    pub input_tb_icon: Rect,
    pub input_tb_label: Rect,
    pub input_dp_card: Rect,
    pub input_dp_radio: Rect,
    pub input_dp_icon: Rect,
    pub input_dp_label: Rect,
    pub input_hdmi_card: Rect,
    pub input_hdmi_radio: Rect,
    pub input_hdmi_icon: Rect,
    pub input_hdmi_label: Rect,
    pub status_label: Rect,
}

pub open spec fn size_bounded(s: Size) -> bool {
    s.width <= LAYOUT_LIMIT && s.height <= LAYOUT_LIMIT
}

pub open spec fn metrics_bounded(m: UiMetrics) -> bool {
    &&& m.window_padding <= LAYOUT_LIMIT
    &&& m.section_gap <= LAYOUT_LIMIT
    &&& m.status_gap <= LAYOUT_LIMIT
    &&& m.title_gap <= LAYOUT_LIMIT
    &&& m.card_padding <= LAYOUT_LIMIT
    &&& m.gap_small <= LAYOUT_LIMIT
    &&& m.gap_standard <= LAYOUT_LIMIT
    &&& m.gap_large <= LAYOUT_LIMIT
    &&& m.header_row_gap <= LAYOUT_LIMIT
    &&& m.row_gap <= LAYOUT_LIMIT
    &&& m.control_row_height <= LAYOUT_LIMIT
    &&& m.slider_height <= LAYOUT_LIMIT
    &&& m.slider_y_offset <= LAYOUT_LIMIT
    &&& m.refresh_button_height <= LAYOUT_LIMIT
    &&& m.refresh_button_padding_x <= LAYOUT_LIMIT
    &&& m.refresh_icon_gap <= LAYOUT_LIMIT
    &&& size_bounded(m.monitor_preview_box)
    &&& size_bounded(m.refresh_icon_box)
    &&& size_bounded(m.row_icon_box)
    &&& size_bounded(m.input_indicator_box)
    &&& size_bounded(m.input_tb_icon_box)
    &&& size_bounded(m.input_dp_icon_box)
    &&& size_bounded(m.input_hdmi_icon_box)
    &&& m.slider_min_width <= LAYOUT_LIMIT
    &&& size_bounded(m.value_field_size)
    &&& size_bounded(m.stepper_button_size)
    &&& m.input_card_height <= LAYOUT_LIMIT
    &&& m.input_card_padding_x <= LAYOUT_LIMIT
    &&& m.input_card_gap <= LAYOUT_LIMIT
    &&& m.separator_inset <= LAYOUT_LIMIT
    &&& m.separator_thickness <= LAYOUT_LIMIT
}

pub open spec fn text_bounded(t: TextMetrics) -> bool {
    &&& size_bounded(t.monitor_title)
    &&& size_bounded(t.input_summary)
    &&& size_bounded(t.hdr_status)
    &&& size_bounded(t.refresh_label)
    &&& size_bounded(t.picture_title)
    &&& size_bounded(t.input_title)
    &&& size_bounded(t.brightness_label)
    &&& size_bounded(t.contrast_label)
    &&& size_bounded(t.status)
    &&& size_bounded(t.input_tb_label)
    &&& size_bounded(t.input_dp_label)
    &&& size_bounded(t.input_hdmi_label)
}

pub open spec fn max_int(a: int, b: int) -> int {
    if a >= b {
        a
    } else {
        b
    }
}

/// How far content of one height sits below the top of a container to be
/// centred in it; none where it does not fit.
pub open spec fn center_offset(container: int, content: int) -> int {
    if container > content {
        (container - content) / 2
    } else {
        0
    }
}

/// A body label's box: four pixels taller than its text, at least 21.
pub open spec fn body_label_height(text_height: int) -> int {
    max_int(text_height + 4, 21)
}

/// An input label's box: fourteen pixels wider than its text.
pub open spec fn kvm_label_width(text_width: int) -> int {
    text_width + 14
}

pub open spec fn refresh_button_width_of(m: UiMetrics, t: TextMetrics) -> int {
    m.refresh_icon_box.width + t.refresh_label.width + m.refresh_button_padding_x * 2
        + m.refresh_icon_gap
}

pub open spec fn input_option_width_of(m: UiMetrics, icon: Size, label: Size) -> int {
    m.input_card_padding_x * 2 + m.input_indicator_box.width + m.gap_standard + icon.width
        + m.gap_small + kvm_label_width(label.width as int)
}

/// The header card's smallest size: its top row (preview, title, separator,
/// summary, refresh button) or its second row, whichever is wider, and the
/// tallest of preview, text stack and button.
#[verifier::opaque]
pub open spec fn header_min_of(m: UiMetrics, t: TextMetrics) -> Size {
    let rbw = refresh_button_width_of(m, t);
    let top_row = m.monitor_preview_box.width + m.gap_large + t.monitor_title.width
        + m.gap_standard + m.separator_thickness + m.gap_standard + t.input_summary.width
        + m.gap_large + rbw;
    let bottom_row = m.monitor_preview_box.width + m.gap_large + t.hdr_status.width
        + m.gap_large + rbw;
    let text_stack = t.monitor_title.height + m.header_row_gap + t.hdr_status.height;
    let content = max_int(
        max_int(m.monitor_preview_box.height as int, text_stack),
        m.refresh_button_height as int,
    );
    size_of(m.card_padding * 2 + max_int(top_row, bottom_row), m.card_padding * 2 + content)
}

/// The picture card's smallest size: a row of icon, label, the narrowest
/// slider and the value field with its stepper; two rows high.
#[verifier::opaque]
pub open spec fn picture_min_of(m: UiMetrics, t: TextMetrics) -> Size {
    let label_width = max_int(t.brightness_label.width as int, t.contrast_label.width as int);
    let row = m.row_icon_box.width + m.gap_standard + label_width + m.gap_large
        + m.slider_min_width + m.gap_standard + m.value_field_size.width
        + m.stepper_button_size.width;
    size_of(
        m.card_padding * 2 + row,
        m.card_padding * 2 + m.control_row_height * 2 + m.row_gap,
    )
}

/// The input card's smallest size: three options as wide as the widest one.
#[verifier::opaque]
pub open spec fn input_min_of(m: UiMetrics, t: TextMetrics) -> Size {
    let option = max_int(
        max_int(
            input_option_width_of(m, m.input_tb_icon_box, t.input_tb_label),
            input_option_width_of(m, m.input_dp_icon_box, t.input_dp_label),
        ),
        input_option_width_of(m, m.input_hdmi_icon_box, t.input_hdmi_label),
    );
    size_of(
        m.card_padding * 2 + option * 3 + m.input_card_gap * 2,
        m.card_padding * 2 + m.input_card_height,
    )
}

/// The width that the three panels share: the widest of their smallest widths.
pub open spec fn shared_width_of(m: UiMetrics, t: TextMetrics) -> int {
    max_int(
        max_int(header_min_of(m, t).width as int, picture_min_of(m, t).width as int),
        input_min_of(m, t).width as int,
    )
}

/// Radio, icon and label of an input option, centred as one group in its card.
pub open spec fn input_card_parts(card: Rect, m: UiMetrics, icon: Size, label: Size) -> (
    Rect,
    Rect,
    Rect,
) {
    let label_width = kvm_label_width(label.width as int);
    let group = m.input_indicator_box.width + m.gap_standard + icon.width + m.gap_small
        + label_width;
    let spacer = (if card.width > group {
        card.width - group
    } else {
        0
    }) / 2;
    let radio_x = card.x + spacer;
    let icon_x = radio_x + m.input_indicator_box.width + m.gap_standard;
    let label_x = icon_x + icon.width + m.gap_small;
    (
        rect_at(
            radio_x,
            card.y + center_offset(card.height as int, m.input_indicator_box.height as int),
            m.input_indicator_box.width as int,
            m.input_indicator_box.height as int,
        ),
        rect_at(
            icon_x,
            card.y + center_offset(card.height as int, icon.height as int),
            icon.width as int,
            icon.height as int,
        ),
        rect_at(
            label_x,
            card.y + center_offset(card.height as int, label.height as int),
            label_width,
            label.height as int,
        ),
    )
}

/// The vertical stack: header card, picture title and card, input title and
/// card, status line, each below the last with its gap.
pub open spec fn stack_tops(m: UiMetrics, t: TextMetrics) -> (int, int, int, int, int, int) {
    let pad = m.window_padding as int;
    let header_y = pad;
    let picture_title_y = header_y + header_min_of(m, t).height + m.section_gap;
    let picture_frame_y = picture_title_y + t.picture_title.height + m.title_gap;
    let input_title_y = picture_frame_y + picture_min_of(m, t).height + m.section_gap;
    let input_frame_y = input_title_y + t.input_title.height + m.title_gap;
    let status_y = input_frame_y + input_min_of(m, t).height + m.status_gap;
    (header_y, picture_title_y, picture_frame_y, input_title_y, input_frame_y, status_y)
}

/// The status line's height: four pixels over its text, within 20 to 24.
pub open spec fn status_height_of(text_height: int) -> int {
    if text_height + 4 < 20 {
        20
    } else if text_height + 4 > 24 {
        24
    } else {
        text_height + 4
    }
}

/// The parts of the header card: preview, title, separator and input
/// summary on the top row, HDR status below, refresh button at the right.
#[derive(Clone, Copy, Debug, PartialEq, Eq, Structural)]
pub struct HeaderParts {
    pub monitor_preview: Rect,
    pub monitor_title: Rect,
    pub header_separator: Rect,
    pub input_summary: Rect,
    pub hdr_status: Rect,
    pub refresh_button: Rect,
    pub refresh_icon: Rect,
    pub refresh_text: Rect,
}

/// One row of the picture card: icon, label, slider, value field and the
/// stepper buttons stacked at the field's right edge.
#[derive(Clone, Copy, Debug, PartialEq, Eq, Structural)]
pub struct PictureRow {
    pub icon: Rect,
    pub label: Rect,
    pub slider: Rect,
    pub value: Rect,
    pub up: Rect,
    pub down: Rect,
}

/// One option of the input card: the card and its radio, icon and label.
#[derive(Clone, Copy, Debug, PartialEq, Eq, Structural)]
pub struct InputOption {
    pub card: Rect,
    pub radio: Rect,
    pub icon: Rect,
    pub label: Rect,
}

/// The header card's parts within `frame`.
#[verifier::opaque]
pub open spec fn header_parts_of(m: UiMetrics, t: TextMetrics, frame: Rect) -> HeaderParts {
    let cp = m.card_padding as int;
    let fx = frame.x as int;
    let fy = frame.y as int;
    let fh = frame.height as int;
    let rbw = refresh_button_width_of(m, t);
    let refresh_h = m.refresh_button_height as int;
    let preview_x = fx + cp;
    let refresh_x = fx + frame.width - cp - rbw;
    let refresh_y = fy + center_offset(fh, refresh_h);
    let text_block_x = preview_x + m.monitor_preview_box.width + m.gap_large;
    let top_row_y = fy + cp;
    let second_row_y = top_row_y + t.monitor_title.height + m.header_row_gap;
    let separator_x = text_block_x + t.monitor_title.width + m.gap_standard;
    let summary_x = separator_x + m.separator_thickness + m.gap_standard;
    let refresh_icon_x = refresh_x + m.refresh_button_padding_x;
    HeaderParts {
        monitor_preview: rect_at(
            preview_x,
            fy + center_offset(fh, m.monitor_preview_box.height as int),
            m.monitor_preview_box.width as int,
            m.monitor_preview_box.height as int,
        ),
        monitor_title: rect_at(
            text_block_x,
            top_row_y,
            t.monitor_title.width as int,
            t.monitor_title.height as int,
        ),
        header_separator: rect_at(
            separator_x,
            top_row_y + center_offset(t.monitor_title.height as int, 24),
            m.separator_thickness as int,
            24,
        ),
        input_summary: rect_at(
            summary_x,
            top_row_y + center_offset(t.monitor_title.height as int, t.input_summary.height as int),
            t.input_summary.width as int,
            t.input_summary.height as int,
        ),
        hdr_status: rect_at(
            text_block_x,
            second_row_y,
            t.hdr_status.width as int,
            t.hdr_status.height as int,
        ),
        refresh_button: rect_at(refresh_x, refresh_y, rbw, refresh_h),
        refresh_icon: rect_at(
            refresh_icon_x,
            refresh_y + center_offset(refresh_h, m.refresh_icon_box.height as int),
            m.refresh_icon_box.width as int,
            m.refresh_icon_box.height as int,
        ),
        refresh_text: rect_at(
            refresh_icon_x + m.refresh_icon_box.width + m.refresh_icon_gap,
            refresh_y + center_offset(refresh_h, t.refresh_label.height as int),
            t.refresh_label.width as int,
            t.refresh_label.height as int,
        ),
    }
}

/// The picture row at `row_y` in `frame`, with a label box `label_h` high.
/// Both rows share the label column (as wide as the wider label), the slider
/// column (at least the narrowest slider) and the value column.
#[verifier::opaque]
pub open spec fn picture_row_at(
    m: UiMetrics,
    t: TextMetrics,
    frame: Rect,
    row_y: int,
    label_h: int,
) -> PictureRow {
    let cp = m.card_padding as int;
    let icon_x = frame.x + cp;
    let label_x = icon_x + m.row_icon_box.width + m.gap_standard;
    let label_width = max_int(t.brightness_label.width as int, t.contrast_label.width as int);
    let value_x = frame.x + frame.width - cp - (m.value_field_size.width
        + m.stepper_button_size.width);
    let slider_x = label_x + label_width + m.gap_large;
    let slider_width = max_int(
        max_int(value_x - m.gap_standard - slider_x, 0),
        m.slider_min_width as int,
    );
    let row_h = m.control_row_height as int;
    let value_y = row_y + center_offset(row_h, m.value_field_size.height as int);
    let stepper_x = value_x + m.value_field_size.width;
    let sb = m.stepper_button_size;
    PictureRow {
        icon: rect_at(
            icon_x,
            row_y + center_offset(row_h, m.row_icon_box.height as int),
            m.row_icon_box.width as int,
            m.row_icon_box.height as int,
        ),
        label: rect_at(label_x, row_y + center_offset(row_h, label_h), label_width, label_h),
        slider: rect_at(slider_x, row_y + m.slider_y_offset, slider_width, m.slider_height as int),
        value: rect_at(
            value_x,
            value_y,
            m.value_field_size.width as int,
            m.value_field_size.height as int,
        ),
        up: rect_at(stepper_x, value_y, sb.width as int, sb.height as int),
        down: rect_at(stepper_x, value_y + sb.height, sb.width as int, sb.height as int),
    }
}

/// The input option whose card starts at `card`.
pub open spec fn input_option_at(m: UiMetrics, card: Rect, icon: Size, label: Size) -> InputOption {
    let parts = input_card_parts(card, m, icon, label);
    InputOption { card, radio: parts.0, icon: parts.1, label: parts.2 }
}

/// The cards of the three input options: equally wide, side by side with
/// the card gap, vertically centred in the input frame.
#[verifier::opaque]
pub open spec fn input_cards_of(m: UiMetrics, frame: Rect) -> (Rect, Rect, Rect) {
    let cp = m.card_padding as int;
    let card_width = (frame.width - cp * 2 - m.input_card_gap * 2) / 3;
    let card_h = m.input_card_height as int;
    let cards_y = frame.y + (if frame.height > card_h {
        frame.height - card_h
    } else {
        0
    }) / 2;
    let x0 = frame.x + cp;
    (
        rect_at(x0, cards_y, card_width, card_h),
        rect_at(x0 + card_width + m.input_card_gap, cards_y, card_width, card_h),
        rect_at(x0 + (card_width + m.input_card_gap) * 2, cards_y, card_width, card_h),
    )
}

/// The whole layout of the window for the given metrics and measured texts.
pub open spec fn layout_of(m: UiMetrics, t: TextMetrics) -> WindowLayout {
    let pad = m.window_padding as int;
    let cp = m.card_padding as int;
    let header_min = header_min_of(m, t);
    let picture_min = picture_min_of(m, t);
    let input_min = input_min_of(m, t);
    let shared = shared_width_of(m, t);
    let tops = stack_tops(m, t);
    let status_height = status_height_of(t.status.height as int);
    let header_frame = rect_at(pad, tops.0, shared, header_min.height as int);
    let picture_frame = rect_at(pad, tops.2, shared, picture_min.height as int);
    let input_frame = rect_at(pad, tops.4, shared, input_min.height as int);
    let header = header_parts_of(m, t, header_frame);
    let brightness_y = tops.2 + cp;
    let contrast_y = brightness_y + m.control_row_height + m.row_gap;
    let brightness = picture_row_at(
        m,
        t,
        picture_frame,
        brightness_y,
        body_label_height(t.brightness_label.height as int),
    );
    let contrast = picture_row_at(
        m,
        t,
        picture_frame,
        contrast_y,
        body_label_height(t.contrast_label.height as int),
    );
    let separator_width = if shared > m.separator_inset * 2 {
        shared - m.separator_inset * 2
    } else {
        0
    };
    let cards = input_cards_of(m, input_frame);
    let tb = input_option_at(m, cards.0, m.input_tb_icon_box, t.input_tb_label);
    let dp = input_option_at(m, cards.1, m.input_dp_icon_box, t.input_dp_label);
    let hdmi = input_option_at(m, cards.2, m.input_hdmi_icon_box, t.input_hdmi_label);
    WindowLayout {
        client_size: size_of(shared + pad * 2, tops.5 + status_height + pad),
        shared_panel_width: shared as u32,
        header_min_size: header_min,
        picture_min_size: picture_min,
        input_min_size: input_min,
        header_frame,
        monitor_preview: header.monitor_preview,
        monitor_title: header.monitor_title,
        header_separator: header.header_separator,
        input_summary: header.input_summary,
        hdr_status: header.hdr_status,
        refresh_button: header.refresh_button,
        refresh_icon: header.refresh_icon,
        refresh_text: header.refresh_text,
        picture_title: rect_at(
            pad,
            tops.1,
            max_int(shared, t.picture_title.width as int),
            t.picture_title.height as int,
        ),
        picture_frame,
        brightness_icon: brightness.icon,
        brightness_label: brightness.label,
        brightness_slider: brightness.slider,
        brightness_value: brightness.value,
        brightness_up: brightness.up,
        brightness_down: brightness.down,
        contrast_icon: contrast.icon,
        contrast_label: contrast.label,
        contrast_slider: contrast.slider,
        contrast_value: contrast.value,
        contrast_up: contrast.up,
        contrast_down: contrast.down,
        picture_separator: rect_at(
            pad + m.separator_inset,
            brightness_y + m.control_row_height + m.row_gap / 2,
            separator_width,
            m.separator_thickness as int,
        ),
        input_title: rect_at(
            pad,
            tops.3,
            max_int(shared, t.input_title.width as int),
            t.input_title.height as int,
        ),
        input_frame,
        input_tb_card: tb.card,
        input_tb_radio: tb.radio,
        input_tb_icon: tb.icon,
        input_tb_label: tb.label,
        input_dp_card: dp.card,
        input_dp_radio: dp.radio,
        input_dp_icon: dp.icon,
        input_dp_label: dp.label,
        input_hdmi_card: hdmi.card,
        input_hdmi_radio: hdmi.radio,
        input_hdmi_icon: hdmi.icon,
        input_hdmi_label: hdmi.label,
        status_label: rect_at(
            pad,
            tops.5,
            max_int(shared, t.status.width as int),
            status_height,
        ),
    }
}

fn max_u32(a: u32, b: u32) -> (r: u32)
    ensures
        r == max_int(a as int, b as int),
{
    if a >= b {
        a
    } else {
        b
    }
}

fn vertical_center_offset(container_height: u32, content_height: u32) -> (r: i32)
    ensures
        r == center_offset(container_height as int, content_height as int),
{
    let gap: u32 = if container_height > content_height {
        container_height - content_height
    } else {
        0
    };
    (gap / 2) as i32
}

fn body_label_rect_height(text_height: u32) -> (r: u32)
    requires
        text_height <= LAYOUT_LIMIT,
    ensures
        r == body_label_height(text_height as int),
{
    max_u32(text_height + 4, 21)
}

fn kvm_label_rect_width(text_width: u32) -> (r: u32)
    requires
        text_width <= LAYOUT_LIMIT,
    ensures
        r == kvm_label_width(text_width as int),
{
    text_width + 14
}

fn refresh_button_width(metrics: &UiMetrics, text: &TextMetrics) -> (r: u32)
    requires
        metrics_bounded(*metrics),
        text_bounded(*text),
    ensures
        r == refresh_button_width_of(*metrics, *text),
{
    metrics.refresh_icon_box.width + text.refresh_label.width + metrics.refresh_button_padding_x
        * 2 + metrics.refresh_icon_gap
}

fn input_option_min_width(metrics: &UiMetrics, icon: Size, label: Size) -> (r: u32)
    requires
        metrics_bounded(*metrics),
        size_bounded(icon),
        size_bounded(label),
    ensures
        r == input_option_width_of(*metrics, icon, label),
{
    metrics.input_card_padding_x * 2 + metrics.input_indicator_box.width + metrics.gap_standard
        + icon.width + metrics.gap_small + kvm_label_rect_width(label.width)
}

fn header_min_size(metrics: &UiMetrics, text: &TextMetrics) -> (s: Size)
    requires
        metrics_bounded(*metrics),
        text_bounded(*text),
    ensures
        s == header_min_of(*metrics, *text),
        s.width <= 0x1000_0000,
        s.height <= 0x0800_0000,
{
    proof {
        reveal(header_min_of);
    }
    let refresh_button_width = refresh_button_width(metrics, text);
    let top_row_width = metrics.monitor_preview_box.width + metrics.gap_large
        + text.monitor_title.width + metrics.gap_standard + metrics.separator_thickness
        + metrics.gap_standard + text.input_summary.width + metrics.gap_large
        + refresh_button_width;
    let bottom_row_width = metrics.monitor_preview_box.width + metrics.gap_large
        + text.hdr_status.width + metrics.gap_large + refresh_button_width;
    let width = metrics.card_padding * 2 + max_u32(top_row_width, bottom_row_width);
    let text_stack_height = text.monitor_title.height + metrics.header_row_gap
        + text.hdr_status.height;
    let content_height = max_u32(
        max_u32(metrics.monitor_preview_box.height, text_stack_height),
        metrics.refresh_button_height,
    );
    let height = metrics.card_padding * 2 + content_height;
    Size::new(width, height)
}

fn picture_min_size(metrics: &UiMetrics, text: &TextMetrics) -> (s: Size)
    requires
        metrics_bounded(*metrics),
        text_bounded(*text),
    ensures
        s == picture_min_of(*metrics, *text),
        s.width <= 0x1000_0000,
        s.height <= 0x0800_0000,
{
    proof {
        reveal(picture_min_of);
    }
    let label_width = max_u32(text.brightness_label.width, text.contrast_label.width);
    let compound_width = metrics.value_field_size.width + metrics.stepper_button_size.width;
    let row_width = metrics.row_icon_box.width + metrics.gap_standard + label_width
        + metrics.gap_large + metrics.slider_min_width + metrics.gap_standard + compound_width;
    let width = metrics.card_padding * 2 + row_width;
    let height = metrics.card_padding * 2 + metrics.control_row_height * 2 + metrics.row_gap;
    Size::new(width, height)
}

fn input_min_size(metrics: &UiMetrics, text: &TextMetrics) -> (s: Size)
    requires
        metrics_bounded(*metrics),
        text_bounded(*text),
    ensures
        s == input_min_of(*metrics, *text),
        metrics.card_padding * 2 + metrics.input_card_gap * 2 <= s.width <= 0x2000_0000,
        s.height <= 0x0800_0000,
{
    proof {
        reveal(input_min_of);
    }
    let tb_width = input_option_min_width(metrics, metrics.input_tb_icon_box, text.input_tb_label);
    let dp_width = input_option_min_width(metrics, metrics.input_dp_icon_box, text.input_dp_label);
    let hdmi_width = input_option_min_width(
        metrics,
        metrics.input_hdmi_icon_box,
        text.input_hdmi_label,
    );
    let option_width = max_u32(max_u32(tb_width, dp_width), hdmi_width);
    let width = metrics.card_padding * 2 + option_width * 3 + metrics.input_card_gap * 2;
    let height = metrics.card_padding * 2 + metrics.input_card_height;
    Size::new(width, height)
}

fn layout_input_card(card: Rect, metrics: &UiMetrics, icon_size: Size, label: Size) -> (r: (
    Rect,
    Rect,
    Rect,
))
    requires
        metrics_bounded(*metrics),
        size_bounded(icon_size),
        size_bounded(label),
        0 <= card.x <= 0x3000_0000,
        0 <= card.y <= 0x3000_0000,
        card.width <= 0x2000_0000,
        card.height <= LAYOUT_LIMIT,
    ensures
        r == input_card_parts(card, *metrics, icon_size, label),
{
    let label_width = kvm_label_rect_width(label.width);
    let group_width = metrics.input_indicator_box.width + metrics.gap_standard + icon_size.width
        + metrics.gap_small + label_width;
    let free: u32 = if card.width > group_width {
        card.width - group_width
    } else {
        0
    };
    let spacer = free / 2;
    let radio_x = card.x + spacer as i32;
    let radio = Rect::new(
        radio_x,
        card.y + vertical_center_offset(card.height, metrics.input_indicator_box.height),
        metrics.input_indicator_box.width,
        metrics.input_indicator_box.height,
    );
    let icon = Rect::new(
        radio.right() + metrics.gap_standard as i32,
        card.y + vertical_center_offset(card.height, icon_size.height),
        icon_size.width,
        icon_size.height,
    );
    let label_rect = Rect::new(
        icon.right() + metrics.gap_small as i32,
        card.y + vertical_center_offset(card.height, label.height),
        label_width,
        label.height,
    );
    (radio, icon, label_rect)
}

/// A frame that the layout places: within the first 2^29 pixels, as every
/// frame is where the metrics and texts are within `LAYOUT_LIMIT`.
pub open spec fn frame_bounded(frame: Rect) -> bool {
    &&& 0 <= frame.x <= 0x2000_0000
    &&& 0 <= frame.y <= 0x2000_0000
    &&& frame.width <= 0x2000_0000
    &&& frame.height <= 0x2000_0000
}

fn layout_header(metrics: &UiMetrics, text: &TextMetrics, frame: Rect) -> (h: HeaderParts)
    requires
        metrics_bounded(*metrics),
        text_bounded(*text),
        frame_bounded(frame),
    ensures
        h == header_parts_of(*metrics, *text, frame),
{
    proof {
        reveal(header_parts_of);
    }
    let card_padding = metrics.card_padding as i32;
    let monitor_preview = Rect::new(
        frame.x + card_padding,
        frame.y + vertical_center_offset(frame.height, metrics.monitor_preview_box.height),
        metrics.monitor_preview_box.width,
        metrics.monitor_preview_box.height,
    );
    let refresh_button_width = refresh_button_width(metrics, text);
    let refresh_button = Rect::new(
        frame.right() - card_padding - refresh_button_width as i32,
        frame.y + vertical_center_offset(frame.height, metrics.refresh_button_height),
        refresh_button_width,
        metrics.refresh_button_height,
    );
    let text_block_x = monitor_preview.right() + metrics.gap_large as i32;
    let top_row_y = frame.y + card_padding;
    let second_row_y = top_row_y + text.monitor_title.height as i32
        + metrics.header_row_gap as i32;
    let monitor_title = Rect::new(
        text_block_x,
        top_row_y,
        text.monitor_title.width,
        text.monitor_title.height,
    );
    let header_separator = Rect::new(
        monitor_title.right() + metrics.gap_standard as i32,
        top_row_y + vertical_center_offset(text.monitor_title.height, 24),
        metrics.separator_thickness,
        24,
    );
    let input_summary = Rect::new(
        header_separator.right() + metrics.gap_standard as i32,
        top_row_y + vertical_center_offset(text.monitor_title.height, text.input_summary.height),
        text.input_summary.width,
        text.input_summary.height,
    );
    let hdr_status = Rect::new(
        text_block_x,
        second_row_y,
        text.hdr_status.width,
        text.hdr_status.height,
    );
    let refresh_icon = Rect::new(
        refresh_button.x + metrics.refresh_button_padding_x as i32,
        refresh_button.y + vertical_center_offset(
            refresh_button.height,
            metrics.refresh_icon_box.height,
        ),
        metrics.refresh_icon_box.width,
        metrics.refresh_icon_box.height,
    );
    let refresh_text = Rect::new(
        refresh_icon.right() + metrics.refresh_icon_gap as i32,
        refresh_button.y + vertical_center_offset(refresh_button.height, text.refresh_label.height),
        text.refresh_label.width,
        text.refresh_label.height,
    );
    HeaderParts {
        monitor_preview,
        monitor_title,
        header_separator,
        input_summary,
        hdr_status,
        refresh_button,
        refresh_icon,
        refresh_text,
    }
}

fn layout_picture_row(
    metrics: &UiMetrics,
    text: &TextMetrics,
    frame: Rect,
    row_y: i32,
    label_height: u32,
) -> (row: PictureRow)
    requires
        metrics_bounded(*metrics),
        text_bounded(*text),
        frame_bounded(frame),
        0 <= row_y <= 0x2000_0000,
        label_height <= 0x2000_0000,
    ensures
        row == picture_row_at(*metrics, *text, frame, row_y as int, label_height as int),
{
    proof {
        reveal(picture_row_at);
    }
    let card_padding = metrics.card_padding as i32;
    let icon_x = frame.x + card_padding;
    let label_x = icon_x + metrics.row_icon_box.width as i32 + metrics.gap_standard as i32;
    let label_width = max_u32(text.brightness_label.width, text.contrast_label.width);
    let value_x = frame.right() - card_padding - (metrics.value_field_size.width
        + metrics.stepper_button_size.width) as i32;
    let slider_x = label_x + label_width as i32 + metrics.gap_large as i32;
    let slider_room = value_x - metrics.gap_standard as i32 - slider_x;
    let slider_width: u32 = if slider_room > 0 {
        slider_room as u32
    } else {
        0
    };
    let icon = Rect::new(
        icon_x,
        row_y + vertical_center_offset(metrics.control_row_height, metrics.row_icon_box.height),
        metrics.row_icon_box.width,
        metrics.row_icon_box.height,
    );
    let label = Rect::new(
        label_x,
        row_y + vertical_center_offset(metrics.control_row_height, label_height),
        label_width,
        label_height,
    );
    let slider = Rect::new(
        slider_x,
        row_y + metrics.slider_y_offset as i32,
        max_u32(slider_width, metrics.slider_min_width),
        metrics.slider_height,
    );
    let value = Rect::new(
        value_x,
        row_y + vertical_center_offset(metrics.control_row_height, metrics.value_field_size.height),
        metrics.value_field_size.width,
        metrics.value_field_size.height,
    );
    let up = Rect::new(
        value.right(),
        value.y,
        metrics.stepper_button_size.width,
        metrics.stepper_button_size.height,
    );
    let down = Rect::new(
        value.right(),
        up.bottom(),
        metrics.stepper_button_size.width,
        metrics.stepper_button_size.height,
    );
    PictureRow { icon, label, slider, value, up, down }
}

fn layout_input_cards(metrics: &UiMetrics, frame: Rect) -> (cards: (Rect, Rect, Rect))
    requires
        metrics_bounded(*metrics),
        frame_bounded(frame),
        frame.width >= metrics.card_padding * 2 + metrics.input_card_gap * 2,
    ensures
        cards == input_cards_of(*metrics, frame),
        frame.x <= cards.0.x <= frame.x + frame.width,
        frame.y <= cards.0.y <= frame.y + frame.height,
        frame.x <= cards.1.x <= frame.x + frame.width,
        frame.y <= cards.1.y <= frame.y + frame.height,
        frame.x <= cards.2.x <= frame.x + frame.width,
        frame.y <= cards.2.y <= frame.y + frame.height,
        cards.0.width <= 0x2000_0000 && cards.0.height == metrics.input_card_height,
        cards.1.width <= 0x2000_0000 && cards.1.height == metrics.input_card_height,
        cards.2.width <= 0x2000_0000 && cards.2.height == metrics.input_card_height,
{
    proof {
        reveal(input_cards_of);
    }
    let input_card_width = (frame.width - metrics.card_padding * 2 - metrics.input_card_gap * 2)
        / 3;
    proof {
        let room = frame.width - metrics.card_padding * 2 - metrics.input_card_gap * 2;
        assert(input_card_width * 3 <= room) by (nonlinear_arith)
            requires
                input_card_width == room / 3,
                room >= 0,
        ;
    }
    let spare_height: u32 = if frame.height > metrics.input_card_height {
        frame.height - metrics.input_card_height
    } else {
        0
    };
    let input_cards_y = frame.y + (spare_height / 2) as i32;
    let tb_card = Rect::new(
        frame.x + metrics.card_padding as i32,
        input_cards_y,
        input_card_width,
        metrics.input_card_height,
    );
    let dp_card = Rect::new(
        tb_card.right() + metrics.input_card_gap as i32,
        input_cards_y,
        input_card_width,
        metrics.input_card_height,
    );
    let hdmi_card = Rect::new(
        dp_card.right() + metrics.input_card_gap as i32,
        input_cards_y,
        input_card_width,
        metrics.input_card_height,
    );
    (tb_card, dp_card, hdmi_card)
}

fn layout_input_option(metrics: &UiMetrics, card: Rect, icon: Size, label: Size) -> (o:
    InputOption)
    requires
        metrics_bounded(*metrics),
        size_bounded(icon),
        size_bounded(label),
        0 <= card.x <= 0x3000_0000,
        0 <= card.y <= 0x3000_0000,
        card.width <= 0x2000_0000,
        card.height <= LAYOUT_LIMIT,
    ensures
        o == input_option_at(*metrics, card, icon, label),
{
    let (radio, icon_rect, label_rect) = layout_input_card(card, metrics, icon, label);
    InputOption { card, radio, icon: icon_rect, label: label_rect }
}

/// Lays the window out: the three panels share the widest of their smallest
/// widths, stack below each other with the metrics' gaps, and the client
/// area holds them with the window padding around.
#[verifier::rlimit(50)]
pub fn compute_layout(metrics: &UiMetrics, text: &TextMetrics) -> (layout: WindowLayout)
    requires
        metrics_bounded(*metrics),
        text_bounded(*text),
    ensures
        layout == layout_of(*metrics, *text),
{
    let header_min_size = header_min_size(metrics, text);
    let picture_min_size = picture_min_size(metrics, text);
    let input_min_size = input_min_size(metrics, text);
    let shared_panel_width = max_u32(
        max_u32(header_min_size.width, picture_min_size.width),
        input_min_size.width,
    );
    let picture_title_width = max_u32(shared_panel_width, text.picture_title.width);
    let input_title_width = max_u32(shared_panel_width, text.input_title.width);
    let status_width = max_u32(shared_panel_width, text.status.width);
    let client_width = shared_panel_width + metrics.window_padding * 2;
    let pad = metrics.window_padding as i32;

    let header_frame = Rect::new(pad, pad, shared_panel_width, header_min_size.height);
    let picture_title_y = header_frame.bottom() as u32 + metrics.section_gap;
    let picture_title = Rect::new(
        pad,
        picture_title_y as i32,
        picture_title_width,
        text.picture_title.height,
    );
    let picture_frame_y = picture_title.bottom() as u32 + metrics.title_gap;
    let picture_frame = Rect::new(
        pad,
        picture_frame_y as i32,
        shared_panel_width,
        picture_min_size.height,
    );
    let input_title_y = picture_frame.bottom() as u32 + metrics.section_gap;
    let input_title = Rect::new(
        pad,
        input_title_y as i32,
        input_title_width,
        text.input_title.height,
    );
    let input_frame_y = input_title.bottom() as u32 + metrics.title_gap;
    let input_frame = Rect::new(
        pad,
        input_frame_y as i32,
        shared_panel_width,
        input_min_size.height,
    );
    let status_label_y = input_frame.bottom() as u32 + metrics.status_gap;
    let status_text_height = text.status.height + 4;
    let status_height: u32 = if status_text_height < 20 {
        20
    } else if status_text_height > 24 {
        24
    } else {
        status_text_height
    };
    let status_label = Rect::new(pad, status_label_y as i32, status_width, status_height);
    let client_height = status_label.bottom() as u32 + metrics.window_padding;

    let header = layout_header(metrics, text, header_frame);

    let brightness_row_y = picture_frame.y + metrics.card_padding as i32;
    let contrast_row_y = brightness_row_y + metrics.control_row_height as i32
        + metrics.row_gap as i32;
    let brightness = layout_picture_row(
        metrics,
        text,
        picture_frame,
        brightness_row_y,
        body_label_rect_height(text.brightness_label.height),
    );
    let contrast = layout_picture_row(
        metrics,
        text,
        picture_frame,
        contrast_row_y,
        body_label_rect_height(text.contrast_label.height),
    );
    let inset_total = metrics.separator_inset * 2;
    let separator_width: u32 = if picture_frame.width > inset_total {
        picture_frame.width - inset_total
    } else {
        0
    };
    let picture_separator = Rect::new(
        picture_frame.x + metrics.separator_inset as i32,
        brightness_row_y + metrics.control_row_height as i32 + (metrics.row_gap / 2) as i32,
        separator_width,
        metrics.separator_thickness,
    );

    let (tb_card, dp_card, hdmi_card) = layout_input_cards(metrics, input_frame);
    let tb = layout_input_option(metrics, tb_card, metrics.input_tb_icon_box, text.input_tb_label);
    let dp = layout_input_option(metrics, dp_card, metrics.input_dp_icon_box, text.input_dp_label);
    let hdmi = layout_input_option(
        metrics,
        hdmi_card,
        metrics.input_hdmi_icon_box,
        text.input_hdmi_label,
    );

    WindowLayout {
        client_size: Size::new(client_width, client_height),
        shared_panel_width,
        header_min_size,
        picture_min_size,
        input_min_size,
        header_frame,
        monitor_preview: header.monitor_preview,
        monitor_title: header.monitor_title,
        header_separator: header.header_separator,
        input_summary: header.input_summary,
        hdr_status: header.hdr_status,
        refresh_button: header.refresh_button,
        refresh_icon: header.refresh_icon,
        refresh_text: header.refresh_text,
        picture_title,
        picture_frame,
        brightness_icon: brightness.icon,
        brightness_label: brightness.label,
        brightness_slider: brightness.slider,
        brightness_value: brightness.value,
        brightness_up: brightness.up,
        brightness_down: brightness.down,
        contrast_icon: contrast.icon,
        contrast_label: contrast.label,
        contrast_slider: contrast.slider,
        contrast_value: contrast.value,
        contrast_up: contrast.up,
        contrast_down: contrast.down,
        picture_separator,
        input_title,
        input_frame,
        input_tb_card: tb.card,
        input_tb_radio: tb.radio,
        input_tb_icon: tb.icon,
        input_tb_label: tb.label,
        input_dp_card: dp.card,
        input_dp_radio: dp.radio,
        input_dp_icon: dp.icon,
        input_dp_label: dp.label,
        input_hdmi_card: hdmi.card,
        input_hdmi_radio: hdmi.radio,
        input_hdmi_icon: hdmi.icon,
        input_hdmi_label: hdmi.label,
        status_label,
    }
}

/// `child` lies between the left and right edges of `parent`.
pub open spec fn within_columns(child: Rect, parent: Rect) -> bool {
    parent.x <= child.x && child.right_spec() <= parent.right_spec()
}

/// `child` lies inside `parent`.
pub open spec fn inside(child: Rect, parent: Rect) -> bool {
    &&& within_columns(child, parent)
    &&& parent.y <= child.y
    &&& child.bottom_spec() <= parent.bottom_spec()
}

/// The client area as a rectangle at the origin.
pub open spec fn client_rect(l: WindowLayout) -> Rect {
    Rect { x: 0, y: 0, width: l.client_size.width, height: l.client_size.height }
}

proof fn lemma_min_sizes(m: UiMetrics, t: TextMetrics)
    requires
        metrics_bounded(m),
        text_bounded(t),
    ensures
        header_min_of(m, t).width as int == m.card_padding * 2 + max_int(
            m.monitor_preview_box.width + m.gap_large + t.monitor_title.width + m.gap_standard
                + m.separator_thickness + m.gap_standard + t.input_summary.width + m.gap_large
                + refresh_button_width_of(m, t),
            m.monitor_preview_box.width + m.gap_large + t.hdr_status.width + m.gap_large
                + refresh_button_width_of(m, t),
        ),
        header_min_of(m, t).height as int == m.card_padding * 2 + max_int(
            max_int(
                m.monitor_preview_box.height as int,
                t.monitor_title.height + m.header_row_gap + t.hdr_status.height,
            ),
            m.refresh_button_height as int,
        ),
        picture_min_of(m, t).width as int == m.card_padding * 2 + m.row_icon_box.width
            + m.gap_standard + max_int(t.brightness_label.width as int, t.contrast_label.width as int)
            + m.gap_large + m.slider_min_width + m.gap_standard + m.value_field_size.width
            + m.stepper_button_size.width,
        picture_min_of(m, t).height as int == m.card_padding * 2 + m.control_row_height * 2
            + m.row_gap,
        input_min_of(m, t).width as int == m.card_padding * 2 + max_int(
            max_int(
                input_option_width_of(m, m.input_tb_icon_box, t.input_tb_label),
                input_option_width_of(m, m.input_dp_icon_box, t.input_dp_label),
            ),
            input_option_width_of(m, m.input_hdmi_icon_box, t.input_hdmi_label),
        ) * 3 + m.input_card_gap * 2,
        input_min_of(m, t).height as int == m.card_padding * 2 + m.input_card_height,
        shared_width_of(m, t) <= 0x2000_0000,
{
    reveal(header_min_of);
    reveal(picture_min_of);
    reveal(input_min_of);
}

/// The header, picture and input cards share one width, the widest of their
/// smallest widths, and one left edge; the client area is that width with
/// the window padding on both sides.
pub proof fn law_panels_share_width(m: UiMetrics, t: TextMetrics)
    requires
        metrics_bounded(m),
        text_bounded(t),
    ensures
        ({
            let l = layout_of(m, t);
            &&& l.header_frame.width == l.shared_panel_width
            &&& l.picture_frame.width == l.shared_panel_width
            &&& l.input_frame.width == l.shared_panel_width
            &&& l.header_frame.x == m.window_padding
            &&& l.picture_frame.x == m.window_padding
            &&& l.input_frame.x == m.window_padding
            &&& l.shared_panel_width >= l.header_min_size.width
            &&& l.shared_panel_width >= l.picture_min_size.width
            &&& l.shared_panel_width >= l.input_min_size.width
            &&& l.client_size.width == l.shared_panel_width + m.window_padding * 2
            &&& l.client_size.width - l.header_frame.right_spec() == l.header_frame.x
        }),
{
    lemma_min_sizes(m, t);
}

/// The client height is the stack of the header card, the picture title and
/// card, the input title and card and the status line, with their gaps and
/// the window padding above and below; the status line is 20 to 24 pixels
/// high, and every block starts below the one before it.
pub proof fn law_client_height_is_the_stack(m: UiMetrics, t: TextMetrics)
    requires
        metrics_bounded(m),
        text_bounded(t),
    ensures
        ({
            let l = layout_of(m, t);
            &&& l.client_size.height == m.window_padding + l.header_frame.height + m.section_gap
                + l.picture_title.height + m.title_gap + l.picture_frame.height + m.section_gap
                + l.input_title.height + m.title_gap + l.input_frame.height + m.status_gap
                + l.status_label.height + m.window_padding
            &&& 20 <= l.status_label.height <= 24
            &&& l.header_frame.y == m.window_padding
            &&& l.picture_title.y == l.header_frame.bottom_spec() + m.section_gap
            &&& l.picture_frame.y == l.picture_title.bottom_spec() + m.title_gap
            &&& l.input_title.y == l.picture_frame.bottom_spec() + m.section_gap
            &&& l.input_frame.y == l.input_title.bottom_spec() + m.title_gap
            &&& l.status_label.y == l.input_frame.bottom_spec() + m.status_gap
            &&& l.client_size.height == l.status_label.bottom_spec() + m.window_padding
        }),
{
    lemma_min_sizes(m, t);
}

proof fn lemma_rows_share_columns(
    m: UiMetrics,
    t: TextMetrics,
    frame: Rect,
    y1: int,
    h1: int,
    y2: int,
    h2: int,
)
    requires
        metrics_bounded(m),
        text_bounded(t),
        frame_bounded(frame),
        frame.width >= picture_min_of(m, t).width,
        0 <= y1 <= 0x2000_0000,
        0 <= y2 <= 0x2000_0000,
        0 <= h1 <= 0x2000_0000,
        0 <= h2 <= 0x2000_0000,
    ensures
        ({
            let a = picture_row_at(m, t, frame, y1, h1);
            let b = picture_row_at(m, t, frame, y2, h2);
            &&& a.icon.x == b.icon.x
            &&& a.label.x == b.label.x
            &&& a.label.width == b.label.width
            &&& a.slider.x == b.slider.x
            &&& a.slider.width == b.slider.width
            &&& a.slider.width >= m.slider_min_width
            &&& a.value.x == b.value.x
            &&& a.value.width == b.value.width
            &&& a.up.x == a.value.right_spec()
            &&& a.down.x == a.value.right_spec()
            &&& a.up.y == a.value.y
            &&& a.down.y == a.up.bottom_spec()
            &&& a.up.height == a.down.height
            &&& a.label.height == h1
            &&& b.icon.y - a.icon.y == y2 - y1
            &&& within_columns(a.slider, frame)
            &&& within_columns(a.value, frame)
            &&& within_columns(a.up, frame)
            &&& within_columns(a.down, frame)
        }),
{
    reveal(picture_min_of);
    reveal(picture_row_at);
}

/// The brightness and contrast rows share their columns: icon, label,
/// slider (never narrower than the narrowest slider) and value field; each
/// value field has its stepper buttons at its right edge, one on top of the
/// other and equally high; each label box is at least four pixels taller
/// than its text.
pub proof fn law_picture_rows_share_columns(m: UiMetrics, t: TextMetrics)
    requires
        metrics_bounded(m),
        text_bounded(t),
    ensures
        ({
            let l = layout_of(m, t);
            &&& l.brightness_icon.x == l.contrast_icon.x
            &&& l.brightness_label.x == l.contrast_label.x
            &&& l.brightness_label.width == l.contrast_label.width
            &&& l.brightness_slider.x == l.contrast_slider.x
            &&& l.brightness_slider.width == l.contrast_slider.width
            &&& l.brightness_slider.width >= m.slider_min_width
            &&& l.brightness_value.x == l.contrast_value.x
            &&& l.brightness_value.width == l.contrast_value.width
            &&& l.brightness_up.x == l.brightness_value.right_spec()
            &&& l.brightness_down.x == l.brightness_value.right_spec()
            &&& l.contrast_up.x == l.contrast_value.right_spec()
            &&& l.contrast_down.x == l.contrast_value.right_spec()
            &&& l.brightness_up.y == l.brightness_value.y
            &&& l.contrast_up.y == l.contrast_value.y
            &&& l.brightness_down.y == l.brightness_up.bottom_spec()
            &&& l.contrast_down.y == l.contrast_up.bottom_spec()
            &&& l.brightness_up.height == l.brightness_down.height
            &&& l.contrast_up.height == l.contrast_down.height
            &&& l.brightness_label.height >= t.brightness_label.height + 4
            &&& l.contrast_label.height >= t.contrast_label.height + 4
            &&& l.contrast_icon.y - l.brightness_icon.y == m.control_row_height + m.row_gap
        }),
{
    lemma_min_sizes(m, t);
    let l = layout_of(m, t);
    let tops = stack_tops(m, t);
    let by = tops.2 + m.card_padding;
    let cy = by + m.control_row_height + m.row_gap;
    let bh = body_label_height(t.brightness_label.height as int);
    let ch = body_label_height(t.contrast_label.height as int);
    lemma_rows_share_columns(m, t, l.picture_frame, by, bh, cy, ch);
    lemma_rows_share_columns(m, t, l.picture_frame, cy, ch, by, bh);
}

proof fn lemma_header_parts_inside(m: UiMetrics, t: TextMetrics, frame: Rect)
    requires
        metrics_bounded(m),
        text_bounded(t),
        frame_bounded(frame),
        frame.width >= header_min_of(m, t).width,
        frame.height == header_min_of(m, t).height,
    ensures
        ({
            let h = header_parts_of(m, t, frame);
            &&& inside(h.monitor_preview, frame)
            &&& inside(h.monitor_title, frame)
            &&& inside(h.hdr_status, frame)
            &&& inside(h.refresh_button, frame)
            &&& within_columns(h.header_separator, frame)
            &&& within_columns(h.input_summary, frame)
            &&& h.header_separator.x > h.monitor_title.right_spec() || m.gap_standard == 0
            &&& h.input_summary.x > h.header_separator.right_spec() || m.gap_standard == 0
            &&& within_columns(h.refresh_icon, h.refresh_button)
            &&& within_columns(h.refresh_text, h.refresh_button)
            &&& m.refresh_icon_box.height <= m.refresh_button_height ==> inside(
                h.refresh_icon,
                h.refresh_button,
            )
            &&& t.refresh_label.height <= m.refresh_button_height ==> inside(
                h.refresh_text,
                h.refresh_button,
            )
        }),
{
    reveal(header_min_of);
    reveal(header_parts_of);
}

/// The three cards lie inside the client area; the header card's preview,
/// title, HDR status and refresh button lie inside it; the separator and
/// the input summary lie between its edges; the refresh icon and text lie
/// between the button's edges, and inside it where no taller than it.
pub proof fn law_header_children_inside(m: UiMetrics, t: TextMetrics)
    requires
        metrics_bounded(m),
        text_bounded(t),
    ensures
        ({
            let l = layout_of(m, t);
            &&& inside(l.header_frame, client_rect(l))
            &&& inside(l.picture_frame, client_rect(l))
            &&& inside(l.input_frame, client_rect(l))
            &&& t.status.width <= l.shared_panel_width ==> inside(l.status_label, client_rect(l))
            &&& inside(l.monitor_preview, l.header_frame)
            &&& inside(l.monitor_title, l.header_frame)
            &&& inside(l.hdr_status, l.header_frame)
            &&& inside(l.refresh_button, l.header_frame)
            &&& within_columns(l.header_separator, l.header_frame)
            &&& within_columns(l.input_summary, l.header_frame)
            &&& l.header_separator.x > l.monitor_title.right_spec() || m.gap_standard == 0
            &&& l.input_summary.x > l.header_separator.right_spec() || m.gap_standard == 0
            &&& within_columns(l.refresh_icon, l.refresh_button)
            &&& within_columns(l.refresh_text, l.refresh_button)
            &&& m.refresh_icon_box.height <= m.refresh_button_height ==> inside(
                l.refresh_icon,
                l.refresh_button,
            )
            &&& t.refresh_label.height <= m.refresh_button_height ==> inside(
                l.refresh_text,
                l.refresh_button,
            )
        }),
{
    lemma_min_sizes(m, t);
    let l = layout_of(m, t);
    lemma_header_parts_inside(m, t, l.header_frame);
}

proof fn lemma_cards_inside(m: UiMetrics, frame: Rect)
    requires
        metrics_bounded(m),
        frame_bounded(frame),
        frame.width >= m.card_padding * 2 + m.input_card_gap * 2,
        frame.height >= m.input_card_height,
    ensures
        ({
            let c = input_cards_of(m, frame);
            &&& c.0.width == c.1.width
            &&& c.1.width == c.2.width
            &&& inside(c.0, frame)
            &&& inside(c.1, frame)
            &&& inside(c.2, frame)
            &&& c.1.x == c.0.right_spec() + m.input_card_gap
            &&& c.2.x == c.1.right_spec() + m.input_card_gap
        }),
{
    reveal(input_cards_of);
    let room = frame.width - m.card_padding * 2 - m.input_card_gap * 2;
    let card_width = room / 3;
    assert(card_width * 3 <= room) by (nonlinear_arith)
        requires
            card_width == room / 3,
            room >= 0,
    ;
}

/// The picture card's sliders, value fields and steppers lie between its
/// edges, and so does its separator where the inset fits in the card; the input options' cards are equally wide, lie inside
/// the input card and follow each other with the card gap between them.
pub proof fn law_controls_within_their_cards(m: UiMetrics, t: TextMetrics)
    requires
        metrics_bounded(m),
        text_bounded(t),
    ensures
        ({
            let l = layout_of(m, t);
            &&& within_columns(l.brightness_slider, l.picture_frame)
            &&& within_columns(l.brightness_value, l.picture_frame)
            &&& within_columns(l.brightness_up, l.picture_frame)
            &&& within_columns(l.brightness_down, l.picture_frame)
            &&& within_columns(l.contrast_slider, l.picture_frame)
            &&& within_columns(l.contrast_value, l.picture_frame)
            &&& within_columns(l.contrast_up, l.picture_frame)
            &&& within_columns(l.contrast_down, l.picture_frame)
            &&& m.separator_inset <= l.shared_panel_width ==> within_columns(
                l.picture_separator,
                l.picture_frame,
            )
            &&& l.input_tb_card.width == l.input_dp_card.width
            &&& l.input_dp_card.width == l.input_hdmi_card.width
            &&& inside(l.input_tb_card, l.input_frame)
            &&& inside(l.input_dp_card, l.input_frame)
            &&& inside(l.input_hdmi_card, l.input_frame)
            &&& l.input_dp_card.x == l.input_tb_card.right_spec() + m.input_card_gap
            &&& l.input_hdmi_card.x == l.input_dp_card.right_spec() + m.input_card_gap
        }),
{
    lemma_min_sizes(m, t);
    let l = layout_of(m, t);
    let tops = stack_tops(m, t);
    let by = tops.2 + m.card_padding;
    let cy = by + m.control_row_height + m.row_gap;
    let bh = body_label_height(t.brightness_label.height as int);
    let ch = body_label_height(t.contrast_label.height as int);
    lemma_rows_share_columns(m, t, l.picture_frame, by, bh, cy, ch);
    lemma_rows_share_columns(m, t, l.picture_frame, cy, ch, by, bh);
    lemma_cards_inside(m, l.input_frame);
}

} // verus!
