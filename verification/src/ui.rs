//! Rendering: the frame that a state of the viewer puts on screen.
//!
//! A frame is a title, a sequence of styled text lines and a status line.
//! It is a function of the state alone. Drawing it on a terminal, with a
//! border round it and the status line at the bottom, is the driver's part.

use crate::app::{App, AppMode, AppView};
use crate::numeral::{
    decimal,
    digit_char,
    hex_char,
    hex_padded,
    lemma_hex_padded_len,
    lemma_hex_pair,
    push_decimal,
    push_hex,
};
use crate::sedecim_file_info::{SedecimFileInfo, WindowView};
use vstd::prelude::*;
use vstd::string::{StrSliceExecFns, StringExecFns};

verus! {

/// A foreground colour.
#[derive(Clone, Copy, Debug, PartialEq, Eq, Structural)]
pub enum Color {
    /// The terminal's own foreground colour.
    Default,
    Yellow,
    Red,
}

/// The attributes with which a piece of text is drawn.
#[derive(Clone, Copy, Debug, PartialEq, Eq, Structural)]
pub struct Attributes {
    pub color: Color,
    pub bold: bool,
    pub blink: bool,
    pub underlined: bool,
}

/// The part that a piece of text plays in the frame.
#[derive(Clone, Copy, Debug, PartialEq, Eq, Structural)]
pub enum TextStyle {
    /// Ordinary text.
    Plain,
    /// The byte under the cursor.
    Cursor,
    /// The caret of the jump prompt.
    Caret,
    /// An error message.
    Error,
}

impl TextStyle {
    /// How text of this style is drawn. Ordinary text has the terminal's
    /// default look; the byte under the cursor is bold, blinking, underlined
    /// and yellow; the caret is blinking and underlined; an error is red.
    pub open spec fn look(self) -> Attributes {
        match self {
            TextStyle::Plain => Attributes {
                color: Color::Default,
                bold: false,
                blink: false,
                underlined: false,
            },
            TextStyle::Cursor => Attributes {
                color: Color::Yellow,
                bold: true,
                blink: true,
                underlined: true,
            },
            TextStyle::Caret => Attributes {
                color: Color::Default,
                bold: false,
                blink: true,
                underlined: true,
            },
            TextStyle::Error => Attributes {
                color: Color::Red,
                bold: false,
                blink: false,
                underlined: false,
            },
        }
    }

    /// How text of this style is drawn.
    pub fn attributes(&self) -> (attributes: Attributes)
        ensures
            attributes == self.look(),
    {
        match self {
            TextStyle::Plain => Attributes {
                color: Color::Default,
                bold: false,
                blink: false,
                underlined: false,
            },
            TextStyle::Cursor => Attributes {
                color: Color::Yellow,
                bold: true,
                blink: true,
                underlined: true,
            },
            TextStyle::Caret => Attributes {
                color: Color::Default,
                bold: false,
                blink: true,
                underlined: true,
            },
            TextStyle::Error => Attributes {
                color: Color::Red,
                bold: false,
                blink: false,
                underlined: false,
            },
        }
    }
}

/// A run of text in one style.
#[derive(Debug, PartialEq, Eq)]
pub struct Segment {
    pub text: String,
    pub style: TextStyle,
}

/// The mathematical model of a segment.
pub struct SegmentView {
    pub text: Seq<char>,
    pub style: TextStyle,
}

impl View for Segment {
    type V = SegmentView;

    open spec fn view(&self) -> SegmentView {
        SegmentView { text: self.text@, style: self.style }
    }
}

/// One frame of the viewer: an outer frame with a title, and inside it a
/// content area above a status bar of one line.
#[derive(Debug, PartialEq, Eq)]
pub struct Layout {
    /// Title of the outer frame.
    pub title: String,
    /// Whether the outer frame has a border on all four sides.
    pub bordered: bool,
    /// The lines of the content area, top to bottom, each a sequence of segments.
    pub lines: Vec<Vec<Segment>>,
    /// The text of the status bar.
    pub status: String,
}

/// The mathematical model of a frame.
#[verifier::ext_equal]
pub struct LayoutView {
    pub title: Seq<char>,
    pub bordered: bool,
    pub lines: Seq<Seq<SegmentView>>,
    pub status: Seq<char>,
}

/// The model of a line of segments.
pub open spec fn line_view(line: Seq<Segment>) -> Seq<SegmentView> {
    Seq::new(line.len(), |j: int| line[j]@)
}

/// The model of a sequence of lines.
pub open spec fn lines_view(lines: Seq<Vec<Segment>>) -> Seq<Seq<SegmentView>> {
    Seq::new(lines.len(), |i: int| line_view(lines[i]@))
}

impl View for Layout {
    type V = LayoutView;

    open spec fn view(&self) -> LayoutView {
        LayoutView {
            title: self.title@,
            bordered: self.bordered,
            lines: lines_view(self.lines@),
            status: self.status@,
        }
    }
}

/// What the character gutter shows for a byte: the character itself for a
/// 7-bit ASCII byte from 32 on, a dot for any other.
pub open spec fn glyph(byte: u8) -> char {
    if 32 <= byte < 128 {
        byte as char
    } else {
        '.'
    }
}

/// The hex column of a line: two lowercase hexadecimal digits for each byte,
/// and one space between neighbours.
pub open spec fn hex_column(bytes: Seq<u8>) -> Seq<char> {
    Seq::new(
        if bytes.len() == 0 {
            0nat
        } else {
            (3 * bytes.len() - 1) as nat
        },
        |i: int|
            if i % 3 == 0 {
                digit_char(bytes[i / 3] as int / 16)
            } else if i % 3 == 1 {
                digit_char(bytes[i / 3] as int % 16)
            } else {
                ' '
            },
    )
}

/// The character gutter of a line: a leading space, then for each byte its
/// glyph followed by a space.
pub open spec fn gutter(bytes: Seq<u8>) -> Seq<char> {
    Seq::new(
        2 * bytes.len() + 1,
        |i: int|
            if i % 2 == 0 {
                ' '
            } else {
                glyph(bytes[i / 2])
            },
    )
}

/// The ten bytes of the dump line that starts at `start`, as the window
/// serves them.
pub open spec fn line_bytes(window: WindowView, start: int) -> Seq<u8> {
    Seq::new(10, |j: int| window.byte_at(start + j))
}

/// The offset column of a line: a space, the offset in at least six
/// lowercase hexadecimal digits, two spaces.
pub open spec fn offset_column(start: int) -> Seq<char> {
    seq![' '] + hex_padded(start as nat, 6) + seq![' ', ' ']
}

/// The text of the dump line that starts at `start` and shows `bytes`.
pub open spec fn line_text(start: int, bytes: Seq<u8>) -> Seq<char> {
    offset_column(start) + hex_column(bytes) + seq![' ', '|', ' '] + gutter(bytes)
}

/// Where in the text of a line the two hexadecimal digits of column
/// `column` begin, `lead` being the length of the offset column.
pub open spec fn hex_position(lead: int, column: int) -> int {
    lead + 3 * column
}

/// Where in the text of a line the glyph of column `column` stands.
pub open spec fn glyph_position(lead: int, column: int) -> int {
    lead + 33 + 2 * column
}

/// A line with the cursor on `column`: the text of the line cut into five
/// segments, of which the second holds the two hexadecimal digits of the
/// column and the fourth its glyph, both in the cursor's style.
pub open spec fn highlighted(text: Seq<char>, lead: int, column: int) -> Seq<SegmentView> {
    let hex = hex_position(lead, column);
    let gl = glyph_position(lead, column);
    seq![
        SegmentView { text: text.subrange(0, hex), style: TextStyle::Plain },
        SegmentView { text: text.subrange(hex, hex + 2), style: TextStyle::Cursor },
        SegmentView { text: text.subrange(hex + 2, gl), style: TextStyle::Plain },
        SegmentView { text: text.subrange(gl, gl + 1), style: TextStyle::Cursor },
        SegmentView { text: text.subrange(gl + 1, text.len() as int), style: TextStyle::Plain },
    ]
}

/// Number of dump lines in the frame: line `i` of the twenty is shown if it
/// starts at or before the file size.
pub open spec fn shown_lines(window: WindowView) -> int {
    if window.offset > window.size {
        0
    } else if (window.size - window.offset) / 10 >= 19 {
        20
    } else {
        (window.size - window.offset) / 10 + 1
    }
}

/// Dump line `line` of the frame. In Standard mode the line of the cursor
/// is highlighted; every other line is one plain segment.
pub open spec fn dump_line(app: AppView, line: int) -> Seq<SegmentView> {
    let start = app.window.offset + 10 * line;
    let text = line_text(start, line_bytes(app.window, start));
    if app.mode is Standard && app.selected_line == line {
        highlighted(text, offset_column(start).len() as int, app.selected_value)
    } else {
        seq![SegmentView { text, style: TextStyle::Plain }]
    }
}

/// The dump: the shown lines, top to bottom.
pub open spec fn dump(app: AppView) -> Seq<Seq<SegmentView>> {
    Seq::new(shown_lines(app.window) as nat, |i: int| dump_line(app, i))
}

/// What the jump prompt says before the digits typed so far.
pub open spec fn prompt() -> Seq<char> {
    "Jump to Address (HEX): "@
}

/// The lines below the dump. In Jump mode: a blank line, the prompt with the
/// digits typed so far and a caret, and the error message if there is one.
/// In Standard mode: nothing.
pub open spec fn overlay(app: AppView) -> Seq<Seq<SegmentView>> {
    if app.mode is Jump {
        let blank = seq![SegmentView { text: Seq::empty(), style: TextStyle::Plain }];
        let entry = seq![
            SegmentView { text: prompt() + app.jump_value, style: TextStyle::Plain },
            SegmentView { text: seq![' '], style: TextStyle::Caret },
        ];
        if app.error.len() > 0 {
            seq![blank, entry, seq![SegmentView { text: app.error, style: TextStyle::Error }]]
        } else {
            seq![blank, entry]
        }
    } else {
        Seq::empty()
    }
}

/// The status line: file name, file size in decimal, and the offset of the
/// byte under the cursor in at least six lowercase hexadecimal digits.
pub open spec fn status_text(app: AppView) -> Seq<char> {
    app.window.name + " | "@ + decimal(app.window.size as nat) + " bytes | cursor "@ + hex_padded(
        app.cursor_offset() as nat,
        6,
    )
}

/// The frame of a state: titled `sedecim` and bordered; in the content area
/// the dump and, below it, the overlay; in the status bar the status line.
pub open spec fn frame(app: AppView) -> LayoutView {
    LayoutView {
        title: "sedecim"@,
        bordered: true,
        lines: dump(app) + overlay(app),
        status: status_text(app),
    }
}

/// Line `i` of the twenty is shown exactly if it starts at or before the
/// file size.
pub proof fn lemma_shown_lines(window: WindowView, i: int)
    requires
        0 <= window.offset,
    ensures
        0 <= shown_lines(window) <= 20,
        0 <= i < shown_lines(window) <==> 0 <= i < 20 && window.offset + 10 * i <= window.size,
{
}

/// The highlighted segments of a line hold the hexadecimal digits and the
/// glyph of the byte in the cursor's column, and the five segments together
/// are the text of the line.
pub proof fn lemma_highlight_marks_cursor(start: int, bytes: Seq<u8>, column: int)
    requires
        bytes.len() == 10,
        0 <= column < 10,
    ensures
        ({
            let text = line_text(start, bytes);
            let cut = highlighted(text, offset_column(start).len() as int, column);
            &&& cut[1].text == hex_padded(bytes[column] as nat, 2)
            &&& cut[3].text == seq![glyph(bytes[column])]
            &&& cut[0].text + cut[1].text + cut[2].text + cut[3].text + cut[4].text == text
        }),
{
    lemma_hex_pair(bytes[column]);
}

/// What the character gutter shows for a byte.
pub fn glyph_of(byte: u8) -> (c: char)
    ensures
        c == glyph(byte),
{
    if byte >= 32 && byte < 128 {
        byte as char
    } else {
        '.'
    }
}

/// Number of dump lines in the frame.
pub fn count_shown_lines(info: &SedecimFileInfo) -> (count: u64)
    ensures
        count == shown_lines(info@),
{
    let offset = info.file_offset();
    let size = info.file_size();
    if offset > size {
        0
    } else if (size - offset) / 10 >= 19 {
        20
    } else {
        (size - offset) / 10 + 1
    }
}

/// The first page to read so that every byte of the frame is covered by the
/// cache, or `None` where the cache covers the frame.
pub fn missing_page(app: &App) -> (request: Option<u64>)
    requires
        app.wf(),
    ensures
        request is None <==> app@.window.covers(
            app@.window.offset,
            10 * shown_lines(app@.window),
        ),
        request matches Some(start) ==> {
            &&& start % 256 == 0
            &&& !app@.window.cached(start as int)
            &&& app@.window.offset < start + 256
            &&& start < app@.window.offset + 10 * shown_lines(app@.window)
            &&& app@.window.covers(app@.window.offset, start - app@.window.offset)
        },
{
    let info = app.file_info();
    let count = count_shown_lines(info);
    info.missing_page(info.file_offset(), 10 * count)
}

/// The ten bytes of the dump line that starts at `start`.
fn read_line(info: &SedecimFileInfo, start: u64) -> (bytes: Vec<u8>)
    requires
        info.wf(),
    ensures
        bytes@ == line_bytes(info@, start as int),
{
    proof {
        info.lemma_view_wf();
    }
    let mut bytes: Vec<u8> = Vec::new();
    let mut j: u64 = 0;
    while j < 10
        invariant
            j <= 10,
            info.wf(),
            info@.wf(),
            bytes@.len() == j,
            forall|k: int| 0 <= k < j ==> bytes@[k] == info@.byte_at(start + k),
        decreases 10 - j,
    {
        let byte = match start.checked_add(j) {
            Some(address) => info.byte_at(address),
            None => 0,
        };
        bytes.push(byte);
        j = j + 1;
    }
    bytes
}

/// The text of the dump line that starts at `start` and shows `bytes`,
/// together with the length of its offset column.
fn build_line_text(start: u64, bytes: &Vec<u8>) -> (built: (String, usize))
    requires
        bytes@.len() == 10,
    ensures
        built.0@ == line_text(start as int, bytes@),
        built.1 == offset_column(start as int).len(),
        built.0@.len() == built.1 + 53,
{
    let mut text = String::new();
    text.push(' ');
    push_hex(&mut text, start as u128, 6);
    text.push(' ');
    text.push(' ');
    let lead = text.as_str().unicode_len();
    let ghost column = hex_column(bytes@);
    let mut j: usize = 0;
    while j < 10
        invariant
            j <= 10,
            bytes@.len() == 10,
            column == hex_column(bytes@),
            text@ == offset_column(start as int) + column.subrange(
                0,
                if j == 0 {
                    0
                } else {
                    3 * j - 1
                },
            ),
        decreases 10 - j,
    {
        let byte = bytes[j];
        if j > 0 {
            text.push(' ');
        }
        text.push(hex_char(byte / 16));
        text.push(hex_char(byte % 16));
        j = j + 1;
    }
    text.push(' ');
    text.push('|');
    text.push(' ');
    let ghost head = text@;
    let ghost side = gutter(bytes@);
    text.push(' ');
    let mut j: usize = 0;
    while j < 10
        invariant
            j <= 10,
            bytes@.len() == 10,
            side == gutter(bytes@),
            text@ == head + side.subrange(0, 2 * j + 1),
        decreases 10 - j,
    {
        text.push(glyph_of(bytes[j]));
        text.push(' ');
        j = j + 1;
    }
    proof {
        lemma_hex_padded_len(start as nat, 6);
    }
    (text, lead)
}

/// The segment that holds characters `from .. to` of `text`, in the given style.
fn cut(text: &String, from: usize, to: usize, style: TextStyle) -> (segment: Segment)
    requires
        from <= to <= text@.len(),
    ensures
        segment@ == (SegmentView { text: text@.subrange(from as int, to as int), style }),
{
    Segment { text: String::from_str(text.as_str().substring_char(from, to)), style }
}

/// Dump line `line` of the frame.
fn build_dump_line(app: &App, line: u64) -> (segments: Vec<Segment>)
    requires
        app.wf(),
        0 <= line < shown_lines(app@.window),
    ensures
        line_view(segments@) == dump_line(app@, line as int),
{
    proof {
        app.lemma_view_wf();
        lemma_shown_lines(app@.window, line as int);
    }
    let info = app.file_info();
    let start = info.file_offset() + 10 * line;
    let bytes = read_line(info, start);
    let (text, lead) = build_line_text(start, &bytes);
    let mut segments: Vec<Segment> = Vec::new();
    let on_cursor = match app.mode() {
        AppMode::Standard => app.selected_line() as u64 == line,
        AppMode::Jump => false,
    };
    if on_cursor {
        let column = app.selected_value() as usize;
        let end = text.as_str().unicode_len();
        let hex = lead + 3 * column;
        let gl = lead + 33 + 2 * column;
        segments.push(cut(&text, 0, hex, TextStyle::Plain));
        segments.push(cut(&text, hex, hex + 2, TextStyle::Cursor));
        segments.push(cut(&text, hex + 2, gl, TextStyle::Plain));
        segments.push(cut(&text, gl, gl + 1, TextStyle::Cursor));
        segments.push(cut(&text, gl + 1, end, TextStyle::Plain));
    } else {
        segments.push(Segment { text, style: TextStyle::Plain });
    }
    segments
}

/// The lines below the dump.
fn build_overlay(app: &App, lines: &mut Vec<Vec<Segment>>)
    requires
        app.wf(),
    ensures
        lines_view(final(lines)@) == lines_view(old(lines)@) + overlay(app@),
{
    match app.mode() {
        AppMode::Jump => {
            let mut blank: Vec<Segment> = Vec::new();
            blank.push(Segment { text: String::new(), style: TextStyle::Plain });
            let mut entry: Vec<Segment> = Vec::new();
            let mut typed = String::from_str("Jump to Address (HEX): ");
            typed.append(app.jump_value().as_str());
            let mut caret = String::new();
            caret.push(' ');
            entry.push(Segment { text: typed, style: TextStyle::Plain });
            entry.push(Segment { text: caret, style: TextStyle::Caret });
            let ghost blank_view = line_view(blank@);
            let ghost entry_view = line_view(entry@);
            assert(blank_view =~= seq![
                SegmentView { text: Seq::empty(), style: TextStyle::Plain },
            ]);
            assert(entry_view =~= seq![
                SegmentView { text: prompt() + app@.jump_value, style: TextStyle::Plain },
                SegmentView { text: seq![' '], style: TextStyle::Caret },
            ]);
            lines.push(blank);
            lines.push(entry);
            if !app.error().as_str().is_empty() {
                let mut message: Vec<Segment> = Vec::new();
                message.push(Segment { text: app.error().clone(), style: TextStyle::Error });
                let ghost message_view = line_view(message@);
                assert(message_view =~= seq![
                    SegmentView { text: app@.error, style: TextStyle::Error },
                ]);
                lines.push(message);
            }
        },
        AppMode::Standard => {},
    }
}

/// The status line.
fn build_status(app: &App) -> (status: String)
    requires
        app.wf(),
    ensures
        status@ == status_text(app@),
{
    let info = app.file_info();
    let mut status = info.file_name().clone();
    status.append(" | ");
    push_decimal(&mut status, info.file_size());
    status.append(" bytes | cursor ");
    push_hex(&mut status, app.cursor_offset(), 6);
    status
}

/// The frame that the state puts on screen. The state is only read.
pub fn draw_ui(app: &App) -> (layout: Layout)
    requires
        app.wf(),
    ensures
        layout@ == frame(app@),
{
    let count = count_shown_lines(app.file_info());
    let mut lines: Vec<Vec<Segment>> = Vec::new();
    let mut i: u64 = 0;
    while i < count
        invariant
            app.wf(),
            i <= count,
            count == shown_lines(app@.window),
            lines@.len() == i,
            forall|k: int| 0 <= k < i ==> line_view(#[trigger] lines@[k]@) == dump_line(app@, k),
        decreases count - i,
    {
        let segments = build_dump_line(app, i);
        lines.push(segments);
        i = i + 1;
    }
    build_overlay(app, &mut lines);
    let status = build_status(app);
    Layout { title: String::from_str("sedecim"), bordered: true, lines, status }
}

} // verus!
