//! The terminal surface: screen layout, the exact escape-sequence text of
//! every screen-drawing operation, the line editor, the result-navigation
//! key table, and a small model of the terminal state used to show that the
//! shutdown sequence always restores the terminal.
use vstd::prelude::*;

use crate::text::{dec_rep, dec_string_u64, push_dec_u64, push_spaces, spaces, upper_of, uppercase};
use vstd::utf8::encode_utf8;

verus! {

/// One keyboard event, as the raw terminal delivers it.
#[derive(Clone, Copy, Debug, PartialEq, Eq, Structural)]
pub enum KeyInput {
    Char(char),
    Backspace,
    Left,
    Right,
    Up,
    Down,
    Esc,
    Other,
}

/// The cursor-positioning sequence for column `x`, row `y` (both 1-based):
/// `ESC [ y ; x H`.
pub open spec fn spec_goto(x: u16, y: u16) -> Seq<char> {
    "\x1b["@ + dec_rep(y as nat) + ";"@ + dec_rep(x as nat) + "H"@
}

/// Appends the cursor-positioning sequence for `(x, y)`.
pub fn push_goto(out: &mut String, x: u16, y: u16)
    ensures
        final(out)@ == old(out)@ + spec_goto(x, y),
{
    out.append("\x1b[");
    push_dec_u64(out, y as u64);
    out.append(";");
    push_dec_u64(out, x as u64);
    out.append("H");
    proof {
        assert(out@ =~= old(out)@ + spec_goto(x, y));
    }
}

/// The cursor-positioning sequence as a `String`.
pub fn goto_text(x: u16, y: u16) -> (r: String)
    ensures
        r@ == spec_goto(x, y),
{
    let mut r = String::new();
    push_goto(&mut r, x, y);
    proof {
        assert(Seq::<char>::empty() + spec_goto(x, y) =~= spec_goto(x, y));
    }
    r
}

/// The full decorated title line: the title, or the default when it is
/// empty, in uppercase between the clover decorations.
pub open spec fn spec_title_full(title: Seq<char>) -> Seq<char> {
    let eff = if title.len() == 0 {
        "SEARCH RESULTS"@
    } else {
        title
    };
    "\u{1F340}\u{1F340}\u{1F340}\u{1F340}\u{1F340} "@ + upper_of(eff)
        + " \u{1F340}\u{1F340}\u{1F340}\u{1F340}\u{1F340}"@
}

/// The starting column that centers the full title line by its UTF-8 byte
/// length; column 1 when the line does not fit.
pub open spec fn spec_title_start_col(title: Seq<char>, width: u16) -> u16 {
    let bl = encode_utf8(spec_title_full(title)).len() as usize;
    if bl < width as usize {
        (((width as usize - bl) / 2) as u16)
    } else {
        1u16
    }
}

/// The result-count caption of the navigation bar.
pub open spec fn spec_results_text(n: nat) -> Seq<char> {
    dec_rep(n) + " Search Results"@
}

/// The navigation-bar text: the centered caption in blue and, when more
/// than one result is there, the highlighted next-page hint at the right
/// edge, with the cursor left at the hint.
pub open spec fn spec_nav_text(n: nat, width: u16, hbar_row: u16) -> Seq<char> {
    let rt = spec_results_text(n);
    let bl = encode_utf8(rt).len() as usize;
    let half = ((bl / 2) as u16);
    let cx = ((width / 2) as u16);
    let tx = if cx >= half {
        ((cx - half) as u16)
    } else {
        0u16
    };
    let row = ((hbar_row - 2) as u16);
    let left = spec_goto(tx, row) + "\x1b[38;5;4m"@ + rt;
    if n > 1 {
        let rx = if width >= 14 {
            ((width - 14) as u16)
        } else {
            0u16
        };
        left + spec_goto(rx, row) + "\x1b[38;5;2m"@ + "\x1b[7m"@ + "Next Page \u{2192} "@
            + "\x1b[0m"@ + spec_goto(rx, row)
    } else {
        left
    }
}

/// The screen regions derived from the terminal size: the status bar sits
/// on the second-to-last row, the input row right below it, and the output
/// region starts at row 1.
pub struct ScreenLayout {
    pub width: u16,
    pub height: u16,
    pub output_row: u16,
    pub hbar_row: u16,
    pub input_row: u16,
    pub input_col: u16,
}

impl ScreenLayout {
    /// The region invariant: output above the status bar, the status bar
    /// above the input row, everything on the screen.
    pub open spec fn wf(self) -> bool {
        1 <= self.output_row < self.hbar_row < self.input_row <= self.height
    }

    /// The layout for a terminal of the given size.
    pub fn layout_for(width: u16, height: u16) -> (r: ScreenLayout)
        requires
            height >= 3,
        ensures
            r.wf(),
            r.width == width,
            r.height == height,
            r.output_row == 1,
            r.hbar_row == height - 1,
            r.input_row == height,
            r.input_col == 1,
    {
        ScreenLayout {
            width,
            height,
            output_row: 1,
            hbar_row: height - 1,
            input_row: height,
            input_col: 1,
        }
    }

    /// The text of a transient message shown at row 2.
    pub fn msg_text(&self, msg: &str) -> (r: String)
        ensures
            r@ == spec_goto(1, 2) + msg@ + "\n"@,
    {
        let mut r = goto_text(1, 2);
        r.append(msg);
        r.append("\n");
        proof {
            assert(r@ =~= spec_goto(1, 2) + msg@ + "\n"@);
        }
        r
    }

    /// The text of one output line: a green marker, two spaces and the
    /// message, on line `line` of the output region.
    pub fn message_text(&self, line: u16, msg: &str) -> (r: String)
        requires
            self.output_row + 6 + line <= u16::MAX,
        ensures
            r@ == spec_goto(1, (self.output_row + 6 + line) as u16) + "\u{1F7E2}  "@ + msg@
                + "\n"@,
    {
        let mut r = goto_text(1, self.output_row + 6 + line);
        r.append("\u{1F7E2}  ");
        r.append(msg);
        r.append("\n");
        proof {
            assert(r@ =~= spec_goto(1, (self.output_row + 6 + line) as u16) + "\u{1F7E2}  "@
                + msg@ + "\n"@);
        }
        r
    }

    /// The text of a clickable result link: an OSC-8 hyperlink to `url`
    /// whose label names the URL, placed below the output region.
    pub fn url_text(&self, url: &str) -> (r: String)
        requires
            self.output_row + 15 <= u16::MAX,
        ensures
            r@ == spec_goto(1, (self.output_row + 15) as u16) + "\x1b]8;;"@ + url@ + "\x1b\\"@
                + "\u{1F7E2} URL : "@ + url@ + "\x1b]8;;\x1b\\"@,
    {
        let mut r = goto_text(1, self.output_row + 15);
        r.append("\x1b]8;;");
        r.append(url);
        r.append("\x1b\\");
        r.append("\u{1F7E2} URL : ");
        r.append(url);
        r.append("\x1b]8;;\x1b\\");
        proof {
            assert(r@ =~= spec_goto(1, (self.output_row + 15) as u16) + "\x1b]8;;"@ + url@
                + "\x1b\\"@ + "\u{1F7E2} URL : "@ + url@ + "\x1b]8;;\x1b\\"@);
        }
        r
    }

    /// The centered, decorated title line: the title (or the default when
    /// it is empty) in uppercase between the decorations, in bold, at the
    /// starting column `spec_title_start_col` gives.
    pub fn title_text(&self, title: &str) -> (r: String)
        requires
            self.output_row + 1 <= u16::MAX,
        ensures
            r@ == spec_goto(spec_title_start_col(title@, self.width), (self.output_row + 1) as u16)
                + "\x1b[1m"@ + spec_title_full(title@) + "\x1b[0m"@ + "\n"@,
    {
        let eff: &str = if title.unicode_len() == 0 {
            "SEARCH RESULTS"
        } else {
            title
        };
        let upper = uppercase(eff);
        let mut full = String::from_str("\u{1F340}\u{1F340}\u{1F340}\u{1F340}\u{1F340} ");
        full.append(upper.as_str());
        full.append(" \u{1F340}\u{1F340}\u{1F340}\u{1F340}\u{1F340}");
        proof {
            assert(full@ =~= spec_title_full(title@));
        }
        let bl = full.as_str().len();
        let start_col: u16 = if bl < self.width as usize {
            (((self.width as usize) - bl) / 2) as u16
        } else {
            1
        };
        let mut r = goto_text(start_col, self.output_row + 1);
        r.append("\x1b[1m");
        r.append(full.as_str());
        r.append("\x1b[0m");
        r.append("\n");
        proof {
            assert(r@ =~= spec_goto(spec_title_start_col(title@, self.width), (self.output_row
                + 1) as u16) + "\x1b[1m"@ + spec_title_full(title@) + "\x1b[0m"@ + "\n"@);
        }
        r
    }

    /// The navigation bar: the centered result count in blue, and, when
    /// more than one result is there, the highlighted next-page hint at the
    /// right edge with the cursor left on it.
    pub fn nav_text(&self, num_results: usize) -> (r: String)
        requires
            self.hbar_row >= 3,
        ensures
            r@ == spec_nav_text(num_results as nat, self.width, self.hbar_row),
    {
        let mut rt = dec_string_u64(num_results as u64);
        rt.append(" Search Results");
        proof {
            assert(rt@ =~= spec_results_text(num_results as nat));
        }
        let bl = rt.as_str().len();
        let half: u16 = #[verifier::truncate] ((bl / 2) as u16);
        let cx: u16 = self.width / 2;
        let tx: u16 = if cx >= half {
            cx - half
        } else {
            0
        };
        let mut r = goto_text(tx, self.hbar_row - 2);
        r.append("\x1b[38;5;4m");
        r.append(rt.as_str());
        if num_results > 1 {
            let rx: u16 = if self.width >= 14 {
                self.width - 14
            } else {
                0
            };
            push_goto(&mut r, rx, self.hbar_row - 2);
            r.append("\x1b[38;5;2m");
            r.append("\x1b[7m");
            r.append("Next Page \u{2192} ");
            r.append("\x1b[0m");
            push_goto(&mut r, rx, self.hbar_row - 2);
        }
        proof {
            assert(r@ =~= spec_nav_text(num_results as nat, self.width, self.hbar_row));
        }
        r
    }

    /// The status-bar text: saves the cursor, draws the hint between the
    /// bar glyphs in bold white on the bar background, puts the cabinet
    /// glyph near the right edge, and restores the cursor.
    pub fn bar_message_text(&self, msg: &str) -> (r: String)
        requires
            self.width >= 2,
        ensures
            r@ == "\x1b[s"@ + spec_goto(1, self.hbar_row) + "\x1b[1;37m\x1b[48;5;12m"@
                + "\u{1F30D}  \u{1F4DA}  "@ + msg@ + "\x1b[0m"@ + spec_goto(
                (self.width - 2) as u16,
                self.hbar_row,
            ) + "\u{1F5C4}"@ + "\x1b[u"@,
    {
        let mut r = String::from_str("\x1b[s");
        push_goto(&mut r, 1, self.hbar_row);
        r.append("\x1b[1;37m\x1b[48;5;12m");
        r.append("\u{1F30D}  \u{1F4DA}  ");
        r.append(msg);
        r.append("\x1b[0m");
        push_goto(&mut r, self.width - 2, self.hbar_row);
        r.append("\u{1F5C4}");
        r.append("\x1b[u");
        proof {
            assert(r@ =~= "\x1b[s"@ + spec_goto(1, self.hbar_row) + "\x1b[1;37m\x1b[48;5;12m"@
                + "\u{1F30D}  \u{1F4DA}  "@ + msg@ + "\x1b[0m"@ + spec_goto(
                (self.width - 2) as u16,
                self.hbar_row,
            ) + "\u{1F5C4}"@ + "\x1b[u"@);
        }
        r
    }

    /// The text that redraws the prompt: clear the input row, then the
    /// prompt glyph at column 1. The caller's input column moves to the
    /// fixed post-prompt column 3.
    pub fn prompt_text(&self) -> (r: String)
        ensures
            r@ == spec_goto(1, self.input_row) + "\x1b[2K"@ + "\u{1F50D}>"@,
    {
        let mut r = goto_text(1, self.input_row);
        r.append("\x1b[2K");
        r.append("\u{1F50D}>");
        proof {
            assert(r@ =~= spec_goto(1, self.input_row) + "\x1b[2K"@ + "\u{1F50D}>"@);
        }
        r
    }

    /// The text that echoes the edit buffer at the input coordinate.
    pub fn echo_text(&self, buf: &str) -> (r: String)
        ensures
            r@ == spec_goto(self.input_col, self.input_row) + buf@,
    {
        let mut r = goto_text(self.input_col, self.input_row);
        r.append(buf);
        r
    }
}

/// The full-width status-bar fill: the highlighted background code followed
/// by one space per column.
pub open spec fn spec_hbar(width: u16) -> Seq<char> {
    "\x1b[48;5;12m"@ + spaces(width as nat)
}

/// The text that draws the whole shell screen for a terminal of the given
/// size: clear, the status bar on its row, default colors and a visible
/// cursor again, and the cursor parked on the input row. Returns the
/// layout the text was drawn for.
pub fn screen_text(width: u16, height: u16) -> (r: (ScreenLayout, String))
    requires
        height >= 3,
    ensures
        r.0.wf(),
        r.0.width == width && r.0.height == height && r.0.hbar_row == height - 1
            && r.0.input_row == height && r.0.output_row == 1 && r.0.input_col == 1,
        r.1@ == "\x1b[2J"@ + spec_goto(1, (height - 1) as u16) + spec_hbar(width) + "\x1b[0m"@
            + "\x1b[?25h"@ + "\x1b[1B"@ + spec_goto(1, height),
{
    let layout = ScreenLayout::layout_for(width, height);
    let mut r = String::from_str("\x1b[2J");
    push_goto(&mut r, 1, layout.hbar_row);
    r.append("\x1b[48;5;12m");
    push_spaces(&mut r, width);
    r.append("\x1b[0m");
    r.append("\x1b[?25h");
    r.append("\x1b[1B");
    push_goto(&mut r, 1, layout.input_row);
    proof {
        assert(r@ =~= "\x1b[2J"@ + spec_goto(1, (height - 1) as u16) + spec_hbar(width)
            + "\x1b[0m"@ + "\x1b[?25h"@ + "\x1b[1B"@ + spec_goto(1, height));
    }
    (layout, r)
}

/// The text that clears the output region: clear the screen, redraw the
/// status bar, restore default colors, show the cursor and park it on the
/// input row. Returns the layout the text was drawn for.
pub fn clear_output_text(width: u16, height: u16) -> (r: (ScreenLayout, String))
    requires
        height >= 3,
    ensures
        r.0.wf(),
        r.0.width == width && r.0.height == height && r.0.hbar_row == height - 1
            && r.0.input_row == height && r.0.output_row == 1 && r.0.input_col == 1,
        r.1@ == "\x1b[2J"@ + spec_goto(1, (height - 1) as u16) + spec_hbar(width) + "\x1b[0m"@
            + "\x1b[?25h"@ + spec_goto(1, height),
{
    let layout = ScreenLayout::layout_for(width, height);
    let mut r = String::from_str("\x1b[2J");
    push_goto(&mut r, 1, layout.hbar_row);
    r.append("\x1b[48;5;12m");
    push_spaces(&mut r, width);
    r.append("\x1b[0m");
    r.append("\x1b[?25h");
    push_goto(&mut r, 1, layout.input_row);
    proof {
        assert(r@ =~= "\x1b[2J"@ + spec_goto(1, (height - 1) as u16) + spec_hbar(width)
            + "\x1b[0m"@ + "\x1b[?25h"@ + spec_goto(1, height));
    }
    (layout, r)
}

/// The horizontal borders of a box, column by column from `i`: one glyph
/// on the top row and one on the bottom row of each column.
pub open spec fn spec_box_h(x: u16, y: u16, w: u16, h: u16, i: int) -> Seq<char>
    decreases w - i,
{
    if i < 0 || i >= w {
        Seq::<char>::empty()
    } else {
        spec_goto((x + i) as u16, y) + "\u{2500}"@ + spec_goto(
            (x + i) as u16,
            (y + h - 1) as u16,
        ) + "\u{2500}"@ + spec_box_h(x, y, w, h, i + 1)
    }
}

/// The vertical borders of a box, row by row from `i`: one glyph on the
/// left column and one on the right column of each row.
pub open spec fn spec_box_v(x: u16, y: u16, w: u16, h: u16, i: int) -> Seq<char>
    decreases h - i,
{
    if i < 0 || i >= h {
        Seq::<char>::empty()
    } else {
        spec_goto(x, (y + i) as u16) + "\u{2502}"@ + spec_goto(
            (x + w - 1) as u16,
            (y + i) as u16,
        ) + "\u{2502}"@ + spec_box_v(x, y, w, h, i + 1)
    }
}

/// The four corner glyphs of a box, drawn last over the borders.
pub open spec fn spec_box_corners(x: u16, y: u16, w: u16, h: u16) -> Seq<char> {
    spec_goto(x, y) + "\u{250C}"@ + spec_goto((x + w - 1) as u16, y) + "\u{2510}"@ + spec_goto(
        x,
        (y + h - 1) as u16,
    ) + "\u{2514}"@ + spec_goto((x + w - 1) as u16, (y + h - 1) as u16) + "\u{2518}"@
}

/// A bordered box drawn with line-drawing glyphs: horizontal borders, then
/// vertical borders, then the corners.
pub open spec fn spec_box_text(x: u16, y: u16, w: u16, h: u16) -> Seq<char> {
    spec_box_h(x, y, w, h, 0) + spec_box_v(x, y, w, h, 0) + spec_box_corners(x, y, w, h)
}

/// The text that draws a bordered box with its top-left corner at
/// `(x, y)`.
pub fn box_text(x: u16, y: u16, w: u16, h: u16) -> (r: String)
    requires
        w >= 1,
        h >= 1,
        x + w <= u16::MAX,
        y + h <= u16::MAX,
    ensures
        r@ == spec_box_text(x, y, w, h),
{
    let mut r = String::new();
    let mut i: u16 = 0;
    while i < w
        invariant
            i <= w,
            x + w <= u16::MAX,
            y + h <= u16::MAX,
            h >= 1,
            r@ + spec_box_h(x, y, w, h, i as int) == spec_box_h(x, y, w, h, 0),
        decreases w - i,
    {
        let ghost pre = r@;
        push_goto(&mut r, x + i, y);
        r.append("\u{2500}");
        push_goto(&mut r, x + i, y + h - 1);
        r.append("\u{2500}");
        proof {
            assert(r@ =~= pre + (spec_goto((x + i as int) as u16, y) + "\u{2500}"@ + spec_goto(
                (x + i as int) as u16,
                (y + h - 1) as u16,
            ) + "\u{2500}"@));
            assert(r@ + spec_box_h(x, y, w, h, i + 1) =~= pre + spec_box_h(x, y, w, h, i as int));
        }
        i = i + 1;
    }
    proof {
        assert(r@ + spec_box_h(x, y, w, h, w as int) =~= r@);
        assert(r@ == spec_box_h(x, y, w, h, 0));
    }
    let mut j: u16 = 0;
    while j < h
        invariant
            j <= h,
            x + w <= u16::MAX,
            y + h <= u16::MAX,
            w >= 1,
            r@ + spec_box_v(x, y, w, h, j as int) == spec_box_h(x, y, w, h, 0) + spec_box_v(
                x,
                y,
                w,
                h,
                0,
            ),
        decreases h - j,
    {
        let ghost pre = r@;
        push_goto(&mut r, x, y + j);
        r.append("\u{2502}");
        push_goto(&mut r, x + w - 1, y + j);
        r.append("\u{2502}");
        proof {
            assert(r@ =~= pre + (spec_goto(x, (y + j as int) as u16) + "\u{2502}"@ + spec_goto(
                (x + w - 1) as u16,
                (y + j as int) as u16,
            ) + "\u{2502}"@));
            assert(r@ + spec_box_v(x, y, w, h, j + 1) =~= pre + spec_box_v(x, y, w, h, j as int));
        }
        j = j + 1;
    }
    proof {
        assert(r@ + spec_box_v(x, y, w, h, h as int) =~= r@);
    }
    let ghost mid = r@;
    push_goto(&mut r, x, y);
    r.append("\u{250C}");
    push_goto(&mut r, x + w - 1, y);
    r.append("\u{2510}");
    push_goto(&mut r, x, y + h - 1);
    r.append("\u{2514}");
    push_goto(&mut r, x + w - 1, y + h - 1);
    r.append("\u{2518}");
    proof {
        assert(r@ =~= mid + spec_box_corners(x, y, w, h));
        assert(r@ =~= spec_box_text(x, y, w, h));
    }
    r
}

/// The body lines of the help panel, from line `i` on: each line at a
/// fixed indent inside the box, one row per line.
pub open spec fn spec_help_body(lines: Seq<Seq<char>>, x: u16, y: u16, i: int) -> Seq<char>
    decreases lines.len() - i,
{
    if i < 0 || i >= lines.len() {
        Seq::<char>::empty()
    } else {
        spec_goto((x + 5) as u16, (y + 4 + i) as u16) + lines[i] + "\n"@ + spec_help_body(
            lines,
            x,
            y,
            i + 1,
        )
    }
}

/// The help panel: a centered 60-by-15 box with one help line per row.
pub open spec fn spec_help_panel(lines: Seq<Seq<char>>, width: u16, height: u16) -> Seq<char> {
    let x = (((width - 60) / 2) as u16);
    let y = (((height - 15) / 2) as u16);
    spec_box_text(x, y, 60, 15) + spec_help_body(lines, x, y, 0)
}

/// The text that draws the help panel for a terminal of this layout's
/// size.
pub fn help_panel_text(layout: &ScreenLayout, help: &Vec<String>) -> (r: String)
    requires
        layout.width >= 60,
        layout.height >= 15,
        (layout.height - 15) / 2 + 4 + help@.len() <= u16::MAX,
    ensures
        r@ == spec_help_panel(help.deep_view(), layout.width, layout.height),
{
    let x: u16 = (layout.width - 60) / 2;
    let y: u16 = (layout.height - 15) / 2;
    let mut r = box_text(x, y, 60, 15);
    let mut i: usize = 0;
    while i < help.len()
        invariant
            i <= help@.len(),
            x == (layout.width - 60) / 2,
            y == (layout.height - 15) / 2,
            y + 4 + help@.len() <= u16::MAX,
            x + 5 <= u16::MAX,
            r@ + spec_help_body(help.deep_view(), x, y, i as int) == spec_box_text(x, y, 60, 15)
                + spec_help_body(help.deep_view(), x, y, 0),
        decreases help@.len() - i,
    {
        let ghost pre = r@;
        push_goto(&mut r, x + 5, y + 4 + (i as u16));
        r.append(help[i].as_str());
        r.append("\n");
        proof {
            assert(help.deep_view()[i as int] == help@[i as int]@);
            assert(r@ =~= pre + (spec_goto((x + 5) as u16, (y + 4 + i as int) as u16)
                + help.deep_view()[i as int] + "\n"@));
            assert(r@ + spec_help_body(help.deep_view(), x, y, i + 1) =~= pre + spec_help_body(
                help.deep_view(),
                x,
                y,
                i as int,
            ));
        }
        i = i + 1;
    }
    proof {
        assert(r@ + spec_help_body(help.deep_view(), x, y, help.deep_view().len() as int) =~= r@);
        assert(r@ =~= spec_help_panel(help.deep_view(), layout.width, layout.height));
    }
    r
}

/// One line-editing step over the committed-line buffer: Enter commits the
/// buffer unchanged, a printable character is appended, Backspace removes
/// the last character if any, and every other key — a tab among them — is
/// ignored.
pub fn edit_step(buf: &mut String, ev: KeyInput) -> (done: bool)
    ensures
        done == (ev == KeyInput::Char('\n')),
        done ==> final(buf)@ == old(buf)@,
        !done ==> final(buf)@ == (match ev {
            KeyInput::Char(c) => if c == '\t' {
                old(buf)@
            } else {
                old(buf)@.push(c)
            },
            KeyInput::Backspace => if old(buf)@.len() > 0 {
                old(buf)@.drop_last()
            } else {
                old(buf)@
            },
            _ => old(buf)@,
        }),
{
    match ev {
        KeyInput::Char(c) => {
            if c == '\n' {
                true
            } else {
                if c != '\t' {
                    crate::text::push_char(buf, c);
                }
                false
            }
        },
        KeyInput::Backspace => {
            let _ = crate::text::pop_char(buf);
            false
        },
        _ => { false },
    }
}

/// The committed line that a sequence of keyboard events produces, applying
/// each edit left to right and stopping at the first Enter: printable
/// characters append, Backspace pops, a tab is ignored like every other
/// key.
pub open spec fn edit_fold(buf: Seq<char>, events: Seq<KeyInput>) -> Seq<char>
    decreases events.len(),
{
    if events.len() == 0 {
        buf
    } else {
        let rest = events.drop_first();
        match events[0] {
            KeyInput::Char(c) => if c == '\n' {
                buf
            } else if c == '\t' {
                edit_fold(buf, rest)
            } else {
                edit_fold(buf.push(c), rest)
            },
            KeyInput::Backspace => edit_fold(
                if buf.len() > 0 {
                    buf.drop_last()
                } else {
                    buf
                },
                rest,
            ),
            _ => edit_fold(buf, rest),
        }
    }
}

/// Runs the line editor over a whole event sequence: the committed line is
/// the left-to-right fold of the edits, as `edit_fold` describes.
pub fn run_editor(events: &Vec<KeyInput>) -> (line: String)
    ensures
        line@ == edit_fold(Seq::<char>::empty(), events@),
{
    let mut buf = String::new();
    let mut i: usize = 0;
    proof {
        assert(events@.skip(0) =~= events@);
    }
    while i < events.len()
        invariant
            i <= events@.len(),
            edit_fold(Seq::<char>::empty(), events@) == edit_fold(buf@, events@.skip(i as int)),
        decreases events@.len() - i,
    {
        let ghost pre = buf@;
        let done = edit_step(&mut buf, events[i]);
        i = i + 1;
        proof {
            assert(events@.skip(i - 1)[0] == events@[i - 1]);
            assert(events@.skip(i - 1).drop_first() =~= events@.skip(i as int));
        }
        if done {
            return buf;
        }
    }
    proof {
        assert(events@.skip(events@.len() as int) =~= Seq::<KeyInput>::empty());
    }
    buf
}

/// The navigation signal a key maps to: Enter, Right and Down advance,
/// Backspace and Left retreat, Tab exits the view, and every other key is
/// ignored.
pub open spec fn spec_nav_signal(ev: KeyInput) -> Option<i16> {
    match ev {
        KeyInput::Char(c) => if c == '\n' {
            Some(1i16)
        } else if c == '\t' {
            Some(0i16)
        } else {
            None
        },
        KeyInput::Right => Some(1i16),
        KeyInput::Down => Some(1i16),
        KeyInput::Backspace => Some(-1i16),
        KeyInput::Left => Some(-1i16),
        _ => None,
    }
}

/// Maps one key to its navigation signal; `None` means the key is ignored
/// and the next event is read.
pub fn nav_signal(ev: KeyInput) -> (r: Option<i16>)
    ensures
        r == spec_nav_signal(ev),
{
    match ev {
        KeyInput::Char(c) => {
            if c == '\n' {
                Some(1)
            } else if c == '\t' {
                Some(0)
            } else {
                None
            }
        },
        KeyInput::Right => Some(1),
        KeyInput::Down => Some(1),
        KeyInput::Backspace => Some(-1),
        KeyInput::Left => Some(-1),
        _ => None,
    }
}

/// The modal settings form: two editable key fields and the Cancel and
/// Submit actions, one of the four active at a time.
pub struct SettingsForm {
    pub username: String,
    pub password: String,
    pub active_field: usize,
}

/// How the settings form was left.
#[derive(Clone, Copy, Debug, PartialEq, Eq, Structural)]
pub enum SettingsExit {
    Submitted,
    Cancelled,
    Aborted,
}

/// Whether two form states hold the same fields.
pub open spec fn form_eq(a: SettingsForm, b: SettingsForm) -> bool {
    a.username@ == b.username@ && a.password@ == b.password@ && a.active_field == b.active_field
}

impl SettingsForm {
    /// A fresh form: both fields empty, the first field active.
    pub fn new_form() -> (r: SettingsForm)
        ensures
            r.username@ == Seq::<char>::empty(),
            r.password@ == Seq::<char>::empty(),
            r.active_field == 0,
    {
        SettingsForm { username: String::new(), password: String::new(), active_field: 0 }
    }
}

/// One step of the settings form: Tab cycles the active field, Enter on
/// Submit or Cancel leaves the form, Backspace and characters edit the
/// active text field, Escape aborts, and every other key is ignored.
pub fn settings_step(form: &mut SettingsForm, ev: KeyInput) -> (r: Option<SettingsExit>)
    requires
        old(form).active_field < 4,
    ensures
        final(form).active_field < 4,
        match ev {
            KeyInput::Char(c) => if c == '\t' {
                r is None && final(form).active_field == (old(form).active_field + 1) % 4
                    && final(form).username@ == old(form).username@ && final(form).password@ == old(
                    form,
                ).password@
            } else if c == '\n' {
                form_eq(*final(form), *old(form)) && r == (if old(form).active_field == 3 {
                    Some(SettingsExit::Submitted)
                } else if old(form).active_field == 2 {
                    Some(SettingsExit::Cancelled)
                } else {
                    None::<SettingsExit>
                })
            } else {
                r is None && final(form).active_field == old(form).active_field && (if old(
                    form,
                ).active_field == 0 {
                    final(form).username@ == old(form).username@.push(c) && final(form).password@
                        == old(form).password@
                } else if old(form).active_field == 1 {
                    final(form).password@ == old(form).password@.push(c) && final(form).username@
                        == old(form).username@
                } else {
                    final(form).username@ == old(form).username@ && final(form).password@ == old(
                        form,
                    ).password@
                })
            },
            KeyInput::Backspace => r is None && final(form).active_field == old(form).active_field
                && (if old(form).active_field == 0 {
                final(form).username@ == (if old(form).username@.len() > 0 {
                    old(form).username@.drop_last()
                } else {
                    old(form).username@
                }) && final(form).password@ == old(form).password@
            } else if old(form).active_field == 1 {
                final(form).password@ == (if old(form).password@.len() > 0 {
                    old(form).password@.drop_last()
                } else {
                    old(form).password@
                }) && final(form).username@ == old(form).username@
            } else {
                final(form).username@ == old(form).username@ && final(form).password@ == old(
                    form,
                ).password@
            }),
            KeyInput::Esc => form_eq(*final(form), *old(form)) && r == Some(SettingsExit::Aborted),
            _ => form_eq(*final(form), *old(form)) && r is None,
        },
{
    match ev {
        KeyInput::Char(c) => {
            if c == '\t' {
                form.active_field = (form.active_field + 1) % 4;
                None
            } else if c == '\n' {
                if form.active_field == 3 {
                    Some(SettingsExit::Submitted)
                } else if form.active_field == 2 {
                    Some(SettingsExit::Cancelled)
                } else {
                    None
                }
            } else {
                if form.active_field == 0 {
                    crate::text::push_char(&mut form.username, c);
                } else if form.active_field == 1 {
                    crate::text::push_char(&mut form.password, c);
                }
                None
            }
        },
        KeyInput::Backspace => {
            if form.active_field == 0 {
                let _ = crate::text::pop_char(&mut form.username);
            } else if form.active_field == 1 {
                let _ = crate::text::pop_char(&mut form.password);
            }
            None
        },
        KeyInput::Esc => Some(SettingsExit::Aborted),
        _ => None,
    }
}

/// The reverse-video or dim selection marker for a form element.
pub open spec fn spec_sel(hl: bool) -> Seq<char> {
    if hl {
        "\x1b[7m"@
    } else {
        "\x1b[2m"@
    }
}

/// A field value padded on the right with spaces to 20 characters.
pub open spec fn spec_pad20(s: Seq<char>) -> Seq<char> {
    if s.len() < 20 {
        s + spaces((20 - s.len()) as nat)
    } else {
        s
    }
}

/// The settings form rendered as text: two boxed, labelled fields and the
/// Cancel and Submit buttons, the active element highlighted.
pub open spec fn spec_settings_text(u: Seq<char>, p: Seq<char>, af: int) -> Seq<char> {
    spec_box_text(18, 5, 33, 3) + spec_goto(19, 5) + spec_sel(af == 0) + "\x1b[36m"@
        + "Brave API Key:"@ + "\x1b[0m"@ + "\x1b[0m"@ + spec_goto(19, 6) + spec_pad20(u)
        + spec_box_text(18, 9, 33, 3) + spec_goto(19, 9) + spec_sel(af == 1) + "\x1b[36m"@
        + "OpenAI API Key:"@ + "\x1b[0m"@ + "\x1b[0m"@ + spec_goto(19, 10) + spec_pad20(p)
        + spec_goto(10, 15) + spec_sel(af == 2) + "[ "@ + "\x1b[33m"@ + "Cancel"@ + "\x1b[0m"@
        + " ]"@ + "\x1b[0m"@ + spec_goto(45, 15) + spec_sel(af == 3) + "[ "@ + "\x1b[32m"@
        + "Submit"@ + "\x1b[0m"@ + " ]"@ + "\x1b[0m"@
}

/// Appends `s` padded on the right with spaces to 20 characters.
fn push_pad20(out: &mut String, s: &str)
    ensures
        final(out)@ == old(out)@ + spec_pad20(s@),
{
    let l = s.unicode_len();
    out.append(s);
    if l < 20 {
        push_spaces(out, (20 - l) as u16);
        proof {
            assert(out@ =~= old(out)@ + spec_pad20(s@));
        }
    }
}

/// Appends the selection marker for an element that is active iff `hl`.
fn push_sel(out: &mut String, hl: bool)
    ensures
        final(out)@ == old(out)@ + spec_sel(hl),
{
    if hl {
        out.append("\x1b[7m");
    } else {
        out.append("\x1b[2m");
    }
}

/// The text that draws the whole settings form, as `spec_settings_text`
/// describes it.
pub fn render_settings_text(username: &str, password: &str, active_field: usize) -> (r: String)
    ensures
        r@ == spec_settings_text(username@, password@, active_field as int),
{
    let mut r = box_text(18, 5, 33, 3);
    push_goto(&mut r, 19, 5);
    push_sel(&mut r, active_field == 0);
    r.append("\x1b[36m");
    r.append("Brave API Key:");
    r.append("\x1b[0m");
    r.append("\x1b[0m");
    push_goto(&mut r, 19, 6);
    push_pad20(&mut r, username);
    let second = box_text(18, 9, 33, 3);
    r.append(second.as_str());
    push_goto(&mut r, 19, 9);
    push_sel(&mut r, active_field == 1);
    r.append("\x1b[36m");
    r.append("OpenAI API Key:");
    r.append("\x1b[0m");
    r.append("\x1b[0m");
    push_goto(&mut r, 19, 10);
    push_pad20(&mut r, password);
    push_goto(&mut r, 10, 15);
    push_sel(&mut r, active_field == 2);
    r.append("[ ");
    r.append("\x1b[33m");
    r.append("Cancel");
    r.append("\x1b[0m");
    r.append(" ]");
    r.append("\x1b[0m");
    push_goto(&mut r, 45, 15);
    push_sel(&mut r, active_field == 3);
    r.append("[ ");
    r.append("\x1b[32m");
    r.append("Submit");
    r.append("\x1b[0m");
    r.append(" ]");
    r.append("\x1b[0m");
    proof {
        assert(r@ =~= spec_settings_text(username@, password@, active_field as int));
    }
    r
}

/// The text shown when the settings form is left through Submit or
/// Cancel; leaving through Escape shows nothing.
pub fn settings_exit_text(form: &SettingsForm, exit: SettingsExit) -> (r: String)
    ensures
        exit == SettingsExit::Submitted ==> r@ == spec_goto(1, 15) + "\x1b[J"@
            + "\nSubmitted! Username: "@ + form.username@ + ", Password: "@ + form.password@
            + "\nPress any key to exit."@,
        exit == SettingsExit::Cancelled ==> r@ == spec_goto(1, 15) + "\x1b[J"@ + "\nCancelled!!"@,
        exit == SettingsExit::Aborted ==> r@ == Seq::<char>::empty(),
{
    match exit {
        SettingsExit::Submitted => {
            let mut r = goto_text(1, 15);
            r.append("\x1b[J");
            r.append("\nSubmitted! Username: ");
            r.append(form.username.as_str());
            r.append(", Password: ");
            r.append(form.password.as_str());
            r.append("\nPress any key to exit.");
            proof {
                assert(r@ =~= spec_goto(1, 15) + "\x1b[J"@ + "\nSubmitted! Username: "@
                    + form.username@ + ", Password: "@ + form.password@
                    + "\nPress any key to exit."@);
            }
            r
        },
        SettingsExit::Cancelled => {
            let mut r = goto_text(1, 15);
            r.append("\x1b[J");
            r.append("\nCancelled!!");
            proof {
                assert(r@ =~= spec_goto(1, 15) + "\x1b[J"@ + "\nCancelled!!"@);
            }
            r
        },
        SettingsExit::Aborted => String::new(),
    }
}

/// One terminal-state-changing operation, as the driver issues them.
#[derive(Clone, Copy, Debug, PartialEq, Eq, Structural)]
pub enum TermOp {
    EnterRaw,
    ReleaseRaw,
    ClearAll,
    ShowCursor,
    HideCursor,
    MoveTo(u16, u16),
    SetStyle,
    ResetStyle,
    PutText,
    Flush,
}

/// The observable terminal state the operations act on.
pub struct TermModel {
    pub raw: bool,
    pub cursor_visible: bool,
    pub default_colors: bool,
}

/// A terminal left with default colors, a visible cursor and out of raw
/// mode.
pub open spec fn restored(m: TermModel) -> bool {
    !m.raw && m.cursor_visible && m.default_colors
}

/// The effect of one operation on the terminal state.
pub open spec fn apply_op(m: TermModel, op: TermOp) -> TermModel {
    match op {
        TermOp::EnterRaw => TermModel { raw: true, ..m },
        TermOp::ReleaseRaw => TermModel { raw: false, ..m },
        TermOp::ShowCursor => TermModel { cursor_visible: true, ..m },
        TermOp::HideCursor => TermModel { cursor_visible: false, ..m },
        TermOp::SetStyle => TermModel { default_colors: false, ..m },
        TermOp::ResetStyle => TermModel { default_colors: true, ..m },
        _ => m,
    }
}

/// The effect of a whole operation sequence, applied left to right.
pub open spec fn apply_ops(m: TermModel, ops: Seq<TermOp>) -> TermModel
    decreases ops.len(),
{
    if ops.len() == 0 {
        m
    } else {
        apply_ops(apply_op(m, ops[0]), ops.drop_first())
    }
}

/// The fixed shutdown sequence: reset the colors, clear the screen, show
/// the cursor, park it at the origin, flush, and release raw mode.
pub open spec fn spec_shutdown_ops() -> Seq<TermOp> {
    seq![
        TermOp::ResetStyle,
        TermOp::ClearAll,
        TermOp::ShowCursor,
        TermOp::MoveTo(1, 1),
        TermOp::Flush,
        TermOp::ReleaseRaw,
    ]
}

/// The shutdown sequence, in the exact order the driver must issue it.
pub fn shutdown_ops() -> (r: Vec<TermOp>)
    ensures
        r@ == spec_shutdown_ops(),
{
    let mut r: Vec<TermOp> = Vec::new();
    r.push(TermOp::ResetStyle);
    r.push(TermOp::ClearAll);
    r.push(TermOp::ShowCursor);
    r.push(TermOp::MoveTo(1, 1));
    r.push(TermOp::Flush);
    r.push(TermOp::ReleaseRaw);
    proof {
        assert(r@ =~= spec_shutdown_ops());
    }
    r
}

/// The escape text of the screen-affecting part of the shutdown sequence;
/// releasing raw mode is not an escape write and follows the flush.
pub fn shutdown_text() -> (r: String)
    ensures
        r@ == "\x1b[0m"@ + "\x1b[2J"@ + "\x1b[?25h"@ + spec_goto(1, 1),
{
    let mut r = String::from_str("\x1b[0m");
    r.append("\x1b[2J");
    r.append("\x1b[?25h");
    push_goto(&mut r, 1, 1);
    proof {
        assert(r@ =~= "\x1b[0m"@ + "\x1b[2J"@ + "\x1b[?25h"@ + spec_goto(1, 1));
    }
    r
}

/// Whatever state the terminal has reached on any exit path, issuing the
/// shutdown sequence leaves it with default colors, a visible cursor and
/// out of raw mode.
pub proof fn lemma_shutdown_restores(m: TermModel)
    ensures
        restored(apply_ops(m, spec_shutdown_ops())),
{
    let ops = spec_shutdown_ops();
    let m1 = apply_op(m, ops[0]);
    assert(apply_ops(m, ops) == apply_ops(m1, ops.drop_first())) by {
        assert(ops.len() > 0);
    }
    let s1 = ops.drop_first();
    let s2 = s1.drop_first();
    let s3 = s2.drop_first();
    let s4 = s3.drop_first();
    let s5 = s4.drop_first();
    let s6 = s5.drop_first();
    assert(s6.len() == 0);
    let m2 = apply_op(m1, s1[0]);
    let m3 = apply_op(m2, s2[0]);
    let m4 = apply_op(m3, s3[0]);
    let m5 = apply_op(m4, s4[0]);
    let m6 = apply_op(m5, s5[0]);
    assert(apply_ops(m1, s1) == apply_ops(m2, s2));
    assert(apply_ops(m2, s2) == apply_ops(m3, s3));
    assert(apply_ops(m3, s3) == apply_ops(m4, s4));
    assert(apply_ops(m4, s4) == apply_ops(m5, s5));
    assert(apply_ops(m5, s5) == apply_ops(m6, s6));
    assert(apply_ops(m6, s6) == m6);
    assert(restored(m6));
}

} // verus!
