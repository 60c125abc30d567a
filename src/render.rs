use vstd::prelude::*;

use crate::editor::{Cursor, Editor};
use crate::mode::{label_of, Mode};
use crate::terminal::{commands_view, queue, Color, Command, CommandView, Style};

verus! {

/// The narrowest terminal that shows the status line: the widest mode
/// segment (8 cells), the two separators, the placeholder (12 cells) and the
/// widest position segment (12 cells, both coordinates at 65536).
pub const STATUS_MIN_WIDTH: u16 = 34;

/// The glyph between the mode segment and the filler.
pub const LEFT_SEPARATOR: char = '\u{e0b0}';

/// The glyph between the filler and the position segment.
pub const RIGHT_SEPARATOR: char = '\u{e0b2}';

/// The fixed label shown in the filler segment.
pub open spec fn placeholder() -> Seq<char> {
    seq![' ', 's', 'r', 'c', '/', 'm', 'a', 'i', 'n', '.', 'r', 's']
}

/// The character of a decimal digit.
pub open spec fn digit_char(d: nat) -> char {
    if d == 0 { '0' }
    else if d == 1 { '1' }
    else if d == 2 { '2' }
    else if d == 3 { '3' }
    else if d == 4 { '4' }
    else if d == 5 { '5' }
    else if d == 6 { '6' }
    else if d == 7 { '7' }
    else if d == 8 { '8' }
    else { '9' }
}

/// The decimal digits of `n`, most significant first, without leading zeros.
pub open spec fn decimal(n: nat) -> Seq<char>
    decreases n,
{
    if n < 10 {
        seq![digit_char(n)]
    } else {
        decimal(n / 10).push(digit_char(n % 10))
    }
}

/// `n` spaces.
pub open spec fn spaces(n: nat) -> Seq<char> {
    Seq::new(n, |i: int| ' ')
}

/// The bold label on the left of the status line.
pub open spec fn accent_style() -> Style {
    Style { fg: Color::Black, bg: Color::DarkCyan, bold: true }
}

/// The style of the separator glyphs.
pub open spec fn separator_style() -> Style {
    Style { fg: Color::DarkCyan, bg: Color::Grey, bold: false }
}

/// The style of the filler segment.
pub open spec fn filler_style() -> Style {
    Style { fg: Color::Black, bg: Color::Grey, bold: false }
}

/// The mode segment: the mode's label padded by one space on each side.
pub open spec fn mode_segment(m: Mode) -> Seq<char> {
    seq![' '] + label_of(m) + seq![' ']
}

/// The position segment: the cursor as 1-based `row:column`.
pub open spec fn position_segment(c: Cursor) -> Seq<char> {
    seq![' '] + decimal((c.y + 1) as nat) + seq![':'] + decimal((c.x + 1) as nat)
}

/// The cells left for the filler once the other segments are placed.
pub open spec fn filler_width(e: Editor) -> int {
    e.width - mode_segment(e.mode).len() - position_segment(e.cursor).len() - 2
}

/// The filler segment: the placeholder, padded with spaces to fill its width.
pub open spec fn filler_segment(e: Editor) -> Seq<char> {
    placeholder() + spaces((filler_width(e) - placeholder().len()) as nat)
}

/// Whether the terminal is large enough for the status line, which sits one
/// row above the bottom.
pub open spec fn shows_status(e: Editor) -> bool {
    e.width >= STATUS_MIN_WIDTH && e.height >= 2
}

/// The texts of the status line, left to right.
pub open spec fn status_segments(e: Editor) -> Seq<Seq<char>> {
    seq![
        mode_segment(e.mode),
        seq![LEFT_SEPARATOR],
        filler_segment(e),
        seq![RIGHT_SEPARATOR],
        position_segment(e.cursor),
    ]
}

/// The commands that draw the status line, or none on a terminal too small
/// for it.
pub open spec fn status_commands(e: Editor) -> Seq<CommandView> {
    if shows_status(e) {
        seq![
            CommandView::MoveTo(0, (e.height - 2) as u16),
            CommandView::PrintStyled(mode_segment(e.mode), accent_style()),
            CommandView::PrintStyled(seq![LEFT_SEPARATOR], separator_style()),
            CommandView::PrintStyled(filler_segment(e), filler_style()),
            CommandView::PrintStyled(seq![RIGHT_SEPARATOR], separator_style()),
            CommandView::PrintStyled(position_segment(e.cursor), accent_style()),
        ]
    } else {
        Seq::empty()
    }
}

/// One frame: the status line, then the live cursor placed last, then a flush.
pub open spec fn draw_commands(e: Editor) -> Seq<CommandView> {
    status_commands(e) + seq![CommandView::MoveTo(e.cursor.x, e.cursor.y), CommandView::Flush]
}

/// The total width of some segments.
pub open spec fn total_width(segs: Seq<Seq<char>>) -> int
    decreases segs.len(),
{
    if segs.len() == 0 {
        0
    } else {
        segs[0].len() + total_width(segs.drop_first())
    }
}

/// Bounds on the number of digits of a number.
pub proof fn lemma_decimal_len(n: nat)
    ensures
        decimal(n).len() >= 1,
        n < 10 ==> decimal(n).len() == 1,
        n < 100 ==> decimal(n).len() <= 2,
        n < 1000 ==> decimal(n).len() <= 3,
        n < 10000 ==> decimal(n).len() <= 4,
        n < 100000 ==> decimal(n).len() <= 5,
    decreases n,
{
    if n >= 10 {
        lemma_decimal_len(n / 10);
    }
}

/// The position segment is between 4 and 12 cells wide.
pub proof fn lemma_position_segment_len(c: Cursor)
    ensures
        4 <= position_segment(c).len() <= 12,
{
    let row = decimal((c.y + 1) as nat);
    let col = decimal((c.x + 1) as nat);
    lemma_decimal_len((c.y + 1) as nat);
    lemma_decimal_len((c.x + 1) as nat);
    assert(position_segment(c).len() == 2 + row.len() + col.len());
}

fn digit(d: u32) -> (r: char)
    requires
        d < 10,
    ensures
        r == digit_char(d as nat),
{
    if d == 0 { '0' }
    else if d == 1 { '1' }
    else if d == 2 { '2' }
    else if d == 3 { '3' }
    else if d == 4 { '4' }
    else if d == 5 { '5' }
    else if d == 6 { '6' }
    else if d == 7 { '7' }
    else if d == 8 { '8' }
    else { '9' }
}

/// Appends the decimal digits of `n`.
pub fn push_decimal(out: &mut Vec<char>, n: u32)
    ensures
        final(out)@ == old(out)@ + decimal(n as nat),
    decreases n,
{
    let ghost before = out@;
    if n >= 10 {
        push_decimal(out, n / 10);
    }
    out.push(digit(n % 10));
    assert(out@ =~= before + decimal(n as nat));
}

/// Appends the characters of `s`.
pub fn push_str(out: &mut Vec<char>, s: &str)
    ensures
        final(out)@ == old(out)@ + s@,
{
    let ghost before = out@;
    let n = s.unicode_len();
    let mut i: usize = 0;
    while i < n
        invariant
            n == s@.len(),
            i <= n,
            out@ =~= before + s@.subrange(0, i as int),
        decreases n - i,
    {
        out.push(s.get_char(i));
        i = i + 1;
    }
    assert(s@.subrange(0, n as int) =~= s@);
}

fn accent() -> (r: Style)
    ensures
        r == accent_style(),
{
    Style { fg: Color::Black, bg: Color::DarkCyan, bold: true }
}

fn separator() -> (r: Style)
    ensures
        r == separator_style(),
{
    Style { fg: Color::DarkCyan, bg: Color::Grey, bold: false }
}

fn filler() -> (r: Style)
    ensures
        r == filler_style(),
{
    Style { fg: Color::Black, bg: Color::Grey, bold: false }
}

impl Editor {
    /// The mode segment of the status line.
    pub fn mode_text(&self) -> (r: Vec<char>)
        ensures
            r@ == mode_segment(self.mode),
    {
        let mut v: Vec<char> = Vec::new();
        v.push(' ');
        push_str(&mut v, self.mode.label());
        v.push(' ');
        assert(v@ =~= mode_segment(self.mode));
        v
    }

    /// The position segment of the status line.
    pub fn position_text(&self) -> (r: Vec<char>)
        ensures
            r@ == position_segment(self.cursor),
    {
        let mut v: Vec<char> = Vec::new();
        v.push(' ');
        push_decimal(&mut v, self.cursor.y as u32 + 1);
        v.push(':');
        push_decimal(&mut v, self.cursor.x as u32 + 1);
        assert(v@ =~= position_segment(self.cursor));
        v
    }

    /// The filler segment of the status line: the placeholder padded with
    /// spaces to `width` cells.
    fn filler_text(width: usize) -> (r: Vec<char>)
        requires
            width >= placeholder().len(),
        ensures
            r@ == placeholder() + spaces((width - placeholder().len()) as nat),
    {
        let mut v: Vec<char> = Vec::new();
        proof {
            reveal_strlit(" src/main.rs");
        }
        push_str(&mut v, " src/main.rs");
        assert(v@ =~= placeholder());
        while v.len() < width
            invariant
                placeholder().len() <= v@.len() <= width,
                v@ =~= placeholder() + spaces((v@.len() - placeholder().len()) as nat),
            decreases width - v@.len(),
        {
            v.push(' ');
        }
        v
    }

    /// Queues the status line: mode label, filler and cursor position, which
    /// together span the terminal's width exactly. On a terminal narrower
    /// than `STATUS_MIN_WIDTH` or lower than two rows nothing is queued.
    pub fn draw_statusline(&self, out: &mut Vec<Command>)
        ensures
            commands_view(final(out)@) == commands_view(old(out)@) + status_commands(*self),
    {
        let ghost before = out@;
        if self.width < STATUS_MIN_WIDTH || self.height < 2 {
            assert(commands_view(out@) =~= commands_view(before) + status_commands(*self));
            return;
        }
        let mode = self.mode_text();
        let pos = self.position_text();
        proof {
            lemma_position_segment_len(self.cursor);
        }
        let width = self.width as usize - mode.len() - pos.len() - 2;
        let fill = Self::filler_text(width);
        assert(fill@ == filler_segment(*self));
        let left = vec![LEFT_SEPARATOR];
        assert(left@ == seq![LEFT_SEPARATOR]);
        queue(out, Command::MoveTo(0, self.height - 2));
        queue(out, Command::PrintStyled(mode, accent()));
        queue(out, Command::PrintStyled(left, separator()));
        queue(out, Command::PrintStyled(fill, filler()));
        let right = vec![RIGHT_SEPARATOR];
        assert(right@ == seq![RIGHT_SEPARATOR]);
        queue(out, Command::PrintStyled(right, separator()));
        queue(out, Command::PrintStyled(pos, accent()));
        assert(commands_view(out@) =~= commands_view(before) + status_commands(*self));
    }

    /// Queues one frame: the status line first, then the live cursor
    /// position as the last placement, then a flush.
    pub fn draw(&self, out: &mut Vec<Command>)
        ensures
            commands_view(final(out)@) == commands_view(old(out)@) + draw_commands(*self),
    {
        let ghost before = out@;
        self.draw_statusline(out);
        queue(out, Command::MoveTo(self.cursor.x, self.cursor.y));
        queue(out, Command::Flush);
        assert(commands_view(out@) =~= commands_view(before) + draw_commands(*self));
    }
}

} // verus!
