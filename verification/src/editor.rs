use vstd::prelude::*;
use crate::document::Document;
use crate::row::Row;
use crate::row::window;
use crate::terminal::Size;

verus! {

/// The logical cursor in document coordinate space: zero-based column
/// `x` and row `y`. Distinct from the terminal's own 1-based physical
/// coordinate space; the two are never conflated.
#[derive(Clone, Copy, Debug, PartialEq, Eq, Structural)]
pub struct Position {
    pub x: usize,
    pub y: usize,
}

impl Default for Position {
    /// The origin: top-left of the document.
    fn default() -> (p: Position)
        ensures
            p.x == 0 && p.y == 0,
    {
        Position { x: 0, y: 0 }
    }
}

/// One logical key event, decoded once at the input boundary: a
/// printable character, a control-modified character, a named
/// navigation key, or anything else, left unrecognized.
#[derive(Clone, Copy, Debug, PartialEq, Eq, Structural)]
pub enum Key {
    Char(char),
    Ctrl(char),
    Up,
    Down,
    Left,
    Right,
    Home,
    End,
    PageUp,
    PageDown,
    Other,
}

/// Largest row the cursor may reach: one less than the viewport height,
/// saturating at zero so a zero-height viewport never underflows.
pub open spec fn height_bound(size: Size) -> int {
    if size.height > 0 { size.height - 1 } else { 0 }
}

/// Largest column the cursor may reach: one less than the viewport
/// width, saturating at zero so a zero-width viewport never underflows.
pub open spec fn width_bound(size: Size) -> int {
    if size.width > 0 { size.width - 1 } else { 0 }
}

/// Whether `key` is one of the navigation keys that move the cursor.
pub open spec fn is_navigation(key: Key) -> bool {
    match key {
        Key::Up | Key::Down | Key::Left | Key::Right => true,
        Key::Home | Key::End | Key::PageUp | Key::PageDown => true,
        _ => false,
    }
}

/// Where the cursor stands after one key, updating exactly one axis:
/// Up/Down/Left/Right move by one unit, saturating at zero and clamped
/// to the viewport bounds; PageUp/PageDown jump to the top/bottom row;
/// Home/End jump to the first/last column; any other key changes
/// nothing.
pub open spec fn moved_position(p: Position, key: Key, size: Size) -> Position {
    let h = height_bound(size);
    let w = width_bound(size);
    match key {
        Key::Up => Position { x: p.x, y: if p.y > 0 { (p.y - 1) as usize } else { 0 } },
        Key::Down => Position {
            x: p.x,
            y: if p.y < h { (p.y + 1) as usize } else { p.y },
        },
        Key::Left => Position { x: if p.x > 0 { (p.x - 1) as usize } else { 0 }, y: p.y },
        Key::Right => Position {
            x: if p.x < w { (p.x + 1) as usize } else { p.x },
            y: p.y,
        },
        Key::PageUp => Position { x: p.x, y: 0 },
        Key::PageDown => Position { x: p.x, y: h as usize },
        Key::Home => Position { x: 0, y: p.y },
        Key::End => Position { x: w as usize, y: p.y },
        _ => p,
    }
}

/// Where the cursor stands after the same key is pressed `n` times.
pub open spec fn moved_repeat(p: Position, key: Key, size: Size, n: nat) -> Position
    decreases n,
{
    if n == 0 {
        p
    } else {
        moved_position(moved_repeat(p, key, size, (n - 1) as nat), key, size)
    }
}

/// Repeated Left and Up moves saturate: the coordinate loses one unit
/// per press until it reaches zero and then stays there, never
/// wrapping below zero; the other axis never moves.
pub proof fn lemma_left_up_saturate(p: Position, size: Size, n: nat)
    ensures
        moved_repeat(p, Key::Left, size, n).x == if p.x >= n { p.x - n } else { 0 },
        moved_repeat(p, Key::Left, size, n).y == p.y,
        moved_repeat(p, Key::Up, size, n).y == if p.y >= n { p.y - n } else { 0 },
        moved_repeat(p, Key::Up, size, n).x == p.x,
    decreases n,
{
    if n > 0 {
        lemma_left_up_saturate(p, size, (n - 1) as nat);
    }
}

/// Repeated Right and Down moves are clamped by the viewport: starting
/// at or inside the bound, the coordinate gains one unit per press
/// until it reaches `width - 1` / `height - 1` and then stays there,
/// never exceeding the bound; the other axis never moves.
pub proof fn lemma_right_down_clamp(p: Position, size: Size, n: nat)
    ensures
        p.x <= width_bound(size) ==> moved_repeat(p, Key::Right, size, n).x
            == if p.x + n <= width_bound(size) { p.x + n } else { width_bound(size) },
        p.y <= height_bound(size) ==> moved_repeat(p, Key::Down, size, n).y
            == if p.y + n <= height_bound(size) { p.y + n } else { height_bound(size) },
        moved_repeat(p, Key::Right, size, n).y == p.y,
        moved_repeat(p, Key::Down, size, n).x == p.x,
    decreases n,
{
    if n > 0 {
        lemma_right_down_clamp(p, size, (n - 1) as nat);
    }
}

/// The greeting shown on the centered row of an empty document.
pub const WELCOME_MESSAGE: &'static str = "Hecto editor -- version 0.1.0";

/// The welcome banner for viewport width `width`: a leading marker
/// glyph, then enough spaces to center the message, then the message,
/// the whole truncated to `width` characters so it never overflows the
/// line.
pub open spec fn banner_text(msg: Seq<char>, width: int) -> Seq<char> {
    let padding = if width > msg.len() { (width - msg.len()) / 2 } else { 0 };
    let spaces = if padding > 0 { padding - 1 } else { 0 };
    let full = seq!['~'] + Seq::new(spaces as nat, |i: int| ' ') + msg;
    if full.len() > width {
        full.subrange(0, width)
    } else {
        full
    }
}

/// Builds the welcome banner for a message and a viewport width.
pub fn welcome_banner(msg: &str, width: usize) -> (r: String)
    ensures
        r@ == banner_text(msg@, width as int),
{
    let len: usize = msg.unicode_len();
    let padding: usize = if width > len { (width - len) / 2 } else { 0 };
    let spaces: usize = if padding > 0 { padding - 1 } else { 0 };
    let mut s = String::new();
    proof {
        reveal_strlit("~");
    }
    s.append("~");
    proof {
        assert(s@ =~= seq!['~'] + Seq::new(0nat, |i: int| ' '));
    }
    let mut k: usize = 0;
    while k < spaces
        invariant
            k <= spaces,
            s@ == seq!['~'] + Seq::new(k as nat, |i: int| ' '),
        decreases spaces - k,
    {
        s.append(" ");
        proof {
            reveal_strlit(" ");
            assert(s@ =~= seq!['~'] + Seq::new((k + 1) as nat, |i: int| ' '));
        }
        k = k + 1;
    }
    s.append(msg);
    let ghost full = seq!['~'] + Seq::new(spaces as nat, |i: int| ' ') + msg@;
    proof {
        assert(s@ =~= full);
    }
    let total: usize = s.as_str().unicode_len();
    if total > width {
        let t = s.as_str().substring_char(0, width);
        t.to_owned()
    } else {
        s
    }
}

/// For a message no wider than the viewport, the banner's length is
/// exactly the smaller of the viewport width and of marker + centering
/// spaces + message, and the banner is left-anchored with the marker
/// glyph.
pub proof fn lemma_banner_len(msg: Seq<char>, width: int)
    requires
        0 <= width,
        msg.len() <= width,
    ensures
        ({
            let padding = (width - msg.len()) / 2;
            let spaces = if padding > 0 { padding - 1 } else { 0 };
            banner_text(msg, width).len() == if 1 + spaces + msg.len() <= width {
                1 + spaces + msg.len()
            } else {
                width
            }
        }),
        width >= 1 ==> banner_text(msg, width)[0] == '~',
{
    let padding = (width - msg.len()) / 2;
    let spaces = if padding > 0 { padding - 1 } else { 0 };
    let full = seq!['~'] + Seq::new(spaces as nat, |i: int| ' ') + msg;
    assert(full[0] == '~');
    assert(full.len() == 1 + spaces + msg.len());
}

/// What one screen row shows: the document line at the same index,
/// rendered through the viewport-wide window, when there is one; on an
/// empty document the vertically-centered row shows the welcome
/// banner; every other row shows the placeholder glyph.
pub open spec fn screen_line(doc: Seq<Seq<char>>, size: Size, i: int) -> Seq<char> {
    if 0 <= i && i < doc.len() {
        window(doc[i], 0, size.width as int)
    } else if doc.len() == 0 && i == size.height as int / 3 {
        banner_text(WELCOME_MESSAGE@, size.width as int)
    } else {
        seq!['~']
    }
}

/// The orchestrating state machine: the quit flag, the viewport size
/// queried at startup, the logical cursor, and the document on show.
/// The device handle itself lives with the caller; this state decides,
/// the caller performs the I/O.
pub struct Editor {
    should_quit: bool,
    size: Size,
    cursor_position: Position,
    document: Document,
}

impl Editor {
    /// Whether the state machine has decided to quit.
    pub closed spec fn quitting(&self) -> bool {
        self.should_quit
    }

    /// The logical cursor.
    pub closed spec fn cursor(&self) -> Position {
        self.cursor_position
    }

    /// The viewport size the editor was built with.
    pub closed spec fn viewport(&self) -> Size {
        self.size
    }

    /// The lines of the document on show.
    pub closed spec fn doc(&self) -> Seq<Seq<char>> {
        self.document@
    }

    /// The cursor never leaves the viewport bounds.
    pub open spec fn wf(&self) -> bool {
        self.cursor().x <= width_bound(self.viewport()) && self.cursor().y <= height_bound(
            self.viewport(),
        )
    }

    /// A fresh editor over `document` in a viewport of `size`: running
    /// (not quitting), cursor at the origin.
    pub fn new(document: Document, size: Size) -> (e: Editor)
        ensures
            !e.quitting(),
            e.cursor() == (Position { x: 0, y: 0 }),
            e.viewport() == size,
            e.doc() == document@,
            e.wf(),
    {
        Editor { should_quit: false, size, cursor_position: Position { x: 0, y: 0 }, document }
    }

    /// Whether the editor has decided to quit.
    pub fn should_quit(&self) -> (b: bool)
        ensures
            b == self.quitting(),
    {
        self.should_quit
    }

    /// The current cursor position.
    pub fn cursor_position(&self) -> (p: Position)
        ensures
            p == self.cursor(),
    {
        self.cursor_position
    }

    /// The viewport size.
    pub fn size(&self) -> (s: Size)
        ensures
            s == self.viewport(),
    {
        self.size
    }

    /// The document on show.
    pub fn document(&self) -> (d: &Document)
        ensures
            d@ == self.doc(),
    {
        &self.document
    }

    /// Moves the cursor for one navigation key, updating exactly one
    /// axis with saturation and clamping; the new position replaces the
    /// old one atomically.
    pub fn move_cursor(&mut self, key: Key)
        ensures
            final(self).cursor() == moved_position(old(self).cursor(), key, old(self).viewport()),
            final(self).quitting() == old(self).quitting(),
            final(self).viewport() == old(self).viewport(),
            final(self).doc() == old(self).doc(),
            old(self).wf() ==> final(self).wf(),
    {
        let mut x: usize = self.cursor_position.x;
        let mut y: usize = self.cursor_position.y;
        let height: u16 = if self.size.height > 0 { self.size.height - 1 } else { 0 };
        let width: u16 = if self.size.width > 0 { self.size.width - 1 } else { 0 };
        match key {
            Key::Up => {
                y = if y > 0 { y - 1 } else { 0 };
            },
            Key::Down => {
                if y < height as usize {
                    y = y + 1;
                }
            },
            Key::Left => {
                x = if x > 0 { x - 1 } else { 0 };
            },
            Key::Right => {
                if x < width as usize {
                    x = x + 1;
                }
            },
            Key::PageUp => {
                y = 0;
            },
            Key::PageDown => {
                y = height as usize;
            },
            Key::Home => {
                x = 0;
            },
            Key::End => {
                x = width as usize;
            },
            _ => {},
        }
        self.cursor_position = Position { x, y };
    }

    /// The text a document row contributes to the screen: its window
    /// across the full viewport width, starting at the left edge.
    pub fn render_row(&self, row: &Row) -> (r: String)
        ensures
            r@ == window(row@, 0, self.viewport().width as int),
    {
        row.render(0, self.size.width as usize)
    }

    /// The content of one full refresh, top to bottom: one string per
    /// drawn screen row. All rows but the last are drawn (the last is
    /// reserved for a future status line), and each shows what
    /// `screen_line` says.
    pub fn render_rows(&self) -> (lines: Vec<String>)
        ensures
            lines@.len() == height_bound(self.viewport()),
            forall|i: int|
                0 <= i < lines@.len() ==> lines@[i]@ == screen_line(
                    self.doc(),
                    self.viewport(),
                    i,
                ),
    {
        let count: u16 = if self.size.height > 0 { self.size.height - 1 } else { 0 };
        let center: usize = (self.size.height / 3) as usize;
        let mut lines: Vec<String> = Vec::new();
        let mut r: usize = 0;
        while r < count as usize
            invariant
                r == lines@.len(),
                r <= count as usize,
                count as int == height_bound(self.viewport()),
                center as int == self.viewport().height as int / 3,
                forall|i: int|
                    0 <= i < r ==> lines@[i]@ == screen_line(self.doc(), self.viewport(), i),
            decreases count as int - r,
        {
            match self.document.row(r) {
                Some(row) => {
                    lines.push(row.render(0, self.size.width as usize));
                },
                None => {
                    if self.document.is_empty() && r == center {
                        lines.push(welcome_banner(WELCOME_MESSAGE, self.size.width as usize));
                    } else {
                        proof {
                            reveal_strlit("~");
                        }
                        lines.push("~".to_owned());
                    }
                },
            }
            r = r + 1;
        }
        lines
    }

    /// Dispatches one key event: the quit control key sets the quit
    /// flag, a navigation key moves the cursor, and every other key has
    /// no observable effect.
    pub fn process_keypress(&mut self, key: Key)
        ensures
            final(self).viewport() == old(self).viewport(),
            final(self).doc() == old(self).doc(),
            key == Key::Ctrl('q') ==> final(self).quitting() && final(self).cursor() == old(
                self,
            ).cursor(),
            is_navigation(key) ==> final(self).cursor() == moved_position(
                old(self).cursor(),
                key,
                old(self).viewport(),
            ) && final(self).quitting() == old(self).quitting(),
            !(key == Key::Ctrl('q')) && !is_navigation(key) ==> final(self).cursor() == old(
                self,
            ).cursor() && final(self).quitting() == old(self).quitting(),
            old(self).wf() ==> final(self).wf(),
    {
        match key {
            Key::Ctrl(c) => {
                if c == 'q' {
                    self.should_quit = true;
                }
            },
            Key::Up | Key::Down | Key::Left | Key::Right | Key::PageUp | Key::PageDown
                | Key::Home | Key::End => {
                self.move_cursor(key);
            },
            _ => {},
        }
    }
}

} // verus!
