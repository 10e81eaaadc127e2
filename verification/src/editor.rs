use vstd::prelude::*;
use vstd::string::*;
use crate::document::{Document, Row, rendered_slice};

verus! {

/// A column/row position on the terminal grid, zero-based.
#[derive(Clone, Copy, Debug, PartialEq, Eq)]
pub struct Position {
    pub x: usize,
    pub y: usize,
}

impl Default for Position {
    fn default() -> (r: Self)
        ensures
            r.x == 0 && r.y == 0,
    {
        Position { x: 0, y: 0 }
    }
}

/// Input mode of the session. Movement keys act only in `Navigation`;
/// `Insertion` suppresses them until escape is pressed.
#[derive(Clone, Copy, Debug, PartialEq, Eq)]
pub enum Mode {
    Navigation,
    Insertion,
}

/// A decoded keypress, reduced to what the session distinguishes.
#[derive(Clone, Copy, Debug, PartialEq, Eq)]
pub enum Key {
    Char(char),
    Ctrl(char),
    Esc,
    Other,
}

/// The glyph the terminal cursor should take: a block while navigating,
/// a bar caret while inserting.
#[derive(Clone, Copy, Debug, PartialEq, Eq)]
pub enum CursorStyle {
    Block,
    Bar,
}

/// What one screen row should show: a numbered document line, the centered
/// welcome banner, or the bare `~` placeholder.
#[derive(Debug, PartialEq, Eq)]
pub enum ScreenRow {
    Content { index: usize, text: String },
    Welcome { text: String },
    Tilde,
}

/// One frame to put on the terminal: either the goodbye message of the final
/// quit render, or the visible rows together with where the cursor belongs.
#[derive(Debug, PartialEq, Eq)]
pub enum Frame {
    Goodbye { message: String },
    Draw { rows: Vec<ScreenRow>, cursor: Position },
}

/// Largest column the cursor may occupy on a terminal `width` columns wide.
pub open spec fn max_x(width: u16) -> int {
    if width == 0 {
        0
    } else {
        width - 1
    }
}

/// Largest row the cursor may occupy on a terminal `height` rows tall.
pub open spec fn max_y(height: u16) -> int {
    if height == 0 {
        0
    } else {
        height - 1
    }
}

/// Whether the key is one of the four movement keys.
pub open spec fn is_movement_key(key: Key) -> bool {
    key == Key::Char('h') || key == Key::Char('j') || key == Key::Char('k') || key == Key::Char(
        'l',
    )
}

/// Where one movement key sends the cursor: decrements saturate at zero,
/// increments stop at the terminal's last column and row.
pub open spec fn spec_move(pos: Position, key: Key, width: u16, height: u16) -> Position {
    match key {
        Key::Char(c) => {
            if c == 'k' {
                Position { x: pos.x, y: if pos.y == 0 { 0 } else { (pos.y - 1) as usize } }
            } else if c == 'j' {
                if pos.y < max_y(height) {
                    Position { x: pos.x, y: (pos.y + 1) as usize }
                } else {
                    pos
                }
            } else if c == 'h' {
                Position { x: if pos.x == 0 { 0 } else { (pos.x - 1) as usize }, y: pos.y }
            } else if c == 'l' {
                if pos.x < max_x(width) {
                    Position { x: (pos.x + 1) as usize, y: pos.y }
                } else {
                    pos
                }
            } else {
                pos
            }
        },
        _ => pos,
    }
}

/// The cursor after a keypress: it moves only in `Navigation` mode and only
/// for a movement key; every other key leaves it alone.
pub open spec fn cursor_after(mode: Mode, pos: Position, key: Key, width: u16, height: u16) -> Position {
    if mode is Navigation && is_movement_key(key) {
        spec_move(pos, key, width, height)
    } else {
        pos
    }
}

/// The mode after a keypress: escape always forces `Navigation`; `i` enters
/// `Insertion` from `Navigation`; nothing else changes the mode.
pub open spec fn mode_after(mode: Mode, key: Key) -> Mode {
    match key {
        Key::Esc => Mode::Navigation,
        Key::Char(c) => if c == 'i' && mode is Navigation {
            Mode::Insertion
        } else {
            mode
        },
        _ => mode,
    }
}

/// The quit flag after a keypress: set by control-q, never cleared.
pub open spec fn quit_after(quit: bool, key: Key) -> bool {
    quit || key == Key::Ctrl('q')
}

/// The cursor-glyph change a keypress asks of the terminal: escape restores
/// the block, entering insertion switches to the bar caret.
pub open spec fn style_change(mode: Mode, key: Key) -> Option<CursorStyle> {
    match key {
        Key::Esc => Some(CursorStyle::Block),
        Key::Char(c) => if c == 'i' && mode is Navigation {
            Some(CursorStyle::Bar)
        } else {
            None
        },
        _ => None,
    }
}

/// How many rows a frame draws: the last terminal row is reserved and left out.
pub open spec fn visible_rows(height: u16) -> int {
    if height == 0 {
        0
    } else {
        height - 1
    }
}

/// The text of the welcome banner.
pub open spec fn banner_text() -> Seq<char> {
    "Kekvim -- version 0.1.0\r"@
}

/// A run of `n` spaces.
pub open spec fn spaces(n: nat) -> Seq<char>
    decreases n,
{
    if n == 0 {
        Seq::empty()
    } else {
        spaces((n - 1) as nat).push(' ')
    }
}

/// The full welcome row for a terminal `width` columns wide: a leading `~`,
/// spaces that center the banner, the banner itself, all cut to `width`.
pub open spec fn welcome_line(width: u16) -> Seq<char> {
    let banner = banner_text();
    let padding = if width >= banner.len() {
        (width - banner.len()) / 2
    } else {
        0
    };
    let pad = if padding >= 1 {
        padding - 1
    } else {
        0
    };
    let full = seq!['~'] + spaces(pad as nat) + banner;
    if full.len() <= width {
        full
    } else {
        full.take(width as int)
    }
}

/// The message of the final render after quitting.
pub open spec fn goodbye_text() -> Seq<char> {
    "Succesfully exited..."@
}

/// What row `i` of the frame must show for this document and terminal size:
/// the numbered document line where one exists, else the welcome banner on
/// the center row of an empty document, else the bare `~`.
pub open spec fn row_matches(row: ScreenRow, doc: Document, width: u16, height: u16, i: int) -> bool {
    if i < doc.rows@.len() {
        &&& row matches ScreenRow::Content { index, text }
        &&& index == i
        &&& text@ == rendered_slice(doc.rows@[i].text@, 0, width as int)
    } else if doc.rows@.len() == 0 && i == height as int / 3 {
        &&& row matches ScreenRow::Welcome { text }
        &&& text@ == welcome_line(width)
    } else {
        row is Tilde
    }
}

/// What a frame must show for an editor state and terminal size: the goodbye
/// message once the session is quitting, otherwise every visible row together
/// with the editor's cursor.
pub open spec fn frame_matches(frame: Frame, ed: Editor, width: u16, height: u16) -> bool {
    if ed.should_quit {
        &&& frame matches Frame::Goodbye { message }
        &&& message@ == goodbye_text()
    } else {
        &&& frame matches Frame::Draw { rows, cursor }
        &&& cursor == ed.cursor_position
        &&& rows@.len() == visible_rows(height)
        &&& forall|i: int|
            0 <= i < rows@.len() ==> row_matches(#[trigger] rows@[i], ed.document, width, height, i)
    }
}

/// The cursor after a whole sequence of keys, dispatched in order as
/// movement while navigating, with the terminal size held fixed throughout.
pub open spec fn apply_keys(pos: Position, keys: Seq<Key>, width: u16, height: u16) -> Position
    decreases keys.len(),
{
    if keys.len() == 0 {
        pos
    } else {
        spec_move(apply_keys(pos, keys.drop_last(), width, height), keys.last(), width, height)
    }
}

/// Law: under any sequence of keys, with the terminal size unchanged in
/// between, a cursor that starts inside the usable area stays inside it:
/// the column never passes `max_x` and the row never passes `max_y`, and
/// both saturate at zero rather than wrapping (they are unsigned, so they
/// can never go negative).
pub proof fn lemma_cursor_stays_in_bounds(pos: Position, keys: Seq<Key>, width: u16, height: u16)
    requires
        pos.x <= max_x(width),
        pos.y <= max_y(height),
    ensures
        apply_keys(pos, keys, width, height).x <= max_x(width),
        apply_keys(pos, keys, width, height).y <= max_y(height),
    decreases keys.len(),
{
    if keys.len() > 0 {
        lemma_cursor_stays_in_bounds(pos, keys.drop_last(), width, height);
    }
}

/// Two screen rows that show the very same bytes: the same variant, the same
/// line number, the same text.
pub open spec fn same_screen_row(a: ScreenRow, b: ScreenRow) -> bool {
    match (a, b) {
        (
            ScreenRow::Content { index: ia, text: ta },
            ScreenRow::Content { index: ib, text: tb },
        ) => ia == ib && ta@ == tb@,
        (ScreenRow::Welcome { text: ta }, ScreenRow::Welcome { text: tb }) => ta@ == tb@,
        (ScreenRow::Tilde, ScreenRow::Tilde) => true,
        _ => false,
    }
}

/// Law: the rows of a frame are a function of the document and the terminal
/// size alone, so rendering twice from an unchanged state shows identical
/// rows both times.
pub proof fn lemma_draw_rows_idempotent(
    a: Seq<ScreenRow>,
    b: Seq<ScreenRow>,
    doc: Document,
    width: u16,
    height: u16,
)
    requires
        a.len() == visible_rows(height),
        b.len() == visible_rows(height),
        forall|i: int| 0 <= i < a.len() ==> row_matches(#[trigger] a[i], doc, width, height, i),
        forall|i: int| 0 <= i < b.len() ==> row_matches(#[trigger] b[i], doc, width, height, i),
    ensures
        a.len() == b.len(),
        forall|i: int| 0 <= i < a.len() ==> same_screen_row(#[trigger] a[i], b[i]),
{
    assert forall|i: int| 0 <= i < a.len() implies same_screen_row(#[trigger] a[i], b[i]) by {
        assert(row_matches(a[i], doc, width, height, i));
        assert(row_matches(b[i], doc, width, height, i));
    }
}

/// Law: while the mode is `Insertion`, no key at all moves the cursor.
pub proof fn lemma_insertion_freezes_cursor(pos: Position, key: Key, width: u16, height: u16)
    ensures
        cursor_after(Mode::Insertion, pos, key, width, height) == pos,
{
}

/// Law: escape always brings the session back to `Navigation`, whatever the
/// mode was before.
pub proof fn lemma_escape_restores_navigation(mode: Mode)
    ensures
        mode_after(mode, Key::Esc) == Mode::Navigation,
{
}

/// Law: among the rows of a frame, the welcome banner stands exactly where
/// the document is empty and the row is the center row `height / 3`; for a
/// non-empty document no row shows it.
pub proof fn lemma_welcome_iff_empty(rows: Seq<ScreenRow>, doc: Document, width: u16, height: u16)
    requires
        rows.len() == visible_rows(height),
        forall|i: int| 0 <= i < rows.len() ==> row_matches(#[trigger] rows[i], doc, width, height, i),
    ensures
        forall|i: int|
            0 <= i < rows.len() ==> ((#[trigger] rows[i]) is Welcome <==> (doc.rows@.len() == 0 && i
                == height as int / 3)),
{
    assert forall|i: int|
        0 <= i < rows.len() implies ((#[trigger] rows[i]) is Welcome <==> (doc.rows@.len() == 0 && i
        == height as int / 3)) by {
        assert(row_matches(rows[i], doc, width, height, i));
    }
}

/// The editing session: quit flag, input mode, cursor and open document.
/// The terminal itself stays outside; its size and its key events come in as
/// arguments on every step.
pub struct Editor {
    pub should_quit: bool,
    pub mode: Mode,
    pub cursor_position: Position,
    pub document: Document,
}

impl Editor {
    /// A fresh session over the given document: not quitting, navigating,
    /// cursor at the origin.
    pub fn new(document: Document) -> (ed: Editor)
        ensures
            !ed.should_quit,
            ed.mode == Mode::Navigation,
            ed.cursor_position == (Position { x: 0, y: 0 }),
            ed.document == document,
    {
        Editor {
            should_quit: false,
            mode: Mode::Navigation,
            cursor_position: Position { x: 0, y: 0 },
            document,
        }
    }

    /// A fresh session over an empty document.
    pub fn default() -> (ed: Editor)
        ensures
            !ed.should_quit,
            ed.mode == Mode::Navigation,
            ed.cursor_position == (Position { x: 0, y: 0 }),
            ed.document.rows@.len() == 0,
    {
        Editor::new(Document::new())
    }

    /// Move the cursor for one movement key, clamped to the terminal: rows
    /// and columns never go below zero nor past the terminal's last ones.
    /// Outside `Navigation` mode the key is ignored.
    pub fn move_cursor(&mut self, key: Key, width: u16, height: u16)
        ensures
            final(self).cursor_position == cursor_after(
                old(self).mode,
                old(self).cursor_position,
                key,
                width,
                height,
            ),
            final(self).mode == old(self).mode,
            final(self).should_quit == old(self).should_quit,
            final(self).document == old(self).document,
    {
        match self.mode {
            Mode::Navigation => {
                let mut x = self.cursor_position.x;
                let mut y = self.cursor_position.y;
                let bound_y: usize = if height == 0 {
                    0
                } else {
                    (height - 1) as usize
                };
                let bound_x: usize = if width == 0 {
                    0
                } else {
                    (width - 1) as usize
                };
                match key {
                    Key::Char(c) => {
                        if c == 'k' {
                            y = if y == 0 {
                                0
                            } else {
                                y - 1
                            };
                        } else if c == 'j' {
                            if y < bound_y {
                                y = y + 1;
                            }
                        } else if c == 'h' {
                            x = if x == 0 {
                                0
                            } else {
                                x - 1
                            };
                        } else if c == 'l' {
                            if x < bound_x {
                                x = x + 1;
                            }
                        }
                    },
                    _ => {},
                }
                self.cursor_position = Position { x, y };
            },
            Mode::Insertion => {},
        }
    }

    /// Dispatch one keypress: control-q asks to quit, escape returns to
    /// `Navigation`, `i` enters `Insertion` from `Navigation`, the movement
    /// keys move the cursor while navigating, and anything else is ignored.
    /// The result is the cursor-glyph change the terminal should perform.
    pub fn process_keypress(&mut self, key: Key, width: u16, height: u16) -> (style: Option<
        CursorStyle,
    >)
        ensures
            final(self).should_quit == quit_after(old(self).should_quit, key),
            final(self).mode == mode_after(old(self).mode, key),
            final(self).cursor_position == cursor_after(
                old(self).mode,
                old(self).cursor_position,
                key,
                width,
                height,
            ),
            final(self).document == old(self).document,
            style == style_change(old(self).mode, key),
    {
        match key {
            Key::Ctrl(c) => {
                if c == 'q' {
                    self.should_quit = true;
                }
                None
            },
            Key::Esc => {
                self.mode = Mode::Navigation;
                Some(CursorStyle::Block)
            },
            Key::Char(c) => {
                if c == 'i' {
                    if matches!(self.mode, Mode::Navigation) {
                        self.mode = Mode::Insertion;
                        Some(CursorStyle::Bar)
                    } else {
                        None
                    }
                } else if c == 'h' || c == 'j' || c == 'k' || c == 'l' {
                    self.move_cursor(key, width, height);
                    None
                } else {
                    None
                }
            },
            Key::Other => None,
        }
    }

    /// Build the welcome row for a terminal `width` columns wide: `~`, then
    /// spaces that center the banner, then the banner, cut to `width`.
    pub fn draw_welcome_message(width: u16) -> (r: String)
        ensures
            r@ == welcome_line(width),
    {
        let banner = "Kekvim -- version 0.1.0\r";
        proof {
            reveal_strlit("Kekvim -- version 0.1.0\r");
            reveal_strlit("~");
            reveal_strlit(" ");
        }
        let banner_len = banner.unicode_len();
        let w = width as usize;
        let padding: usize = if w >= banner_len {
            (w - banner_len) / 2
        } else {
            0
        };
        let pad: usize = if padding >= 1 {
            padding - 1
        } else {
            0
        };
        let mut msg = String::new();
        msg.append("~");
        assert(msg@ =~= seq!['~'] + spaces(0));
        let mut i: usize = 0;
        while i < pad
            invariant
                i <= pad,
                msg@ == seq!['~'] + spaces(i as nat),
            decreases pad - i,
        {
            msg.append(" ");
            i = i + 1;
            proof {
                reveal_strlit(" ");
                assert(msg@ =~= seq!['~'] + spaces(i as nat));
            }
        }
        msg.append(banner);
        assert(msg@ == seq!['~'] + spaces(pad as nat) + banner_text());
        let total = msg.as_str().unicode_len();
        if total <= w {
            msg
        } else {
            let cut = msg.as_str().substring_char(0, w);
            assert(cut@ =~= welcome_line(width));
            cut.to_owned()
        }
    }

    /// Build the screen row for one document line: its zero-based number and
    /// the part of its text that fits in the first `width` columns.
    pub fn draw_row(row: &Row, index: usize, width: u16) -> (r: ScreenRow)
        ensures
            r matches ScreenRow::Content { index: shown, text } && shown == index && text@
                == rendered_slice(row.text@, 0, width as int),
    {
        let text = row.render(0, width as usize);
        ScreenRow::Content { index, text }
    }

    /// Compute every visible screen row for this document and terminal size:
    /// document lines first, the welcome banner on the center row of an empty
    /// document, and the bare `~` everywhere else. The reserved last terminal
    /// row is left out. The result is a function of the document and the size
    /// alone, so drawing twice in a row shows the same thing twice.
    pub fn draw_rows(&self, width: u16, height: u16) -> (rows: Vec<ScreenRow>)
        ensures
            rows@.len() == visible_rows(height),
            forall|i: int|
                0 <= i < rows@.len() ==> row_matches(
                    #[trigger] rows@[i],
                    self.document,
                    width,
                    height,
                    i,
                ),
    {
        let n: usize = if height == 0 {
            0
        } else {
            (height - 1) as usize
        };
        let center: usize = (height / 3) as usize;
        let mut rows: Vec<ScreenRow> = Vec::new();
        let mut i: usize = 0;
        while i < n
            invariant
                i <= n,
                n == visible_rows(height),
                center == height as int / 3,
                rows@.len() == i,
                forall|k: int|
                    0 <= k < i ==> row_matches(#[trigger] rows@[k], self.document, width, height, k),
            decreases n - i,
        {
            match self.document.row(i) {
                Some(row) => {
                    let drawn = Editor::draw_row(row, i, width);
                    rows.push(drawn);
                },
                None => {
                    if i == center && self.document.is_empty() {
                        let text = Editor::draw_welcome_message(width);
                        rows.push(ScreenRow::Welcome { text });
                    } else {
                        rows.push(ScreenRow::Tilde);
                    }
                },
            }
            i = i + 1;
        }
        rows
    }

    /// Compute the frame for the current state: the goodbye message once the
    /// session is quitting, otherwise the visible rows and the cursor. Pure:
    /// nothing of the editor changes, so the same state renders the same way
    /// every time.
    pub fn refresh_screen(&self, width: u16, height: u16) -> (frame: Frame)
        ensures
            frame_matches(frame, *self, width, height),
    {
        if self.should_quit {
            let message = String::from_str("Succesfully exited...");
            Frame::Goodbye { message }
        } else {
            let rows = self.draw_rows(width, height);
            Frame::Draw { rows, cursor: self.cursor_position }
        }
    }

    /// One step of the session loop: dispatch the key against the current
    /// state, then render the new state. The result carries the cursor-glyph
    /// change the keypress asked for and the next frame to draw.
    pub fn run(&mut self, key: Key, width: u16, height: u16) -> (out: (Option<CursorStyle>, Frame))
        ensures
            final(self).should_quit == quit_after(old(self).should_quit, key),
            final(self).mode == mode_after(old(self).mode, key),
            final(self).cursor_position == cursor_after(
                old(self).mode,
                old(self).cursor_position,
                key,
                width,
                height,
            ),
            final(self).document == old(self).document,
            out.0 == style_change(old(self).mode, key),
            frame_matches(out.1, *final(self), width, height),
    {
        let style = self.process_keypress(key, width, height);
        let frame = self.refresh_screen(width, height);
        (style, frame)
    }
}

} // verus!
