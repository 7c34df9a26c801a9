//! The text-grid renderer and the raw-mode keyboard backend. The
//! canvas itself is a verified two-dimensional character buffer; the
//! terminal calls behind it, and the keyboard poll, are trusted
//! wrappers over the crossterm crate and standard output.

use vstd::prelude::*;
use std::io::Write;
use crossterm::ExecutableCommand;

verus! {

/// Relies on crossterm's terminal::Clear command: erases the whole
/// terminal screen.
#[verifier::external_body]
fn clr_scr() {
    let mut out = std::io::stdout();
    let _ = out.execute(crossterm::terminal::Clear(crossterm::terminal::ClearType::All));
}

/// Relies on crossterm's cursor::MoveTo command: puts the cursor at
/// the top-left corner of the terminal.
#[verifier::external_body]
fn move_cursor_home() {
    let mut out = std::io::stdout();
    let _ = out.execute(crossterm::cursor::MoveTo(0, 0));
}

/// Relies on std's writeln on standard output: shows one canvas row
/// as a line of text.
#[verifier::external_body]
fn print_row(row: &Vec<char>) {
    let text: String = row.iter().collect();
    let mut out = std::io::stdout();
    let _ = writeln!(out, "{}", text);
}

/// Relies on crossterm's enable_raw_mode: puts the terminal into raw
/// input mode, so single key presses reach the poll unbuffered.
#[verifier::external_body]
fn backend_init() {
    let _ = crossterm::terminal::enable_raw_mode();
}

/// Relies on crossterm's disable_raw_mode: restores the terminal's
/// normal, line-buffered input mode.
#[verifier::external_body]
fn backend_deinit() {
    let _ = crossterm::terminal::disable_raw_mode();
}

/// Relies on crossterm's event::poll and event::read: drains every
/// event already queued, giving each poll only a tiny timeout.
#[verifier::external_body]
fn clear_event_queue() {
    while let Ok(true) = crossterm::event::poll(std::time::Duration::from_micros(100)) {
        if crossterm::event::read().is_err() {
            break;
        }
    }
}

/// Relies on crossterm's event::poll and event::read: waits a bounded
/// time for a key press and hands back its character, if one came.
/// What comes back depends on the user, so nothing is promised of it.
#[verifier::external_body]
fn backend_getch() -> (key: Option<char>) {
    let mut result = None;
    while let Ok(true) = crossterm::event::poll(std::time::Duration::from_millis(20)) {
        match crossterm::event::read() {
            Ok(crossterm::event::Event::Key(k)) => match (k.kind, k.code) {
                (crossterm::event::KeyEventKind::Press, crossterm::event::KeyCode::Char(ch)) => {
                    result = Some(ch);
                    break;
                },
                _ => {},
            },
            _ => {},
        }
    }
    result
}

/// Erases the terminal screen.
pub fn clear_screen() {
    clr_scr();
}

/// Polls the keyboard and hands back at most one pressed character,
/// blocking only for a bounded wait; any other queued input events
/// are drained before it returns.
pub fn getch() -> (key: Option<char>) {
    let key = backend_getch();
    clear_event_queue();
    key
}

/// Prepares the terminal for the game: raw input mode.
pub fn init() {
    backend_init();
}

/// Hands the terminal back in its normal input mode.
pub fn deinit() {
    backend_deinit();
}

/// A rectangular character buffer the game draws on before it is
/// shown; rows of equal width, addressed as (column, row).
pub struct Canvas {
    pub display_data: Vec<Vec<char>>,
}

impl View for Canvas {
    type V = Seq<Seq<char>>;

    open spec fn view(&self) -> Seq<Seq<char>> {
        self.display_data.deep_view()
    }
}

impl Canvas {
    /// The canvas has the given height and every row the given width.
    pub open spec fn wf_dims(self, width: int, height: int) -> bool {
        &&& self@.len() == height
        &&& forall|y: int| 0 <= y < self@.len() ==> (#[trigger] self@[y]).len() == width
    }

    /// A fresh canvas of the given size, filled with blanks.
    pub fn new(width: usize, height: usize) -> (c: Self)
        ensures
            c.wf_dims(width as int, height as int),
            forall|y: int, x: int|
                0 <= y < height && 0 <= x < width ==> c@[y][x] == ' ',
    {
        let mut display_data: Vec<Vec<char>> = Vec::new();
        let mut y: usize = 0;
        while y < height
            invariant
                y <= height,
                display_data@.len() == y,
                forall|r: int|
                    0 <= r < y ==> (#[trigger] display_data.deep_view()[r]).len() == width,
                forall|r: int, c: int|
                    0 <= r < y && 0 <= c < width ==> display_data.deep_view()[r][c] == ' ',
            decreases height - y,
        {
            let mut row: Vec<char> = Vec::new();
            let mut x: usize = 0;
            while x < width
                invariant
                    x <= width,
                    row@.len() == x,
                    forall|c: int| 0 <= c < x ==> row@[c] == ' ',
                decreases width - x,
            {
                row.push(' ');
                x = x + 1;
            }
            let ghost prev = display_data.deep_view();
            display_data.push(row);
            proof {
                assert(row.deep_view() =~= row@);
                assert(display_data.deep_view() =~= prev.push(row@));
            }
            y = y + 1;
        }
        Canvas { display_data }
    }

    /// Writes one glyph at (x, y); every other cell keeps its glyph.
    pub fn set_char(&mut self, x: usize, y: usize, ch: char)
        requires
            y < old(self)@.len(),
            x < old(self)@[y as int].len(),
        ensures
            final(self)@ == old(self)@.update(
                y as int,
                old(self)@[y as int].update(x as int, ch),
            ),
    {
        self.display_data[y][x] = ch;
        proof {
            assert(self@ =~~= old(self)@.update(
                y as int,
                old(self)@[y as int].update(x as int, ch),
            ));
        }
    }

    /// Resets every cell to a blank; the dimensions are kept.
    pub fn clear(&mut self)
        ensures
            final(self)@.len() == old(self)@.len(),
            forall|y: int|
                0 <= y < final(self)@.len() ==> (#[trigger] final(self)@[y]).len()
                    == old(self)@[y].len(),
            forall|y: int, x: int|
                0 <= y < final(self)@.len() && 0 <= x < final(self)@[y].len()
                    ==> final(self)@[y][x] == ' ',
    {
        let height = self.display_data.len();
        let mut y: usize = 0;
        while y < height
            invariant
                y <= height,
                self@.len() == height,
                old(self)@.len() == height,
                forall|r: int|
                    0 <= r < height ==> (#[trigger] self@[r]).len() == old(self)@[r].len(),
                forall|r: int, c: int|
                    0 <= r < y && 0 <= c < self@[r].len() ==> self@[r][c] == ' ',
            decreases height - y,
        {
            let width = self.display_data[y].len();
            let mut x: usize = 0;
            while x < width
                invariant
                    x <= width,
                    y < height,
                    self@.len() == height,
                    old(self)@.len() == height,
                    self@[y as int].len() == width,
                    forall|r: int|
                        0 <= r < height ==> (#[trigger] self@[r]).len() == old(self)@[r].len(),
                    forall|r: int, c: int|
                        0 <= r < y && 0 <= c < self@[r].len() ==> self@[r][c] == ' ',
                    forall|c: int| 0 <= c < x ==> self@[y as int][c] == ' ',
                decreases width - x,
            {
                self.set_char(x, y, ' ');
                x = x + 1;
            }
            y = y + 1;
        }
    }

    /// Shows the canvas on the terminal: the cursor is moved home,
    /// every row is printed in order, and the cursor is moved home
    /// again. The buffer itself is only read.
    pub fn display(&self) {
        move_cursor_home();
        let mut y: usize = 0;
        while y < self.display_data.len()
            decreases self.display_data@.len() - y,
        {
            print_row(&self.display_data[y]);
            y = y + 1;
        }
        move_cursor_home();
    }
}

} // verus!
