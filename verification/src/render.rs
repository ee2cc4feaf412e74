//! The screen drawn from the application state: an output region that shows
//! the newest lines of the log above a three-row input region, and the cursor
//! behind the typed text.

use vstd::prelude::*;
use vstd::string::{StrSliceExecFns, StringExecFns};
use ratatui::layout::{Constraint, Direction, Layout};
use crate::state::{App, AppView};
use crate::text::lines;

verus! {

/// A rectangle of terminal cells.
#[derive(Clone, Copy, Debug, PartialEq, Eq, Structural)]
pub struct Rect {
    /// Column of the top left corner.
    pub x: u16,
    /// Row of the top left corner.
    pub y: u16,
    pub width: u16,
    pub height: u16,
}

/// A terminal cell.
#[derive(Clone, Copy, Debug, PartialEq, Eq, Structural)]
pub struct Position {
    pub x: u16,
    pub y: u16,
}

/// Rows of the input region: one row of text between two border rows.
pub const INPUT_ROWS: u16 = 3;

/// Rows that the output region asks for at least.
pub const MIN_OUTPUT_ROWS: u16 = 1;

/// Thickness of the border drawn around each region.
pub const BORDER: u16 = 1;

/// What one frame shows.
#[derive(Clone, Debug, PartialEq, Eq)]
pub struct Screen {
    /// Where the log is drawn, border included.
    pub output_area: Rect,
    /// The log, one line per message.
    pub output_text: String,
    /// Number of leading log lines scrolled out of view.
    pub scroll_offset: usize,
    /// Where the input buffer is drawn, border included.
    pub input_area: Rect,
    /// The text typed so far.
    pub input_text: String,
    /// The cell of the cursor, where the terminal can address it.
    pub cursor: Option<Position>,
}

/// The mathematical model of a [`Screen`].
pub struct ScreenView {
    pub output_area: Rect,
    pub output_text: Seq<char>,
    pub scroll_offset: nat,
    pub input_area: Rect,
    pub input_text: Seq<char>,
    pub cursor: Option<Position>,
}

impl View for Screen {
    type V = ScreenView;

    open spec fn view(&self) -> ScreenView {
        ScreenView {
            output_area: self.output_area,
            output_text: self.output_text@,
            scroll_offset: self.scroll_offset as nat,
            input_area: self.input_area,
            input_text: self.input_text@,
            cursor: self.cursor,
        }
    }
}

/// Calls `ratatui::layout::Layout::split` on a vertical layout with the
/// constraints `Min(min_rows)` and `Length(fixed_rows)`, no margin and no
/// spacing, and returns the two regions of its answer, upper one first.
/// Which rows each region takes is the answer of ratatui's constraint
/// solver, and the contract leaves it open. It claims only what the
/// conversion of that answer into rectangles shows for a vertical layout:
/// each region keeps the column and the width of the area that was split.
#[verifier::external_body]
fn split_rows(area: Rect, min_rows: u16, fixed_rows: u16) -> (parts: (Rect, Rect))
    ensures
        parts.0.x == area.x && parts.0.width == area.width,
        parts.1.x == area.x && parts.1.width == area.width,
{
    let whole =
        ratatui::layout::Rect { x: area.x, y: area.y, width: area.width, height: area.height };
    let parts = Layout::default()
        .direction(Direction::Vertical)
        .constraints([Constraint::Min(min_rows), Constraint::Length(fixed_rows)])
        .split(whole);
    let (upper, lower) = (parts[0], parts[1]);
    (
        Rect { x: upper.x, y: upper.y, width: upper.width, height: upper.height },
        Rect { x: lower.x, y: lower.y, width: lower.width, height: lower.height },
    )
}

/// Rows of a bordered region that can show text.
pub open spec fn visible_height_spec(region: Rect) -> int {
    if region.height >= 2 * BORDER {
        region.height - 2 * BORDER
    } else {
        0
    }
}

/// Rows of a bordered region that can show text.
pub fn visible_height(region: Rect) -> (rows: usize)
    ensures
        rows as int == visible_height_spec(region),
{
    if region.height >= 2 * BORDER {
        (region.height - 2 * BORDER) as usize
    } else {
        0
    }
}

/// Number of leading lines to hide so that the newest lines are in view:
/// the excess of the line count over the visible height, never negative.
pub open spec fn scroll_offset_spec(total_lines: int, visible_height: int) -> int {
    if total_lines > visible_height {
        total_lines - visible_height
    } else {
        0
    }
}

/// Computes how many lines scroll out of view above the output region.
pub fn scroll_offset(total_lines: usize, visible_height: usize) -> (offset: usize)
    ensures
        offset as int == scroll_offset_spec(total_lines as int, visible_height as int),
{
    if total_lines > visible_height {
        total_lines - visible_height
    } else {
        0
    }
}

/// The lines of a log as one text, with a line feed between two lines.
pub open spec fn joined(log: Seq<Seq<char>>) -> Seq<char>
    decreases log.len(),
{
    if log.len() == 0 {
        Seq::empty()
    } else if log.len() == 1 {
        log[0]
    } else {
        joined(log.drop_last()).push('\n') + log.last()
    }
}

/// Joins the lines of a log with line feeds.
pub fn join_lines(log: &Vec<String>) -> (text: String)
    ensures
        text@ == joined(lines(log@)),
{
    let mut text = String::new();
    let mut i: usize = 0;
    while i < log.len()
        invariant
            i <= log.len(),
            text@ == joined(lines(log@).take(i as int)),
        decreases log.len() - i,
    {
        let ghost prefix = lines(log@).take(i as int);
        let ghost next = lines(log@).take(i + 1);
        if i > 0 {
            text.push('\n');
        }
        text.append(log[i].as_str());
        proof {
            assert(next.drop_last() =~= prefix);
            assert(next.last() == log@[i as int]@);
            if i == 0 {
                assert(text@ =~= log@[0]@);
            }
        }
        i += 1;
    }
    assert(lines(log@).take(i as int) =~= lines(log@));
    text
}

/// The cell right behind `typed` characters of input in a bordered region:
/// one border to the right of the region's corner, and one border below it.
/// There is none where the column or the row would pass the last one that a
/// terminal can address.
pub open spec fn cursor_spec(input_area: Rect, typed: int) -> Option<Position> {
    if input_area.x + BORDER + typed <= u16::MAX && input_area.y + BORDER <= u16::MAX {
        Some(
            Position {
                x: (input_area.x + BORDER + typed) as u16,
                y: (input_area.y + BORDER) as u16,
            },
        )
    } else {
        None
    }
}

/// Places the cursor behind `typed` characters of input.
pub fn cursor_position(input_area: Rect, typed: usize) -> (cursor: Option<Position>)
    ensures
        cursor == cursor_spec(input_area, typed as int),
{
    if input_area.y > u16::MAX - BORDER || input_area.x > u16::MAX - BORDER {
        return None;
    }
    let room: u16 = u16::MAX - BORDER - input_area.x;
    if typed > room as usize {
        return None;
    }
    Some(Position { x: input_area.x + BORDER + typed as u16, y: input_area.y + BORDER })
}

/// What is drawn, given the two regions of the frame and the state.
pub open spec fn screen_of(output_area: Rect, input_area: Rect, app: AppView) -> ScreenView {
    ScreenView {
        output_area,
        output_text: joined(app.messages),
        scroll_offset: scroll_offset_spec(
            app.messages.len() as int,
            visible_height_spec(output_area),
        ) as nat,
        input_area,
        input_text: app.input,
        cursor: cursor_spec(input_area, app.input.len() as int),
    }
}

/// Fills the two regions of a frame from the state.
pub fn compose(output_area: Rect, input_area: Rect, app: &App) -> (screen: Screen)
    ensures
        screen@ == screen_of(output_area, input_area, app@),
{
    let typed = app.input.as_str().unicode_len();
    Screen {
        output_area,
        output_text: join_lines(&app.messages),
        scroll_offset: scroll_offset(app.messages.len(), visible_height(output_area)),
        input_area,
        input_text: app.input.clone(),
        cursor: cursor_position(input_area, typed),
    }
}

/// Whether two regions stand in the columns of `area`: each has its column
/// and its width.
pub open spec fn spans_width(area: Rect, output_area: Rect, input_area: Rect) -> bool {
    &&& output_area.x == area.x && output_area.width == area.width
    &&& input_area.x == area.x && input_area.width == area.width
}

/// Lays out one frame on a surface of the given area: the surface is split
/// from top to bottom into the output region, which asks for at least
/// [`MIN_OUTPUT_ROWS`] rows, and the input region of [`INPUT_ROWS`] rows, and
/// both are filled from the state. Whatever rows the split gives to the two
/// regions, they span the width of the surface, and the screen is the one
/// that [`screen_of`] describes for them.
pub fn render(area: Rect, app: &App) -> (screen: Screen)
    ensures
        spans_width(area, screen.output_area, screen.input_area),
        screen@ == screen_of(screen.output_area, screen.input_area, app@),
{
    let (output_area, input_area) = split_rows(area, MIN_OUTPUT_ROWS, INPUT_ROWS);
    compose(output_area, input_area, app)
}

} // verus!
