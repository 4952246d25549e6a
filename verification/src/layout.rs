//! The areas of the terminal that the parts of the screen are drawn in.
//! The sizes come from the constraint solver of the `tui` crate; which
//! pane gets which area, and which areas can be split at all, is decided
//! here, and the parts of a split are made to tile the area that was split.

use tui::layout::{Constraint as TuiConstraint, Direction as TuiDirection, Layout, Rect as TuiRect};
use vstd::prelude::*;

verus! {

/// A rectangle of terminal cells.
#[derive(Debug, Clone, Copy, PartialEq, Eq)]
pub struct Rect {
    pub x: u16,
    pub y: u16,
    pub width: u16,
    pub height: u16,
}

/// The direction in which an area is split.
#[derive(Debug, Clone, Copy, PartialEq, Eq)]
pub enum Direction {
    /// Side by side.
    Horizontal,
    /// One below the other.
    Vertical,
}

/// The size asked of one part of a split.
#[derive(Debug, Clone, Copy, PartialEq, Eq)]
pub enum Constraint {
    /// A share of the area, in hundredths.
    Percentage(u16),
    /// A number of cells.
    Length(u16),
    /// At least a number of cells.
    Min(u16),
}

/// The areas of the screen's parts.
#[derive(Debug, Clone, Copy, PartialEq, Eq)]
pub struct Areas {
    pub header: Rect,
    pub gauge: Rect,
    pub list: Rect,
    pub chat: Rect,
    pub footer: Rect,
}

/// The size of an area along a direction.
pub open spec fn extent(area: Rect, direction: Direction) -> u16 {
    match direction {
        Direction::Horizontal => area.width,
        Direction::Vertical => area.height,
    }
}

/// Whether the far edges of an area lie within the range of `u16`.
pub open spec fn in_range(area: Rect) -> bool {
    area.x + area.width <= u16::MAX && area.y + area.height <= u16::MAX
}

/// Whether an area can be split: its far edges lie within the range of
/// `u16`, and so does the product of every percentage with the area's
/// size along the direction.
pub open spec fn splittable(area: Rect, direction: Direction, constraints: Seq<Constraint>) -> bool {
    &&& in_range(area)
    &&& forall|i: int|
        0 <= i < constraints.len() ==> (#[trigger] constraints[i] matches Constraint::Percentage(p)
            ==> p * extent(area, direction) <= u16::MAX)
}

/// Whether a part lies within an area.
pub open spec fn within(part: Rect, area: Rect) -> bool {
    &&& area.x <= part.x
    &&& part.x + part.width <= area.x + area.width
    &&& area.y <= part.y
    &&& part.y + part.height <= area.y + area.height
}

/// Where an area begins along a direction.
pub open spec fn start(area: Rect, direction: Direction) -> u16 {
    match direction {
        Direction::Horizontal => area.x,
        Direction::Vertical => area.y,
    }
}

/// The other direction.
pub open spec fn across(direction: Direction) -> Direction {
    match direction {
        Direction::Horizontal => Direction::Vertical,
        Direction::Vertical => Direction::Horizontal,
    }
}

/// Whether parts tile an area along a direction: across it each part
/// reaches from edge to edge of the area; along it the first part begins
/// where the area begins, each next part begins where the part before it
/// ends, and the last part ends where the area ends.
pub open spec fn tiles(parts: Seq<Rect>, area: Rect, direction: Direction) -> bool {
    &&& forall|i: int|
        0 <= i < parts.len() ==> {
            let part = #[trigger] parts[i];
            &&& start(part, across(direction)) == start(area, across(direction))
            &&& extent(part, across(direction)) == extent(area, across(direction))
        }
    &&& parts.len() > 0 ==> start(parts[0], direction) == start(area, direction)
    &&& forall|i: int, j: int|
        0 <= i && j == i + 1 && j < parts.len() ==> start(#[trigger] parts[j], direction) == start(
            #[trigger] parts[i],
            direction,
        ) + extent(parts[i], direction)
    &&& parts.len() > 0 ==> start(parts.last(), direction) + extent(parts.last(), direction)
        == start(area, direction) + extent(area, direction)
}

/// How far from the beginning of the area part `i` begins when the parts
/// are laid one behind the other with their own sizes, and none beyond
/// the end of the area.
pub open spec fn offset(parts: Seq<Rect>, area: Rect, direction: Direction, i: int) -> int
    decreases i,
{
    if i <= 0 {
        0
    } else {
        let end = offset(parts, area, direction, i - 1) + extent(parts[i - 1], direction);
        if end <= extent(area, direction) {
            end
        } else {
            extent(area, direction) as int
        }
    }
}

/// The stretch of an area that begins `from` cells behind its beginning
/// along a direction and is `size` cells long.
pub open spec fn stretch(area: Rect, direction: Direction, from: int, size: int) -> Rect {
    match direction {
        Direction::Horizontal => Rect {
            x: (area.x + from) as u16,
            y: area.y,
            width: size as u16,
            height: area.height,
        },
        Direction::Vertical => Rect {
            x: area.x,
            y: (area.y + from) as u16,
            width: area.width,
            height: size as u16,
        },
    }
}

/// Part `i` of the tiling that keeps the sizes of the parts as far as the
/// area allows: it begins at its [`offset`] and ends where the next part
/// begins; the last part ends where the area ends.
pub open spec fn tile_part(parts: Seq<Rect>, area: Rect, direction: Direction, i: int) -> Rect {
    let from = offset(parts, area, direction, i);
    let to = if i == parts.len() - 1 {
        extent(area, direction) as int
    } else {
        offset(parts, area, direction, i + 1)
    };
    stretch(area, direction, from, to - from)
}

/// The tiling of an area that keeps the sizes of the parts as far as the
/// area allows. Parts that tile the area already are left as they are.
pub open spec fn tile_of(parts: Seq<Rect>, area: Rect, direction: Direction) -> Seq<Rect> {
    Seq::new(parts.len(), |i: int| tile_part(parts, area, direction, i))
}

/// How the parts of the screen lie to each other and to the terminal's
/// area: the header along the top edge and the footer along the bottom
/// edge, each from the left edge to the right; between them, from the
/// header down to the footer, the gauge over the list at the left edge and
/// the chat from there to the right edge.
pub open spec fn arranged(areas: Areas, area: Rect) -> bool {
    &&& areas.header.x == area.x && areas.header.width == area.width
    &&& areas.header.y == area.y
    &&& areas.footer.x == area.x && areas.footer.width == area.width
    &&& areas.footer.y + areas.footer.height == area.y + area.height
    &&& areas.gauge.y == areas.header.y + areas.header.height
    &&& areas.list.y == areas.gauge.y + areas.gauge.height
    &&& areas.list.y + areas.list.height == areas.footer.y
    &&& areas.gauge.x == area.x && areas.list.x == area.x
    &&& areas.gauge.width == areas.list.width
    &&& areas.chat.x == areas.gauge.x + areas.gauge.width
    &&& areas.chat.x + areas.chat.width == area.x + area.width
    &&& areas.chat.y == areas.gauge.y
    &&& areas.chat.y + areas.chat.height == areas.footer.y
}

/// The rows of the screen: a header of one line, the middle, a footer of
/// one line.
pub open spec fn rows_of_screen() -> Seq<Constraint> {
    seq![Constraint::Length(1), Constraint::Min(0), Constraint::Length(1)]
}

/// The columns of the middle: the bots to the left, the chat to the right,
/// half of the width each.
pub open spec fn columns_of_middle() -> Seq<Constraint> {
    seq![Constraint::Percentage(50), Constraint::Percentage(50)]
}

/// The rows of the left column: a gauge of one line, then the list.
pub open spec fn rows_of_left() -> Seq<Constraint> {
    seq![Constraint::Length(1), Constraint::Min(0)]
}

/// The areas that three splits give: the screen into rows, the middle row
/// into columns, the left column into rows.
pub open spec fn areas_of(rows: Seq<Rect>, columns: Seq<Rect>, left: Seq<Rect>) -> Areas {
    Areas { header: rows[0], gauge: left[0], list: left[1], chat: columns[1], footer: rows[2] }
}

/// The offsets grow, and none lies beyond the end of the area.
pub proof fn lemma_offset(parts: Seq<Rect>, area: Rect, direction: Direction, i: int)
    ensures
        0 <= offset(parts, area, direction, i) <= extent(area, direction),
        offset(parts, area, direction, i) <= offset(parts, area, direction, i + 1),
    decreases i,
{
    if i > 0 {
        lemma_offset(parts, area, direction, i - 1);
    }
}

/// What has been tiled tiles the area, and each of its parts lies within
/// the area.
pub proof fn lemma_tile(parts: Seq<Rect>, area: Rect, direction: Direction)
    requires
        in_range(area),
    ensures
        tiles(tile_of(parts, area, direction), area, direction),
        forall|i: int|
            0 <= i < parts.len() ==> within(#[trigger] tile_of(parts, area, direction)[i], area),
{
    let tiled = tile_of(parts, area, direction);
    assert forall|i: int| 0 <= i < parts.len() implies {
        let part = #[trigger] tiled[i];
        &&& within(part, area)
        &&& start(part, across(direction)) == start(area, across(direction))
        &&& extent(part, across(direction)) == extent(area, across(direction))
        &&& start(part, direction) == start(area, direction) + offset(parts, area, direction, i)
        &&& start(part, direction) + extent(part, direction) == start(area, direction) + if i
            == parts.len() - 1 {
            extent(area, direction) as int
        } else {
            offset(parts, area, direction, i + 1)
        }
    } by {
        lemma_offset(parts, area, direction, i);
        lemma_offset(parts, area, direction, i + 1);
    }
    if parts.len() > 0 {
        assert(tiled[0] == tile_part(parts, area, direction, 0));
        assert(tiled.last() == tile_part(parts, area, direction, parts.len() - 1));
    }
}

/// Where the parts of a tiling begin: each at its offset, and none ends
/// beyond the end of the area.
proof fn lemma_tiling_offsets(parts: Seq<Rect>, area: Rect, direction: Direction, i: int)
    requires
        tiles(parts, area, direction),
        0 <= i < parts.len(),
    ensures
        start(parts[i], direction) + extent(parts[i], direction) <= start(area, direction)
            + extent(area, direction),
        start(parts[i], direction) == start(area, direction) + offset(parts, area, direction, i),
        i + 1 < parts.len() ==> start(parts[i + 1], direction) == start(area, direction) + offset(
            parts,
            area,
            direction,
            i + 1,
        ),
{
    lemma_tiling_ends(parts, area, direction, i);
    lemma_tiling_begins(parts, area, direction, i);
    if i + 1 < parts.len() {
        lemma_tiling_begins(parts, area, direction, i + 1);
    }
}

/// No part of a tiling ends beyond the end of the area.
proof fn lemma_tiling_ends(parts: Seq<Rect>, area: Rect, direction: Direction, i: int)
    requires
        tiles(parts, area, direction),
        0 <= i < parts.len(),
    ensures
        start(parts[i], direction) + extent(parts[i], direction) <= start(area, direction)
            + extent(area, direction),
    decreases parts.len() - i,
{
    if i + 1 < parts.len() {
        lemma_tiling_ends(parts, area, direction, i + 1);
    }
}

/// Each part of a tiling begins at its offset.
proof fn lemma_tiling_begins(parts: Seq<Rect>, area: Rect, direction: Direction, i: int)
    requires
        tiles(parts, area, direction),
        0 <= i < parts.len(),
    ensures
        start(parts[i], direction) == start(area, direction) + offset(parts, area, direction, i),
    decreases i,
{
    if i > 0 {
        lemma_tiling_begins(parts, area, direction, i - 1);
        lemma_tiling_ends(parts, area, direction, i - 1);
    }
}

/// Parts that tile an area are left as they are.
pub proof fn lemma_tiling_stays(parts: Seq<Rect>, area: Rect, direction: Direction)
    requires
        tiles(parts, area, direction),
    ensures
        tile_of(parts, area, direction) == parts,
{
    assert forall|i: int| 0 <= i < parts.len() implies tile_part(parts, area, direction, i)
        == parts[i] by {
        lemma_tiling_offsets(parts, area, direction, i);
    }
    assert(tile_of(parts, area, direction) =~= parts);
}

/// A part of a part of an area lies within the area.
pub proof fn lemma_within_transitive(inner: Rect, middle: Rect, outer: Rect)
    requires
        within(inner, middle),
        within(middle, outer),
    ensures
        within(inner, outer),
{
}

/// Calls `tui::layout::Layout::split` on a layout without margin.
///
/// Trusted: the solver returns one rectangle for each constraint. Nothing
/// is claimed of the rectangles themselves; [`tile`] puts them in place.
/// The `requires` leaves out the
/// areas on which the call panics: it multiplies every percentage with the
/// area's size in `u16`, and it asks the solver for parts within far edges
/// that it has cut off at `u16::MAX`, which no part can meet if the area
/// reaches further.
#[verifier::external_body]
fn solve(area: Rect, direction: Direction, constraints: &Vec<Constraint>) -> (chunks: Vec<Rect>)
    requires
        splittable(area, direction, constraints@),
    ensures
        chunks@.len() == constraints@.len(),
{
    let sizes: Vec<TuiConstraint> = constraints.iter().map(|c| match *c {
        Constraint::Percentage(p) => TuiConstraint::Percentage(p),
        Constraint::Length(l) => TuiConstraint::Length(l),
        Constraint::Min(m) => TuiConstraint::Min(m),
    }).collect();
    let direction = match direction {
        Direction::Horizontal => TuiDirection::Horizontal,
        Direction::Vertical => TuiDirection::Vertical,
    };
    let area = TuiRect { x: area.x, y: area.y, width: area.width, height: area.height };
    let chunks = Layout::default().direction(direction).constraints(sizes).split(area);
    chunks.iter().map(|r| Rect { x: r.x, y: r.y, width: r.width, height: r.height }).collect()
}

/// Whether an area can be split: see [`splittable`].
pub fn can_split(area: Rect, direction: Direction, constraints: &Vec<Constraint>) -> (ok: bool)
    ensures
        ok == splittable(area, direction, constraints@),
{
    if area.x as u32 + area.width as u32 > 65535 || area.y as u32 + area.height as u32 > 65535 {
        return false;
    }
    let size: u32 = match direction {
        Direction::Horizontal => area.width as u32,
        Direction::Vertical => area.height as u32,
    };
    let mut i: usize = 0;
    while i < constraints.len()
        invariant
            i <= constraints@.len(),
            size == extent(area, direction),
            forall|k: int|
                0 <= k < i ==> (#[trigger] constraints@[k] matches Constraint::Percentage(p) ==> p
                    * size <= u16::MAX),
        decreases constraints@.len() - i,
    {
        if let Constraint::Percentage(p) = constraints[i] {
            assert(p * size <= 0xffff * 0xffff) by (nonlinear_arith)
                requires
                    p <= 0xffff,
                    size <= 0xffff,
            ;
            if p as u32 * size > 65535 {
                return false;
            }
        }
        i += 1;
    }
    true
}

/// Makes parts tile an area along a direction: see [`tile_of`].
pub fn tile(parts: &Vec<Rect>, area: Rect, direction: Direction) -> (tiled: Vec<Rect>)
    requires
        in_range(area),
    ensures
        tiled@ == tile_of(parts@, area, direction),
{
    let length: u32 = match direction {
        Direction::Horizontal => area.width as u32,
        Direction::Vertical => area.height as u32,
    };
    let mut tiled: Vec<Rect> = Vec::new();
    let mut from: u32 = 0;
    let mut i: usize = 0;
    while i < parts.len()
        invariant
            i <= parts@.len(),
            in_range(area),
            length == extent(area, direction),
            from == offset(parts@, area, direction, i as int),
            from <= length,
            tiled@.len() == i,
            forall|k: int|
                0 <= k < i ==> #[trigger] tiled@[k] == tile_part(parts@, area, direction, k),
        decreases parts@.len() - i,
    {
        let size: u32 = match direction {
            Direction::Horizontal => parts[i].width as u32,
            Direction::Vertical => parts[i].height as u32,
        };
        let next: u32 = if from + size <= length {
            from + size
        } else {
            length
        };
        let to: u32 = if i + 1 == parts.len() {
            length
        } else {
            next
        };
        let part = match direction {
            Direction::Horizontal => Rect {
                x: (area.x as u32 + from) as u16,
                y: area.y,
                width: (to - from) as u16,
                height: area.height,
            },
            Direction::Vertical => Rect {
                x: area.x,
                y: (area.y as u32 + from) as u16,
                width: area.width,
                height: (to - from) as u16,
            },
        };
        tiled.push(part);
        from = next;
        i += 1;
    }
    tiled
}

/// Splits an area into one part for each constraint, or returns `None` if
/// the area cannot be split. The parts tile the area along the direction.
/// Their sizes are the solver's, as far as the solver's parts tile the
/// area: see [`tile`]. Which sizes the solver gives is not said here.
pub fn split(area: Rect, direction: Direction, constraints: &Vec<Constraint>) -> (chunks: Option<
    Vec<Rect>,
>)
    ensures
        chunks is Some <==> splittable(area, direction, constraints@),
        chunks matches Some(parts) ==> {
            &&& parts@.len() == constraints@.len()
            &&& tiles(parts@, area, direction)
            &&& forall|i: int| 0 <= i < parts@.len() ==> within(#[trigger] parts@[i], area)
        },
{
    if can_split(area, direction, constraints) {
        let solved = solve(area, direction, constraints);
        let parts = tile(&solved, area, direction);
        proof {
            lemma_tile(solved@, area, direction);
        }
        Some(parts)
    } else {
        None
    }
}

/// Gives each part of the screen its area, from the parts of the three
/// splits; `None` if a split does not have the parts that its constraints
/// ask for.
pub fn arrange(rows: &Vec<Rect>, columns: &Vec<Rect>, left: &Vec<Rect>) -> (areas: Option<Areas>)
    ensures
        areas is Some <==> rows@.len() == 3 && columns@.len() == 2 && left@.len() == 2,
        areas matches Some(a) ==> a == areas_of(rows@, columns@, left@),
{
    if rows.len() == 3 && columns.len() == 2 && left.len() == 2 {
        Some(
            Areas {
                header: rows[0],
                gauge: left[0],
                list: left[1],
                chat: columns[1],
                footer: rows[2],
            },
        )
    } else {
        None
    }
}

/// The constraints that split the screen into its rows.
pub fn screen_rows() -> (sizes: Vec<Constraint>)
    ensures
        sizes@ == rows_of_screen(),
{
    let mut sizes: Vec<Constraint> = Vec::new();
    sizes.push(Constraint::Length(1));
    sizes.push(Constraint::Min(0));
    sizes.push(Constraint::Length(1));
    sizes
}

/// The constraints that split the middle row into its columns.
pub fn middle_columns() -> (sizes: Vec<Constraint>)
    ensures
        sizes@ == columns_of_middle(),
{
    let mut sizes: Vec<Constraint> = Vec::new();
    sizes.push(Constraint::Percentage(50));
    sizes.push(Constraint::Percentage(50));
    sizes
}

/// The constraints that split the left column into its rows.
pub fn left_rows() -> (sizes: Vec<Constraint>)
    ensures
        sizes@ == rows_of_left(),
{
    let mut sizes: Vec<Constraint> = Vec::new();
    sizes.push(Constraint::Length(1));
    sizes.push(Constraint::Min(0));
    sizes
}

/// Whether every part of the screen lies within an area.
pub open spec fn all_within(areas: Areas, area: Rect) -> bool {
    &&& within(areas.header, area)
    &&& within(areas.gauge, area)
    &&& within(areas.list, area)
    &&& within(areas.chat, area)
    &&& within(areas.footer, area)
}

/// Lays the screen out on the terminal's area: a header and a footer of
/// one line each, between them the bots to the left, under a gauge of one
/// line, and the chat to the right.
///
/// The screen is split into rows by [`screen_rows`], its middle row into
/// columns by [`middle_columns`] and the left column into rows by
/// [`left_rows`]; [`arrange`] says which part gets which area. How the
/// parts then lie to each other is said by [`arranged`]. How many lines
/// and columns each part gets is the solver's answer.
///
/// An area whose far edges lie within the range of `u16`, and half of
/// whose width, in hundredths, does so too, is laid out. An area with a far
/// edge beyond the range is not; between the two, the width of the area
/// decides, since the middle row is as wide as the area.
pub fn layout(area: Rect) -> (areas: Option<Areas>)
    ensures
        areas is Some <==> in_range(area) && 50 * area.width <= u16::MAX,
        areas matches Some(a) ==> arranged(a, area) && all_within(a, area),
{
    match split(area, Direction::Vertical, &screen_rows()) {
        None => None,
        Some(rows) => {
            let middle = rows[1];
            match split(middle, Direction::Horizontal, &middle_columns()) {
                None => None,
                Some(columns) => {
                    let left_column = columns[0];
                    proof {
                        lemma_within_transitive(left_column, middle, area);
                        lemma_within_transitive(columns[1], middle, area);
                    }
                    match split(left_column, Direction::Vertical, &left_rows()) {
                        None => None,
                        Some(left) => {
                            proof {
                                lemma_within_transitive(left[0], left_column, area);
                                lemma_within_transitive(left[1], left_column, area);
                            }
                            arrange(&rows, &columns, &left)
                        },
                    }
                },
            }
        },
    }
}

} // verus!
