//! Placeholders shaped like the content that is coming.
//!
//! They stand in at the size of the real thing, so the page is laid out before
//! it has anything to say and nothing jumps when the answer arrives. Lengths
//! are in points.

use vstd::prelude::*;

verus! {

/// The resting and lit shades of a placeholder. Both sit on the same side of
/// the page's own colour: a placeholder is always darker than the page in a
/// light theme and lighter in a dark one, so the band brightens a shape rather
/// than punching holes through it.
pub fn tones<C>(dark: bool, surface: C, surface_active: C) -> (tones: (C, C))
    ensures
        tones == if dark {
            (surface, surface_active)
        } else {
            (surface_active, surface)
        },
{
    if dark {
        (surface, surface_active)
    } else {
        (surface_active, surface)
    }
}

/// The rounding of a rectangle's corners.
#[derive(Clone, Copy, Debug, PartialEq, Eq)]
pub struct CornerRadius {
    pub nw: u8,
    pub ne: u8,
    pub sw: u8,
    pub se: u8,
}

/// How a placeholder is drawn.
#[derive(Debug)]
pub enum Block {
    /// Not at all: it is out of sight.
    Hidden,
    /// As one shape, lit evenly.
    Whole(CornerRadius),
    /// As a run of pieces, so that the band can cross it.
    Pieces(Vec<CornerRadius>),
}

/// All corners rounded alike.
pub open spec fn rounded(corner: u8) -> CornerRadius {
    CornerRadius { nw: corner, ne: corner, sw: corner, se: corner }
}

/// The rounding of piece `index` of `count`: only the outermost pieces carry
/// any, each on its outer side.
pub open spec fn piece_rounding(index: int, count: int, corner: u8) -> CornerRadius {
    let left = if index == 0 { corner } else { 0 };
    let right = if index + 1 == count { corner } else { 0 };
    CornerRadius { nw: left, sw: left, ne: right, se: right }
}

fn piece(index: usize, count: usize, corner: u8) -> (rounding: CornerRadius)
    requires
        index < count,
    ensures
        rounding == piece_rounding(index as int, count as int, corner),
{
    let left: u8 = if index == 0 {
        corner
    } else {
        0
    };
    let right: u8 = if index + 1 == count {
        corner
    } else {
        0
    };
    CornerRadius { nw: left, sw: left, ne: right, se: right }
}

/// How to draw a placeholder with corners of `corner`, in `strips` pieces.
/// Clipping a gradient to a rounded rectangle is not something the toolkit
/// offers, and painting one over the top would light the corners the rounding
/// cut away. A shape whose rounding is wider than a piece has no `strips`: it
/// cannot be built out of pieces, because the ones in the middle would come
/// out square.
pub fn block(visible: bool, strips: Option<usize>, corner: u8) -> (block: Block)
    ensures
        match block {
            Block::Hidden => !visible,
            Block::Whole(rounding) => {
                &&& visible
                &&& strips is None
                &&& rounding == rounded(corner)
            },
            Block::Pieces(pieces) => {
                &&& visible
                &&& strips matches Some(count) && pieces@ == Seq::new(
                    count as nat,
                    |index: int| piece_rounding(index, count as int, corner),
                )
            },
        },
{
    if !visible {
        return Block::Hidden;
    }
    match strips {
        None => Block::Whole(CornerRadius { nw: corner, ne: corner, sw: corner, se: corner }),
        Some(count) => {
            let mut pieces: Vec<CornerRadius> = Vec::new();
            let mut index: usize = 0;
            while index < count
                invariant
                    index <= count,
                    pieces@ == Seq::new(
                        index as nat,
                        |i: int| piece_rounding(i, count as int, corner),
                    ),
                decreases count - index,
            {
                pieces.push(piece(index, count, corner));
                index = index + 1;
            }
            Block::Pieces(pieces)
        }
    }
}

/// How wide the title of a row of tracks is, in hundredths of the row.
pub open spec fn stretch_of(index: int) -> u32 {
    seq![34u32, 27, 42, 30, 38][index % 5]
}

/// How wide a line of lyrics is, in hundredths of what is available.
pub open spec fn fraction_of(index: int) -> u32 {
    seq![62u32, 48, 71, 55, 40][index % 5]
}

fn row_stretch(index: usize) -> (hundredths: u32)
    ensures
        hundredths == stretch_of(index as int),
{
    match index % 5 {
        0 => 34,
        1 => 27,
        2 => 42,
        3 => 30,
        _ => 38,
    }
}

fn line_fraction(index: usize) -> (hundredths: u32)
    ensures
        hundredths == fraction_of(index as int),
{
    match index % 5 {
        0 => 62,
        1 => 48,
        2 => 71,
        3 => 55,
        _ => 40,
    }
}

/// A row that stands in for a track: how large its cover is, and how wide its
/// title, in hundredths of the row.
#[derive(Clone, Copy, Debug, PartialEq, Eq)]
pub struct Row {
    pub cover: u32,
    pub stretch: u32,
}

/// The row that stands in for track `index`.
pub open spec fn row_for(index: int, compact: bool) -> Row {
    Row { cover: if compact { 36 } else { 40 }, stretch: stretch_of(index) }
}

/// The rows that stand in for `count` tracks. Their titles differ in length row
/// to row, so a column of them does not read as a table of identical bars.
pub fn track_rows(count: usize, compact: bool) -> (rows: Vec<Row>)
    ensures
        rows@ == Seq::new(count as nat, |index: int| row_for(index, compact)),
        rows@ == Seq::new(
            count as nat,
            |index: int| (Row { cover: if compact { 36 } else { 40 }, stretch: stretch_of(index) }),
        ),
{
    let cover: u32 = if compact {
        36
    } else {
        40
    };
    let mut rows: Vec<Row> = Vec::new();
    let mut index: usize = 0;
    while index < count
        invariant
            index <= count,
            cover == if compact {
                36u32
            } else {
                40
            },
            rows@ == Seq::new(
                index as nat,
                |index: int|
                    (Row { cover: if compact { 36 } else { 40 }, stretch: stretch_of(index) }),
            ),
        decreases count - index,
    {
        rows.push(Row { cover, stretch: row_stretch(index) });
        index = index + 1;
    }
    rows
}

/// Stacked lines of varying length, for lyrics: how wide each is, in
/// hundredths of what is available.
pub fn lines(count: usize) -> (fractions: Vec<u32>)
    ensures
        fractions@ == Seq::new(count as nat, |index: int| fraction_of(index)),
{
    let mut fractions: Vec<u32> = Vec::new();
    let mut index: usize = 0;
    while index < count
        invariant
            index <= count,
            fractions@ == Seq::new(index as nat, |index: int| fraction_of(index)),
        decreases count - index,
    {
        fractions.push(line_fraction(index));
        index = index + 1;
    }
    fractions
}

/// The cover of a page header: how large it is, and how its corners are rounded.
#[derive(Clone, Copy, Debug, PartialEq, Eq)]
pub struct Cover {
    pub size: u32,
    pub radius: u32,
}

/// The cover of a page header. It is larger on a wide page, and either a circle
/// or a square with small corners.
pub fn hero(wide: bool, round: bool) -> (cover: Cover)
    ensures
        cover.size == if wide {
            212u32
        } else {
            160
        },
        cover.radius == if round {
            cover.size / 2
        } else {
            6
        },
{
    let size: u32 = if wide {
        212
    } else {
        160
    };
    let radius: u32 = if round {
        size / 2
    } else {
        6
    };
    Cover { size, radius }
}

/// A round control under a page header: where its middle is from the left, and
/// how large it is.
#[derive(Clone, Copy, Debug, PartialEq, Eq)]
pub struct Disc {
    pub center: u32,
    pub size: u32,
}

pub const PLAY_DISC: u32 = 56;

pub const ROUND_BUTTON: u32 = 26;

pub const DISC_GAP: u32 = 22;

/// The round controls under a page header: the play disc, and the two round
/// buttons beside it, with a gap between each and the next.
pub open spec fn disc_row() -> Seq<Disc> {
    let second = PLAY_DISC + DISC_GAP;
    let third = second + ROUND_BUTTON + DISC_GAP;
    seq![
        Disc { center: PLAY_DISC / 2, size: PLAY_DISC },
        Disc { center: (second + ROUND_BUTTON / 2) as u32, size: ROUND_BUTTON },
        Disc { center: (third + ROUND_BUTTON / 2) as u32, size: ROUND_BUTTON },
    ]
}

/// The row of controls under a page header, as far as they are round: the play
/// disc, and the two round buttons beside it.
pub fn actions() -> (discs: Vec<Disc>)
    ensures
        discs@ == disc_row(),
{
    let mut discs: Vec<Disc> = Vec::new();
    let mut left: u32 = 0;
    discs.push(Disc { center: left + PLAY_DISC / 2, size: PLAY_DISC });
    left = left + PLAY_DISC + DISC_GAP;
    discs.push(Disc { center: left + ROUND_BUTTON / 2, size: ROUND_BUTTON });
    left = left + ROUND_BUTTON + DISC_GAP;
    discs.push(Disc { center: left + ROUND_BUTTON / 2, size: ROUND_BUTTON });
    discs
}

/// The round controls begin at the left edge and stand a gap apart.
pub proof fn law_discs_stand_a_gap_apart(index: int)
    requires
        0 <= index < 2,
    ensures
        2 * disc_row()[0].center == disc_row()[0].size,
        2 * disc_row()[index + 1].center - disc_row()[index + 1].size == 2
            * disc_row()[index].center + disc_row()[index].size + 2 * DISC_GAP,
{
    assert(index == 0 || index == 1);
}

/// The corners of a placeholder in pieces are those of the placeholder whole:
/// the first piece has the left ones, the last the right ones, and no piece
/// has a rounding that the whole has not.
pub proof fn law_pieces_round_like_the_whole(count: int, corner: u8, index: int)
    requires
        0 <= index < count,
    ensures
        ({
            let first = piece_rounding(0, count, corner);
            let last = piece_rounding(count - 1, count, corner);
            let between = piece_rounding(index, count, corner);
            &&& first.nw == corner && first.sw == corner
            &&& last.ne == corner && last.se == corner
            &&& 0 < index < count - 1 ==> between == rounded(0)
            &&& count == 1 ==> between == rounded(corner)
        }),
{
}

/// No two lines that follow one another are equally long.
pub proof fn law_neighbouring_lines_differ(index: int)
    requires
        index >= 0,
    ensures
        stretch_of(index) != stretch_of(index + 1),
        fraction_of(index) != fraction_of(index + 1),
{
    let place = index % 5;
    assert(place == 0 || place == 1 || place == 2 || place == 3 || place == 4);
}

/// The lengths of the lines come round every five lines, whether for rows or for
/// lyrics, and each is part of the width and not all of it.
pub proof fn law_line_lengths_come_round(index: int)
    requires
        index >= 0,
    ensures
        stretch_of(index + 5) == stretch_of(index),
        fraction_of(index + 5) == fraction_of(index),
        0 < stretch_of(index) < 100,
        0 < fraction_of(index) < 100,
{
    assert((index + 5) % 5 == index % 5);
    let place = index % 5;
    assert(place == 0 || place == 1 || place == 2 || place == 3 || place == 4);
}

/// Of several pieces only the first is rounded on the left and only the last on
/// the right; a whole shape is rounded alike all over.
pub proof fn law_inner_edges_are_square(count: int, corner: u8, index: int)
    requires
        0 <= index < count,
    ensures
        ({
            let piece = piece_rounding(index, count, corner);
            &&& index > 0 ==> piece.nw == 0 && piece.sw == 0
            &&& index < count - 1 ==> piece.ne == 0 && piece.se == 0
            &&& index == 0 ==> piece.nw == corner && piece.sw == corner
            &&& index == count - 1 ==> piece.ne == corner && piece.se == corner
            &&& rounded(corner).nw == corner && rounded(corner).ne == corner
            &&& rounded(corner).sw == corner && rounded(corner).se == corner
        }),
{
}

/// The covers of all rows are alike, forty points and in a compact list
/// thirty-six, and a list's rows are as wide whether it is compact or not.
pub proof fn law_covers_are_alike(index: int)
    ensures
        row_for(index, false).cover == 40,
        row_for(index, true).cover == 36,
        row_for(index, false).stretch == row_for(index, true).stretch,
        row_for(index, false).stretch == stretch_of(index),
{
}

} // verus!
