//! The display renderer: lays a departure list out as a fixed sequence
//! of drawing operations for the 64x128 monochrome canvas. The title
//! region is never touched; the list region is cleared and redrawn, one
//! text row per departure at a fixed vertical pitch, the countdown
//! column padded to a fixed width so the columns stay aligned. The
//! operations are a pure function of the departure list, so redrawing
//! the same list yields pixel-identical frames.

use vstd::prelude::*;

use crate::model::Departure;
use crate::model::DepartureView;
use crate::numfmt::pad_left_5;
use crate::numfmt::pad_start_5;

verus! {

/// Canvas width in pixels.
pub const DISPLAY_WIDTH: u32 = 64;

/// Canvas height in pixels.
pub const DISPLAY_HEIGHT: u32 = 128;

/// The title region occupies this many pixel rows at the top; the list
/// region is everything below it, and only the list region is cleared.
pub const TITLE_HEIGHT: u32 = 12;

/// Vertical pitch between consecutive departure rows, in pixels.
pub const ROW_PITCH: u32 = 12;

/// The first departure row's top edge, in pixels from the canvas top.
pub const LIST_TOP: u32 = 16;

/// Horizontal position of the row marker tick.
pub const MARKER_X: u32 = 6;

/// Horizontal position of the line-number text.
pub const LINE_TEXT_X: u32 = 7;

/// Horizontal position of the countdown text.
pub const COUNTDOWN_X: u32 = 32;

/// One drawing operation on the canvas. Pixel positions follow from the
/// row index: a row's top edge sits at `LIST_TOP + row * ROW_PITCH`.
#[derive(Debug, Clone, PartialEq, Eq)]
pub enum DrawOp {
    /// Fill the list region (everything below the title) with the
    /// background color, leaving the title region untouched.
    ClearListRegion,
    /// The one-pixel-wide tick at `MARKER_X` marking the row's left edge.
    RowMarker { row: usize },
    /// The line's public code, drawn inverted at `LINE_TEXT_X`.
    RowLine { row: usize, text: String },
    /// The countdown, drawn at `COUNTDOWN_X`, already padded to the
    /// fixed five-character column width.
    RowCountdown { row: usize, text: String },
    /// Push the frame buffer to the device.
    Flush,
}

/// Mathematical image of a `DrawOp`.
pub enum DrawOpView {
    ClearListRegion,
    RowMarker { row: int },
    RowLine { row: int, text: Seq<char> },
    RowCountdown { row: int, text: Seq<char> },
    Flush,
}

impl View for DrawOp {
    type V = DrawOpView;

    open spec fn view(&self) -> DrawOpView {
        match self {
            DrawOp::ClearListRegion => DrawOpView::ClearListRegion,
            DrawOp::RowMarker { row } => DrawOpView::RowMarker { row: *row as int },
            DrawOp::RowLine { row, text } => DrawOpView::RowLine {
                row: *row as int,
                text: text@,
            },
            DrawOp::RowCountdown { row, text } => DrawOpView::RowCountdown {
                row: *row as int,
                text: text@,
            },
            DrawOp::Flush => DrawOpView::Flush,
        }
    }
}

/// The three operations that draw one departure on its row: the marker
/// tick, the inverted line number, and the padded countdown.
pub open spec fn dep_row_ops(d: DepartureView, row: int) -> Seq<DrawOpView> {
    seq![
        DrawOpView::RowMarker { row },
        DrawOpView::RowLine { row, text: d.line_number },
        DrawOpView::RowCountdown { row, text: pad_left_5(d.leaving_in) },
    ]
}

/// The row operations for a whole departure list, in list order, row
/// indices counting up from zero.
pub open spec fn rows_ops(ds: Seq<DepartureView>) -> Seq<DrawOpView>
    decreases ds.len(),
{
    if ds.len() == 0 {
        Seq::empty()
    } else {
        rows_ops(ds.drop_last()) + dep_row_ops(ds.last(), ds.len() - 1)
    }
}

/// The full frame for a departure list: flush any pending state, clear
/// the list region (never the title), draw each departure on its row in
/// list order, and flush. Rows past the canvas bottom are emitted as-is
/// and clipped by the drawing primitive; the renderer does not paginate.
pub open spec fn spec_display(ds: Seq<DepartureView>) -> Seq<DrawOpView> {
    seq![DrawOpView::Flush, DrawOpView::ClearListRegion] + rows_ops(ds) + seq![
        DrawOpView::Flush,
    ]
}

/// Renders a departure list as the frame's drawing operations.
pub fn display(departures: &Vec<Departure>) -> (ops: Vec<DrawOp>)
    ensures
        ops@.map_values(|o: DrawOp| o@) == spec_display(
            departures@.map_values(|d: Departure| d@),
        ),
{
    let ghost ds = departures@.map_values(|d: Departure| d@);
    let mut ops: Vec<DrawOp> = Vec::new();
    ops.push(DrawOp::Flush);
    ops.push(DrawOp::ClearListRegion);
    let mut i: usize = 0;
    while i < departures.len()
        invariant
            i <= departures@.len(),
            ds == departures@.map_values(|d: Departure| d@),
            ops@.map_values(|o: DrawOp| o@) == seq![
                DrawOpView::Flush,
                DrawOpView::ClearListRegion,
            ] + rows_ops(ds.take(i as int)),
        decreases departures@.len() - i,
    {
        let d = &departures[i];
        let ghost old_ops = ops@;
        ops.push(DrawOp::RowMarker { row: i });
        ops.push(DrawOp::RowLine { row: i, text: d.line_number.clone() });
        ops.push(DrawOp::RowCountdown { row: i, text: pad_start_5(d.leaving_in.as_str()) });
        proof {
            assert(ds[i as int] == departures@.map_values(|d: Departure| d@)[i as int]);
            assert(ops@.map_values(|o: DrawOp| o@) =~= old_ops.map_values(|o: DrawOp| o@)
                + dep_row_ops(ds[i as int], i as int));
            assert(ds.take(i + 1).drop_last() =~= ds.take(i as int));
            assert(ds.take(i + 1).last() == ds[i as int]);
            assert(rows_ops(ds.take(i + 1)) == rows_ops(ds.take(i as int)) + dep_row_ops(
                ds[i as int],
                i as int,
            ));
            assert(ops@.map_values(|o: DrawOp| o@) =~= seq![
                DrawOpView::Flush,
                DrawOpView::ClearListRegion,
            ] + rows_ops(ds.take(i + 1)));
        }
        i += 1;
    }
    ops.push(DrawOp::Flush);
    proof {
        assert(ds.take(departures@.len() as int) =~= ds);
        assert(ops@.map_values(|o: DrawOp| o@) =~= spec_display(ds));
    }
    ops
}

proof fn lemma_rows_ops_shape(ds: Seq<DepartureView>)
    ensures
        rows_ops(ds).len() == 3 * ds.len(),
        forall|i: int|
            0 <= i < ds.len() ==> rows_ops(ds)[3 * i] == (DrawOpView::RowMarker { row: i })
                && rows_ops(ds)[3 * i + 1] == (DrawOpView::RowLine {
                row: i,
                text: ds[i].line_number,
            }) && rows_ops(ds)[3 * i + 2] == (DrawOpView::RowCountdown {
                row: i,
                text: pad_left_5(ds[i].leaving_in),
            }),
    decreases ds.len(),
{
    if ds.len() > 0 {
        lemma_rows_ops_shape(ds.drop_last());
        let n = ds.len() - 1;
        assert forall|i: int| 0 <= i < ds.len() implies rows_ops(ds)[3 * i] == (
        DrawOpView::RowMarker { row: i }) && rows_ops(ds)[3 * i + 1] == (DrawOpView::RowLine {
            row: i,
            text: ds[i].line_number,
        }) && rows_ops(ds)[3 * i + 2] == (DrawOpView::RowCountdown {
            row: i,
            text: pad_left_5(ds[i].leaving_in),
        }) by {
            if i < n {
                assert(ds.drop_last()[i] == ds[i]);
            }
        }
    }
}

/// LAW: a frame holds exactly one marker, one line text and one padded
/// countdown per departure, at consecutive row indices in list order,
/// between a leading flush-and-clear and a trailing flush — and nothing
/// else, so the title region is never redrawn and an empty list leaves
/// exactly a cleared list region.
pub proof fn lemma_display_shape(ds: Seq<DepartureView>)
    ensures
        spec_display(ds).len() == 3 * ds.len() + 3,
        spec_display(ds)[0] == DrawOpView::Flush,
        spec_display(ds)[1] == DrawOpView::ClearListRegion,
        spec_display(ds).last() == DrawOpView::Flush,
        forall|i: int|
            0 <= i < ds.len() ==> spec_display(ds)[2 + 3 * i] == (DrawOpView::RowMarker { row: i })
                && spec_display(ds)[2 + 3 * i + 1] == (DrawOpView::RowLine {
                row: i,
                text: ds[i].line_number,
            }) && spec_display(ds)[2 + 3 * i + 2] == (DrawOpView::RowCountdown {
                row: i,
                text: pad_left_5(ds[i].leaving_in),
            }),
{
    lemma_rows_ops_shape(ds);
}

/// LAW: rendering is a function of the departure list alone — frames
/// drawn from equal lists consist of identical operations, so calling
/// the renderer twice in succession with the same list produces
/// pixel-identical frames and accumulates no hidden state.
pub proof fn lemma_display_idempotent(a: Seq<DepartureView>, b: Seq<DepartureView>)
    requires
        a == b,
    ensures
        spec_display(a) == spec_display(b),
{
}

} // verus!
