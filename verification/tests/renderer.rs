use entur_display::model::Departure;
use entur_display::render::display;
use entur_display::render::DrawOp;

fn dep(line: &str, leaving: &str) -> Departure {
    Departure {
        start_time: 0,
        leaving_in: String::from(leaving),
        line_number: String::from(line),
    }
}

#[test]
fn empty_list_clears_and_flushes_only() {
    let ops = display(&vec![]);
    assert_eq!(ops, vec![DrawOp::Flush, DrawOp::ClearListRegion, DrawOp::Flush]);
}

#[test]
fn rows_are_laid_out_in_list_order() {
    let ds = vec![dep("12", "7 Min"), dep("21", "12 Min")];
    let ops = display(&ds);
    assert_eq!(
        ops,
        vec![
            DrawOp::Flush,
            DrawOp::ClearListRegion,
            DrawOp::RowMarker { row: 0 },
            DrawOp::RowLine { row: 0, text: String::from("12") },
            DrawOp::RowCountdown { row: 0, text: String::from("7 Min") },
            DrawOp::RowMarker { row: 1 },
            DrawOp::RowLine { row: 1, text: String::from("21") },
            DrawOp::RowCountdown { row: 1, text: String::from("12 Min") },
            DrawOp::Flush,
        ]
    );
}

#[test]
fn short_countdowns_are_padded_to_the_column_width() {
    let ops = display(&vec![dep("4", "7")]);
    assert_eq!(ops[4], DrawOp::RowCountdown { row: 0, text: String::from("    7") });
}

#[test]
fn rendering_twice_gives_identical_frames() {
    let ds = vec![dep("12", "7 Min"), dep("21", "0 Min"), dep("3", "-1 Min")];
    let first = display(&ds);
    let second = display(&ds);
    assert_eq!(first, second);
}
