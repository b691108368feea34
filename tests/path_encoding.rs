use vglite_rs::path::{
    OP_CLOSE, OP_CUBIC, OP_END, OP_LCCWARC, OP_LCWARC_REL, OP_LINE, OP_LINE_REL, OP_MOVE,
    OP_MOVE_REL, OP_QUAD, OP_QUAD_REL, OP_SCCWARC, OP_SCWARC_REL, PATH_TYPE_FILL, PATH_TYPE_NONE,
};
use vglite_rs::{decode_commands, DataFormat, Fill, OpCodeFormat, Opcode, Path, PathData, Quality};

fn words<T: OpCodeFormat>(p: PathData<T>) -> Vec<T> {
    p.fill(Quality::High).words().to_vec()
}

#[test]
fn move_sets_box_exactly() {
    let mut p = PathData::<i32>::new();
    p.append(Opcode::Move { x: 10, y: -4 });
    assert_eq!(p.bounding_box(), [10, -4, 10, -4]);
}

#[test]
fn line_after_move_widens_box() {
    let mut p = PathData::<i32>::new();
    p.append(Opcode::Move { x: 10, y: -4 });
    p.append(Opcode::Line { x: 3, y: 7 });
    assert_eq!(p.bounding_box(), [3, -4, 10, 7]);
}

#[test]
fn empty_box_reports_zero() {
    let p = PathData::<i16>::default();
    assert_eq!(p.bounding_box(), [0, 0, 0, 0]);
    let mut q = PathData::<i16>::new();
    q.close().append(Opcode::End);
    assert_eq!(q.bounding_box(), [0, 0, 0, 0]);
}

#[test]
fn move_and_line_encode_tag_then_point() {
    let mut p = PathData::<i32>::new();
    p.move_to(1, 2).line_to(3, 4).close();
    assert_eq!(words(p), vec![OP_MOVE as i32, 1, 2, OP_LINE as i32, 3, 4, OP_CLOSE as i32]);
}

#[test]
fn quad_and_cubic_encode_all_fields() {
    let mut p = PathData::<i16>::new();
    p.move_to(0, 0).quad_to(5, 6, 7, 8).curve_to(1, 2, 3, 4, 9, 10);
    assert_eq!(
        words(p),
        vec![
            OP_MOVE as i16, 0, 0,
            OP_QUAD as i16, 5, 6, 7, 8,
            OP_CUBIC as i16, 1, 2, 3, 4, 9, 10,
        ]
    );
}

#[test]
fn relative_and_arc_variants_are_encoded() {
    let ops = [
        Opcode::MoveRel { dx: 1i8, dy: 2 },
        Opcode::LineRel { dx: -1, dy: -2 },
        Opcode::QuadRel { dcx: 1, dcy: 2, dx: 3, dy: 4 },
        Opcode::SCCWArc { rh: 5, rv: 6, rot: 7, x: 8, y: 9 },
        Opcode::SCWArcRel { rh: 1, rv: 1, rot: 0, x: 2, y: 2 },
        Opcode::LCWArcRel { rh: 3, rv: 3, rot: 0, x: 4, y: 4 },
        Opcode::End,
    ];
    let p = PathData::from_opcodes(&ops);
    assert_eq!(
        words(p),
        vec![
            OP_MOVE_REL as i8, 1, 2,
            OP_LINE_REL as i8, -1, -2,
            OP_QUAD_REL as i8, 1, 2, 3, 4,
            OP_SCCWARC as i8, 5, 6, 7, 8, 9,
            OP_SCWARC_REL as i8, 1, 1, 0, 2, 2,
            OP_LCWARC_REL as i8, 3, 3, 0, 4, 4,
            OP_END as i8,
        ]
    );
}

#[test]
fn control_points_and_relative_offsets_stay_out_of_box() {
    let ops = [
        Opcode::Move { x: 0i32, y: 0 },
        Opcode::Cubic { cx1: -100, cy1: -100, cx2: 100, cy2: 100, x: 5, y: 6 },
        Opcode::Quad { cx: 50, cy: -50, x: -2, y: 3 },
        Opcode::LineRel { dx: 1000, dy: 1000 },
        Opcode::LCCWArc { rh: 77, rv: 77, rot: 0, x: 4, y: -8 },
    ];
    let p = PathData::from_opcodes(&ops);
    assert_eq!(p.bounding_box(), [-2, -8, 5, 6]);
}

#[test]
fn box_spans_every_subpath() {
    let mut p = PathData::<i32>::new();
    p.move_to(100, 100).line_to(110, 120).close();
    p.move_to(-5, 50).line_to(0, 60).close();
    assert_eq!(p.bounding_box(), [-5, 50, 110, 120]);
}

#[test]
fn box_is_componentwise_extremes_of_endpoints() {
    let ops = [
        Opcode::Line { x: 3i16, y: -1 },
        Opcode::Move { x: -7, y: 4 },
        Opcode::Close,
        Opcode::Line { x: 2, y: 12 },
        Opcode::SCWArcRel { rh: 9, rv: 9, rot: 9, x: 90, y: 90 },
        Opcode::LCWArc { rh: 1, rv: 1, rot: 0, x: 11, y: 0 },
    ];
    let p = PathData::from_opcodes(&ops);
    assert_eq!(p.bounding_box(), [-7, -1, 11, 12]);
    let path = p.fill(Quality::Low);
    assert_eq!(path.bounding_box(), [-7, -1, 11, 12]);
}

#[test]
fn decoding_recovers_tags_and_operand_counts() {
    let ops = [
        Opcode::Move { x: 1i32, y: 1 },
        Opcode::Line { x: 2, y: 2 },
        Opcode::Quad { cx: 0, cy: 0, x: 3, y: 3 },
        Opcode::Cubic { cx1: 0, cy1: 0, cx2: 0, cy2: 0, x: 4, y: 4 },
        Opcode::LCCWArc { rh: 1, rv: 1, rot: 0, x: 5, y: 5 },
        Opcode::Close,
        Opcode::End,
    ];
    let path = PathData::from_opcodes(&ops).fill(Quality::Medium);
    let decoded = decode_commands(path.words()).unwrap();
    assert_eq!(
        decoded,
        vec![
            (OP_MOVE, 2),
            (OP_LINE, 2),
            (OP_QUAD, 4),
            (OP_CUBIC, 6),
            (OP_LCCWARC, 5),
            (OP_CLOSE, 0),
            (OP_END, 0),
        ]
    );
}

#[test]
fn decoding_rejects_bad_streams() {
    assert_eq!(decode_commands::<i32>(&[]), Some(vec![]));
    assert_eq!(decode_commands(&[0x12i32]), None);
    assert_eq!(decode_commands(&[-1i32]), None);
    assert_eq!(decode_commands(&[OP_LINE as i32, 1]), None);
    assert_eq!(decode_commands(&[OP_LCWARC_REL as i16, 1, 2, 3, 4, 5]), Some(vec![(OP_LCWARC_REL, 5)]));
}

#[test]
fn seeded_box_is_extended_not_reset() {
    let mut p = PathData::<i32>::new();
    p.set_bbox(-10, -10, 10, 10);
    p.move_to(20, 0);
    assert_eq!(p.bounding_box(), [-10, -10, 20, 10]);
}

#[test]
fn fill_marks_a_fill_path() {
    let mut p = PathData::<i16>::new();
    p.move_to(-3, 4).line_to(8, -9).close();
    let path = p.fill(Quality::Upper);
    assert_eq!(path.path_type(), PATH_TYPE_FILL);
    assert_eq!(path.path_type(), 2);
    assert_eq!(path.quality(), Quality::Upper);
    assert_eq!(path.format(), DataFormat::I16);
    assert_eq!(path.path_length(), 7 * 2);
    assert_eq!(path.bounding_box(), [-3, -9, 8, 4]);
}

#[test]
fn new_path_has_no_type_and_zero_box() {
    let mut p = PathData::<i32>::new();
    p.move_to(5, 5).line_to(6, 6);
    let path = Path::new(p, Quality::High);
    assert_eq!(path.path_type(), PATH_TYPE_NONE);
    assert_eq!(path.bounding_box(), [0, 0, 0, 0]);
    assert_eq!(path.path_length(), 6 * 4);
    assert_eq!(path.format(), DataFormat::I32);
    assert_eq!(path.words(), &[OP_MOVE as i32, 5, 5, OP_LINE as i32, 6, 6]);
}

#[test]
fn i8_stream_lengths_are_bytes() {
    let mut p = PathData::<i8>::new();
    p.move_to(1, 1).line_to(-128, 127);
    let path = p.fill(Quality::High);
    assert_eq!(path.path_length(), 6);
    assert_eq!(path.format(), DataFormat::I8);
    assert_eq!(path.bounding_box(), [-128, 1, 1, 127]);
}

#[test]
fn enum_codes_match_engine() {
    assert_eq!(DataFormat::I8.code(), 0);
    assert_eq!(DataFormat::I16.code(), 1);
    assert_eq!(DataFormat::I32.code(), 2);
    assert_eq!(DataFormat::F32.code(), 3);
    assert_eq!(Quality::High.code(), 0);
    assert_eq!(Quality::Upper.code(), 1);
    assert_eq!(Quality::Medium.code(), 2);
    assert_eq!(Quality::Low.code(), 3);
    assert_eq!(Fill::NonZero.code(), 0);
    assert_eq!(Fill::EvenOdd.code(), 1);
    assert_eq!(<i8 as OpCodeFormat>::format(), DataFormat::I8);
    assert_eq!(<i16 as OpCodeFormat>::width(), 2);
    assert_eq!(<i32 as OpCodeFormat>::transmute(OP_CUBIC), 8);
}
