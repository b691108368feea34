use vstd::math::{max, min};
use vstd::prelude::*;

verus! {

/// Opcode tags of the rasterizer's path command stream.
pub const OP_END: u32 = 0x00;
pub const OP_CLOSE: u32 = 0x01;
pub const OP_MOVE: u32 = 0x02;
pub const OP_MOVE_REL: u32 = 0x03;
pub const OP_LINE: u32 = 0x04;
pub const OP_LINE_REL: u32 = 0x05;
pub const OP_QUAD: u32 = 0x06;
pub const OP_QUAD_REL: u32 = 0x07;
pub const OP_CUBIC: u32 = 0x08;
pub const OP_CUBIC_REL: u32 = 0x09;
pub const OP_SCCWARC: u32 = 0x0A;
pub const OP_SCCWARC_REL: u32 = 0x0B;
pub const OP_SCWARC: u32 = 0x0C;
pub const OP_SCWARC_REL: u32 = 0x0D;
pub const OP_LCCWARC: u32 = 0x0E;
pub const OP_LCCWARC_REL: u32 = 0x0F;
pub const OP_LCWARC: u32 = 0x10;
pub const OP_LCWARC_REL: u32 = 0x11;

/// Numeric representation of path coordinates, as the rasterizer names it.
#[derive(Debug, Clone, Copy, PartialEq, Eq, Structural)]
pub enum DataFormat {
    I8,
    I16,
    I32,
    F32,
}

impl DataFormat {
    pub open spec fn spec_code(self) -> u32 {
        match self {
            DataFormat::I8 => 0,
            DataFormat::I16 => 1,
            DataFormat::I32 => 2,
            DataFormat::F32 => 3,
        }
    }

    /// The engine's identifier for this coordinate format.
    pub fn code(self) -> (r: u32)
        ensures
            r == self.spec_code(),
    {
        match self {
            DataFormat::I8 => 0,
            DataFormat::I16 => 1,
            DataFormat::I32 => 2,
            DataFormat::F32 => 3,
        }
    }
}

/// Rendering quality hint handed to the rasterizer with a path.
#[derive(Debug, Clone, Copy, PartialEq, Eq, Structural)]
pub enum Quality {
    High,
    Upper,
    Medium,
    Low,
}

impl Quality {
    pub open spec fn spec_code(self) -> u32 {
        match self {
            Quality::High => 0,
            Quality::Upper => 1,
            Quality::Medium => 2,
            Quality::Low => 3,
        }
    }

    /// The engine's identifier for this quality hint.
    pub fn code(self) -> (r: u32)
        ensures
            r == self.spec_code(),
    {
        match self {
            Quality::High => 0,
            Quality::Upper => 1,
            Quality::Medium => 2,
            Quality::Low => 3,
        }
    }
}

/// Fill rule used when rasterizing a path.
#[derive(Debug, Clone, Copy, PartialEq, Eq, Structural)]
pub enum Fill {
    NonZero,
    EvenOdd,
}

impl Fill {
    pub open spec fn spec_code(self) -> u32 {
        match self {
            Fill::NonZero => 0,
            Fill::EvenOdd => 1,
        }
    }

    /// The engine's identifier for this fill rule.
    pub fn code(self) -> (r: u32)
        ensures
            r == self.spec_code(),
    {
        match self {
            Fill::NonZero => 0,
            Fill::EvenOdd => 1,
        }
    }
}

/// A coordinate type that can make up a path command stream: it names its
/// wire format, carries opcode tags losslessly, and is ordered by its value.
pub trait OpCodeFormat: Sized + Copy {
    /// The numeric value of a coordinate.
    spec fn value(self) -> int;

    /// The element that stands for the 32-bit word `op` in the stream.
    spec fn from_word(op: u32) -> Self;

    spec fn spec_format() -> DataFormat;

    /// Bytes one element takes in the stream.
    spec fn spec_width() -> nat;

    /// Opcode tags survive the trip into the element type.
    proof fn lemma_from_word(op: u32)
        requires
            op <= 0x7f,
        ensures
            Self::from_word(op).value() == op,
    ;

    fn format() -> (r: DataFormat)
        ensures
            r == Self::spec_format(),
    ;

    fn width() -> (r: usize)
        ensures
            r == Self::spec_width(),
            1 <= r <= 4,
    ;

    fn transmute(op: u32) -> (r: Self)
        ensures
            r == Self::from_word(op),
    ;

    fn zero() -> (r: Self)
        ensures
            r.value() == 0,
    ;

    fn is_less(&self, other: &Self) -> (r: bool)
        ensures
            r == (self.value() < other.value()),
    ;

    fn to_i32(&self) -> (r: i32)
        ensures
            r == self.value(),
    ;
}

impl OpCodeFormat for i8 {
    open spec fn value(self) -> int {
        self as int
    }

    open spec fn from_word(op: u32) -> i8 {
        op as i8
    }

    open spec fn spec_format() -> DataFormat {
        DataFormat::I8
    }

    open spec fn spec_width() -> nat {
        1
    }

    proof fn lemma_from_word(op: u32) {
    }

    fn format() -> (r: DataFormat) {
        DataFormat::I8
    }

    fn width() -> (r: usize) {
        1
    }

    fn transmute(op: u32) -> (r: i8) {
        op as i8
    }

    fn zero() -> (r: i8) {
        0
    }

    fn is_less(&self, other: &i8) -> (r: bool) {
        *self < *other
    }

    fn to_i32(&self) -> (r: i32) {
        *self as i32
    }
}

impl OpCodeFormat for i16 {
    open spec fn value(self) -> int {
        self as int
    }

    open spec fn from_word(op: u32) -> i16 {
        op as i16
    }

    open spec fn spec_format() -> DataFormat {
        DataFormat::I16
    }

    open spec fn spec_width() -> nat {
        2
    }

    proof fn lemma_from_word(op: u32) {
    }

    fn format() -> (r: DataFormat) {
        DataFormat::I16
    }

    fn width() -> (r: usize) {
        2
    }

    fn transmute(op: u32) -> (r: i16) {
        op as i16
    }

    fn zero() -> (r: i16) {
        0
    }

    fn is_less(&self, other: &i16) -> (r: bool) {
        *self < *other
    }

    fn to_i32(&self) -> (r: i32) {
        *self as i32
    }
}

impl OpCodeFormat for i32 {
    open spec fn value(self) -> int {
        self as int
    }

    open spec fn from_word(op: u32) -> i32 {
        op as i32
    }

    open spec fn spec_format() -> DataFormat {
        DataFormat::I32
    }

    open spec fn spec_width() -> nat {
        4
    }

    proof fn lemma_from_word(op: u32) {
    }

    fn format() -> (r: DataFormat) {
        DataFormat::I32
    }

    fn width() -> (r: usize) {
        4
    }

    fn transmute(op: u32) -> (r: i32) {
        op as i32
    }

    fn zero() -> (r: i32) {
        0
    }

    fn is_less(&self, other: &i32) -> (r: bool) {
        *self < *other
    }

    fn to_i32(&self) -> (r: i32) {
        *self
    }
}

/// One drawing instruction of a path, with its coordinates.
#[derive(Debug, Clone, Copy)]
pub enum Opcode<T: OpCodeFormat> {
    End,
    Close,
    Move { x: T, y: T },
    MoveRel { dx: T, dy: T },
    Line { x: T, y: T },
    LineRel { dx: T, dy: T },
    Quad { cx: T, cy: T, x: T, y: T },
    QuadRel { dcx: T, dcy: T, dx: T, dy: T },
    Cubic { cx1: T, cy1: T, cx2: T, cy2: T, x: T, y: T },
    CubicRel { dcx1: T, dcy1: T, dcx2: T, dcy2: T, dx: T, dy: T },
    SCCWArc { rh: T, rv: T, rot: T, x: T, y: T },
    SCCWArcRel { rh: T, rv: T, rot: T, x: T, y: T },
    SCWArc { rh: T, rv: T, rot: T, x: T, y: T },
    SCWArcRel { rh: T, rv: T, rot: T, x: T, y: T },
    LCCWArc { rh: T, rv: T, rot: T, x: T, y: T },
    LCCWArcRel { rh: T, rv: T, rot: T, x: T, y: T },
    LCWArc { rh: T, rv: T, rot: T, x: T, y: T },
    LCWArcRel { rh: T, rv: T, rot: T, x: T, y: T },
}

impl<T: OpCodeFormat> Opcode<T> {
    /// The stream tag of this instruction.
    pub open spec fn tag(self) -> u32 {
        match self {
            Opcode::End => OP_END,
            Opcode::Close => OP_CLOSE,
            Opcode::Move { .. } => OP_MOVE,
            Opcode::MoveRel { .. } => OP_MOVE_REL,
            Opcode::Line { .. } => OP_LINE,
            Opcode::LineRel { .. } => OP_LINE_REL,
            Opcode::Quad { .. } => OP_QUAD,
            Opcode::QuadRel { .. } => OP_QUAD_REL,
            Opcode::Cubic { .. } => OP_CUBIC,
            Opcode::CubicRel { .. } => OP_CUBIC_REL,
            Opcode::SCCWArc { .. } => OP_SCCWARC,
            Opcode::SCCWArcRel { .. } => OP_SCCWARC_REL,
            Opcode::SCWArc { .. } => OP_SCWARC,
            Opcode::SCWArcRel { .. } => OP_SCWARC_REL,
            Opcode::LCCWArc { .. } => OP_LCCWARC,
            Opcode::LCCWArcRel { .. } => OP_LCCWARC_REL,
            Opcode::LCWArc { .. } => OP_LCWARC,
            Opcode::LCWArcRel { .. } => OP_LCWARC_REL,
        }
    }

    /// The instruction's fields, in declaration order.
    pub open spec fn operands(self) -> Seq<T> {
        match self {
            Opcode::End => seq![],
            Opcode::Close => seq![],
            Opcode::Move { x, y } => seq![x, y],
            Opcode::MoveRel { dx, dy } => seq![dx, dy],
            Opcode::Line { x, y } => seq![x, y],
            Opcode::LineRel { dx, dy } => seq![dx, dy],
            Opcode::Quad { cx, cy, x, y } => seq![cx, cy, x, y],
            Opcode::QuadRel { dcx, dcy, dx, dy } => seq![dcx, dcy, dx, dy],
            Opcode::Cubic { cx1, cy1, cx2, cy2, x, y } => seq![cx1, cy1, cx2, cy2, x, y],
            Opcode::CubicRel { dcx1, dcy1, dcx2, dcy2, dx, dy } => seq![
                dcx1,
                dcy1,
                dcx2,
                dcy2,
                dx,
                dy,
            ],
            Opcode::SCCWArc { rh, rv, rot, x, y } => seq![rh, rv, rot, x, y],
            Opcode::SCCWArcRel { rh, rv, rot, x, y } => seq![rh, rv, rot, x, y],
            Opcode::SCWArc { rh, rv, rot, x, y } => seq![rh, rv, rot, x, y],
            Opcode::SCWArcRel { rh, rv, rot, x, y } => seq![rh, rv, rot, x, y],
            Opcode::LCCWArc { rh, rv, rot, x, y } => seq![rh, rv, rot, x, y],
            Opcode::LCCWArcRel { rh, rv, rot, x, y } => seq![rh, rv, rot, x, y],
            Opcode::LCWArc { rh, rv, rot, x, y } => seq![rh, rv, rot, x, y],
            Opcode::LCWArcRel { rh, rv, rot, x, y } => seq![rh, rv, rot, x, y],
        }
    }

    /// The words this instruction adds to the stream: its tag, then its fields.
    pub open spec fn encoding(self) -> Seq<T> {
        seq![T::from_word(self.tag())] + self.operands()
    }

    /// The absolute point the instruction ends at, if it has one. Control
    /// points and relative offsets are not endpoints.
    pub open spec fn endpoint(self) -> Option<(T, T)> {
        match self {
            Opcode::Move { x, y } => Some((x, y)),
            Opcode::Line { x, y } => Some((x, y)),
            Opcode::Quad { x, y, .. } => Some((x, y)),
            Opcode::Cubic { x, y, .. } => Some((x, y)),
            Opcode::SCCWArc { x, y, .. } => Some((x, y)),
            Opcode::SCWArc { x, y, .. } => Some((x, y)),
            Opcode::LCCWArc { x, y, .. } => Some((x, y)),
            Opcode::LCWArc { x, y, .. } => Some((x, y)),
            _ => None,
        }
    }
}

/// Number of fields that follow a tag in the stream; `None` for a word that
/// is no tag.
pub open spec fn operand_count(tag: int) -> Option<nat> {
    if tag == OP_END || tag == OP_CLOSE {
        Some(0)
    } else if OP_MOVE <= tag <= OP_LINE_REL {
        Some(2)
    } else if tag == OP_QUAD || tag == OP_QUAD_REL {
        Some(4)
    } else if tag == OP_CUBIC || tag == OP_CUBIC_REL {
        Some(6)
    } else if OP_SCCWARC <= tag <= OP_LCWARC_REL {
        Some(5)
    } else {
        None
    }
}

/// A bounding box `(min_x, min_y, max_x, max_y)`, or `None` before any point.
pub open spec fn grown(b: Option<(int, int, int, int)>, x: int, y: int) -> (int, int, int, int) {
    match b {
        None => (x, y, x, y),
        Some((x0, y0, x1, y1)) => (min(x0, x), min(y0, y), max(x1, x), max(y1, y)),
    }
}

/// The bounding box after one more instruction: its endpoint, if any, is
/// folded in.
pub open spec fn box_after<T: OpCodeFormat>(b: Option<(int, int, int, int)>, op: Opcode<T>) -> Option<
    (int, int, int, int),
> {
    match op.endpoint() {
        Some((x, y)) => Some(grown(b, x.value(), y.value())),
        None => b,
    }
}

/// The extremes reported for a box: the box itself, or `fallback` while it
/// is empty.
pub open spec fn reported(b: Option<(int, int, int, int)>, fallback: (int, int, int, int)) -> (
    int,
    int,
    int,
    int,
) {
    match b {
        Some(v) => v,
        None => fallback,
    }
}

/// Encoder that turns instructions into a flat command stream and tracks the
/// bounding box of every endpoint seen. The box starts out empty (or as the
/// caller seeds it); the first endpoint of an empty box sets it exactly, and
/// each later one extends it.
#[derive(Debug, Clone)]
pub struct PathData<T: OpCodeFormat> {
    data: Vec<T>,
    min_x: T,
    min_y: T,
    max_x: T,
    max_y: T,
    seeded: bool,
}

impl<T: OpCodeFormat> PathData<T> {
    /// The encoded command stream.
    pub closed spec fn words(self) -> Seq<T> {
        self.data@
    }

    /// The tracked bounding box, `None` while it is empty.
    pub closed spec fn extent(self) -> Option<(int, int, int, int)> {
        if self.seeded {
            Some((self.min_x.value(), self.min_y.value(), self.max_x.value(), self.max_y.value()))
        } else {
            None
        }
    }

    /// The four tracked extremes, in the order `bounding_box` reports them.
    pub closed spec fn corners(self) -> Seq<T> {
        seq![self.min_x, self.min_y, self.max_x, self.max_y]
    }

    /// The four extremes `bounding_box` reports: those of the box, or all
    /// zero while nothing has been put in it.
    pub closed spec fn box_values(self) -> (int, int, int, int) {
        (self.min_x.value(), self.min_y.value(), self.max_x.value(), self.max_y.value())
    }

    /// An empty stream with an empty bounding box.
    pub fn new() -> (r: Self)
        ensures
            r.words() == Seq::<T>::empty(),
            r.extent() == None::<(int, int, int, int)>,
            r.box_values() == (0int, 0int, 0int, 0int),
    {
        PathData {
            data: Vec::new(),
            min_x: T::zero(),
            min_y: T::zero(),
            max_x: T::zero(),
            max_y: T::zero(),
            seeded: false,
        }
    }

    fn take_point(&mut self, x: T, y: T)
        ensures
            final(self).words() == old(self).words(),
            final(self).extent() == Some(grown(old(self).extent(), x.value(), y.value())),
            final(self).box_values() == grown(old(self).extent(), x.value(), y.value()),
    {
        if self.seeded {
            if x.is_less(&self.min_x) {
                self.min_x = x;
            }
            if y.is_less(&self.min_y) {
                self.min_y = y;
            }
            if self.max_x.is_less(&x) {
                self.max_x = x;
            }
            if self.max_y.is_less(&y) {
                self.max_y = y;
            }
        } else {
            self.min_x = x;
            self.min_y = y;
            self.max_x = x;
            self.max_y = y;
            self.seeded = true;
        }
    }

    fn push_tag(&mut self, op: u32)
        ensures
            final(self).words() == old(self).words().push(T::from_word(op)),
            final(self).extent() == old(self).extent(),
            final(self).corners() == old(self).corners(),
    {
        self.data.push(T::transmute(op));
    }

    fn push2(&mut self, a: T, b: T)
        ensures
            final(self).words() == old(self).words() + seq![a, b],
            final(self).extent() == old(self).extent(),
            final(self).corners() == old(self).corners(),
    {
        self.data.push(a);
        self.data.push(b);
        assert(self.data@ =~= old(self).data@ + seq![a, b]);
    }
    fn push1(&mut self, a: T)
        ensures
            final(self).words() == old(self).words().push(a),
            final(self).extent() == old(self).extent(),
            final(self).corners() == old(self).corners(),
    {
        self.data.push(a);
    }

    /// Encodes one instruction: its tag and fields go to the end of the
    /// stream, and its endpoint, if any, into the bounding box.
    pub fn append(&mut self, op: Opcode<T>) -> (r: &mut Self)
        ensures
            r.words() == old(self).words() + op.encoding(),
            r.extent() == box_after(old(self).extent(), op),
            r.box_values() == reported(r.extent(), old(self).box_values()),
            *final(self) == *final(r),
    {
        match op {
            Opcode::End => {
                self.push_tag(OP_END);
            },
            Opcode::Close => {
                self.push_tag(OP_CLOSE);
            },
            Opcode::Move { x, y } => {
                self.push_tag(OP_MOVE);
                self.push2(x, y);
                self.take_point(x, y);
            },
            Opcode::MoveRel { dx, dy } => {
                self.push_tag(OP_MOVE_REL);
                self.push2(dx, dy);
            },
            Opcode::Line { x, y } => {
                self.push_tag(OP_LINE);
                self.push2(x, y);
                self.take_point(x, y);
            },
            Opcode::LineRel { dx, dy } => {
                self.push_tag(OP_LINE_REL);
                self.push2(dx, dy);
            },
            Opcode::Quad { cx, cy, x, y } => {
                self.push_tag(OP_QUAD);
                self.push2(cx, cy);
                self.push2(x, y);
                self.take_point(x, y);
            },
            Opcode::QuadRel { dcx, dcy, dx, dy } => {
                self.push_tag(OP_QUAD_REL);
                self.push2(dcx, dcy);
                self.push2(dx, dy);
            },
            Opcode::Cubic { cx1, cy1, cx2, cy2, x, y } => {
                self.push_tag(OP_CUBIC);
                self.push2(cx1, cy1);
                self.push2(cx2, cy2);
                self.push2(x, y);
                self.take_point(x, y);
            },
            Opcode::CubicRel { dcx1, dcy1, dcx2, dcy2, dx, dy } => {
                self.push_tag(OP_CUBIC_REL);
                self.push2(dcx1, dcy1);
                self.push2(dcx2, dcy2);
                self.push2(dx, dy);
            },
            Opcode::SCCWArc { rh, rv, rot, x, y } => {
                self.push_arc(OP_SCCWARC, rh, rv, rot, x, y);
                self.take_point(x, y);
            },
            Opcode::SCCWArcRel { rh, rv, rot, x, y } => {
                self.push_arc(OP_SCCWARC_REL, rh, rv, rot, x, y);
            },
            Opcode::SCWArc { rh, rv, rot, x, y } => {
                self.push_arc(OP_SCWARC, rh, rv, rot, x, y);
                self.take_point(x, y);
            },
            Opcode::SCWArcRel { rh, rv, rot, x, y } => {
                self.push_arc(OP_SCWARC_REL, rh, rv, rot, x, y);
            },
            Opcode::LCCWArc { rh, rv, rot, x, y } => {
                self.push_arc(OP_LCCWARC, rh, rv, rot, x, y);
                self.take_point(x, y);
            },
            Opcode::LCCWArcRel { rh, rv, rot, x, y } => {
                self.push_arc(OP_LCCWARC_REL, rh, rv, rot, x, y);
            },
            Opcode::LCWArc { rh, rv, rot, x, y } => {
                self.push_arc(OP_LCWARC, rh, rv, rot, x, y);
                self.take_point(x, y);
            },
            Opcode::LCWArcRel { rh, rv, rot, x, y } => {
                self.push_arc(OP_LCWARC_REL, rh, rv, rot, x, y);
            },
        }
        assert(self.data@ =~= old(self).data@ + op.encoding());
        self
    }

    fn push_arc(&mut self, tag: u32, rh: T, rv: T, rot: T, x: T, y: T)
        ensures
            final(self).words() == old(self).words() + seq![T::from_word(tag), rh, rv, rot, x, y],
            final(self).extent() == old(self).extent(),
            final(self).corners() == old(self).corners(),
    {
        self.push_tag(tag);
        self.push2(rh, rv);
        self.push1(rot);
        self.push2(x, y);
        assert(self.data@ =~= old(self).data@ + seq![T::from_word(tag), rh, rv, rot, x, y]);
    }
    /// Appends `Close`.
    pub fn close(&mut self) -> (r: &mut Self)
        ensures
            r.words() == old(self).words() + Opcode::<T>::Close.encoding(),
            r.extent() == old(self).extent(),
            r.box_values() == old(self).box_values(),
            *final(self) == *final(r),
    {
        self.append(Opcode::Close)
    }

    /// Appends `Move { x, y }`.
    pub fn move_to(&mut self, x: T, y: T) -> (r: &mut Self)
        ensures
            r.words() == old(self).words() + (Opcode::Move { x, y }).encoding(),
            r.extent() == Some(grown(old(self).extent(), x.value(), y.value())),
            r.box_values() == grown(old(self).extent(), x.value(), y.value()),
            *final(self) == *final(r),
    {
        self.append(Opcode::Move { x, y })
    }

    /// Appends `Line { x, y }`.
    pub fn line_to(&mut self, x: T, y: T) -> (r: &mut Self)
        ensures
            r.words() == old(self).words() + (Opcode::Line { x, y }).encoding(),
            r.extent() == Some(grown(old(self).extent(), x.value(), y.value())),
            r.box_values() == grown(old(self).extent(), x.value(), y.value()),
            *final(self) == *final(r),
    {
        self.append(Opcode::Line { x, y })
    }

    /// Appends a quadratic curve with control point `(x1, y1)` ending at `(x, y)`.
    pub fn quad_to(&mut self, x1: T, y1: T, x: T, y: T) -> (r: &mut Self)
        ensures
            r.words() == old(self).words() + (Opcode::Quad { cx: x1, cy: y1, x, y }).encoding(),
            r.extent() == Some(grown(old(self).extent(), x.value(), y.value())),
            r.box_values() == grown(old(self).extent(), x.value(), y.value()),
            *final(self) == *final(r),
    {
        self.append(Opcode::Quad { cx: x1, cy: y1, x, y })
    }

    /// Appends a cubic curve with control points `(x1, y1)`, `(x2, y2)` ending
    /// at `(x, y)`.
    pub fn curve_to(&mut self, x1: T, y1: T, x2: T, y2: T, x: T, y: T) -> (r: &mut Self)
        ensures
            r.words() == old(self).words() + (Opcode::Cubic {
                cx1: x1,
                cy1: y1,
                cx2: x2,
                cy2: y2,
                x,
                y,
            }).encoding(),
            r.extent() == Some(grown(old(self).extent(), x.value(), y.value())),
            r.box_values() == grown(old(self).extent(), x.value(), y.value()),
            *final(self) == *final(r),
    {
        self.append(Opcode::Cubic { cx1: x1, cy1: y1, cx2: x2, cy2: y2, x, y })
    }

    /// The bounding box as `[min_x, min_y, max_x, max_y]`.
    pub fn bounding_box(&self) -> (r: [T; 4])
        ensures
            (r[0].value(), r[1].value(), r[2].value(), r[3].value()) == self.box_values(),
    {
        [self.min_x, self.min_y, self.max_x, self.max_y]
    }

    /// Seeds the bounding box with the given extremes; later endpoints extend it.
    pub fn set_bbox(&mut self, min_x: T, min_y: T, max_x: T, max_y: T)
        ensures
            final(self).words() == old(self).words(),
            final(self).extent() == Some(
                (min_x.value(), min_y.value(), max_x.value(), max_y.value()),
            ),
            final(self).box_values() == (min_x.value(), min_y.value(), max_x.value(), max_y.value()),
    {
        self.min_x = min_x;
        self.min_y = min_y;
        self.max_x = max_x;
        self.max_y = max_y;
        self.seeded = true;
    }

    /// Finalizes the stream into a fill path carrying this bounding box.
    pub fn fill(self, quality: Quality) -> (r: Path<T>)
        requires
            self.words().len() * T::spec_width() <= u32::MAX,
        ensures
            r.spec_data() == self,
            r.spec_quality() == quality,
            r.spec_data_format() == T::spec_format(),
            r.spec_path_type() == PATH_TYPE_FILL,
            r.byte_length() == self.words().len() * T::spec_width(),
            r.box_values() == self.box_values(),
    {
        let bbox = self.bounding_box();
        let mut path = Path::new(self, quality);
        assert(0u32 | 2u32 == 2u32) by (bit_vector);
        path.path_type = path.path_type | PATH_TYPE_FILL;
        path.bounding_box = bbox;
        path
    }
}

impl<T: OpCodeFormat> Default for PathData<T> {
    fn default() -> (r: Self)
        ensures
            r.words() == Seq::<T>::empty(),
            r.extent() == None::<(int, int, int, int)>,
            r.box_values() == (0int, 0int, 0int, 0int),
    {
        Self::new()
    }
}

/// Path type bits: nothing to draw yet, and the fill bit.
pub const PATH_TYPE_NONE: u32 = 0;
pub const PATH_TYPE_FILL: u32 = 2;

/// A finalized command stream ready for the rasterizer. It owns its
/// `PathData`, so the stream stays put for as long as the path lives.
#[derive(Debug, Clone)]
pub struct Path<T: OpCodeFormat> {
    data: PathData<T>,
    quality: Quality,
    format: DataFormat,
    path_type: u32,
    bounding_box: [T; 4],
    path_length: u32,
}

impl<T: OpCodeFormat> Path<T> {
    pub closed spec fn spec_data(self) -> PathData<T> {
        self.data
    }

    pub closed spec fn spec_quality(self) -> Quality {
        self.quality
    }

    pub closed spec fn spec_data_format(self) -> DataFormat {
        self.format
    }

    pub closed spec fn spec_path_type(self) -> u32 {
        self.path_type
    }

    pub closed spec fn byte_length(self) -> nat {
        self.path_length as nat
    }

    pub closed spec fn box_values(self) -> (int, int, int, int) {
        (
            self.bounding_box[0].value(),
            self.bounding_box[1].value(),
            self.bounding_box[2].value(),
            self.bounding_box[3].value(),
        )
    }

    /// Wraps a stream with its descriptor: no path type bit set yet and a
    /// zero bounding box.
    pub fn new(data: PathData<T>, quality: Quality) -> (r: Self)
        requires
            data.words().len() * T::spec_width() <= u32::MAX,
        ensures
            r.spec_data() == data,
            r.spec_quality() == quality,
            r.spec_data_format() == T::spec_format(),
            r.spec_path_type() == PATH_TYPE_NONE,
            r.byte_length() == data.words().len() * T::spec_width(),
            r.box_values() == (0int, 0int, 0int, 0int),
    {
        let length = data.data.len() * T::width();
        let z = T::zero();
        Path {
            data,
            quality,
            format: T::format(),
            path_type: PATH_TYPE_NONE,
            bounding_box: [z, z, z, z],
            path_length: length as u32,
        }
    }
    /// The encoded command stream.
    pub fn words(&self) -> (r: &[T])
        ensures
            r@ == self.spec_data().words(),
    {
        self.data.data.as_slice()
    }

    pub fn quality(&self) -> (r: Quality)
        ensures
            r == self.spec_quality(),
    {
        self.quality
    }

    /// The coordinate format of the stream.
    pub fn format(&self) -> (r: DataFormat)
        ensures
            r == self.spec_data_format(),
    {
        self.format
    }

    /// Path type bits; `PATH_TYPE_FILL` marks a fill path.
    pub fn path_type(&self) -> (r: u32)
        ensures
            r == self.spec_path_type(),
    {
        self.path_type
    }

    /// Length of the stream in bytes.
    pub fn path_length(&self) -> (r: u32)
        ensures
            r == self.byte_length(),
    {
        self.path_length
    }

    /// The bounding box handed to the rasterizer, `[min_x, min_y, max_x, max_y]`.
    pub fn bounding_box(&self) -> (r: [T; 4])
        ensures
            (r[0].value(), r[1].value(), r[2].value(), r[3].value()) == self.box_values(),
    {
        self.bounding_box
    }
}

} // verus!
