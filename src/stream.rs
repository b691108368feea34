//! Reading a command stream back, and what holds of a whole sequence of
//! instructions fed to the encoder.
use vstd::math::{max, min};
use vstd::prelude::*;

use crate::path::{
    box_after, operand_count, reported, Opcode, OpCodeFormat, PathData, OP_CLOSE, OP_CUBIC, OP_CUBIC_REL, OP_END,
    OP_LCWARC_REL, OP_LINE_REL, OP_MOVE, OP_QUAD, OP_QUAD_REL, OP_SCCWARC,
};

verus! {

/// The stream the encoder produces for `ops`, fed in order.
pub open spec fn stream_of<T: OpCodeFormat>(ops: Seq<Opcode<T>>) -> Seq<T>
    decreases ops.len(),
{
    if ops.len() == 0 {
        Seq::empty()
    } else {
        stream_of(ops.drop_last()) + ops.last().encoding()
    }
}

/// The bounding box the encoder holds after `ops`, fed in order to an
/// encoder whose box is empty.
pub open spec fn box_of<T: OpCodeFormat>(ops: Seq<Opcode<T>>) -> Option<(int, int, int, int)>
    decreases ops.len(),
{
    if ops.len() == 0 {
        None
    } else {
        box_after(box_of(ops.drop_last()), ops.last())
    }
}

/// The tag and operand count of each instruction in `ops`.
pub open spec fn shape_of<T: OpCodeFormat>(ops: Seq<Opcode<T>>) -> Seq<(u32, nat)> {
    ops.map_values(|op: Opcode<T>| (op.tag(), op.operands().len()))
}

/// Splits a stream into `(tag, operand count)` pairs, front to back; `None`
/// where a word in tag position is no tag or the stream ends inside a
/// group of operands.
pub open spec fn decode<T: OpCodeFormat>(w: Seq<T>) -> Option<Seq<(u32, nat)>>
    decreases w.len(),
{
    if w.len() == 0 {
        Some(Seq::empty())
    } else {
        match operand_count(w[0].value()) {
            Some(k) => if k + 1 <= w.len() {
                match decode(w.subrange(k + 1int, w.len() as int)) {
                    Some(rest) => Some(seq![(w[0].value() as u32, k)] + rest),
                    None => None,
                }
            } else {
                None
            },
            None => None,
        }
    }
}

fn count_for(tag: i32) -> (r: Option<usize>)
    ensures
        r matches Some(k) ==> operand_count(tag as int) == Some(k as nat),
        r is None ==> operand_count(tag as int) is None,
{
    if tag == OP_END as i32 || tag == OP_CLOSE as i32 {
        Some(0)
    } else if OP_MOVE as i32 <= tag && tag <= OP_LINE_REL as i32 {
        Some(2)
    } else if tag == OP_QUAD as i32 || tag == OP_QUAD_REL as i32 {
        Some(4)
    } else if tag == OP_CUBIC as i32 || tag == OP_CUBIC_REL as i32 {
        Some(6)
    } else if OP_SCCWARC as i32 <= tag && tag <= OP_LCWARC_REL as i32 {
        Some(5)
    } else {
        None
    }
}

/// Reads a command stream back into its `(tag, operand count)` pairs.
pub fn decode_commands<T: OpCodeFormat>(words: &[T]) -> (r: Option<Vec<(u32, usize)>>)
    ensures
        r is None <==> decode(words@) is None,
        r matches Some(v) ==> decode(words@) == Some(
            v@.map_values(|c: (u32, usize)| (c.0, c.1 as nat)),
        ),
{
    let mut out: Vec<(u32, usize)> = Vec::new();
    let mut i: usize = 0;
    let n = words.len();
    assert(words@.subrange(0, n as int) =~= words@);
    assert(out@.map_values(|c: (u32, usize)| (c.0, c.1 as nat)) =~= Seq::<(u32, nat)>::empty());
    assert forall|rest: Seq<(u32, nat)>|
        #[trigger] (Seq::<(u32, nat)>::empty() + rest) =~= rest by {}
    while i < n
        invariant
            n == words@.len(),
            i <= n,
            decode(words@) == match decode(words@.subrange(i as int, n as int)) {
                Some(rest) => Some(out@.map_values(|c: (u32, usize)| (c.0, c.1 as nat)) + rest),
                None => None::<Seq<(u32, nat)>>,
            },
        decreases n - i,
    {
        let ghost w = words@.subrange(i as int, n as int);
        let tag = words[i].to_i32();
        match count_for(tag) {
            Some(k) => {
                if k >= n - i {
                    assert(decode(w) is None);
                    return None;
                }
                proof {
                    assert(w.subrange(k + 1int, w.len() as int) =~= words@.subrange(
                        i + k + 1,
                        n as int,
                    ));
                    let ghost prev = out@.map_values(|c: (u32, usize)| (c.0, c.1 as nat));
                    let ghost next = out@.push((tag as u32, k)).map_values(
                        |c: (u32, usize)| (c.0, c.1 as nat),
                    );
                    assert(next =~= prev.push((tag as u32, k as nat)));
                    match decode(words@.subrange(i + k + 1, n as int)) {
                        Some(rest) => {
                            assert(prev + (seq![(w[0].value() as u32, k as nat)] + rest) =~= next
                                + rest);
                        },
                        None => {},
                    }
                }
                out.push((tag as u32, k));
                i = i + k + 1;
            },
            None => {
                assert(decode(w) is None);
                return None;
            },
        }
    }
    assert(words@.subrange(n as int, n as int) =~= Seq::<T>::empty());
    assert(out@.map_values(|c: (u32, usize)| (c.0, c.1 as nat)) + Seq::<(u32, nat)>::empty()
        =~= out@.map_values(|c: (u32, usize)| (c.0, c.1 as nat)));
    Some(out)
}

/// One instruction's encoding reads back as its tag and operand count.
proof fn lemma_decode_one<T: OpCodeFormat>(op: Opcode<T>)
    ensures
        decode(op.encoding()) == Some(seq![(op.tag(), op.operands().len())]),
{
    T::lemma_from_word(op.tag());
    let w = op.encoding();
    let k = op.operands().len();
    assert(w[0].value() == op.tag());
    assert(operand_count(w[0].value()) == Some(k));
    assert(w.subrange(k + 1int, w.len() as int) =~= Seq::<T>::empty());
    assert(decode(Seq::<T>::empty()) == Some(Seq::<(u32, nat)>::empty()));
    assert(seq![(op.tag(), k)] + Seq::<(u32, nat)>::empty() =~= seq![(op.tag(), k)]);
}

/// A stream that decodes whole can be followed by any other: the two
/// decode one after the other.
proof fn lemma_decode_concat<T: OpCodeFormat>(a: Seq<T>, b: Seq<T>)
    requires
        decode(a) is Some,
    ensures
        decode(a + b) == match decode(b) {
            Some(db) => Some(decode(a).unwrap() + db),
            None => None::<Seq<(u32, nat)>>,
        },
    decreases a.len(),
{
    if a.len() == 0 {
        assert(a + b =~= b);
        match decode(b) {
            Some(db) => {
                assert(decode(a).unwrap() + db =~= db);
            },
            None => {},
        }
    } else {
        let k = operand_count(a[0].value()).unwrap();
        let a1 = a.subrange(k + 1int, a.len() as int);
        assert((a + b)[0] == a[0]);
        assert((a + b).subrange(k + 1int, (a + b).len() as int) =~= a1 + b);
        lemma_decode_concat(a1, b);
        match decode(b) {
            Some(db) => {
                let head = seq![(a[0].value() as u32, k)];
                assert(head + (decode(a1).unwrap() + db) =~= (head + decode(a1).unwrap()) + db);
            },
            None => {},
        }
    }
}

/// Decoding the stream the encoder produced for a sequence of instructions
/// gives back each instruction's tag and operand count, in order.
pub proof fn lemma_decode_stream<T: OpCodeFormat>(ops: Seq<Opcode<T>>)
    ensures
        decode(stream_of(ops)) == Some(shape_of(ops)),
    decreases ops.len(),
{
    if ops.len() == 0 {
        assert(shape_of(ops) =~= Seq::<(u32, nat)>::empty());
    } else {
        let prefix = ops.drop_last();
        lemma_decode_stream(prefix);
        lemma_decode_one(ops.last());
        lemma_decode_concat(stream_of(prefix), ops.last().encoding());
        assert(shape_of(prefix) + seq![(ops.last().tag(), ops.last().operands().len())]
            =~= shape_of(ops));
    }
}

/// The endpoint coordinates of instruction `i` of `ops`, if it has one.
pub open spec fn endpoint_at<T: OpCodeFormat>(ops: Seq<Opcode<T>>, i: int) -> Option<(int, int)> {
    match ops[i].endpoint() {
        Some((x, y)) => Some((x.value(), y.value())),
        None => None,
    }
}

/// The box that `box_of` gives is the componentwise minimum and maximum of
/// the endpoints: every endpoint lies inside it, each of its four sides is
/// reached by some endpoint, and it is empty exactly when no instruction
/// has an endpoint. Control points and relative offsets play no part.
pub proof fn lemma_box_is_endpoint_extremes<T: OpCodeFormat>(ops: Seq<Opcode<T>>)
    ensures
        box_of(ops) is None <==> forall|i: int| 0 <= i < ops.len() ==> #[trigger] endpoint_at(ops, i) is None,
        box_of(ops) matches Some((x0, y0, x1, y1)) ==> {
            &&& forall|i: int|
                0 <= i < ops.len() && #[trigger] endpoint_at(ops, i) is Some ==> {
                    let (x, y) = endpoint_at(ops, i).unwrap();
                    x0 <= x <= x1 && y0 <= y <= y1
                }
            &&& exists|i: int| 0 <= i < ops.len() && ((#[trigger] endpoint_at(ops, i)) is Some && endpoint_at(ops, i).unwrap().0 == x0)
            &&& exists|i: int| 0 <= i < ops.len() && ((#[trigger] endpoint_at(ops, i)) is Some && endpoint_at(ops, i).unwrap().1 == y0)
            &&& exists|i: int| 0 <= i < ops.len() && ((#[trigger] endpoint_at(ops, i)) is Some && endpoint_at(ops, i).unwrap().0 == x1)
            &&& exists|i: int| 0 <= i < ops.len() && ((#[trigger] endpoint_at(ops, i)) is Some && endpoint_at(ops, i).unwrap().1 == y1)
        },
    decreases ops.len(),
{
    if ops.len() > 0 {
        let prefix = ops.drop_last();
        let last = ops.len() - 1;
        lemma_box_is_endpoint_extremes(prefix);
        assert forall|i: int| 0 <= i < prefix.len() implies endpoint_at(prefix, i) == endpoint_at(ops, i) by {
            assert(prefix[i] == ops[i]);
        }
        match box_of(prefix) {
            None => {
                if endpoint_at(ops, last) is Some {
                    assert(endpoint_at(ops, last) is Some && endpoint_at(ops, last).unwrap().0 == box_of(ops).unwrap().0);
                    assert(endpoint_at(ops, last) is Some && endpoint_at(ops, last).unwrap().1 == box_of(ops).unwrap().1);
                    assert(endpoint_at(ops, last) is Some && endpoint_at(ops, last).unwrap().0 == box_of(ops).unwrap().2);
                    assert(endpoint_at(ops, last) is Some && endpoint_at(ops, last).unwrap().1 == box_of(ops).unwrap().3);
                }
            },
            Some((px0, py0, px1, py1)) => {
                let (x0, y0, x1, y1) = box_of(ops).unwrap();
                let wx0 = choose|i: int| 0 <= i < prefix.len() && ((#[trigger] endpoint_at(prefix, i)) is Some && endpoint_at(prefix, i).unwrap().0 == px0);
                let wy0 = choose|i: int| 0 <= i < prefix.len() && ((#[trigger] endpoint_at(prefix, i)) is Some && endpoint_at(prefix, i).unwrap().1 == py0);
                let wx1 = choose|i: int| 0 <= i < prefix.len() && ((#[trigger] endpoint_at(prefix, i)) is Some && endpoint_at(prefix, i).unwrap().0 == px1);
                let wy1 = choose|i: int| 0 <= i < prefix.len() && ((#[trigger] endpoint_at(prefix, i)) is Some && endpoint_at(prefix, i).unwrap().1 == py1);
                if x0 == px0 {
                    assert((endpoint_at(ops, wx0) is Some && endpoint_at(ops, wx0).unwrap().0 == x0));
                } else {
                    assert((endpoint_at(ops, last) is Some && endpoint_at(ops, last).unwrap().0 == x0));
                }
                if y0 == py0 {
                    assert((endpoint_at(ops, wy0) is Some && endpoint_at(ops, wy0).unwrap().1 == y0));
                } else {
                    assert((endpoint_at(ops, last) is Some && endpoint_at(ops, last).unwrap().1 == y0));
                }
                if x1 == px1 {
                    assert((endpoint_at(ops, wx1) is Some && endpoint_at(ops, wx1).unwrap().0 == x1));
                } else {
                    assert((endpoint_at(ops, last) is Some && endpoint_at(ops, last).unwrap().0 == x1));
                }
                if y1 == py1 {
                    assert((endpoint_at(ops, wy1) is Some && endpoint_at(ops, wy1).unwrap().1 == y1));
                } else {
                    assert((endpoint_at(ops, last) is Some && endpoint_at(ops, last).unwrap().1 == y1));
                }
            },
        }
    }
}

impl<T: OpCodeFormat> PathData<T> {
    /// Encodes `ops` in order into a fresh encoder.
    pub fn from_opcodes(ops: &[Opcode<T>]) -> (r: Self)
        ensures
            r.words() == stream_of(ops@),
            r.extent() == box_of(ops@),
            r.box_values() == reported(box_of(ops@), (0, 0, 0, 0)),
    {
        let mut p = PathData::new();
        let mut i: usize = 0;
        assert(ops@.subrange(0, 0) =~= Seq::<Opcode<T>>::empty());
        while i < ops.len()
            invariant
                i <= ops@.len(),
                p.words() == stream_of(ops@.subrange(0, i as int)),
                p.extent() == box_of(ops@.subrange(0, i as int)),
                p.box_values() == reported(box_of(ops@.subrange(0, i as int)), (0, 0, 0, 0)),
            decreases ops.len() - i,
        {
            let op = ops[i];
            p.append(op);
            assert(ops@.subrange(0, i + 1).drop_last() =~= ops@.subrange(0, i as int));
            i = i + 1;
        }
        assert(ops@.subrange(0, ops.len() as int) =~= ops@);
        p
    }
}

/// A `Move` as the first instruction sets the box to exactly its point, and
/// a `Line` after it widens the box to the componentwise extremes of the
/// two points.
pub proof fn lemma_move_then_line<T: OpCodeFormat>(x: T, y: T, x2: T, y2: T)
    ensures
        box_of(seq![Opcode::Move { x, y }]) == Some((x.value(), y.value(), x.value(), y.value())),
        box_of(seq![Opcode::Move { x, y }, Opcode::Line { x: x2, y: y2 }]) == Some(
            (
                min(x.value(), x2.value()),
                min(y.value(), y2.value()),
                max(x.value(), x2.value()),
                max(y.value(), y2.value()),
            ),
        ),
{
    let one = seq![Opcode::Move { x, y }];
    let two = seq![Opcode::Move { x, y }, Opcode::Line { x: x2, y: y2 }];
    assert(one.drop_last() =~= Seq::<Opcode<T>>::empty());
    assert(two.drop_last() =~= one);
    assert(box_of(Seq::<Opcode<T>>::empty()) is None);
    assert(box_of(one) == box_after(None, one.last()));
    assert(box_of(two) == box_after(box_of(one), two.last()));
}

} // verus!
