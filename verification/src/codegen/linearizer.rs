//! The linearizer: a post-order walk of the operation graph that emits one
//! micro-op per node, every operand before the operation that consumes it.

use crate::dtype::DtypeKind;
use crate::ops::{BinaryOp, LazyOp, ReduceOp, UnaryOp};
use crate::text::{decimal, decimal_string};
use vstd::prelude::*;
use vstd::string::*;

verus! {

/// One primitive instruction of the linear intermediate representation.
///
/// A micro-op that produces a value is named by its position in the
/// sequence; operands are positions.
#[allow(inconsistent_fields)]
#[derive(Debug, Clone, Copy, PartialEq, Eq, Structural)]
pub enum UOp {
    /// Declares the buffer argument `buffer` of the kernel.
    DefineGlobal { buffer: usize, dtype: DtypeKind },
    /// Declares the scalar integer argument `index` of the kernel.
    DefineArg { index: usize },
    /// The id of the work-group, or of the work-item within it, in the
    /// dimension `dim`.
    Special { local: bool, dim: usize },
    /// Declares work-group local memory of `size` elements.
    DefineLocal { size: usize },
    /// Loads the element of the buffer `buffer` at the work index.
    Load { buffer: usize },
    /// Reads the scalar argument `index`.
    Arg { index: usize },
    /// An integer constant.
    Const { value: i64 },
    /// An operation of one operand.
    Unary { op: UnaryOp, src: usize },
    /// An operation of two operands.
    Binary { op: BinaryOp, lhs: usize, rhs: usize },
    /// A fused multiply-add.
    MulAcc { a: usize, b: usize, c: usize },
    /// Stores a value into the work-item's slot of local memory.
    StoreLocal { src: usize },
    /// Waits until every work-item of the group has arrived.
    Barrier,
    /// Folds the `size` slots of local memory into one value.
    ReduceLocal { op: ReduceOp, size: usize },
    /// Stores a value into the buffer `buffer` at the work index.
    Store { buffer: usize, src: usize },
}

/// The code generation options of a device.
#[derive(Debug, Clone, Copy, PartialEq, Eq, Structural)]
pub struct LinearizerOptions {
    /// Whether the backend has vector types of four elements.
    pub supports_float4: bool,
    /// The number of work-items of a group that cooperate in a reduction.
    pub local_size: usize,
    /// The type of the elements a kernel computes on.
    pub dtype: DtypeKind,
}

impl Default for LinearizerOptions {
    fn default() -> (opts: LinearizerOptions)
        ensures
            opts == (LinearizerOptions {
                supports_float4: true,
                local_size: 16,
                dtype: DtypeKind::Float,
            }),
    {
        LinearizerOptions { supports_float4: true, local_size: 16, dtype: DtypeKind::Float }
    }
}

/// Whether a micro-op produces a value that later micro-ops can name.
pub open spec fn produces_value(uop: UOp) -> bool {
    match uop {
        UOp::Load { .. }
        | UOp::Arg { .. }
        | UOp::Const { .. }
        | UOp::Unary { .. }
        | UOp::Binary { .. }
        | UOp::MulAcc { .. }
        | UOp::ReduceLocal { .. } => true,
        _ => false,
    }
}

/// The positions a micro-op reads its operands from.
pub open spec fn operands(uop: UOp) -> Seq<usize> {
    match uop {
        UOp::Unary { src, .. } => seq![src],
        UOp::Binary { lhs, rhs, .. } => seq![lhs, rhs],
        UOp::MulAcc { a, b, c } => seq![a, b, c],
        UOp::StoreLocal { src } => seq![src],
        UOp::Store { src, .. } => seq![src],
        _ => Seq::empty(),
    }
}

/// Whether a sequence of micro-ops is in dependency order: every operand of
/// every micro-op is the position of an earlier micro-op that produces a
/// value.
pub open spec fn in_dependency_order(uops: Seq<UOp>) -> bool {
    forall|p: int, k: int|
        0 <= p < uops.len() && 0 <= k < operands(uops[p]).len() ==> {
            &&& (#[trigger] operands(uops[p])[k]) < p
            &&& produces_value(uops[operands(uops[p])[k] as int])
        }
}

/// The number of buffers a graph names: the output, and every input up to
/// the highest one that is loaded.
pub open spec fn buffers(op: LazyOp) -> nat
    decreases op,
{
    match op {
        LazyOp::Load { buffer } => buffer as nat + 1,
        LazyOp::Arg { .. } | LazyOp::Const { .. } => 1,
        LazyOp::Unary { src, .. } => buffers(*src),
        LazyOp::Binary { lhs, rhs, .. } => vstd::math::max(
            buffers(*lhs) as int,
            buffers(*rhs) as int,
        ) as nat,
        LazyOp::MulAcc { a, b, c } => vstd::math::max(
            vstd::math::max(buffers(*a) as int, buffers(*b) as int),
            buffers(*c) as int,
        ) as nat,
        LazyOp::Reduce { src, .. } => buffers(*src),
    }
}

/// The number of scalar arguments a graph names: every one up to the
/// highest that is read.
pub open spec fn scalars(op: LazyOp) -> nat
    decreases op,
{
    match op {
        LazyOp::Arg { index } => index as nat + 1,
        LazyOp::Load { .. } | LazyOp::Const { .. } => 0,
        LazyOp::Unary { src, .. } => scalars(*src),
        LazyOp::Binary { lhs, rhs, .. } => vstd::math::max(
            scalars(*lhs) as int,
            scalars(*rhs) as int,
        ) as nat,
        LazyOp::MulAcc { a, b, c } => vstd::math::max(
            vstd::math::max(scalars(*a) as int, scalars(*b) as int),
            scalars(*c) as int,
        ) as nat,
        LazyOp::Reduce { src, .. } => scalars(*src),
    }
}

/// Whether a graph holds a reduction.
pub open spec fn reduces(op: LazyOp) -> bool
    decreases op,
{
    match op {
        LazyOp::Load { .. } | LazyOp::Arg { .. } | LazyOp::Const { .. } => false,
        LazyOp::Unary { src, .. } => reduces(*src),
        LazyOp::Binary { lhs, rhs, .. } => reduces(*lhs) || reduces(*rhs),
        LazyOp::MulAcc { a, b, c } => reduces(*a) || reduces(*b) || reduces(*c),
        LazyOp::Reduce { .. } => true,
    }
}

/// The micro-ops of a graph, emitted in post-order when `at` micro-ops
/// stand before them: the micro-ops of every operand, left to right, then
/// the micro-op of the operation itself, which comes last and names the
/// value of the graph.
///
/// A reduction stores its operand into local memory, waits at a barrier,
/// and folds the slots of the `local_size` work-items of the group.
pub open spec fn emitted(op: LazyOp, at: nat, local_size: usize) -> Seq<UOp>
    decreases op,
{
    match op {
        LazyOp::Load { buffer } => seq![UOp::Load { buffer: buffer as usize }],
        LazyOp::Arg { index } => seq![UOp::Arg { index: index as usize }],
        LazyOp::Const { value } => seq![UOp::Const { value }],
        LazyOp::Unary { op, src } => {
            let s = emitted(*src, at, local_size);
            s.push(UOp::Unary { op, src: (at + s.len() - 1) as usize })
        },
        LazyOp::Binary { op, lhs, rhs } => {
            let l = emitted(*lhs, at, local_size);
            let r = emitted(*rhs, at + l.len(), local_size);
            (l + r).push(
                UOp::Binary {
                    op,
                    lhs: (at + l.len() - 1) as usize,
                    rhs: (at + l.len() + r.len() - 1) as usize,
                },
            )
        },
        LazyOp::MulAcc { a, b, c } => {
            let x = emitted(*a, at, local_size);
            let y = emitted(*b, at + x.len(), local_size);
            let z = emitted(*c, at + x.len() + y.len(), local_size);
            (x + y + z).push(
                UOp::MulAcc {
                    a: (at + x.len() - 1) as usize,
                    b: (at + x.len() + y.len() - 1) as usize,
                    c: (at + x.len() + y.len() + z.len() - 1) as usize,
                },
            )
        },
        LazyOp::Reduce { op, src } => {
            let s = emitted(*src, at, local_size);
            s.push(UOp::DefineLocal { size: local_size }).push(
                UOp::StoreLocal { src: (at + s.len() - 1) as usize },
            ).push(UOp::Barrier).push(UOp::ReduceLocal { op, size: local_size })
        },
    }
}

/// The declarations a kernel opens with: its `buffers` buffer arguments,
/// its `scalars` scalar arguments, the id of the work-group, and, where the
/// kernel reduces, the id of the work-item within the group.
pub open spec fn prologue(buffers: nat, scalars: nat, reduces: bool, dtype: DtypeKind) -> Seq<UOp> {
    Seq::new(buffers, |b: int| UOp::DefineGlobal { buffer: b as usize, dtype }) + Seq::new(
        scalars,
        |i: int| UOp::DefineArg { index: i as usize },
    ) + seq![UOp::Special { local: false, dim: 0 }] + if reduces {
        seq![UOp::Special { local: true, dim: 0 }]
    } else {
        Seq::empty()
    }
}

/// The whole kernel of a graph: the prologue, the micro-ops of the graph in
/// post-order, and the store of the graph's value into the output buffer.
pub open spec fn lowered(op: LazyOp, opts: LinearizerOptions) -> Seq<UOp> {
    let head = prologue(buffers(op), scalars(op), reduces(op), opts.dtype);
    let body = emitted(op, head.len(), opts.local_size);
    (head + body).push(UOp::Store { buffer: 0, src: (head.len() + body.len() - 1) as usize })
}

/// The name a kernel is built under: `R` for a kernel that reduces and `E`
/// for one that does not, then the number of its buffers and of its scalar
/// arguments.
pub open spec fn kernel_name(op: LazyOp) -> Seq<char> {
    (if reduces(op) {
        "R_"@
    } else {
        "E_"@
    }) + decimal(buffers(op)) + "_"@ + decimal(scalars(op))
}

/// Whether every operand of `uops`, which stand from position `at` on, is
/// the position of an earlier micro-op of `uops` that produces a value.
#[verifier::opaque]
pub open spec fn ordered_from(uops: Seq<UOp>, at: nat) -> bool {
    forall|p: int, k: int|
        0 <= p < uops.len() && 0 <= k < operands(uops[p]).len() ==> {
            &&& at <= (#[trigger] operands(uops[p])[k]) < at + p
            &&& produces_value(uops[operands(uops[p])[k] - at])
        }
}

proof fn lemma_ordered_concat(x: Seq<UOp>, y: Seq<UOp>, at: nat)
    requires
        ordered_from(x, at),
        ordered_from(y, at + x.len()),
    ensures
        ordered_from(x + y, at),
{
    reveal(ordered_from);
    let z = x + y;
    assert forall|p: int, k: int| 0 <= p < z.len() && 0 <= k < operands(z[p]).len() implies {
        &&& at <= (#[trigger] operands(z[p])[k]) < at + p
        &&& produces_value(z[operands(z[p])[k] - at])
    } by {
        if p < x.len() {
            assert(z[p] == x[p]);
            let o = operands(x[p])[k];
            assert(z[o - at] == x[o - at]);
        } else {
            assert(z[p] == y[p - x.len()]);
            let o = operands(y[p - x.len()])[k];
            assert(z[o - at] == y[o - at - x.len()]);
        }
    }
}

proof fn lemma_ordered_push(s: Seq<UOp>, uop: UOp, at: nat)
    requires
        ordered_from(s, at),
        forall|k: int|
            0 <= k < operands(uop).len() ==> {
                &&& at <= (#[trigger] operands(uop)[k]) < at + s.len()
                &&& produces_value(s[operands(uop)[k] - at])
            },
    ensures
        ordered_from(s.push(uop), at),
{
    reveal(ordered_from);
    let z = s.push(uop);
    assert forall|p: int, k: int| 0 <= p < z.len() && 0 <= k < operands(z[p]).len() implies {
        &&& at <= (#[trigger] operands(z[p])[k]) < at + p
        &&& produces_value(z[operands(z[p])[k] - at])
    } by {
        if p < s.len() {
            assert(z[p] == s[p]);
            let o = operands(s[p])[k];
            assert(z[o - at] == s[o - at]);
        } else {
            let o = operands(uop)[k];
            assert(z[o - at] == s[o - at]);
        }
    }
}

/// A single micro-op without operands is in order.
proof fn lemma_ordered_leaf(uop: UOp, at: nat)
    requires
        operands(uop).len() == 0,
    ensures
        ordered_from(seq![uop], at),
{
    reveal(ordered_from);
}

/// A micro-op that reads the last values of the parts of `s` can follow
/// `s`.
proof fn lemma_ordered_reader(s: Seq<UOp>, uop: UOp, at: nat, ends: Seq<int>)
    requires
        ordered_from(s, at),
        at + s.len() <= usize::MAX,
        ends.len() == operands(uop).len(),
        forall|k: int|
            0 <= k < ends.len() ==> 0 < #[trigger] ends[k] <= s.len() && produces_value(
                s[ends[k] - 1],
            ) && operands(uop)[k] == (at + ends[k] - 1) as usize,
    ensures
        ordered_from(s.push(uop), at),
{
    assert forall|k: int| 0 <= k < operands(uop).len() implies {
        &&& at <= (#[trigger] operands(uop)[k]) < at + s.len()
        &&& produces_value(s[operands(uop)[k] - at])
    } by {
        assert(0 < ends[k] <= s.len());
    }
    lemma_ordered_push(s, uop, at);
}

/// Whether `s` ends with a micro-op that produces a value, reads only
/// values produced earlier in it, and fits behind `at` micro-ops.
pub open spec fn post_ordered(s: Seq<UOp>, at: nat) -> bool {
    &&& s.len() >= 1
    &&& produces_value(s.last())
    &&& ordered_from(s, at)
}

proof fn lemma_unary_in_post_order(s: Seq<UOp>, at: nat, o: UnaryOp)
    requires
        post_ordered(s, at),
        at + s.len() + 1 <= usize::MAX,
    ensures
        post_ordered(s.push(UOp::Unary { op: o, src: (at + s.len() - 1) as usize }), at),
{
    lemma_ordered_reader(
        s,
        UOp::Unary { op: o, src: (at + s.len() - 1) as usize },
        at,
        seq![s.len() as int],
    );
}

proof fn lemma_binary_in_post_order(l: Seq<UOp>, r: Seq<UOp>, at: nat, o: BinaryOp)
    requires
        post_ordered(l, at),
        post_ordered(r, at + l.len()),
        at + l.len() + r.len() + 1 <= usize::MAX,
    ensures
        post_ordered(
            (l + r).push(
                UOp::Binary {
                    op: o,
                    lhs: (at + l.len() - 1) as usize,
                    rhs: (at + l.len() + r.len() - 1) as usize,
                },
            ),
            at,
        ),
{
    lemma_ordered_concat(l, r, at);
    let u = UOp::Binary {
        op: o,
        lhs: (at + l.len() - 1) as usize,
        rhs: (at + l.len() + r.len() - 1) as usize,
    };
    assert((l + r)[l.len() - 1] == l.last());
    assert((l + r)[l.len() + r.len() - 1] == r.last());
    lemma_ordered_reader(l + r, u, at, seq![l.len() as int, (l.len() + r.len()) as int]);
}

proof fn lemma_mulacc_in_post_order(x: Seq<UOp>, y: Seq<UOp>, z: Seq<UOp>, at: nat)
    requires
        post_ordered(x, at),
        post_ordered(y, at + x.len()),
        post_ordered(z, at + x.len() + y.len()),
        at + x.len() + y.len() + z.len() + 1 <= usize::MAX,
    ensures
        post_ordered(
            (x + y + z).push(
                UOp::MulAcc {
                    a: (at + x.len() - 1) as usize,
                    b: (at + x.len() + y.len() - 1) as usize,
                    c: (at + x.len() + y.len() + z.len() - 1) as usize,
                },
            ),
            at,
        ),
{
    lemma_ordered_concat(x, y, at);
    lemma_ordered_concat(x + y, z, at);
    let u = UOp::MulAcc {
        a: (at + x.len() - 1) as usize,
        b: (at + x.len() + y.len() - 1) as usize,
        c: (at + x.len() + y.len() + z.len() - 1) as usize,
    };
    assert((x + y + z)[x.len() - 1] == x.last());
    assert((x + y + z)[x.len() + y.len() - 1] == y.last());
    assert((x + y + z)[x.len() + y.len() + z.len() - 1] == z.last());
    lemma_ordered_reader(
        x + y + z,
        u,
        at,
        seq![
            x.len() as int,
            (x.len() + y.len()) as int,
            (x.len() + y.len() + z.len()) as int,
        ],
    );
}

proof fn lemma_reduce_in_post_order(s: Seq<UOp>, at: nat, o: ReduceOp, local_size: usize)
    requires
        post_ordered(s, at),
        at + s.len() + 4 <= usize::MAX,
    ensures
        post_ordered(
            s.push(UOp::DefineLocal { size: local_size }).push(
                UOp::StoreLocal { src: (at + s.len() - 1) as usize },
            ).push(UOp::Barrier).push(UOp::ReduceLocal { op: o, size: local_size }),
            at,
        ),
{
    let s1 = s.push(UOp::DefineLocal { size: local_size });
    lemma_ordered_reader(s, UOp::DefineLocal { size: local_size }, at, Seq::empty());
    let store = UOp::StoreLocal { src: (at + s.len() - 1) as usize };
    assert(s1[s.len() - 1] == s.last());
    lemma_ordered_reader(s1, store, at, seq![s.len() as int]);
    lemma_ordered_reader(s1.push(store), UOp::Barrier, at, Seq::empty());
    lemma_ordered_reader(
        s1.push(store).push(UOp::Barrier),
        UOp::ReduceLocal { op: o, size: local_size },
        at,
        Seq::empty(),
    );
}

/// Post-order: the micro-ops of a graph end with the one that produces the
/// graph's value, and each of them reads only values produced earlier
/// among them.
pub proof fn lemma_emitted_in_post_order(op: LazyOp, at: nat, local_size: usize)
    requires
        at + emitted(op, at, local_size).len() <= usize::MAX,
    ensures
        post_ordered(emitted(op, at, local_size), at),
    decreases op,
{
    match op {
        LazyOp::Load { buffer } => {
            lemma_ordered_leaf(UOp::Load { buffer: buffer as usize }, at);
        },
        LazyOp::Arg { index } => {
            lemma_ordered_leaf(UOp::Arg { index: index as usize }, at);
        },
        LazyOp::Const { value } => {
            lemma_ordered_leaf(UOp::Const { value }, at);
        },
        LazyOp::Unary { op: o, src } => {
            lemma_emitted_in_post_order(*src, at, local_size);
            lemma_unary_in_post_order(emitted(*src, at, local_size), at, o);
        },
        LazyOp::Binary { op: o, lhs, rhs } => {
            let l = emitted(*lhs, at, local_size);
            let r = emitted(*rhs, at + l.len(), local_size);
            lemma_emitted_in_post_order(*lhs, at, local_size);
            lemma_emitted_in_post_order(*rhs, at + l.len(), local_size);
            lemma_binary_in_post_order(l, r, at, o);
        },
        LazyOp::MulAcc { a, b, c } => {
            let x = emitted(*a, at, local_size);
            let y = emitted(*b, at + x.len(), local_size);
            let z = emitted(*c, at + x.len() + y.len(), local_size);
            lemma_emitted_in_post_order(*a, at, local_size);
            lemma_emitted_in_post_order(*b, at + x.len(), local_size);
            lemma_emitted_in_post_order(*c, at + x.len() + y.len(), local_size);
            lemma_mulacc_in_post_order(x, y, z, at);
        },
        LazyOp::Reduce { op: o, src } => {
            lemma_emitted_in_post_order(*src, at, local_size);
            lemma_reduce_in_post_order(emitted(*src, at, local_size), at, o, local_size);
        },
    }
}

/// Dependency order: in the kernel of any graph, every micro-op reads only
/// values that earlier micro-ops produce.
pub proof fn lemma_lowered_in_dependency_order(op: LazyOp, opts: LinearizerOptions)
    requires
        lowered(op, opts).len() <= usize::MAX,
    ensures
        in_dependency_order(lowered(op, opts)),
{
    let head = prologue(buffers(op), scalars(op), reduces(op), opts.dtype);
    let body = emitted(op, head.len(), opts.local_size);
    let all = lowered(op, opts);
    lemma_emitted_in_post_order(op, head.len(), opts.local_size);
    reveal(ordered_from);
    assert forall|p: int, k: int| 0 <= p < all.len() && 0 <= k < operands(all[p]).len() implies {
        &&& (#[trigger] operands(all[p])[k]) < p
        &&& produces_value(all[operands(all[p])[k] as int])
    } by {
        if p < head.len() {
            assert(all[p] == head[p]);
        } else if p < head.len() + body.len() {
            assert(all[p] == body[p - head.len()]);
            let o = operands(body[p - head.len()])[k];
            assert(all[o as int] == body[o - head.len()]);
        } else {
            assert(all[head.len() + body.len() - 1] == body.last());
        }
    }
}

/// Counts the buffers a graph names.
fn count_buffers(op: &LazyOp) -> (n: usize)
    ensures
        n == buffers(*op),
        1 <= n <= 65536,
    decreases op,
{
    match op {
        LazyOp::Load { buffer } => *buffer as usize + 1,
        LazyOp::Arg { .. } => 1,
        LazyOp::Const { .. } => 1,
        LazyOp::Unary { src, .. } => count_buffers(src),
        LazyOp::Binary { lhs, rhs, .. } => {
            let l = count_buffers(lhs);
            let r = count_buffers(rhs);
            if l >= r {
                l
            } else {
                r
            }
        },
        LazyOp::MulAcc { a, b, c } => {
            let x = count_buffers(a);
            let y = count_buffers(b);
            let z = count_buffers(c);
            let m = if x >= y {
                x
            } else {
                y
            };
            if m >= z {
                m
            } else {
                z
            }
        },
        LazyOp::Reduce { src, .. } => count_buffers(src),
    }
}

/// Counts the scalar arguments a graph names.
fn count_scalars(op: &LazyOp) -> (n: usize)
    ensures
        n == scalars(*op),
        n <= 65536,
    decreases op,
{
    match op {
        LazyOp::Arg { index } => *index as usize + 1,
        LazyOp::Load { .. } => 0,
        LazyOp::Const { .. } => 0,
        LazyOp::Unary { src, .. } => count_scalars(src),
        LazyOp::Binary { lhs, rhs, .. } => {
            let l = count_scalars(lhs);
            let r = count_scalars(rhs);
            if l >= r {
                l
            } else {
                r
            }
        },
        LazyOp::MulAcc { a, b, c } => {
            let x = count_scalars(a);
            let y = count_scalars(b);
            let z = count_scalars(c);
            let m = if x >= y {
                x
            } else {
                y
            };
            if m >= z {
                m
            } else {
                z
            }
        },
        LazyOp::Reduce { src, .. } => count_scalars(src),
    }
}

/// Decides whether a graph holds a reduction.
fn has_reduce(op: &LazyOp) -> (found: bool)
    ensures
        found == reduces(*op),
    decreases op,
{
    match op {
        LazyOp::Load { .. } => false,
        LazyOp::Arg { .. } => false,
        LazyOp::Const { .. } => false,
        LazyOp::Unary { src, .. } => has_reduce(src),
        LazyOp::Binary { lhs, rhs, .. } => has_reduce(lhs) || has_reduce(rhs),
        LazyOp::MulAcc { a, b, c } => has_reduce(a) || has_reduce(b) || has_reduce(c),
        LazyOp::Reduce { .. } => true,
    }
}

/// Appends the micro-ops of a graph to `out` and returns the position of
/// the graph's value.
fn emit(op: &LazyOp, local_size: usize, out: &mut Vec<UOp>) -> (value: usize)
    ensures
        final(out)@ == old(out)@ + emitted(*op, old(out)@.len(), local_size),
        emitted(*op, old(out)@.len(), local_size).len() >= 1,
        value == final(out)@.len() - 1,
    decreases op,
{
    let ghost before = out@;
    let ghost at = out@.len();
    match op {
        LazyOp::Load { buffer } => {
            out.push(UOp::Load { buffer: *buffer as usize });
            assert(out@ =~= before + emitted(*op, at, local_size));
        },
        LazyOp::Arg { index } => {
            out.push(UOp::Arg { index: *index as usize });
            assert(out@ =~= before + emitted(*op, at, local_size));
        },
        LazyOp::Const { value } => {
            out.push(UOp::Const { value: *value });
            assert(out@ =~= before + emitted(*op, at, local_size));
        },
        LazyOp::Unary { op: o, src } => {
            let s = emit(src, local_size, out);
            out.push(UOp::Unary { op: *o, src: s });
            assert(out@ =~= before + emitted(*op, at, local_size));
        },
        LazyOp::Binary { op: o, lhs, rhs } => {
            let l = emit(lhs, local_size, out);
            let r = emit(rhs, local_size, out);
            out.push(UOp::Binary { op: *o, lhs: l, rhs: r });
            assert(out@ =~= before + emitted(*op, at, local_size));
        },
        LazyOp::MulAcc { a, b, c } => {
            let x = emit(a, local_size, out);
            let y = emit(b, local_size, out);
            let z = emit(c, local_size, out);
            out.push(UOp::MulAcc { a: x, b: y, c: z });
            assert(out@ =~= before + emitted(*op, at, local_size));
        },
        LazyOp::Reduce { op: o, src } => {
            let s = emit(src, local_size, out);
            out.push(UOp::DefineLocal { size: local_size });
            out.push(UOp::StoreLocal { src: s });
            out.push(UOp::Barrier);
            out.push(UOp::ReduceLocal { op: *o, size: local_size });
            assert(out@ =~= before + emitted(*op, at, local_size));
        },
    }
    out.len() - 1
}

/// Lists the declarations a kernel opens with.
fn open_kernel(buffers: usize, scalars: usize, reduces: bool, dtype: DtypeKind) -> (head: Vec<UOp>)
    ensures
        head@ == prologue(buffers as nat, scalars as nat, reduces, dtype),
{
    let mut head: Vec<UOp> = Vec::new();
    let mut b: usize = 0;
    while b < buffers
        invariant
            b <= buffers,
            head@ == Seq::new(b as nat, |i: int| UOp::DefineGlobal { buffer: i as usize, dtype }),
        decreases buffers - b,
    {
        head.push(UOp::DefineGlobal { buffer: b, dtype });
        b += 1;
        assert(head@ =~= Seq::new(
            b as nat,
            |i: int| UOp::DefineGlobal { buffer: i as usize, dtype },
        ));
    }
    let mut a: usize = 0;
    while a < scalars
        invariant
            a <= scalars,
            head@ == Seq::new(
                buffers as nat,
                |i: int| UOp::DefineGlobal { buffer: i as usize, dtype },
            ) + Seq::new(a as nat, |i: int| UOp::DefineArg { index: i as usize }),
        decreases scalars - a,
    {
        head.push(UOp::DefineArg { index: a });
        a += 1;
        assert(head@ =~= Seq::new(
            buffers as nat,
            |i: int| UOp::DefineGlobal { buffer: i as usize, dtype },
        ) + Seq::new(a as nat, |i: int| UOp::DefineArg { index: i as usize }));
    }
    head.push(UOp::Special { local: false, dim: 0 });
    if reduces {
        head.push(UOp::Special { local: true, dim: 0 });
    }
    assert(head@ =~= prologue(buffers as nat, scalars as nat, reduces, dtype));
    head
}

/// Names the kernel of a graph.
fn name_kernel(op: &LazyOp) -> (name: String)
    ensures
        name@ == kernel_name(*op),
{
    let mut name = if has_reduce(op) {
        String::from_str("R_")
    } else {
        String::from_str("E_")
    };
    let buffers = decimal_string(count_buffers(op) as u64);
    name.append(buffers.as_str());
    name.append("_");
    let scalars = decimal_string(count_scalars(op) as u64);
    name.append(scalars.as_str());
    name
}

/// The state of one compilation: the graph, the options of the device, the
/// name of the kernel, and the micro-ops once the graph has been lowered.
#[derive(Debug)]
pub struct Linearizer {
    name: String,
    uops: Vec<UOp>,
    ast: LazyOp,
    opts: LinearizerOptions,
}

impl Linearizer {
    #[verifier::type_invariant]
    spec fn lowered_or_empty(self) -> bool {
        &&& self.name@ == kernel_name(self.ast)
        &&& self.uops@.len() == 0 || self.uops@ == lowered(self.ast, self.opts)
    }

    /// The graph being compiled.
    pub closed spec fn graph(&self) -> LazyOp {
        self.ast
    }

    /// The options the graph is compiled under.
    pub closed spec fn options(&self) -> LinearizerOptions {
        self.opts
    }

    /// The micro-ops emitted so far.
    pub closed spec fn micro_ops(&self) -> Seq<UOp> {
        self.uops@
    }

    /// The name of the kernel.
    pub closed spec fn spec_name(&self) -> Seq<char> {
        self.name@
    }

    /// A compilation of `ast` under `opts`, or under the default options
    /// where none are given. Nothing is lowered yet.
    pub fn new(ast: LazyOp, opts: Option<LinearizerOptions>) -> (lin: Linearizer)
        ensures
            lin.graph() == ast,
            lin.options() == match opts {
                Some(given) => given,
                None => LinearizerOptions {
                    supports_float4: true,
                    local_size: 16,
                    dtype: DtypeKind::Float,
                },
            },
            lin.micro_ops() == Seq::<UOp>::empty(),
            lin.spec_name() == kernel_name(ast),
    {
        let opts = match opts {
            Some(given) => given,
            None => LinearizerOptions::default(),
        };
        let name = name_kernel(&ast);
        Linearizer { name, uops: Vec::new(), ast, opts }
    }

    /// Lowers the graph, unless that has been done: afterwards the
    /// micro-ops are the kernel of the graph, in dependency order.
    pub fn linearize(&mut self)
        ensures
            final(self).graph() == old(self).graph(),
            final(self).options() == old(self).options(),
            final(self).spec_name() == old(self).spec_name(),
            final(self).spec_name() == kernel_name(final(self).graph()),
            final(self).micro_ops() == lowered(old(self).graph(), old(self).options()),
            in_dependency_order(final(self).micro_ops()),
    {
        proof {
            use_type_invariant(&*self);
        }
        if self.uops.len() == 0 {
            let mut uops = open_kernel(
                count_buffers(&self.ast),
                count_scalars(&self.ast),
                has_reduce(&self.ast),
                self.opts.dtype,
            );
            let value = emit(&self.ast, self.opts.local_size, &mut uops);
            uops.push(UOp::Store { buffer: 0, src: value });
            assert(uops@ =~= lowered(self.ast, self.opts));
            self.uops = uops;
        }
        let held = self.uops.len();
        proof {
            lemma_lowered_in_dependency_order(self.ast, self.opts);
        }
    }

    /// The name of the kernel.
    pub fn name(&self) -> (name: &str)
        ensures
            name@ == self.spec_name(),
            name@ == kernel_name(self.graph()),
    {
        proof {
            use_type_invariant(self);
        }
        self.name.as_str()
    }

    /// The micro-ops emitted so far: none before the graph is lowered, the
    /// kernel of the graph after.
    pub fn uops(&self) -> (uops: &Vec<UOp>)
        ensures
            uops@ == self.micro_ops(),
            uops@.len() == 0 || uops@ == lowered(self.graph(), self.options()),
    {
        proof {
            use_type_invariant(self);
        }
        &self.uops
    }

    /// Gives up the compilation and keeps the name of the kernel.
    pub fn into_name(self) -> (name: String)
        ensures
            name@ == self.spec_name(),
    {
        self.name
    }
}

} // verus!
