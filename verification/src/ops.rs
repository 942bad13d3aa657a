//! The operation graph that the code generator consumes, and the lowering
//! overrides a backend supplies.

use vstd::prelude::*;

verus! {

/// An elementwise operation of one operand.
#[derive(Debug, Clone, Copy, PartialEq, Eq, Structural)]
pub enum UnaryOp {
    Neg,
    Exp2,
    Log2,
    Sin,
    Sqrt,
    Recip,
}

/// An elementwise operation of two operands.
#[derive(Debug, Clone, Copy, PartialEq, Eq, Structural)]
pub enum BinaryOp {
    Add,
    Sub,
    Mul,
    Div,
    Max,
    Less,
}

/// A reduction over the work-items of one work-group.
#[derive(Debug, Clone, Copy, PartialEq, Eq, Structural)]
pub enum ReduceOp {
    Sum,
    Max,
}

/// A tree of tensor operations. Buffer 0 is the output of the kernel; the
/// leaves read the other buffers, scalar kernel arguments and constants.
#[allow(inconsistent_fields)]
#[derive(Debug, PartialEq, Eq)]
pub enum LazyOp {
    /// The element of the input buffer `buffer` at the work index.
    Load { buffer: u16 },
    /// The scalar kernel argument `index`.
    Arg { index: u16 },
    /// An integer constant.
    Const { value: i64 },
    /// An elementwise operation of one operand.
    Unary { op: UnaryOp, src: Box<LazyOp> },
    /// An elementwise operation of two operands.
    Binary { op: BinaryOp, lhs: Box<LazyOp>, rhs: Box<LazyOp> },
    /// `a * b + c`, fused.
    MulAcc { a: Box<LazyOp>, b: Box<LazyOp>, c: Box<LazyOp> },
    /// A reduction of the operand over the work-group.
    Reduce { op: ReduceOp, src: Box<LazyOp> },
}

/// The lowerings a backend overrides because its native intrinsic is better
/// than the generic expansion.
pub trait Op {
    /// The text of a fused multiply-add of the operands `a`, `b` and `c`.
    spec fn mulacc_text(&self, a: Seq<char>, b: Seq<char>, c: Seq<char>) -> Seq<char>;

    /// The text of a fused multiply-add of the operands `a`, `b` and `c`.
    fn mulacc(&self, a: &str, b: &str, c: &str) -> (text: String)
        ensures
            text@ == self.mulacc_text(a@, b@, c@),
    ;
}

} // verus!
