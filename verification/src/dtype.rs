//! Scalar element types and their byte widths.

use vstd::prelude::*;

verus! {

/// The scalar element kinds a buffer can hold.
#[derive(Clone, Copy, Debug, PartialEq, Eq, Structural)]
pub enum DtypeKind {
    Bool,
    Int8,
    UInt8,
    Int16,
    UInt16,
    Half,
    Int32,
    UInt32,
    Float,
    Int64,
    UInt64,
    Double,
}

/// The number of bytes one element of the given kind occupies.
pub open spec fn width_of(kind: DtypeKind) -> nat {
    match kind {
        DtypeKind::Bool | DtypeKind::Int8 | DtypeKind::UInt8 => 1,
        DtypeKind::Int16 | DtypeKind::UInt16 | DtypeKind::Half => 2,
        DtypeKind::Int32 | DtypeKind::UInt32 | DtypeKind::Float => 4,
        DtypeKind::Int64 | DtypeKind::UInt64 | DtypeKind::Double => 8,
    }
}

/// A scalar element type together with its byte width.
///
/// The width always matches the kind, so it is never zero.
#[derive(Clone, Copy, Debug, PartialEq, Eq)]
pub struct Dtype {
    kind: DtypeKind,
    size: usize,
}

impl Dtype {
    #[verifier::type_invariant]
    spec fn matches_kind(self) -> bool {
        self.size == width_of(self.kind)
    }

    /// The element kind.
    pub closed spec fn spec_kind(self) -> DtypeKind {
        self.kind
    }

    /// The byte width of one element.
    pub closed spec fn byte_size(self) -> nat {
        self.size as nat
    }

    /// Whether the recorded width is the width of the kind. Holds of every
    /// value built by [`Dtype::new`].
    pub closed spec fn wf(self) -> bool {
        self.size == width_of(self.kind)
    }

    /// The element type of the given kind.
    pub fn new(kind: DtypeKind) -> (dtype: Dtype)
        ensures
            dtype.wf(),
            dtype.spec_kind() == kind,
            dtype.byte_size() == width_of(kind),
    {
        let size: usize = match kind {
            DtypeKind::Bool | DtypeKind::Int8 | DtypeKind::UInt8 => 1,
            DtypeKind::Int16 | DtypeKind::UInt16 | DtypeKind::Half => 2,
            DtypeKind::Int32 | DtypeKind::UInt32 | DtypeKind::Float => 4,
            DtypeKind::Int64 | DtypeKind::UInt64 | DtypeKind::Double => 8,
        };
        Dtype { kind, size }
    }

    /// The element kind.
    pub fn kind(&self) -> (kind: DtypeKind)
        ensures
            kind == self.spec_kind(),
    {
        self.kind
    }

    /// The byte width of one element: positive, and the width of the kind.
    pub fn size(&self) -> (size: usize)
        ensures
            size == self.byte_size(),
            size == width_of(self.spec_kind()),
            1 <= size <= 8,
            self.wf(),
    {
        proof {
            use_type_invariant(self);
        }
        self.size
    }
}

} // verus!
