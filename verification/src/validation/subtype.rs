//! Whether a value of one type can be read where another type is provided.

use vstd::prelude::*;
use crate::ir::{StructMember, TypeInner};

verus! {

/// A `required` type is satisfied by a `provided` one that is at least as
/// capable. A scalar is satisfied by a scalar or a vector of its kind that
/// is at least as wide; a vector by a vector of its kind with at least as
/// many components, each at least as wide; a matrix by a matrix of its
/// shape and kind that is at least as wide; a structure only by a structure
/// with the same members. Nothing else is satisfied by anything.
pub open spec fn sub_type(required: TypeInner, provided: TypeInner) -> bool {
    match (required, provided) {
        (
            TypeInner::Scalar { kind: k0, width: w0 },
            TypeInner::Scalar { kind: k1, width: w1 },
        ) => k0 == k1 && w0 <= w1,
        (
            TypeInner::Scalar { kind: k0, width: w0 },
            TypeInner::Vector { size: _, kind: k1, width: w1 },
        ) => k0 == k1 && w0 <= w1,
        (
            TypeInner::Vector { size: s0, kind: k0, width: w0 },
            TypeInner::Vector { size: s1, kind: k1, width: w1 },
        ) => s0.count() <= s1.count() && k0 == k1 && w0 <= w1,
        (
            TypeInner::Matrix { columns: c0, rows: r0, kind: k0, width: w0 },
            TypeInner::Matrix { columns: c1, rows: r1, kind: k1, width: w1 },
        ) => c0 == c1 && r0 == r1 && k0 == k1 && w0 <= w1,
        (TypeInner::Struct { members: m0 }, TypeInner::Struct { members: m1 }) => m0@ == m1@,
        _ => false,
    }
}

/// Every scalar, vector, matrix and structure satisfies itself.
pub proof fn lemma_sub_type_reflexive(ty: TypeInner)
    requires
        ty is Scalar || ty is Vector || ty is Matrix || ty is Struct,
    ensures
        sub_type(ty, ty),
{
}

/// Pointers, arrays, images and samplers satisfy nothing and are satisfied
/// by nothing, themselves included.
pub proof fn lemma_sub_type_needs_numbers_or_structures(required: TypeInner, provided: TypeInner)
    requires
        required is Pointer || required is Array || required is Image || required is Sampler
            || provided is Pointer || provided is Array || provided is Image
            || provided is Sampler,
    ensures
        !sub_type(required, provided),
{
}

/// Between two scalars of one kind, and between two vectors of one kind and
/// one size, the narrower satisfies the wider and never the reverse: the
/// required type is satisfied exactly when it is no wider than the provided.
pub proof fn lemma_sub_type_width_monotone(required: TypeInner, provided: TypeInner)
    requires
        (required matches TypeInner::Scalar { kind: k0, .. } && provided matches TypeInner::Scalar {
            kind: k1,
            ..
        } && k0 == k1) || (required matches TypeInner::Vector { size: s0, kind: k0, .. }
            && provided matches TypeInner::Vector { size: s1, kind: k1, .. } && s0 == s1 && k0
            == k1),
    ensures
        sub_type(required, provided) <==> type_width(required) <= type_width(provided),
{
}

/// The bit width of a scalar, a vector or a matrix; zero for other types.
pub open spec fn type_width(ty: TypeInner) -> nat {
    match ty {
        TypeInner::Scalar { width, .. } => width as nat,
        TypeInner::Vector { width, .. } => width as nat,
        TypeInner::Matrix { width, .. } => width as nat,
        _ => 0,
    }
}

/// What satisfies a type that satisfies a third also satisfies the third.
pub proof fn lemma_sub_type_transitive(a: TypeInner, b: TypeInner, c: TypeInner)
    requires
        sub_type(a, b),
        sub_type(b, c),
    ensures
        sub_type(a, c),
{
}

/// Whether two member lists are the same: as long, and member by member
/// with the same offset and the same type.
fn same_members(left: &Vec<StructMember>, right: &Vec<StructMember>) -> (same: bool)
    ensures
        same == (left@ == right@),
{
    if left.len() != right.len() {
        return false;
    }
    let mut i: usize = 0;
    while i < left.len()
        invariant
            i <= left.len(),
            left.len() == right.len(),
            forall|j: int| 0 <= j < i ==> left@[j] == right@[j],
        decreases left.len() - i,
    {
        if left[i].offset != right[i].offset || left[i].ty != right[i].ty {
            assert(left@[i as int] != right@[i as int]);
            return false;
        }
        i += 1;
    }
    assert(left@ =~= right@);
    true
}

/// Decides `sub_type`: whether `sub`, the type that is required, is
/// satisfied by `provided`.
pub fn is_sub_type(sub: &TypeInner, provided: &TypeInner) -> (r: bool)
    ensures
        r == sub_type(*sub, *provided),
{
    match (sub, provided) {
        (
            TypeInner::Scalar { kind: k0, width: w0 },
            TypeInner::Scalar { kind: k1, width: w1 },
        ) => *k0 == *k1 && *w0 <= *w1,
        (
            TypeInner::Scalar { kind: k0, width: w0 },
            TypeInner::Vector { size: _, kind: k1, width: w1 },
        ) => *k0 == *k1 && *w0 <= *w1,
        (
            TypeInner::Vector { size: s0, kind: k0, width: w0 },
            TypeInner::Vector { size: s1, kind: k1, width: w1 },
        ) => s0.components() <= s1.components() && *k0 == *k1 && *w0 <= *w1,
        (
            TypeInner::Matrix { columns: c0, rows: r0, kind: k0, width: w0 },
            TypeInner::Matrix { columns: c1, rows: r1, kind: k1, width: w1 },
        ) => *c0 == *c1 && *r0 == *r1 && *k0 == *k1 && *w0 <= *w1,
        (TypeInner::Struct { members: m0 }, TypeInner::Struct { members: m1 }) => same_members(
            m0,
            m1,
        ),
        _ => false,
    }
}

} // verus!
