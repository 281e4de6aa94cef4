//! The size in bytes that a shader type takes in a buffer.

use vstd::prelude::*;
use crate::ir::{
    resolved_type, ArraySize, Binding, GlobalVariable, Handle, Module, Type, TypeInner,
};
use crate::types::BufferAddress;

verus! {

/// The size in bytes of the type at `handle`, or `None` where the layout
/// rules give the type no size.
///
/// Numbers take their bit width divided by eight, once per component. A
/// pointer counts as four bytes. An array takes its stride, or else the size
/// of its element, once per element; an array without a fixed length has a
/// size only where `allow_unbound` holds, and then counts as one element. A
/// structure ends where its last member ends, and that member alone may be
/// unbound where the structure may. Samplers and images have no size.
/// An element or a member is looked up only where it stands before the
/// type that holds it, as it does in every well-formed module.
pub open spec fn aligned_size(types: Seq<Type>, handle: int, allow_unbound: bool) -> Option<nat>
    decreases handle,
{
    if 0 <= handle < types.len() {
        match types[handle].inner {
            TypeInner::Scalar { width, .. } => Some(width as nat / 8),
            TypeInner::Vector { size, width, .. } => Some(size.count() * width as nat / 8),
            TypeInner::Matrix { columns, rows, width, .. } => Some(
                rows.count() * columns.count() * width as nat / 8,
            ),
            TypeInner::Pointer { .. } => Some(4),
            TypeInner::Array { base, size, stride } => {
                let element = match stride {
                    Some(stride) => Some(stride as nat),
                    None => if base < handle {
                        aligned_size(types, base as int, false)
                    } else {
                        None
                    },
                };
                match (size, element) {
                    (ArraySize::Static(count), Some(element)) => Some(element * count as nat),
                    (ArraySize::Dynamic, Some(element)) => if allow_unbound {
                        Some(element)
                    } else {
                        None
                    },
                    _ => None,
                }
            },
            TypeInner::Struct { members } => if members@.len() == 0 {
                Some(0)
            } else {
                let last = members@.last();
                if last.ty < handle {
                    match aligned_size(types, last.ty as int, allow_unbound) {
                        Some(size) => Some(last.offset as nat + size),
                        None => None,
                    }
                } else {
                    None
                }
            },
            _ => None,
        }
    } else {
        None
    }
}

/// `aligned_size` as a buffer address, or `None` where the type has no size
/// or its size is beyond the largest address.
pub open spec fn fitting_size(types: Seq<Type>, handle: int, allow_unbound: bool) -> Option<
    BufferAddress,
> {
    match aligned_size(types, handle, allow_unbound) {
        Some(size) => if size <= BufferAddress::MAX {
            Some(size as BufferAddress)
        } else {
            None
        },
        None => None,
    }
}

/// A structure ends where its last member ends: its size is the offset of
/// its last member plus the size of that member, whatever stands before it.
pub proof fn lemma_struct_size_accumulates(types: Seq<Type>, handle: int, allow_unbound: bool)
    requires
        0 <= handle < types.len(),
        types[handle].inner is Struct,
        types[handle].inner->members@.len() > 0,
        types[handle].inner->members@.last().ty < handle,
    ensures
        ({
            let last = types[handle].inner->members@.last();
            aligned_size(types, handle, allow_unbound) == match aligned_size(
                types,
                last.ty as int,
                allow_unbound,
            ) {
                Some(size) => Some(last.offset as nat + size),
                None => None,
            }
        }),
{
}

/// An array without a fixed length counts as exactly one element where it
/// may stand unbound, and has no size anywhere else.
pub proof fn lemma_unbound_array_is_one_element(types: Seq<Type>, handle: int)
    requires
        0 <= handle < types.len(),
        types[handle].inner matches TypeInner::Array { size: ArraySize::Dynamic, .. },
    ensures
        aligned_size(types, handle, false) is None,
        aligned_size(types, handle, true) == match types[handle].inner {
            TypeInner::Array { stride: Some(stride), .. } => Some(stride as nat),
            TypeInner::Array { base, stride: None, .. } => if base < handle {
                aligned_size(types, base as int, false)
            } else {
                None
            },
            _ => None,
        },
{
}

/// A structure that ends in an array without a fixed length is as large as
/// the offset of that array plus one of its elements.
pub proof fn lemma_struct_with_unbound_tail(types: Seq<Type>, handle: int, stride: u32)
    requires
        0 <= handle < types.len(),
        types[handle].inner is Struct,
        types[handle].inner->members@.len() > 0,
        types[handle].inner->members@.last().ty < handle,
        types[types[handle].inner->members@.last().ty as int].inner matches TypeInner::Array {
            size: ArraySize::Dynamic,
            stride: Some(s),
            ..
        } && s == stride,
    ensures
        aligned_size(types, handle, true) == Some(
            types[handle].inner->members@.last().offset as nat + stride as nat,
        ),
        aligned_size(types, handle, false) is None,
{
    let last = types[handle].inner->members@.last();
    lemma_unbound_array_is_one_element(types, last.ty as int);
}

/// A type that has a size where nothing may be unbound has the same size
/// where its tail may be: allowing an unbound tail only adds types that
/// have a size, and changes the size of none.
pub proof fn lemma_allowing_unbound_keeps_sizes(types: Seq<Type>, handle: int)
    ensures
        aligned_size(types, handle, false) is Some ==> aligned_size(types, handle, true)
            == aligned_size(types, handle, false),
    decreases handle,
{
    if 0 <= handle < types.len() {
        if let TypeInner::Struct { members } = types[handle].inner {
            if members@.len() > 0 && members@.last().ty < handle {
                lemma_allowing_unbound_keeps_sizes(types, members@.last().ty as int);
            }
        }
    }
}

/// The size of a type that is neither a structure nor an array of elements
/// without a stride is within the range of buffer addresses.
proof fn lemma_flat_size_fits(types: Seq<Type>, handle: int, allow_unbound: bool)
    requires
        0 <= handle < types.len(),
        !(types[handle].inner is Struct),
        !(types[handle].inner matches TypeInner::Array { stride: None, .. }),
    ensures
        aligned_size(types, handle, allow_unbound) matches Some(size) ==> size
            <= BufferAddress::MAX,
{
    match types[handle].inner {
        TypeInner::Vector { size, width, .. } => {
            assert(size.count() * width as nat <= 4 * 255) by (nonlinear_arith)
                requires
                    size.count() <= 4,
                    width <= 255,
            ;
        },
        TypeInner::Matrix { columns, rows, width, .. } => {
            assert(rows.count() * columns.count() * width as nat <= 16 * 255)
                by (nonlinear_arith)
                requires
                    rows.count() <= 4,
                    columns.count() <= 4,
                    width <= 255,
            ;
        },
        TypeInner::Array { stride: Some(stride), size: ArraySize::Static(count), .. } => {
            assert((stride as nat) * (count as nat) <= 0xffff_ffff * 0xffff_ffff)
                by (nonlinear_arith)
                requires
                    stride <= 0xffff_ffff,
                    count <= 0xffff_ffff,
            ;
        },
        _ => {},
    }
}

/// Computes `aligned_size` for a type that has a size within the range of
/// buffer addresses.
pub fn get_aligned_type_size(module: &Module, handle: Handle, allow_unbound: bool) -> (size:
    BufferAddress)
    requires
        fitting_size(module.types@, handle as int, allow_unbound) is Some,
    ensures
        Some(size) == fitting_size(module.types@, handle as int, allow_unbound),
    decreases handle,
{
    match &module.types[handle].inner {
        TypeInner::Scalar { kind: _, width } => (*width as BufferAddress) / 8,
        TypeInner::Vector { size, kind: _, width } => {
            let count = size.components() as BufferAddress;
            let width = *width as BufferAddress;
            assert(count * width <= 4 * 255) by (nonlinear_arith)
                requires
                    count <= 4,
                    width <= 255,
            ;
            count * width / 8
        },
        TypeInner::Matrix { columns, rows, kind: _, width } => {
            let rows = rows.components() as BufferAddress;
            let columns = columns.components() as BufferAddress;
            let width = *width as BufferAddress;
            assert(rows * columns <= 16 && rows * columns * width <= 16 * 255)
                by (nonlinear_arith)
                requires
                    rows <= 4,
                    columns <= 4,
                    width <= 255,
            ;
            rows * columns * width / 8
        },
        TypeInner::Pointer { .. } => 4,
        TypeInner::Array { base, size: ArraySize::Static(count), stride } => {
            match stride {
                Some(stride) => {
                    assert((*stride as nat) * (*count as nat) <= 0xffff_ffff * 0xffff_ffff)
                        by (nonlinear_arith)
                        requires
                            *stride <= 0xffff_ffff,
                            *count <= 0xffff_ffff,
                    ;
                    (*stride as BufferAddress) * (*count as BufferAddress)
                },
                None => {
                    if *count == 0 {
                        proof {
                            let element = aligned_size(module.types@, *base as int, false)->0;
                            assert(element * (*count as nat) == 0) by (nonlinear_arith)
                                requires
                                    *count == 0,
                            ;
                        }
                        0
                    } else {
                        let ghost element = aligned_size(module.types@, *base as int, false)->0;
                        assert(element <= element * (*count as nat)) by (nonlinear_arith)
                            requires
                                *count >= 1,
                        ;
                        let base_size = get_aligned_type_size(module, *base, false);
                        base_size * (*count as BufferAddress)
                    }
                },
            }
        },
        TypeInner::Array { base, size: ArraySize::Dynamic, stride } => {
            match stride {
                Some(stride) => *stride as BufferAddress,
                None => get_aligned_type_size(module, *base, false),
            }
        },
        TypeInner::Struct { members } => {
            if members.len() == 0 {
                0
            } else {
                let last = &members[members.len() - 1];
                last.offset as BufferAddress + get_aligned_type_size(
                    module,
                    last.ty,
                    allow_unbound,
                )
            }
        },
        _ => {
            proof {
                assert(false);
            }
            0
        },
    }
}

/// Decides whether `aligned_size` gives the type a size.
pub fn has_aligned_size(module: &Module, handle: Handle, allow_unbound: bool) -> (r: bool)
    ensures
        r == aligned_size(module.types@, handle as int, allow_unbound).is_some(),
    decreases handle,
{
    if handle >= module.types.len() {
        return false;
    }
    match &module.types[handle].inner {
        TypeInner::Scalar { .. } | TypeInner::Vector { .. } | TypeInner::Matrix { .. } => true,
        TypeInner::Pointer { .. } => true,
        TypeInner::Array { base, size, stride } => {
            let bound = match size {
                ArraySize::Static(_) => true,
                ArraySize::Dynamic => allow_unbound,
            };
            bound && match stride {
                Some(_) => true,
                None => *base < handle && has_aligned_size(module, *base, false),
            }
        },
        TypeInner::Struct { members } => {
            if members.len() == 0 {
                true
            } else {
                let last = &members[members.len() - 1];
                last.ty < handle && has_aligned_size(module, last.ty, allow_unbound)
            }
        },
        _ => false,
    }
}

/// Computes `fitting_size`: the size of the type, or `None` where it has no
/// size or one beyond the largest buffer address.
pub fn checked_aligned_type_size(module: &Module, handle: Handle, allow_unbound: bool) -> (size:
    Option<BufferAddress>)
    ensures
        size == fitting_size(module.types@, handle as int, allow_unbound),
    decreases handle,
{
    if handle >= module.types.len() {
        return None;
    }
    match &module.types[handle].inner {
        TypeInner::Array { base, size: ArraySize::Static(count), stride: None } => {
            if *count == 0 {
                if has_aligned_size(module, *base, false) && *base < handle {
                    proof {
                        let element = aligned_size(module.types@, *base as int, false)->0;
                        assert(element * (*count as nat) == 0) by (nonlinear_arith)
                            requires
                                *count == 0,
                        ;
                    }
                    Some(0)
                } else {
                    None
                }
            } else if *base < handle {
                match checked_aligned_type_size(module, *base, false) {
                    Some(base_size) => {
                        base_size.checked_mul(*count as BufferAddress)
                    },
                    None => {
                        proof {
                            let element = aligned_size(module.types@, *base as int, false);
                            if element is Some {
                                assert(element->0 <= element->0 * (*count as nat))
                                    by (nonlinear_arith)
                                    requires
                                        *count >= 1,
                                ;
                            }
                        }
                        None
                    },
                }
            } else {
                None
            }
        },
        TypeInner::Array { base, size: ArraySize::Dynamic, stride: None } => {
            if allow_unbound && *base < handle {
                checked_aligned_type_size(module, *base, false)
            } else {
                None
            }
        },
        TypeInner::Struct { members } => {
            if members.len() == 0 {
                Some(0)
            } else {
                let last = &members[members.len() - 1];
                if last.ty < handle {
                    match checked_aligned_type_size(module, last.ty, allow_unbound) {
                        Some(size) => size.checked_add(last.offset as BufferAddress),
                        None => None,
                    }
                } else {
                    None
                }
            }
        },
        _ => {
            if has_aligned_size(module, handle, allow_unbound) {
                proof {
                    lemma_flat_size_fits(module.types@, handle as int, allow_unbound);
                }
                Some(get_aligned_type_size(module, handle, allow_unbound))
            } else {
                None
            }
        },
    }
}

/// A variable that is bound as a resource and whose type is a structure has
/// a size as a whole buffer, within the range of buffer addresses.
pub open spec fn has_buffer_size(types: Seq<Type>, var: GlobalVariable) -> bool {
    let ty = resolved_type(types, var.ty as int);
    var.binding matches Some(Binding::Descriptor { .. }) && types[ty].inner is Struct
        ==> fitting_size(types, ty, true) is Some
}

/// Every structure that the module binds as a resource has a size as a
/// whole buffer.
pub open spec fn buffers_sized(module: Module) -> bool {
    forall|i: int|
        0 <= i < module.global_variables@.len() ==> has_buffer_size(
            module.types@,
            #[trigger] module.global_variables@[i],
        )
}

/// Decides `buffers_sized`.
pub fn buffers_are_sized(module: &Module) -> (r: bool)
    requires
        module.wf(),
    ensures
        r == buffers_sized(*module),
{
    let mut i: usize = 0;
    while i < module.global_variables.len()
        invariant
            module.wf(),
            i <= module.global_variables.len(),
            forall|j: int|
                0 <= j < i ==> has_buffer_size(
                    module.types@,
                    #[trigger] module.global_variables@[j],
                ),
        decreases module.global_variables.len() - i,
    {
        let var = &module.global_variables[i];
        if let Some(Binding::Descriptor { .. }) = var.binding {
            let (ty, inner) = module.resolve(var.ty);
            if let TypeInner::Struct { .. } = inner {
                if checked_aligned_type_size(module, ty, true).is_none() {
                    assert(!has_buffer_size(module.types@, module.global_variables@[i as int]));
                    return false;
                }
            }
        }
        i += 1;
    }
    true
}

} // verus!
