//! Bind groups, their layouts, and the offsets given when a group is set.

use vstd::prelude::*;
use std::collections::HashMap;
use crate::types::{
    bind_buffer_alignment, BindGroupLayoutEntry, BindingType, BufferAddress, DynamicOffset,
    Features, BIND_BUFFER_ALIGNMENT,
};

verus! {

/// Why a bind group layout cannot be created.
#[derive(Clone, Copy, Debug, PartialEq, Eq, Structural)]
pub enum BindGroupLayoutError {
    /// Two entries name this binding index.
    ConflictBinding(u32),
    /// The layout needs a feature that the device was not created with.
    MissingFeature(Features),
    /// An array of bindings cannot be empty.
    ZeroCount,
    /// This type of binding cannot be an array.
    ArrayUnsupported,
}

/// Why a bind group cannot be created.
#[derive(Clone, Copy, Debug, PartialEq, Eq)]
pub enum BindGroupError {
    /// The bind group has another number of bindings than its layout.
    BindingsNumMismatch { actual: usize, expected: usize },
    /// The layout declares no binding of this index.
    MissingBindingDeclaration(u32),
    /// The resource given for `binding` is of another type than the
    /// layout declares.
    WrongBindingType { binding: u32, actual: BindingType, expected: &'static str },
    /// Only one of the sampler and the layout compares.
    WrongSamplerComparison,
}

/// The entries of one bind group layout, by binding index.
pub type BindEntryMap = HashMap<u32, BindGroupLayoutEntry>;

/// Why a pipeline layout cannot be created.
#[derive(Clone, Copy, Debug, PartialEq, Eq, Structural)]
pub enum PipelineLayoutError {
    /// This many bind group layouts are more than a pipeline can have.
    TooManyGroups(usize),
}

/// Why a bind group cannot be set with the dynamic offsets given.
#[derive(Clone, Copy, Debug, PartialEq, Eq, Structural)]
pub enum BindError {
    /// There are `actual` offsets for `expected` dynamic bindings.
    MismatchedDynamicOffsetCount { actual: usize, expected: usize },
    /// The offset at `idx` is no multiple of the required alignment.
    UnalignedDynamicBinding { idx: usize },
    /// The offset at `idx` would run past the end of the buffer.
    DynamicBindingOutOfBounds { idx: usize },
}

/// What is kept of one dynamic binding of a bind group.
#[derive(Clone, Copy, Debug, PartialEq, Eq, Structural)]
pub struct BindGroupDynamicBindingData {
    /// The largest offset that keeps the binding within its buffer.
    pub maximum_dynamic_offset: BufferAddress,
}

/// A bind group, as far as setting it depends on it.
#[derive(Clone, Debug, PartialEq, Eq)]
pub struct BindGroup {
    /// The dynamic bindings of the group, in the order of their declaration.
    pub dynamic_binding_info: Vec<BindGroupDynamicBindingData>,
}

/// Why `offset` cannot be used for the dynamic binding `info` at position
/// `idx`, if it cannot: it has to be a multiple of the alignment, and then
/// no more than the binding's maximum.
pub open spec fn dynamic_offset_error(
    info: BindGroupDynamicBindingData,
    offset: DynamicOffset,
    idx: usize,
) -> Option<BindError> {
    if offset as int % BIND_BUFFER_ALIGNMENT as int != 0 {
        Some(BindError::UnalignedDynamicBinding { idx })
    } else if offset > info.maximum_dynamic_offset {
        Some(BindError::DynamicBindingOutOfBounds { idx })
    } else {
        None
    }
}

impl BindGroup {
    /// Checks the offsets given for the group's dynamic bindings.
    ///
    /// There has to be one offset for each dynamic binding. The error is
    /// that of the first offset, in the order of the bindings, that cannot
    /// be used; where there is none, every offset can.
    pub fn validate_dynamic_bindings(&self, offsets: &[DynamicOffset]) -> (result: Result<
        (),
        BindError,
    >)
        ensures
            self.dynamic_binding_info@.len() != offsets@.len() ==> result == Err::<(), BindError>(
                BindError::MismatchedDynamicOffsetCount {
                    actual: offsets@.len() as usize,
                    expected: self.dynamic_binding_info@.len() as usize,
                },
            ),
            self.dynamic_binding_info@.len() == offsets@.len() ==> match result {
                Ok(_) => forall|i: int|
                    0 <= i < offsets@.len() ==> dynamic_offset_error(
                        #[trigger] self.dynamic_binding_info@[i],
                        offsets@[i],
                        i as usize,
                    ) is None,
                Err(error) => exists|i: int|
                    0 <= i < offsets@.len() && #[trigger] dynamic_offset_error(
                        self.dynamic_binding_info@[i],
                        offsets@[i],
                        i as usize,
                    ) == Some(error) && forall|j: int|
                        0 <= j < i ==> dynamic_offset_error(
                            #[trigger] self.dynamic_binding_info@[j],
                            offsets@[j],
                            j as usize,
                        ) is None,
            },
    {
        if self.dynamic_binding_info.len() != offsets.len() {
            return Err(
                BindError::MismatchedDynamicOffsetCount {
                    expected: self.dynamic_binding_info.len(),
                    actual: offsets.len(),
                },
            );
        }
        let alignment = bind_buffer_alignment();
        let mut idx: usize = 0;
        while idx < offsets.len()
            invariant
                idx <= offsets@.len(),
                self.dynamic_binding_info@.len() == offsets@.len(),
                alignment == BIND_BUFFER_ALIGNMENT,
                forall|j: int|
                    0 <= j < idx ==> dynamic_offset_error(
                        #[trigger] self.dynamic_binding_info@[j],
                        offsets@[j],
                        j as usize,
                    ) is None,
            decreases offsets@.len() - idx,
        {
            let info = &self.dynamic_binding_info[idx];
            let offset = offsets[idx];
            if offset as BufferAddress % alignment != 0 {
                assert(dynamic_offset_error(
                    self.dynamic_binding_info@[idx as int],
                    offsets@[idx as int],
                    idx,
                ) == Some(BindError::UnalignedDynamicBinding { idx }));
                return Err(BindError::UnalignedDynamicBinding { idx });
            }
            if offset as BufferAddress > info.maximum_dynamic_offset {
                assert(dynamic_offset_error(
                    self.dynamic_binding_info@[idx as int],
                    offsets@[idx as int],
                    idx,
                ) == Some(BindError::DynamicBindingOutOfBounds { idx }));
                return Err(BindError::DynamicBindingOutOfBounds { idx });
            }
            idx += 1;
        }
        Ok(())
    }
}

} // verus!
