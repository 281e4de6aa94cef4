//! Whether a resource was created with the usages that an operation needs.

use vstd::prelude::*;
use crate::types::{BufferUsage, TextureUsage};

verus! {

/// A buffer lacks a usage that was required of it.
#[derive(Clone, Copy, Debug, PartialEq, Eq, Structural)]
pub struct MissingBufferUsageError {
    pub actual: BufferUsage,
    pub expected: BufferUsage,
}

/// Succeeds where the buffer usage `actual` holds every usage of
/// `expected`, and else reports both.
pub fn check_buffer_usage(actual: BufferUsage, expected: BufferUsage) -> (result: Result<
    (),
    MissingBufferUsageError,
>)
    ensures
        result == if actual.contains(expected) {
            Ok::<(), MissingBufferUsageError>(())
        } else {
            Err(MissingBufferUsageError { actual, expected })
        },
{
    if !actual.contains(expected) {
        Err(MissingBufferUsageError { actual, expected })
    } else {
        Ok(())
    }
}

/// A texture lacks a usage that was required of it.
#[derive(Clone, Copy, Debug, PartialEq, Eq, Structural)]
pub struct MissingTextureUsageError {
    pub actual: TextureUsage,
    pub expected: TextureUsage,
}

/// Succeeds where the texture usage `actual` holds every usage of
/// `expected`, and else reports both.
pub fn check_texture_usage(actual: TextureUsage, expected: TextureUsage) -> (result: Result<
    (),
    MissingTextureUsageError,
>)
    ensures
        result == if actual.contains(expected) {
            Ok::<(), MissingTextureUsageError>(())
        } else {
            Err(MissingTextureUsageError { actual, expected })
        },
{
    if !actual.contains(expected) {
        Err(MissingTextureUsageError { actual, expected })
    } else {
        Ok(())
    }
}

} // verus!
