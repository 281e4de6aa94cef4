//! The checks made when a pipeline is created.

pub mod binding;
pub mod format;
pub mod size;
pub mod stage;
pub mod subtype;
pub mod usage;

pub use binding::{check_binding, BindingError};
pub use format::{check_texture_format, map_texture_format, map_vertex_format};
pub use size::{
    aligned_size, buffers_are_sized, buffers_sized, checked_aligned_type_size, fitting_size,
    get_aligned_type_size, has_aligned_size, has_buffer_size,
};
pub use stage::{
    check_stage, find_entry_point, interface_types, stage_outcome, InputError, MaybeOwned,
    StageError, StageInterface,
};
pub use subtype::{is_sub_type, sub_type};
pub use usage::{
    check_buffer_usage, check_texture_usage, MissingBufferUsageError, MissingTextureUsageError,
};
