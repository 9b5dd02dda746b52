//! Numeric and string constants of the glTF 2.0 format.

pub mod component_type;
pub mod accessor_type;
pub mod buffer_view_target;
pub mod sampler_filter;
pub mod sampler_wrap;
pub mod alpha_mode;
pub mod primitive_mode;
