//! Spatial-reference resolution core for an immersive-tracking subsystem.
//!
//! Given a raw device tracking sample (optional position, optional
//! orientation quaternion of a physical tracking origin), this crate resolves
//! the pose of a named space relative to that origin. Three kinds of space
//! exist: a viewer-anchored space, an input-device-anchored space, and a
//! derived (reference) space whose pose a sibling offset component computes.
//!
//! Scalars are carried as IEEE-754 bit patterns (`u32` for raw device
//! components, `u64` for finished transform components): this core never does
//! numeric work on them, it selects, defaults and routes them, and those steps
//! are what is specified and proved here. The numeric layer that turns a
//! decoded pose into a finished transform (widening, quaternion
//! normalization) lives with the caller.

pub mod pose;
pub mod space;
