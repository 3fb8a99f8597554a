//! The pose decoder: turns a raw device pose (optional position, optional
//! orientation quaternion) into a fully populated pose with the documented
//! defaults applied, ready for the caller's numeric layer.

use vstd::prelude::*;

verus! {

/// A raw 3-component vector from the device. Each component is the IEEE-754
/// bit pattern of a single-precision scalar; the pattern `0` stands for the
/// scalar zero.
#[derive(Clone, Copy, Debug, PartialEq, Eq, Structural)]
pub struct RawVector3 {
    pub x: u32,
    pub y: u32,
    pub z: u32,
}

/// A raw quaternion from the device, `x*i + y*j + z*k + w`. Each component is
/// the IEEE-754 bit pattern of a single-precision scalar. The quaternion is
/// not necessarily of unit length; normalization is the numeric layer's step.
#[derive(Clone, Copy, Debug, PartialEq, Eq, Structural)]
pub struct RawQuaternion {
    pub x: u32,
    pub y: u32,
    pub z: u32,
    pub w: u32,
}

/// A raw device pose: a sensor may be unable to provide position, orientation
/// or both, so each part is optional.
#[derive(Clone, Copy, Debug, PartialEq, Eq)]
pub struct RawPose {
    pub position: Option<RawVector3>,
    pub orientation: Option<RawQuaternion>,
}

/// The per-frame raw tracking sample: the pose of the viewer (head) device
/// relative to the tracking origin.
#[derive(Clone, Copy, Debug, PartialEq, Eq)]
pub struct RawPoseSample {
    pub device_pose: RawPose,
}

/// A decoded pose: defaults applied, no component missing. The orientation is
/// still the raw (possibly non-unit, possibly zero) quaternion; the caller's
/// numeric layer normalizes it before building the finished transform.
#[derive(Clone, Copy, Debug, PartialEq, Eq, Structural)]
pub struct DecodedPose {
    pub position: RawVector3,
    pub orientation: RawQuaternion,
}

/// A 3-component translation of a finished transform. Each component is the
/// IEEE-754 bit pattern of a double-precision scalar.
#[derive(Clone, Copy, Debug, PartialEq, Eq, Structural)]
pub struct Vector3 {
    pub x: u64,
    pub y: u64,
    pub z: u64,
}

/// The rotation of a finished transform, `x*i + y*j + z*k + w`, normalized by
/// the numeric layer that produced it. Each component is the IEEE-754 bit
/// pattern of a double-precision scalar.
#[derive(Clone, Copy, Debug, PartialEq, Eq, Structural)]
pub struct Quaternion {
    pub x: u64,
    pub y: u64,
    pub z: u64,
    pub w: u64,
}

/// A rigid transform: a rotation composed with a translation, the rotation
/// applied first. It expresses a space's frame in the tracking-origin frame.
/// This core only ever passes finished transforms through unchanged; the
/// numeric layer builds them.
#[derive(Clone, Copy, Debug, PartialEq, Eq, Structural)]
pub struct RigidTransform {
    pub rotation: Quaternion,
    pub translation: Vector3,
}

/// The default position: the origin point (0, 0, 0).
pub open spec fn zero_vector() -> RawVector3 {
    RawVector3 { x: 0, y: 0, z: 0 }
}

/// The default orientation: the zero quaternion (0, 0, 0, 0). Deliberately
/// not the identity quaternion (0, 0, 0, 1): the zero quaternion is the
/// literal default this subsystem has always used, and downstream behavior
/// (normalizing a zero quaternion is degenerate) is pinned by tests rather
/// than silently changed here.
pub open spec fn zero_quaternion() -> RawQuaternion {
    RawQuaternion { x: 0, y: 0, z: 0, w: 0 }
}

/// What decoding a raw pose yields: each absent part replaced by its default,
/// each present part kept exactly.
pub open spec fn decoded(raw: RawPose) -> DecodedPose {
    DecodedPose {
        position: match raw.position {
            Some(p) => p,
            None => zero_vector(),
        },
        orientation: match raw.orientation {
            Some(q) => q,
            None => zero_quaternion(),
        },
    }
}

/// Decodes a raw device pose: an absent position defaults to the origin, an
/// absent orientation defaults to the zero quaternion, and present parts pass
/// through unchanged. Defaulting is centralized here so that every space kind
/// gets identical default semantics.
pub fn decode_pose(raw: &RawPose) -> (d: DecodedPose)
    ensures
        d == decoded(*raw),
        raw.position is None ==> d.position == zero_vector(),
        raw.orientation is None ==> d.orientation == zero_quaternion(),
        raw.position matches Some(p) ==> d.position == p,
        raw.orientation matches Some(q) ==> d.orientation == q,
{
    let position = match raw.position {
        Some(p) => p,
        None => RawVector3 { x: 0, y: 0, z: 0 },
    };
    let orientation = match raw.orientation {
        Some(q) => q,
        None => RawQuaternion { x: 0, y: 0, z: 0, w: 0 },
    };
    DecodedPose { position, orientation }
}

/// Law: whenever the position is absent from a raw pose, the decoded position
/// is the origin, whatever the rest of the pose holds.
pub proof fn lemma_absent_position_defaults_to_origin(raw: RawPose)
    requires
        raw.position is None,
    ensures
        decoded(raw).position == zero_vector(),
{
}

/// Law: whenever the orientation is absent from a raw pose, the decoded
/// orientation is the zero quaternion — not the identity — whatever the rest
/// of the pose holds.
pub proof fn lemma_absent_orientation_defaults_to_zero(raw: RawPose)
    requires
        raw.orientation is None,
    ensures
        decoded(raw).orientation == zero_quaternion(),
{
}

/// Law: decoding never alters a part the device did provide.
pub proof fn lemma_present_parts_kept(raw: RawPose)
    ensures
        raw.position matches Some(p) ==> decoded(raw).position == p,
        raw.orientation matches Some(q) ==> decoded(raw).orientation == q,
{
}

} // verus!
