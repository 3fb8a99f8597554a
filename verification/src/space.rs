//! The space resolver: a space names a coordinate frame (viewer-anchored,
//! input-device-anchored, or derived), and resolving it against the frame's
//! raw tracking sample yields either a decoded pose for the numeric layer or,
//! for a derived space, the sibling offset component's transform unchanged.

use vstd::prelude::*;
use vstd::pervasive::unreached;
use crate::pose::{decoded, decode_pose, DecodedPose, RawPose, RawPoseSample, RigidTransform};

verus! {

/// Handle to the tracking session a space belongs to: a non-owning
/// back-reference, never read during resolution, kept so that callers can
/// check that poses are compared within one session's reference origin.
#[derive(Clone, Copy, Debug, PartialEq, Eq, Structural)]
pub struct SessionId {
    pub value: u64,
}

/// Handle to an input-device source: a non-owning reference to a device whose
/// own raw pose the input-source collaborator samples each frame.
#[derive(Clone, Copy, Debug, PartialEq, Eq, Structural)]
pub struct InputSourceId {
    pub value: u64,
}

/// The kind of a space, fixed at construction. Dispatch in the resolver
/// matches exhaustively over exactly these three; there is no fallback kind.
#[derive(Clone, Copy, Debug, PartialEq, Eq, Structural)]
pub enum SpaceKind {
    /// Coincident with the raw viewer (head) pose of the tracking sample.
    Viewer,
    /// Coincident with a tracked input device's current pose.
    InputAnchored,
    /// Resolved entirely by the sibling reference-offset component.
    Derived,
}

/// A space: a coordinate frame to be resolved each frame against the current
/// raw tracking sample.
#[derive(Clone, Copy, Debug)]
pub struct XRSpace {
    session: SessionId,
    kind: SpaceKind,
    input_source: Option<InputSourceId>,
}

/// What resolving a space yields.
#[derive(Clone, Copy, Debug, PartialEq, Eq, Structural)]
pub enum PoseResolution {
    /// A derived space: the reference-offset collaborator's transform,
    /// returned unchanged and uninterpreted.
    Delegated(RigidTransform),
    /// A viewer- or input-anchored space: the relevant raw pose decoded, for
    /// the caller's numeric layer to normalize and finish.
    Decoded(DecodedPose),
}

/// What resolving a space yields, as a function of the space, the frame's raw
/// sample, and the answers of the two collaborators this core consumes: the
/// bound input device's current raw pose (queried only for an input-anchored
/// space) and the reference-offset component's transform (computed only for a
/// derived space). `None` when the answer the kind calls for is missing.
pub open spec fn resolution(
    space: XRSpace,
    sample: RawPoseSample,
    input_pose: Option<RawPose>,
    reference_pose: Option<RigidTransform>,
) -> Option<PoseResolution> {
    match space.spec_kind() {
        SpaceKind::Viewer => Some(PoseResolution::Decoded(decoded(sample.device_pose))),
        SpaceKind::InputAnchored => match input_pose {
            Some(p) => Some(PoseResolution::Decoded(decoded(p))),
            None => None,
        },
        SpaceKind::Derived => match reference_pose {
            Some(t) => Some(PoseResolution::Delegated(t)),
            None => None,
        },
    }
}

impl XRSpace {
    /// The kind this space was constructed with.
    pub closed spec fn spec_kind(self) -> SpaceKind {
        self.kind
    }

    /// The owning session handle.
    pub closed spec fn spec_session(self) -> SessionId {
        self.session
    }

    /// The currently bound input source, if any.
    pub closed spec fn spec_input_source(self) -> Option<InputSourceId> {
        self.input_source
    }

    /// Well-formedness: only an input-anchored space ever carries a bound
    /// input; a viewer or derived space never does. An input-anchored space
    /// is bound at construction, but the binding may later be cleared by the
    /// input-device collaborator (device disconnection), so presence of the
    /// binding is a resolution precondition, not part of this invariant.
    pub open spec fn wf(self) -> bool {
        !(self.spec_kind() is InputAnchored) ==> self.spec_input_source() is None
    }

    /// Base constructor: the state embedded in a derived (reference) space,
    /// whose resolution the sibling reference-offset component supplies.
    pub fn new_inherited(session: &SessionId) -> (s: XRSpace)
        ensures
            s.wf(),
            s.spec_kind() is Derived,
            s.spec_session() == *session,
            s.spec_input_source() is None,
    {
        XRSpace { session: *session, kind: SpaceKind::Derived, input_source: None }
    }

    fn new_viewerspace_inner(session: &SessionId) -> (s: XRSpace)
        ensures
            s.wf(),
            s.spec_kind() is Viewer,
            s.spec_session() == *session,
            s.spec_input_source() is None,
    {
        XRSpace { session: *session, kind: SpaceKind::Viewer, input_source: None }
    }

    /// Constructs a viewer-anchored space: resolved directly from the raw
    /// viewer pose of each frame's tracking sample, with no offset.
    pub fn new_viewerspace(session: &SessionId) -> (s: XRSpace)
        ensures
            s.wf(),
            s.spec_kind() is Viewer,
            s.spec_session() == *session,
            s.spec_input_source() is None,
    {
        XRSpace::new_viewerspace_inner(session)
    }

    fn new_inputspace_inner(session: &SessionId, input: &InputSourceId) -> (s: XRSpace)
        ensures
            s.wf(),
            s.spec_kind() is InputAnchored,
            s.spec_session() == *session,
            s.spec_input_source() == Some(*input),
    {
        XRSpace { session: *session, kind: SpaceKind::InputAnchored, input_source: Some(*input) }
    }

    /// Constructs an input-anchored space, bound at construction to the given
    /// input-device source.
    pub fn new_inputspace(session: &SessionId, input: &InputSourceId) -> (s: XRSpace)
        ensures
            s.wf(),
            s.spec_kind() is InputAnchored,
            s.spec_session() == *session,
            s.spec_input_source() == Some(*input),
    {
        XRSpace::new_inputspace_inner(session, input)
    }

    /// The session this space belongs to.
    pub fn session(&self) -> (s: SessionId)
        ensures
            s == self.spec_session(),
    {
        self.session
    }

    /// The kind this space was constructed with.
    pub fn kind(&self) -> (k: SpaceKind)
        ensures
            k == self.spec_kind(),
    {
        self.kind
    }

    /// The currently bound input source, if any.
    pub fn input_source(&self) -> (i: Option<InputSourceId>)
        ensures
            i == self.spec_input_source(),
    {
        self.input_source
    }

    /// Rebinds an input-anchored space to another input-device source, as the
    /// input-device collaborator does when a replacement device appears.
    pub fn set_input_source(&mut self, input: &InputSourceId)
        requires
            old(self).spec_kind() is InputAnchored,
        ensures
            final(self).wf(),
            final(self).spec_kind() == old(self).spec_kind(),
            final(self).spec_session() == old(self).spec_session(),
            final(self).spec_input_source() == Some(*input),
    {
        self.input_source = Some(*input);
    }

    /// Clears the input binding, as the input-device collaborator does on
    /// device disconnection. A space left in this state must not be resolved
    /// until rebound: see the precondition of `get_pose`.
    pub fn clear_input_source(&mut self)
        ensures
            final(self).wf(),
            final(self).spec_kind() == old(self).spec_kind(),
            final(self).spec_session() == old(self).spec_session(),
            final(self).spec_input_source() is None,
    {
        self.input_source = None;
    }

    /// Resolves the pose represented by this space against the current raw
    /// tracking sample.
    ///
    /// The caller (the per-frame loop) gathers the collaborator answers the
    /// kind calls for before the call: for an input-anchored space, exactly
    /// one query of the bound input's raw-pose accessor; for a derived space,
    /// the reference-offset component's transform for this same sample. The
    /// reference origin is common between all resolutions against one sample,
    /// so the results of different calls within one frame can be compared.
    ///
    /// Contract violation: an input-anchored space whose binding has been
    /// cleared must never be resolved — callers must rebind it or skip
    /// resolution, and must treat a violation as fatal, not as a recoverable
    /// error. The precondition leaves that state out.
    pub fn get_pose(
        &self,
        base_pose: &RawPoseSample,
        input_pose: Option<RawPose>,
        reference_pose: Option<RigidTransform>,
    ) -> (r: PoseResolution)
        requires
            self.wf(),
            self.spec_kind() is InputAnchored ==> self.spec_input_source() is Some,
            self.spec_kind() is InputAnchored <==> input_pose is Some,
            self.spec_kind() is Derived <==> reference_pose is Some,
        ensures
            Some(r) == resolution(*self, *base_pose, input_pose, reference_pose),
            self.spec_kind() is Viewer ==> r == PoseResolution::Decoded(
                decoded(base_pose.device_pose),
            ),
            self.spec_kind() is InputAnchored ==> (input_pose matches Some(p) && r
                == PoseResolution::Decoded(decoded(p))),
            self.spec_kind() is Derived ==> (reference_pose matches Some(t) && r
                == PoseResolution::Delegated(t)),
    {
        match self.kind {
            SpaceKind::Viewer => PoseResolution::Decoded(decode_pose(&base_pose.device_pose)),
            SpaceKind::InputAnchored => match input_pose {
                Some(p) => PoseResolution::Decoded(decode_pose(&p)),
                None => unreached(),
            },
            SpaceKind::Derived => match reference_pose {
                Some(t) => PoseResolution::Delegated(t),
                None => unreached(),
            },
        }
    }
}

/// Law (dispatch): resolving a viewer space uses the sample's device pose
/// alone. Any two viewer spaces — whatever session they belong to, whatever
/// input binding state they carry, and whatever the collaborators would have
/// answered — resolve to the same decoded device pose for the same sample.
pub proof fn lemma_viewer_ignores_input_state(
    a: XRSpace,
    b: XRSpace,
    sample: RawPoseSample,
    input_a: Option<RawPose>,
    input_b: Option<RawPose>,
    reference_a: Option<RigidTransform>,
    reference_b: Option<RigidTransform>,
)
    requires
        a.spec_kind() is Viewer,
        b.spec_kind() is Viewer,
    ensures
        resolution(a, sample, input_a, reference_a) == resolution(b, sample, input_b, reference_b),
        resolution(a, sample, input_a, reference_a) == Some(
            PoseResolution::Decoded(decoded(sample.device_pose)),
        ),
{
}

/// Law (delegation transparency): resolving a derived space yields exactly
/// the reference-offset collaborator's transform, unmodified and
/// uninterpreted — independent of the sample and of any input-pose answer.
pub proof fn lemma_delegation_transparent(
    space: XRSpace,
    sample_a: RawPoseSample,
    sample_b: RawPoseSample,
    input_pose: Option<RawPose>,
    t: RigidTransform,
)
    requires
        space.spec_kind() is Derived,
    ensures
        resolution(space, sample_a, input_pose, Some(t)) == Some(PoseResolution::Delegated(t)),
        resolution(space, sample_a, input_pose, Some(t)) == resolution(
            space,
            sample_b,
            input_pose,
            Some(t),
        ),
{
}

/// Law (input precondition): an input-anchored space resolves to the decoding
/// of precisely the pose its bound input's accessor answered — the sample's
/// own device pose plays no part — and has no resolution at all when that
/// answer is missing.
pub proof fn lemma_input_space_decodes_bound_pose(
    space: XRSpace,
    sample: RawPoseSample,
    p: RawPose,
    reference_pose: Option<RigidTransform>,
)
    requires
        space.spec_kind() is InputAnchored,
    ensures
        resolution(space, sample, Some(p), reference_pose) == Some(
            PoseResolution::Decoded(decoded(p)),
        ),
        resolution(space, sample, None, reference_pose) is None,
{
}

} // verus!
