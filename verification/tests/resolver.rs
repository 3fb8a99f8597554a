use xrspace::pose::{DecodedPose, RawPose, RawPoseSample, RawQuaternion, RawVector3};
use xrspace::pose::{decode_pose, Quaternion, RigidTransform, Vector3};
use xrspace::space::{InputSourceId, PoseResolution, SessionId, SpaceKind, XRSpace};

fn sample_of(pose: RawPose) -> RawPoseSample {
    RawPoseSample { device_pose: pose }
}

fn empty_pose() -> RawPose {
    RawPose { position: None, orientation: None }
}

fn stub_transform(seed: u64) -> RigidTransform {
    RigidTransform {
        rotation: Quaternion { x: seed, y: seed + 1, z: seed + 2, w: seed + 3 },
        translation: Vector3 { x: seed + 4, y: seed + 5, z: seed + 6 },
    }
}

#[test]
fn decode_applies_both_defaults() {
    let d = decode_pose(&empty_pose());
    assert_eq!(d.position, RawVector3 { x: 0, y: 0, z: 0 });
    assert_eq!(d.orientation, RawQuaternion { x: 0, y: 0, z: 0, w: 0 });
}

#[test]
fn decode_defaults_only_the_absent_part() {
    let q = RawQuaternion { x: 10, y: 20, z: 30, w: 40 };
    let d = decode_pose(&RawPose { position: None, orientation: Some(q) });
    assert_eq!(d.position, RawVector3 { x: 0, y: 0, z: 0 });
    assert_eq!(d.orientation, q);

    let p = RawVector3 { x: 7, y: 8, z: 9 };
    let d = decode_pose(&RawPose { position: Some(p), orientation: None });
    assert_eq!(d.position, p);
    assert_eq!(d.orientation, RawQuaternion { x: 0, y: 0, z: 0, w: 0 });
}

#[test]
fn decode_keeps_present_parts_unchanged() {
    let p = RawVector3 { x: 1, y: 2, z: 3 };
    let q = RawQuaternion { x: 4, y: 5, z: 6, w: 7 };
    let d = decode_pose(&RawPose { position: Some(p), orientation: Some(q) });
    assert_eq!(d, DecodedPose { position: p, orientation: q });
}

#[test]
fn constructors_fix_the_kind() {
    let session = SessionId { value: 11 };
    let input = InputSourceId { value: 5 };

    let base = XRSpace::new_inherited(&session);
    assert_eq!(base.kind(), SpaceKind::Derived);
    assert_eq!(base.session(), session);
    assert!(base.input_source().is_none());

    let viewer = XRSpace::new_viewerspace(&session);
    assert_eq!(viewer.kind(), SpaceKind::Viewer);
    assert_eq!(viewer.session(), session);
    assert!(viewer.input_source().is_none());

    let anchored = XRSpace::new_inputspace(&session, &input);
    assert_eq!(anchored.kind(), SpaceKind::InputAnchored);
    assert_eq!(anchored.session(), session);
    assert_eq!(anchored.input_source(), Some(input));
}

#[test]
fn viewer_space_uses_the_device_pose() {
    let session = SessionId { value: 1 };
    let viewer = XRSpace::new_viewerspace(&session);
    let pose = RawPose {
        position: Some(RawVector3 { x: 100, y: 200, z: 300 }),
        orientation: None,
    };
    let r = viewer.get_pose(&sample_of(pose), None, None);
    match r {
        PoseResolution::Decoded(d) => {
            assert_eq!(d.position, RawVector3 { x: 100, y: 200, z: 300 });
            assert_eq!(d.orientation, RawQuaternion { x: 0, y: 0, z: 0, w: 0 });
        }
        PoseResolution::Delegated(_) => panic!("a viewer space never delegates"),
    }
}

#[test]
fn derived_space_returns_the_collaborator_transform_unchanged() {
    let session = SessionId { value: 2 };
    let derived = XRSpace::new_inherited(&session);
    let stub = stub_transform(900);
    let r = derived.get_pose(&sample_of(empty_pose()), None, Some(stub));
    match r {
        PoseResolution::Delegated(t) => assert_eq!(t, stub),
        PoseResolution::Decoded(_) => panic!("a derived space only delegates"),
    }

    // A different stub answer comes back just as unmodified.
    let other = stub_transform(41);
    let r = derived.get_pose(&sample_of(empty_pose()), None, Some(other));
    match r {
        PoseResolution::Delegated(t) => assert_eq!(t, other),
        PoseResolution::Decoded(_) => panic!("a derived space only delegates"),
    }
}

#[test]
fn input_space_decodes_the_bound_input_pose() {
    let session = SessionId { value: 3 };
    let input = InputSourceId { value: 4 };
    let anchored = XRSpace::new_inputspace(&session, &input);

    // The sample's device pose differs from the input's pose: the input's
    // pose is the one that must be decoded.
    let device_pose = RawPose {
        position: Some(RawVector3 { x: 1, y: 1, z: 1 }),
        orientation: None,
    };
    let input_pose = RawPose {
        position: Some(RawVector3 { x: 77, y: 88, z: 99 }),
        orientation: Some(RawQuaternion { x: 1, y: 2, z: 3, w: 4 }),
    };
    let r = anchored.get_pose(&sample_of(device_pose), Some(input_pose), None);
    match r {
        PoseResolution::Decoded(d) => {
            assert_eq!(d.position, RawVector3 { x: 77, y: 88, z: 99 });
            assert_eq!(d.orientation, RawQuaternion { x: 1, y: 2, z: 3, w: 4 });
        }
        PoseResolution::Delegated(_) => panic!("an input space never delegates"),
    }
}

#[test]
fn input_binding_can_be_cleared_and_rebound() {
    let session = SessionId { value: 6 };
    let first = InputSourceId { value: 10 };
    let second = InputSourceId { value: 20 };
    let mut anchored = XRSpace::new_inputspace(&session, &first);

    anchored.clear_input_source();
    assert!(anchored.input_source().is_none());
    assert_eq!(anchored.kind(), SpaceKind::InputAnchored);
    assert_eq!(anchored.session(), session);

    anchored.set_input_source(&second);
    assert_eq!(anchored.input_source(), Some(second));
    assert_eq!(anchored.kind(), SpaceKind::InputAnchored);
}
