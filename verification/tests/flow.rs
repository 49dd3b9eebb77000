use vulpix::errors::ImageError;
use vulpix::flow::{FetchAction, FetchEvent, FetchFlow, FetchPhase, Store};
use vulpix::format::{ImgFormat, ImgResult};
use vulpix::geometry::BoundingBox;
use vulpix::params::ImgParams;

fn params(facecrop: Option<bool>, format: Option<ImgFormat>) -> ImgParams {
    ImgParams {
        w: None,
        h: None,
        format,
        blur: None,
        sharpen: None,
        enhance: None,
        facecrop,
        facepad: None,
    }
}

fn a_face() -> BoundingBox {
    BoundingBox { width: Some(500_000), height: Some(300_000), left: Some(250_000), top: Some(100_000) }
}

/// Runs the events through a request and collects what is to be done.
fn run(p: ImgParams, events: Vec<FetchEvent>) -> (FetchFlow, Vec<FetchAction>) {
    let (mut flow, first) = FetchFlow::start(p);
    let mut actions = vec![first];
    for event in events {
        let (next, action) = flow.step(event);
        flow = next;
        actions.push(action);
    }
    (flow, actions)
}

fn write_backs(actions: &[FetchAction]) -> usize {
    actions
        .iter()
        .filter(|a| matches!(a, FetchAction::Serve { write_back: true, .. }))
        .count()
}

#[test]
fn a_request_begins_with_the_cache() {
    let (flow, action) = FetchFlow::start(params(None, None));
    assert_eq!(flow.phase, FetchPhase::CacheLookup);
    assert_eq!(action, FetchAction::Read(Store::Cache));
    assert!(!flow.is_done());
}

#[test]
fn a_hit_serves_the_cached_bytes_in_the_format_of_the_request() {
    let (flow, actions) = run(
        params(None, Some(ImgFormat::Png)),
        vec![FetchEvent::CacheRead(Some(vec![1, 2, 3]))],
    );
    assert_eq!(
        actions,
        vec![
            FetchAction::Read(Store::Cache),
            FetchAction::Serve {
                result: ImgResult { img_bytes: vec![1, 2, 3], format: ImgFormat::Png },
                write_back: false,
            },
        ]
    );
    assert!(flow.is_done());
    assert_eq!(write_backs(&actions), 0);
}

#[test]
fn a_miss_fetches_transforms_serves_and_writes_back_once() {
    let (flow, actions) = run(
        params(None, None),
        vec![
            FetchEvent::CacheRead(None),
            FetchEvent::SourceRead(Ok(vec![9, 9])),
            FetchEvent::Transformed(Ok(vec![7, 7, 7])),
        ],
    );
    assert_eq!(
        actions,
        vec![
            FetchAction::Read(Store::Cache),
            FetchAction::Read(Store::Source),
            FetchAction::Transform { source: vec![9, 9], face: None },
            FetchAction::Serve {
                result: ImgResult { img_bytes: vec![7, 7, 7], format: ImgFormat::Jpeg },
                write_back: true,
            },
        ]
    );
    assert!(flow.is_done());
    assert_eq!(write_backs(&actions), 1);
}

#[test]
fn a_face_crop_asks_for_the_face_first() {
    let (flow, actions) = run(
        params(Some(true), None),
        vec![
            FetchEvent::CacheRead(None),
            FetchEvent::SourceRead(Ok(vec![9])),
            FetchEvent::FaceDetected(Some(a_face())),
            FetchEvent::Transformed(Ok(vec![7])),
        ],
    );
    assert_eq!(
        actions,
        vec![
            FetchAction::Read(Store::Cache),
            FetchAction::Read(Store::Source),
            FetchAction::DetectFace,
            FetchAction::Transform { source: vec![9], face: Some(a_face()) },
            FetchAction::Serve {
                result: ImgResult { img_bytes: vec![7], format: ImgFormat::Jpeg },
                write_back: true,
            },
        ]
    );
    assert!(flow.is_done());
}

#[test]
fn no_face_found_means_a_plain_transform() {
    let (_, actions) = run(
        params(Some(true), None),
        vec![
            FetchEvent::CacheRead(None),
            FetchEvent::SourceRead(Ok(vec![9])),
            FetchEvent::FaceDetected(None),
        ],
    );
    assert_eq!(actions[3], FetchAction::Transform { source: vec![9], face: None });
}

#[test]
fn a_face_crop_that_is_switched_off_asks_for_no_face() {
    let (_, actions) = run(
        params(Some(false), None),
        vec![FetchEvent::CacheRead(None), FetchEvent::SourceRead(Ok(vec![9]))],
    );
    assert_eq!(actions[2], FetchAction::Transform { source: vec![9], face: None });
}

#[test]
fn a_source_that_cannot_be_read_fails_the_request() {
    let err = ImageError::StorageReadError("no such key".to_string());
    let (flow, actions) = run(
        params(None, None),
        vec![FetchEvent::CacheRead(None), FetchEvent::SourceRead(Err(err.clone()))],
    );
    assert_eq!(actions[2], FetchAction::Fail(err));
    assert!(flow.is_done());
    assert_eq!(write_backs(&actions), 0);
}

#[test]
fn a_transform_that_fails_fails_the_request_and_writes_nothing() {
    let err = ImageError::TransformFailed("bad image".to_string());
    let (flow, actions) = run(
        params(None, None),
        vec![
            FetchEvent::CacheRead(None),
            FetchEvent::SourceRead(Ok(vec![9])),
            FetchEvent::Transformed(Err(err.clone())),
        ],
    );
    assert_eq!(actions[3], FetchAction::Fail(err));
    assert!(flow.is_done());
    assert_eq!(write_backs(&actions), 0);
}

#[test]
fn a_failing_write_changes_nothing() {
    let events = || {
        vec![
            FetchEvent::CacheRead(None),
            FetchEvent::SourceRead(Ok(vec![9])),
            FetchEvent::Transformed(Ok(vec![7])),
        ]
    };
    let (flow, actions) = run(params(None, None), events());
    let served = actions[3].clone();
    let (after_ok, on_ok) = flow.clone().step(FetchEvent::CacheWritten(Ok(())));
    let failure = ImageError::StorageWriteError("disk full".to_string());
    let (after_err, on_err) = flow.clone().step(FetchEvent::CacheWritten(Err(failure)));
    assert_eq!(on_ok, FetchAction::Nothing);
    assert_eq!(on_err, FetchAction::Nothing);
    assert_eq!(after_ok, flow);
    assert_eq!(after_err, flow);
    assert_eq!(
        served,
        FetchAction::Serve {
            result: ImgResult { img_bytes: vec![7], format: ImgFormat::Jpeg },
            write_back: true,
        }
    );
}

#[test]
fn an_answered_request_answers_nothing_more() {
    let (flow, _) = run(params(None, None), vec![FetchEvent::CacheRead(Some(vec![1]))]);
    let (flow, a1) = flow.step(FetchEvent::Transformed(Ok(vec![2])));
    let (flow, a2) = flow.step(FetchEvent::CacheRead(Some(vec![3])));
    let (flow, a3) = flow.step(FetchEvent::SourceRead(Ok(vec![4])));
    let (flow, a4) = flow.step(FetchEvent::FaceDetected(None));
    assert_eq!(a1, FetchAction::Nothing);
    assert_eq!(a2, FetchAction::Nothing);
    assert_eq!(a3, FetchAction::Nothing);
    assert_eq!(a4, FetchAction::Nothing);
    assert!(flow.is_done());
}

#[test]
fn an_event_out_of_turn_is_passed_over() {
    let (flow, first) = FetchFlow::start(params(Some(true), None));
    assert_eq!(first, FetchAction::Read(Store::Cache));
    let (flow, a) = flow.step(FetchEvent::Transformed(Ok(vec![1])));
    assert_eq!(a, FetchAction::Nothing);
    assert_eq!(flow.phase, FetchPhase::CacheLookup);
    let (flow, a) = flow.step(FetchEvent::SourceRead(Ok(vec![1])));
    assert_eq!(a, FetchAction::Nothing);
    let (flow, _) = flow.step(FetchEvent::CacheRead(None));
    let (flow, _) = flow.step(FetchEvent::SourceRead(Ok(vec![5])));
    assert_eq!(flow.phase, FetchPhase::FaceDetect { source: vec![5] });
    let (flow, a) = flow.step(FetchEvent::Transformed(Ok(vec![1])));
    assert_eq!(a, FetchAction::Nothing);
    assert_eq!(flow.phase, FetchPhase::FaceDetect { source: vec![5] });
}
