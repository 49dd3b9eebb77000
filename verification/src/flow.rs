//! The course of one request: look in the cache; on a miss fetch the source,
//! have a face detected where a face crop is wanted, have the image
//! transformed, serve the result and have it written to the cache.
//!
//! The storage, the face detection and the image library work outside. This
//! module decides: it takes what they returned as an event and answers with
//! what is to be done next.

use vstd::prelude::*;
use crate::errors::ImageError;
use crate::format::ImgResult;
use crate::geometry::BoundingBox;
use crate::params::{flag, ImgParams};

verus! {

/// The two places where an image lies.
#[derive(Debug, Clone, Copy, PartialEq, Eq)]
pub enum Store {
    /// The source image, in the source bucket under the image key.
    Source,
    /// The transformed image, in the cache bucket under the cache key.
    Cache,
}

/// What a request waits for.
#[derive(Debug, Clone, PartialEq, Eq)]
pub enum FetchPhase {
    /// The read of the cache.
    CacheLookup,
    /// The read of the source.
    SourceFetch,
    /// The face detection; the source is held meanwhile.
    FaceDetect { source: Vec<u8> },
    /// The image library.
    Transform,
    /// Nothing: the request was answered.
    Done,
}

/// A request on its way.
#[derive(Debug, Clone, PartialEq, Eq)]
pub struct FetchFlow {
    pub params: ImgParams,
    pub phase: FetchPhase,
}

/// What came back from outside.
#[derive(Debug, PartialEq, Eq)]
pub enum FetchEvent {
    /// The cache was read: the bytes, or `None` for any failure.
    CacheRead(Option<Vec<u8>>),
    /// The source was read.
    SourceRead(Result<Vec<u8>, ImageError>),
    /// The face detection ended: the face, or `None` where it found none or failed.
    FaceDetected(Option<BoundingBox>),
    /// The image library ended.
    Transformed(Result<Vec<u8>, ImageError>),
    /// The write to the cache ended.
    CacheWritten(Result<(), ImageError>),
}

/// What is to be done next.
#[derive(Debug, Clone, PartialEq, Eq)]
pub enum FetchAction {
    /// Read an image from the storage.
    Read(Store),
    /// Have a face detected in the source image.
    DetectFace,
    /// Have the source transformed, around the face if there is one.
    Transform { source: Vec<u8>, face: Option<BoundingBox> },
    /// Answer the request with the image; where `write_back` is set, also
    /// hand the same bytes to a write to the cache that nobody waits for.
    Serve { result: ImgResult, write_back: bool },
    /// Answer the request with the error.
    Fail(ImageError),
    /// Nothing.
    Nothing,
}

/// A request at its beginning.
pub open spec fn start_spec(params: ImgParams) -> FetchFlow {
    FetchFlow { params, phase: FetchPhase::CacheLookup }
}

/// The image that answers a request.
pub open spec fn served(params: ImgParams, bytes: Vec<u8>) -> ImgResult {
    ImgResult { img_bytes: bytes, format: params.output_format_spec() }
}

/// The request after an event, and what is to be done. A read of the cache
/// that gives bytes is a hit, and the bytes are served in the format of the
/// request. Any failure of that read is a miss. A failure to read the source,
/// and one of the image library, answer the request with the error. What the
/// image library returns is served and written back. An event that the
/// request does not wait for changes nothing.
pub open spec fn step_spec(flow: FetchFlow, event: FetchEvent) -> (FetchFlow, FetchAction) {
    let done = FetchFlow { params: flow.params, phase: FetchPhase::Done };
    match (flow.phase, event) {
        (FetchPhase::CacheLookup, FetchEvent::CacheRead(Some(bytes))) => (
            done,
            FetchAction::Serve { result: served(flow.params, bytes), write_back: false },
        ),
        (FetchPhase::CacheLookup, FetchEvent::CacheRead(None)) => (
            FetchFlow { params: flow.params, phase: FetchPhase::SourceFetch },
            FetchAction::Read(Store::Source),
        ),
        (FetchPhase::SourceFetch, FetchEvent::SourceRead(Ok(source))) => if flag(flow.params.facecrop) {
            (
                FetchFlow { params: flow.params, phase: FetchPhase::FaceDetect { source } },
                FetchAction::DetectFace,
            )
        } else {
            (
                FetchFlow { params: flow.params, phase: FetchPhase::Transform },
                FetchAction::Transform { source, face: None },
            )
        },
        (FetchPhase::SourceFetch, FetchEvent::SourceRead(Err(e))) => (done, FetchAction::Fail(e)),
        (FetchPhase::FaceDetect { source }, FetchEvent::FaceDetected(face)) => (
            FetchFlow { params: flow.params, phase: FetchPhase::Transform },
            FetchAction::Transform { source, face },
        ),
        (FetchPhase::Transform, FetchEvent::Transformed(Ok(bytes))) => (
            done,
            FetchAction::Serve { result: served(flow.params, bytes), write_back: true },
        ),
        (FetchPhase::Transform, FetchEvent::Transformed(Err(e))) => (done, FetchAction::Fail(e)),
        _ => (flow, FetchAction::Nothing),
    }
}

impl FetchFlow {
    /// Begins a request: the cache is read first.
    pub fn start(params: ImgParams) -> (r: (FetchFlow, FetchAction))
        ensures
            r.0 == start_spec(params),
            r.1 == FetchAction::Read(Store::Cache),
    {
        (FetchFlow { params, phase: FetchPhase::CacheLookup }, FetchAction::Read(Store::Cache))
    }

    /// Takes an event and says what is to be done next.
    pub fn step(self, event: FetchEvent) -> (r: (FetchFlow, FetchAction))
        ensures
            r == step_spec(self, event),
    {
        let params = self.params;
        let format = params.output_format();
        match (self.phase, event) {
            (FetchPhase::CacheLookup, FetchEvent::CacheRead(Some(bytes))) => (
                FetchFlow { params, phase: FetchPhase::Done },
                FetchAction::Serve { result: ImgResult { img_bytes: bytes, format }, write_back: false },
            ),
            (FetchPhase::CacheLookup, FetchEvent::CacheRead(None)) => (
                FetchFlow { params, phase: FetchPhase::SourceFetch },
                FetchAction::Read(Store::Source),
            ),
            (FetchPhase::SourceFetch, FetchEvent::SourceRead(Ok(source))) => {
                if params.wants_facecrop() {
                    (FetchFlow { params, phase: FetchPhase::FaceDetect { source } }, FetchAction::DetectFace)
                } else {
                    (
                        FetchFlow { params, phase: FetchPhase::Transform },
                        FetchAction::Transform { source, face: None },
                    )
                }
            },
            (FetchPhase::SourceFetch, FetchEvent::SourceRead(Err(e))) => (
                FetchFlow { params, phase: FetchPhase::Done },
                FetchAction::Fail(e),
            ),
            (FetchPhase::FaceDetect { source }, FetchEvent::FaceDetected(face)) => (
                FetchFlow { params, phase: FetchPhase::Transform },
                FetchAction::Transform { source, face },
            ),
            (FetchPhase::Transform, FetchEvent::Transformed(Ok(bytes))) => (
                FetchFlow { params, phase: FetchPhase::Done },
                FetchAction::Serve { result: ImgResult { img_bytes: bytes, format }, write_back: true },
            ),
            (FetchPhase::Transform, FetchEvent::Transformed(Err(e))) => (
                FetchFlow { params, phase: FetchPhase::Done },
                FetchAction::Fail(e),
            ),
            (phase, _) => (FetchFlow { params, phase }, FetchAction::Nothing),
        }
    }

    /// Whether the request was answered.
    pub fn is_done(&self) -> (done: bool)
        ensures
            done == (self.phase is Done),
    {
        match self.phase {
            FetchPhase::Done => true,
            _ => false,
        }
    }
}

/// What is to be done, one after the other, as events come in.
pub open spec fn run(flow: FetchFlow, events: Seq<FetchEvent>) -> Seq<FetchAction>
    decreases events.len(),
{
    if events.len() == 0 {
        Seq::empty()
    } else {
        seq![step_spec(flow, events[0]).1] + run(step_spec(flow, events[0]).0, events.drop_first())
    }
}

/// The request after the events.
pub open spec fn after(flow: FetchFlow, events: Seq<FetchEvent>) -> FetchFlow
    decreases events.len(),
{
    if events.len() == 0 {
        flow
    } else {
        after(step_spec(flow, events[0]).0, events.drop_first())
    }
}

/// Whether an action answers the request.
pub open spec fn is_answer(action: FetchAction) -> bool {
    action is Serve || action is Fail
}

/// Whether an action hands bytes to a write to the cache.
pub open spec fn is_write_back(action: FetchAction) -> bool {
    action matches FetchAction::Serve { write_back, .. } && write_back
}

/// How many of the actions answer the request.
pub open spec fn answers(actions: Seq<FetchAction>) -> nat
    decreases actions.len(),
{
    if actions.len() == 0 {
        0
    } else {
        (if is_answer(actions[0]) {
            1nat
        } else {
            0nat
        }) + answers(actions.drop_first())
    }
}

/// How many of the actions hand bytes to a write to the cache.
pub open spec fn write_backs(actions: Seq<FetchAction>) -> nat
    decreases actions.len(),
{
    if actions.len() == 0 {
        0
    } else {
        (if is_write_back(actions[0]) {
            1nat
        } else {
            0nat
        }) + write_backs(actions.drop_first())
    }
}

/// Whether, somewhere in the events, the image library returns an image to
/// a request that waits for it.
pub open spec fn transform_succeeds(flow: FetchFlow, events: Seq<FetchEvent>) -> bool
    decreases events.len(),
{
    if events.len() == 0 {
        false
    } else {
        (flow.phase is Transform && events[0] matches FetchEvent::Transformed(Ok(_))) || transform_succeeds(
            step_spec(flow, events[0]).0,
            events.drop_first(),
        )
    }
}

/// Whatever events come in whatever order: a request is answered at most
/// once, and not again once it was answered; bytes are handed to a write to
/// the cache at most once, and exactly once where the image library returned
/// an image to the request that waited for it, which is the end of a miss.
pub proof fn lemma_one_answer_one_write(flow: FetchFlow, events: Seq<FetchEvent>)
    ensures
        answers(run(flow, events)) <= 1,
        flow.phase is Done ==> answers(run(flow, events)) == 0,
        write_backs(run(flow, events)) <= answers(run(flow, events)),
        write_backs(run(flow, events)) == 1 <==> transform_succeeds(flow, events),
    decreases events.len(),
{
    if events.len() > 0 {
        let next = step_spec(flow, events[0]).0;
        let action = step_spec(flow, events[0]).1;
        let rest = run(next, events.drop_first());
        lemma_one_answer_one_write(next, events.drop_first());
        assert((seq![action] + rest).drop_first() =~= rest);
        assert((seq![action] + rest)[0] == action);
        assert(is_answer(action) ==> next.phase is Done);
    }
}

/// The events of a miss that runs to its end: the cache gives nothing, the
/// source is read, a face is looked for where a face crop is wanted, the
/// image library returns.
pub open spec fn miss_events(
    params: ImgParams,
    source: Vec<u8>,
    face: Option<BoundingBox>,
    outcome: Result<Vec<u8>, ImageError>,
) -> Seq<FetchEvent> {
    if flag(params.facecrop) {
        seq![
            FetchEvent::CacheRead(None),
            FetchEvent::SourceRead(Ok(source)),
            FetchEvent::FaceDetected(face),
            FetchEvent::Transformed(outcome),
        ]
    } else {
        seq![
            FetchEvent::CacheRead(None),
            FetchEvent::SourceRead(Ok(source)),
            FetchEvent::Transformed(outcome),
        ]
    }
}

/// A miss on which the image library returns an image ends with that image
/// served in the format of the request and handed to one write to the cache.
/// How that write ends changes nothing: the request is answered, and the
/// event is passed over.
pub proof fn lemma_miss_writes_once(
    params: ImgParams,
    source: Vec<u8>,
    face: Option<BoundingBox>,
    bytes: Vec<u8>,
    written: Result<(), ImageError>,
)
    ensures
        run(start_spec(params), miss_events(params, source, face, Ok(bytes))).last()
            == (FetchAction::Serve { result: served(params, bytes), write_back: true }),
        write_backs(run(start_spec(params), miss_events(params, source, face, Ok(bytes)))) == 1,
        answers(run(start_spec(params), miss_events(params, source, face, Ok(bytes)))) == 1,
        after(start_spec(params), miss_events(params, source, face, Ok(bytes))).phase is Done,
        step_spec(
            after(start_spec(params), miss_events(params, source, face, Ok(bytes))),
            FetchEvent::CacheWritten(written),
        ) == (
            after(start_spec(params), miss_events(params, source, face, Ok(bytes))),
            FetchAction::Nothing,
        ),
{
    let events = miss_events(params, source, face, Ok(bytes));
    let start = start_spec(params);
    lemma_one_answer_one_write(start, events);
    reveal_with_fuel(run, 5);
    reveal_with_fuel(after, 5);
    reveal_with_fuel(transform_succeeds, 5);
    let e1 = events.drop_first();
    let e2 = e1.drop_first();
    let e3 = e2.drop_first();
    if flag(params.facecrop) {
        assert(e3.drop_first().len() == 0);
        assert(transform_succeeds(start, events));
    } else {
        assert(e3.len() == 0);
        assert(transform_succeeds(start, events));
    }
}

/// A hit serves the bytes of the cache as they are, in the format of the
/// request, and writes nothing.
pub proof fn lemma_hit_writes_nothing(params: ImgParams, bytes: Vec<u8>)
    ensures
        run(start_spec(params), seq![FetchEvent::CacheRead(Some(bytes))]) == seq![
            FetchAction::Serve { result: served(params, bytes), write_back: false },
        ],
        write_backs(run(start_spec(params), seq![FetchEvent::CacheRead(Some(bytes))])) == 0,
{
    let events = seq![FetchEvent::CacheRead(Some(bytes))];
    reveal_with_fuel(run, 3);
    reveal_with_fuel(write_backs, 3);
    assert(events.drop_first().len() == 0);
    let actions = run(start_spec(params), events);
    assert(actions =~= seq![FetchAction::Serve { result: served(params, bytes), write_back: false }]);
    assert(actions.drop_first().len() == 0);
}

/// The end of a write to the cache is passed over, wherever the request
/// stands and however the write ended.
pub proof fn lemma_write_outcome_ignored(flow: FetchFlow, written: Result<(), ImageError>)
    ensures
        step_spec(flow, FetchEvent::CacheWritten(written)) == (flow, FetchAction::Nothing),
{
}

} // verus!
