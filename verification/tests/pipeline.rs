use livekit_media::frame_buffer::new_video_frame_buffer;
use livekit_media::frame_buffer::PlaneData;
use livekit_media::frame_buffer::VideoFrame;
use livekit_media::i420::I420Buffer;
use livekit_media::packed::PackedLayout;
use livekit_media::pipeline::Dispatch;
use livekit_media::pipeline::FramePipeline;
use livekit_media::pipeline::WorkOutcome;
use livekit_media::texture::ResourceError;
use livekit_media::texture::TextureCache;
use livekit_media::texture::TextureRequest;
use livekit_media::video_frame::ConvertError;
use livekit_media::video_frame::FrameError;
use livekit_media::video_frame::VideoFormatType;
use livekit_media::video_frame::VideoFrameBufferType;
use livekit_media::video_frame::VideoRotation;

const BLACK: u8 = 16;
const WHITE: u8 = 235;

fn uniform_frame(luma: u8, timestamp_us: i64) -> VideoFrame {
    let buffer = new_video_frame_buffer(
        VideoFrameBufferType::I420,
        2,
        2,
        PlaneData::Planar {
            stride_y: 2,
            stride_u: 1,
            stride_v: 1,
            data_y: vec![luma; 4],
            data_u: vec![128],
            data_v: vec![128],
        },
    )
    .unwrap();
    VideoFrame { rotation: VideoRotation::VideoRotation90, timestamp_us, buffer }
}

/// Stands in for the conversion primitive: grey of the luma range, opaque.
fn stand_in_conversion(planes: &I420Buffer, layout: &PackedLayout) -> Vec<u8> {
    let (y, _, _) = planes.data();
    let mut out = vec![0u8; layout.byte_len];
    for row in 0..layout.height as usize {
        for col in 0..layout.width as usize {
            let luma = y[row * planes.stride_y() as usize + col];
            let grey = if luma >= WHITE {
                255
            } else if luma <= BLACK {
                0
            } else {
                luma
            };
            let at = row * layout.stride as usize + 4 * col;
            out[at..at + 4].copy_from_slice(&[grey, grey, grey, 255]);
        }
    }
    out
}

/// The work on one frame: reduce, make room, convert, upload.
fn work(cache: &mut TextureCache, frame: &VideoFrame, next_handle: u64) -> WorkOutcome {
    let planes = match frame.buffer.to_i420(None) {
        Ok(planes) => planes,
        Err(e) => return WorkOutcome::Dropped(e),
    };
    let (request, layout) = match cache.prepare(&planes) {
        Ok(plan) => plan,
        Err(e) => return WorkOutcome::Failed(e),
    };
    match request {
        TextureRequest::Keep => {}
        TextureRequest::Register { width, height } => cache.allocated(width, height, Some(next_handle)),
        TextureRequest::Update { width, height, .. } => cache.allocated(width, height, None),
    }
    let pixels = stand_in_conversion(&planes, &layout);
    match cache.write(&pixels) {
        Some(_) => WorkOutcome::Rendered,
        None => WorkOutcome::Dropped(FrameError::Convert(ConvertError::BufferTooSmall)),
    }
}

#[test]
fn idle_pipeline_starts_a_frame_at_once() {
    let mut pipeline: FramePipeline<u32> = FramePipeline::new();
    assert_eq!(pipeline.in_flight(), None);
    assert_eq!(pipeline.last_rendered(), None);
    match pipeline.on_frame(11) {
        Dispatch::Start { ticket, frame } => {
            assert_eq!(ticket, 0);
            assert_eq!(frame, 11);
        }
        other => panic!("not started: {:?}", other),
    }
    assert_eq!(pipeline.in_flight(), Some(0));
}

#[test]
fn busy_pipeline_keeps_only_the_latest_frame() {
    let mut pipeline: FramePipeline<u32> = FramePipeline::new();
    assert!(matches!(pipeline.on_frame(10), Dispatch::Start { ticket: 0, frame: 10 }));
    assert!(matches!(pipeline.on_frame(11), Dispatch::Queued { ticket: 1, superseded: None }));
    assert!(matches!(pipeline.on_frame(12), Dispatch::Queued { ticket: 2, superseded: Some(1) }));
    assert!(matches!(pipeline.on_frame(13), Dispatch::Queued { ticket: 3, superseded: Some(2) }));
    assert_eq!(pipeline.on_done(0, WorkOutcome::Rendered), Some((3, 13)));
    assert_eq!(pipeline.in_flight(), Some(3));
    assert_eq!(pipeline.last_rendered(), Some(0));
    assert_eq!(pipeline.on_done(3, WorkOutcome::Rendered), None);
    assert_eq!(pipeline.in_flight(), None);
    assert_eq!(pipeline.last_rendered(), Some(3));
}

#[test]
fn report_on_a_frame_not_in_flight_is_set_aside() {
    let mut pipeline: FramePipeline<u32> = FramePipeline::new();
    assert_eq!(pipeline.on_done(0, WorkOutcome::Rendered), None);
    assert_eq!(pipeline.last_rendered(), None);
    pipeline.on_frame(10);
    pipeline.on_frame(11);
    assert_eq!(pipeline.on_done(1, WorkOutcome::Rendered), None);
    assert_eq!(pipeline.in_flight(), Some(0));
    assert_eq!(pipeline.on_done(0, WorkOutcome::Rendered), Some((1, 11)));
    assert_eq!(pipeline.on_done(1, WorkOutcome::Rendered), None);
    assert_eq!(pipeline.on_done(0, WorkOutcome::Rendered), None);
    assert_eq!(pipeline.last_rendered(), Some(1));
}

#[test]
fn later_frame_is_never_overwritten_by_an_earlier_one() {
    let mut cache = TextureCache::new();
    let mut pipeline: FramePipeline<VideoFrame> = FramePipeline::new();
    let f1 = match pipeline.on_frame(uniform_frame(BLACK, 1)) {
        Dispatch::Start { ticket: 0, frame } => frame,
        other => panic!("first frame not started: {:?}", other),
    };
    assert!(matches!(
        pipeline.on_frame(uniform_frame(WHITE, 2)),
        Dispatch::Queued { ticket: 1, superseded: None }
    ));
    let outcome = work(&mut cache, &f1, 40);
    assert_eq!(outcome, WorkOutcome::Rendered);
    assert_eq!(cache.staging(), &[0, 0, 0, 255].repeat(4)[..]);
    let (ticket, f2) = pipeline.on_done(0, outcome).unwrap();
    assert_eq!(ticket, 1);
    assert_eq!(f2.timestamp_us, 2);
    assert_eq!(f2.rotation, VideoRotation::VideoRotation90);
    let outcome = work(&mut cache, &f2, 41);
    assert_eq!(outcome, WorkOutcome::Rendered);
    assert!(pipeline.on_done(0, WorkOutcome::Rendered).is_none());
    assert!(pipeline.on_done(1, outcome).is_none());
    assert_eq!(pipeline.last_rendered(), Some(1));
    assert_eq!(cache.staging(), &[255, 255, 255, 255].repeat(4)[..]);
    assert_eq!(cache.handle(), Some(40));
    assert!(pipeline.on_done(0, WorkOutcome::Rendered).is_none());
    assert_eq!(pipeline.last_rendered(), Some(1));
}

#[test]
fn dropped_frame_does_not_stop_the_next() {
    let mut cache = TextureCache::new();
    let mut pipeline: FramePipeline<VideoFrame> = FramePipeline::new();
    let f1 = match pipeline.on_frame(uniform_frame(BLACK, 1)) {
        Dispatch::Start { frame, .. } => frame,
        other => panic!("first frame not started: {:?}", other),
    };
    assert_eq!(work(&mut cache, &f1, 40), WorkOutcome::Rendered);
    assert!(pipeline.on_done(0, WorkOutcome::Rendered).is_none());

    let malformed = match pipeline.on_frame(uniform_frame(WHITE, 2)) {
        Dispatch::Start { ticket: 1, frame } => frame,
        other => panic!("second frame not started: {:?}", other),
    };
    let planes = malformed.buffer.to_i420(None).unwrap();
    let too_small = vec![0u8; 15];
    let error = planes.to_argb(VideoFormatType::ABGR, &too_small, 8, 2, 2).unwrap_err();
    assert_eq!(error, ConvertError::BufferTooSmall);
    assert!(pipeline.on_done(1, WorkOutcome::Dropped(FrameError::Convert(error))).is_none());
    assert!(!pipeline.has_failed());
    assert_eq!(pipeline.last_rendered(), Some(0));
    assert_eq!(cache.staging(), &[0, 0, 0, 255].repeat(4)[..]);

    let f3 = match pipeline.on_frame(uniform_frame(WHITE, 3)) {
        Dispatch::Start { ticket: 2, frame } => frame,
        other => panic!("third frame not started: {:?}", other),
    };
    let outcome = work(&mut cache, &f3, 41);
    assert_eq!(outcome, WorkOutcome::Rendered);
    assert!(pipeline.on_done(2, outcome).is_none());
    assert_eq!(pipeline.last_rendered(), Some(2));
    assert_eq!(cache.staging(), &[255, 255, 255, 255].repeat(4)[..]);
    assert_eq!(cache.handle(), Some(40));
}

#[test]
fn dropped_frame_hands_over_the_waiting_one() {
    let mut pipeline: FramePipeline<u32> = FramePipeline::new();
    pipeline.on_frame(10);
    pipeline.on_frame(11);
    let dropped = WorkOutcome::Dropped(FrameError::Convert(ConvertError::DimensionMismatch));
    assert_eq!(pipeline.on_done(0, dropped), Some((1, 11)));
    assert_eq!(pipeline.last_rendered(), None);
    assert_eq!(pipeline.on_done(1, WorkOutcome::Rendered), None);
    assert_eq!(pipeline.last_rendered(), Some(1));
}

#[test]
fn resource_failure_stops_the_pipeline() {
    let mut pipeline: FramePipeline<u32> = FramePipeline::new();
    pipeline.on_frame(10);
    pipeline.on_frame(11);
    assert_eq!(pipeline.on_done(0, WorkOutcome::Failed(ResourceError)), None);
    assert!(pipeline.has_failed());
    assert!(pipeline.is_finished());
    assert_eq!(pipeline.in_flight(), None);
    assert!(matches!(pipeline.on_frame(12), Dispatch::Closed));
    assert_eq!(pipeline.last_rendered(), None);
}

#[test]
fn end_of_track_lets_the_work_drain() {
    let mut pipeline: FramePipeline<u32> = FramePipeline::new();
    pipeline.on_frame(10);
    pipeline.on_frame(11);
    pipeline.on_end();
    assert!(!pipeline.is_finished());
    assert!(matches!(pipeline.on_frame(12), Dispatch::Closed));
    assert_eq!(pipeline.on_done(0, WorkOutcome::Rendered), Some((1, 11)));
    assert!(!pipeline.is_finished());
    assert_eq!(pipeline.on_done(1, WorkOutcome::Rendered), None);
    assert!(pipeline.is_finished());
    assert_eq!(pipeline.last_rendered(), Some(1));
}

#[test]
fn end_of_an_idle_track_finishes_at_once() {
    let mut pipeline: FramePipeline<u32> = FramePipeline::new();
    assert!(!pipeline.is_finished());
    pipeline.on_end();
    assert!(pipeline.is_finished());
    assert_eq!(pipeline.last_rendered(), None);
}

#[test]
fn last_rendered_frame_stays_after_the_end() {
    let mut pipeline: FramePipeline<u32> = FramePipeline::new();
    pipeline.on_frame(10);
    pipeline.on_done(0, WorkOutcome::Rendered);
    pipeline.on_end();
    assert_eq!(pipeline.last_rendered(), Some(0));
    assert!(pipeline.is_finished());
}
