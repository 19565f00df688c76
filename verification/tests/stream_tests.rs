use capture_core::config::SCStreamConfiguration;
use capture_core::content::CGWindowID;
use capture_core::content::SCContentFilter;
use capture_core::content::SCRunningApplication;
use capture_core::content::SCWindow;
use capture_core::format::CMFormatDescription;
use capture_core::geometry::Point;
use capture_core::geometry::Rect;
use capture_core::geometry::Size;
use capture_core::sample::TransientSampleBuffer;
use capture_core::stream::CaptureStream;
use capture_core::stream::DispatchQueue;
use capture_core::stream::NativeError;
use capture_core::stream::SCStreamCallbackContainer;
use capture_core::stream::SCStreamCallbackError;
use capture_core::stream::SCStreamOutputType;
use capture_core::stream::StreamCreateError;
use capture_core::stream::StreamState;
use capture_core::stream::SCSTREAM_ERROR_CODE_USER_STOPPED;
use capture_core::time::CMTime;
use capture_core::time::TimeComparison;

fn mock_window() -> SCWindow {
    SCWindow::new(
        CGWindowID(42),
        "Editor".to_string(),
        Rect { origin: Point { x: 10, y: 20 }, size: Size { width: 800, height: 600 } },
        SCRunningApplication::new(1234, "Editor".to_string(), "com.example.editor".to_string()),
    )
}

fn window_filter() -> SCContentFilter {
    SCContentFilter::new_with_desktop_independent_window(&mock_window())
}

fn transient(pts_value: i64, status: i32) -> TransientSampleBuffer {
    TransientSampleBuffer {
        presentation_timestamp: CMTime::make(pts_value, 600),
        duration: CMTime::make(10, 600),
        format: CMFormatDescription::video(),
        attachments: Vec::new(),
        audio: None,
        copy_status: status,
    }
}

fn started_stream() -> CaptureStream {
    let mut stream = CaptureStream::new(
        window_filter(),
        SCStreamConfiguration::new(),
        DispatchQueue::make_serial("capture".to_string()),
        SCStreamCallbackContainer::new(),
    )
    .unwrap();
    stream.start();
    stream.on_start_completed(None);
    assert_eq!(stream.state(), StreamState::Started);
    stream
}

#[test]
fn test_invalid_configuration_rejected() {
    // A negative queue depth never yields a partially initialized stream.
    let mut config = SCStreamConfiguration::new();
    config.set_queue_depth(-1);
    let r = CaptureStream::new(
        window_filter(),
        config,
        DispatchQueue::make_null(),
        SCStreamCallbackContainer::new(),
    );
    assert!(matches!(r, Err(StreamCreateError::InvalidConfiguration)));

    let mut config2 = SCStreamConfiguration::new();
    config2.set_channel_count(0);
    let r2 = CaptureStream::new(
        window_filter(),
        config2,
        DispatchQueue::make_null(),
        SCStreamCallbackContainer::new(),
    );
    assert!(r2.is_err());
}

#[test]
fn test_end_to_end_window_capture() {
    // Three frames in timestamp order, then a clean shutdown: the callback
    // observes exactly three successes in order, then the stop error.
    let mut stream = started_stream();
    stream.on_sample(transient(1, 0), SCStreamOutputType::Screen);
    stream.on_sample(transient(2, 0), SCStreamOutputType::Screen);
    stream.on_sample(transient(3, 0), SCStreamOutputType::Screen);
    stream.stop();
    assert_eq!(stream.state(), StreamState::Stopped);

    let log = stream.callback_log();
    assert_eq!(log.len(), 4);
    let mut previous: Option<CMTime> = None;
    for entry in log.iter().take(3) {
        match entry {
            Ok((sample, kind)) => {
                assert_eq!(*kind, SCStreamOutputType::Screen);
                let pts = sample.get_presentation_timestamp();
                if let Some(prev) = previous {
                    assert!(matches!(prev.compare(&pts), TimeComparison::Less));
                }
                previous = Some(pts);
            },
            Err(_) => panic!("expected a delivered sample"),
        }
    }
    assert!(matches!(log[3], Err(SCStreamCallbackError::StreamStopped)));
}

#[test]
fn test_no_callbacks_after_stop() {
    // Once stop() has returned, late samples, completions and further
    // stops neither move the state nor reach the callback.
    let mut stream = started_stream();
    stream.on_sample(transient(1, 0), SCStreamOutputType::Screen);
    stream.stop();
    let len_after_stop = stream.callback_log().len();
    assert_eq!(stream.state(), StreamState::Stopped);

    stream.on_sample(transient(2, 0), SCStreamOutputType::Screen);
    stream.on_start_completed(None);
    stream.on_stopped_with_error(NativeError::new(
        "CoreGraphics".to_string(),
        -1,
        "late".to_string(),
        "late".to_string(),
    ));
    stream.stop();
    stream.start();

    assert_eq!(stream.state(), StreamState::Stopped);
    assert_eq!(stream.callback_log().len(), len_after_stop);
}

#[test]
fn test_copy_failure_is_delivered_as_error() {
    let mut stream = started_stream();
    stream.on_sample(transient(1, -12700), SCStreamOutputType::Screen);
    let log = stream.callback_log();
    assert_eq!(log.len(), 1);
    assert!(matches!(log[0], Err(SCStreamCallbackError::SampleBufferCopyFailed)));
}

#[test]
fn test_unsolicited_stop_classification() {
    // The user-stopped status code is a clean shutdown; any other code
    // carries the native error.
    let mut stream = started_stream();
    stream.on_stopped_with_error(NativeError::new(
        "SCStreamErrorDomain".to_string(),
        SCSTREAM_ERROR_CODE_USER_STOPPED,
        "stopped by user".to_string(),
        "".to_string(),
    ));
    assert_eq!(stream.state(), StreamState::Stopped);
    assert!(matches!(stream.callback_log()[0], Err(SCStreamCallbackError::StreamStopped)));

    let mut faulted = started_stream();
    faulted.on_stopped_with_error(NativeError::new(
        "SCStreamErrorDomain".to_string(),
        -3801,
        "no permission".to_string(),
        "screen capture permission was revoked".to_string(),
    ));
    assert_eq!(faulted.state(), StreamState::Stopped);
    match &faulted.callback_log()[0] {
        Err(SCStreamCallbackError::Other(e)) => {
            assert_eq!(e.code(), -3801);
            assert_eq!(e.domain(), "SCStreamErrorDomain");
            assert_eq!(e.description(), "no permission");
            assert_eq!(e.reason(), "screen capture permission was revoked");
        },
        _ => panic!("expected the native error"),
    }
}

#[test]
fn test_start_error_fails_the_stream() {
    let mut stream = CaptureStream::new(
        window_filter(),
        SCStreamConfiguration::new(),
        DispatchQueue::make_serial("capture".to_string()),
        SCStreamCallbackContainer::new(),
    )
    .unwrap();
    assert_eq!(stream.state(), StreamState::Created);
    stream.start();
    assert_eq!(stream.state(), StreamState::Starting);
    stream.on_start_completed(Some(NativeError::new(
        "SCStreamErrorDomain".to_string(),
        -3802,
        "failed to start".to_string(),
        "".to_string(),
    )));
    assert_eq!(stream.state(), StreamState::Failed);
    assert!(matches!(stream.callback_log()[0], Err(SCStreamCallbackError::Other(_))));

    // A failed stream is terminal: samples are not delivered.
    stream.on_sample(transient(1, 0), SCStreamOutputType::Screen);
    assert_eq!(stream.callback_log().len(), 1);
}

#[test]
fn test_samples_before_start_are_dropped() {
    let mut stream = CaptureStream::new(
        window_filter(),
        SCStreamConfiguration::new(),
        DispatchQueue::make_null(),
        SCStreamCallbackContainer::new(),
    )
    .unwrap();
    stream.on_sample(transient(1, 0), SCStreamOutputType::Screen);
    assert!(stream.callback_log().is_empty());
    stream.stop();
    assert_eq!(stream.state(), StreamState::Stopped);
    assert!(stream.callback_log().is_empty());
}

#[test]
fn test_audio_and_screen_kinds_interleave() {
    let mut stream = started_stream();
    stream.on_sample(transient(1, 0), SCStreamOutputType::Screen);
    stream.on_sample(transient(2, 0), SCStreamOutputType::Audio);
    let log = stream.callback_log();
    assert!(matches!(log[0], Ok((_, SCStreamOutputType::Screen))));
    assert!(matches!(log[1], Ok((_, SCStreamOutputType::Audio))));
}

#[test]
fn test_output_type_encoding() {
    assert_eq!(SCStreamOutputType::Screen.to_encoded().0, 0);
    assert_eq!(SCStreamOutputType::Audio.to_encoded().0, 1);
}

#[test]
fn test_display_filter_records_exclusions() {
    let display = capture_core::content::SCDisplay::new(
        1,
        Rect { origin: Point { x: 0, y: 0 }, size: Size { width: 1920, height: 1080 } },
    );
    let apps = vec![
        SCRunningApplication::new(100, "A".to_string(), "com.example.a".to_string()),
        SCRunningApplication::new(200, "B".to_string(), "com.example.b".to_string()),
    ];
    let windows = vec![mock_window()];
    let filter = SCContentFilter::new_with_display_excluding_apps_excepting_windows(
        &display, &apps, &windows,
    );
    match filter {
        SCContentFilter::DisplayExcludingApps {
            display_id,
            excluded_application_pids,
            excepting_window_ids,
        } => {
            assert_eq!(display_id, 1);
            assert_eq!(excluded_application_pids, vec![100, 200]);
            assert_eq!(excepting_window_ids, vec![42]);
        },
        _ => panic!("expected a display-scoped filter"),
    }
}

#[test]
fn test_dispatch_queue_kinds() {
    let serial = DispatchQueue::make_serial("q1".to_string());
    assert!(!serial.concurrent);
    assert!(!serial.null);
    assert_eq!(serial.label, "q1");
    let concurrent = DispatchQueue::make_concurrent("q2".to_string());
    assert!(concurrent.concurrent);
    let null = DispatchQueue::make_null();
    assert!(null.null);
}
