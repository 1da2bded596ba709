use shadercam::config::AbbreviationCaptureAPIBackend;
use shadercam::config::CameraBuilder;
use shadercam::config::CaptureBackend;
use shadercam::config::SerializedFrameFormat;
use shadercam::config::backend_name;
use shadercam::config::config_json;
use shadercam::config::format_name;
use shadercam::config::parse_backend;
use shadercam::config::parse_format;
use shadercam::loader::ConfigLoad;
use shadercam::loader::config_from_fields;
use shadercam::loader::load_or_create;
use shadercam::loader::parse_config;

fn default_config() -> CameraBuilder {
    CameraBuilder {
        resolution: (640, 480),
        format: SerializedFrameFormat::MJPEG,
        frame_rate: 30,
        backend: AbbreviationCaptureAPIBackend::AUTO,
        index: 0,
    }
}

#[test]
fn missing_file_yields_default_and_text() {
    let loaded = load_or_create(None);
    match loaded {
        ConfigLoad::Created(c, text) => {
            assert_eq!(c, default_config());
            assert_eq!(c, CameraBuilder::default());
            // the persisted text parses back to the identical value
            assert_eq!(parse_config(&text), Some(c));
            // and loading it again takes the parsed path
            match load_or_create(Some(&text)) {
                ConfigLoad::Parsed(again) => assert_eq!(again, c),
                _ => panic!("re-loading the created file must parse"),
            }
        },
        _ => panic!("a missing file must create the default"),
    }
}

#[test]
fn invalid_json_yields_default() {
    let loaded = load_or_create(Some("this is { not json ]"));
    match loaded {
        ConfigLoad::ParseFailed(c) => assert_eq!(c, default_config()),
        _ => panic!("unparseable text must fall back to the default"),
    }
}

#[test]
fn wrong_shape_json_yields_default() {
    let loaded = load_or_create(Some("{\"resolution\": \"wide\"}"));
    match loaded {
        ConfigLoad::ParseFailed(c) => assert_eq!(c, default_config()),
        _ => panic!("well-formed JSON of the wrong shape must fall back"),
    }
}

#[test]
fn valid_file_is_reflected_exactly() {
    let text = "{\"resolution\": [1280, 720], \"format\": \"YUYV\", \"frame_rate\": 60, \"backend\": \"V4L\", \"index\": 2}";
    let loaded = load_or_create(Some(text));
    match loaded {
        ConfigLoad::Parsed(c) => {
            assert_eq!(c.resolution, (1280, 720));
            assert_eq!(c.format, SerializedFrameFormat::YUYV);
            assert_eq!(c.frame_rate, 60);
            assert_eq!(c.backend, AbbreviationCaptureAPIBackend::V4L);
            assert_eq!(c.index, 2);
        },
        _ => panic!("a valid file must parse"),
    }
}

#[test]
fn loaded_value_is_returned_whatever_the_outcome() {
    assert_eq!(load_or_create(None).value(), default_config());
    assert_eq!(load_or_create(Some("garbage")).value(), default_config());
    let text = "{\"resolution\": [1, 2], \"format\": \"MJPEG\", \"frame_rate\": 5, \"backend\": \"UVC\", \"index\": 7}";
    let c = load_or_create(Some(text)).value();
    assert_eq!(c.resolution, (1, 2));
    assert_eq!(c.index, 7);
}

#[test]
fn default_serializes_to_expected_text() {
    let text = config_json(&CameraBuilder::default());
    assert_eq!(
        text,
        "{\n  \"resolution\": [640, 480],\n  \"format\": \"MJPEG\",\n  \"frame_rate\": 30,\n  \"backend\": \"AUTO\",\n  \"index\": 0\n}"
    );
}

#[test]
fn format_tokens_round_trip() {
    for f in [SerializedFrameFormat::MJPEG, SerializedFrameFormat::YUYV] {
        assert_eq!(parse_format(format_name(f)), Some(f));
    }
    assert_eq!(parse_format("mjpeg"), None);
    assert_eq!(parse_format(""), None);
}

#[test]
fn backend_tokens_round_trip() {
    let all = [
        AbbreviationCaptureAPIBackend::AUTO,
        AbbreviationCaptureAPIBackend::UVC,
        AbbreviationCaptureAPIBackend::GST,
        AbbreviationCaptureAPIBackend::V4L,
        AbbreviationCaptureAPIBackend::MSMF,
        AbbreviationCaptureAPIBackend::AVF,
        AbbreviationCaptureAPIBackend::OPENCV,
    ];
    for b in all {
        assert_eq!(parse_backend(backend_name(b)), Some(b));
    }
    assert_eq!(parse_backend("auto"), None);
    assert_eq!(parse_backend("GSTREAMER"), None);
}

#[test]
fn backend_abbreviations_expand() {
    assert_eq!(AbbreviationCaptureAPIBackend::AUTO.expand(), CaptureBackend::Auto);
    assert_eq!(
        AbbreviationCaptureAPIBackend::UVC.expand(),
        CaptureBackend::UniversalVideoClass
    );
    assert_eq!(AbbreviationCaptureAPIBackend::GST.expand(), CaptureBackend::GStreamer);
    // V4L selects GStreamer as well; the aliasing is documented in the library
    assert_eq!(AbbreviationCaptureAPIBackend::V4L.expand(), CaptureBackend::GStreamer);
    assert_eq!(
        AbbreviationCaptureAPIBackend::MSMF.expand(),
        CaptureBackend::MediaFoundation
    );
    assert_eq!(AbbreviationCaptureAPIBackend::AVF.expand(), CaptureBackend::AVFoundation);
    assert_eq!(AbbreviationCaptureAPIBackend::OPENCV.expand(), CaptureBackend::OpenCv);
}

#[test]
fn out_of_range_fields_are_rejected() {
    // width over u32
    assert_eq!(config_from_fields(4294967296, 480, "MJPEG", 30, "AUTO", 0), None);
    // frame rate over u32
    assert_eq!(config_from_fields(640, 480, "MJPEG", 4294967296, "AUTO", 0), None);
    // unknown tokens
    assert_eq!(config_from_fields(640, 480, "RGB", 30, "AUTO", 0), None);
    assert_eq!(config_from_fields(640, 480, "MJPEG", 30, "VHS", 0), None);
    // everything in range
    let c = config_from_fields(640, 480, "YUYV", 25, "GST", 3).unwrap();
    assert_eq!(c.resolution, (640, 480));
    assert_eq!(c.format, SerializedFrameFormat::YUYV);
    assert_eq!(c.frame_rate, 25);
    assert_eq!(c.backend, AbbreviationCaptureAPIBackend::GST);
    assert_eq!(c.index, 3);
}

#[test]
fn serialize_then_parse_round_trips() {
    let configs = [
        default_config(),
        CameraBuilder {
            resolution: (1920, 1080),
            format: SerializedFrameFormat::YUYV,
            frame_rate: 144,
            backend: AbbreviationCaptureAPIBackend::MSMF,
            index: 11,
        },
        CameraBuilder {
            resolution: (0, 0),
            format: SerializedFrameFormat::MJPEG,
            frame_rate: 0,
            backend: AbbreviationCaptureAPIBackend::OPENCV,
            index: 0,
        },
        CameraBuilder {
            resolution: (4294967295, 4294967295),
            format: SerializedFrameFormat::YUYV,
            frame_rate: 4294967295,
            backend: AbbreviationCaptureAPIBackend::V4L,
            index: usize::MAX,
        },
    ];
    for c in configs {
        assert_eq!(parse_config(&config_json(&c)), Some(c));
    }
}

#[test]
fn unknown_fields_are_ignored() {
    let text = "{\"resolution\": [640, 480], \"format\": \"MJPEG\", \"frame_rate\": 30, \"backend\": \"AUTO\", \"index\": 1, \"comment\": \"spare camera\"}";
    match load_or_create(Some(text)) {
        ConfigLoad::Parsed(c) => assert_eq!(c.index, 1),
        _ => panic!("extra fields must not prevent parsing"),
    }
}

#[test]
fn missing_fields_do_not_parse() {
    assert_eq!(parse_config("{\"resolution\": [640, 480]}"), None);
    assert_eq!(
        parse_config("{\"resolution\": [640], \"format\": \"MJPEG\", \"frame_rate\": 30, \"backend\": \"AUTO\", \"index\": 0}"),
        None
    );
    assert_eq!(parse_config("[1, 2, 3]"), None);
    assert_eq!(parse_config("null"), None);
}

#[test]
fn resolution_must_be_exactly_a_pair() {
    let text = "{\"resolution\": [640, 480, 999], \"format\": \"MJPEG\", \"frame_rate\": 30, \"backend\": \"AUTO\", \"index\": 0}";
    assert_eq!(parse_config(text), None);
    match load_or_create(Some(text)) {
        ConfigLoad::ParseFailed(c) => assert_eq!(c, default_config()),
        _ => panic!("a three-element resolution must fall back to the default"),
    }
}
