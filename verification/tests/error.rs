use weather::error::{exit_code, ErrorKind, WeatherError};

const KINDS: [ErrorKind; 7] = [
    ErrorKind::Configuration,
    ErrorKind::Transport,
    ErrorKind::HttpStatus,
    ErrorKind::Decode,
    ErrorKind::Render,
    ErrorKind::Write,
    ErrorKind::CaptureWarning,
];

#[test]
fn only_the_screenshot_warning_lets_the_run_go_on() {
    for kind in KINDS {
        assert_eq!(kind.is_fatal(), kind != ErrorKind::CaptureWarning);
    }
}

#[test]
fn a_failed_screenshot_leaves_the_exit_status_at_zero() {
    assert_eq!(exit_code(Some(ErrorKind::CaptureWarning)), 0);
    assert_eq!(exit_code(None), 0);
}

#[test]
fn every_other_failure_gives_a_status_that_is_not_zero() {
    for kind in KINDS {
        if kind != ErrorKind::CaptureWarning {
            assert_eq!(exit_code(Some(kind)), 1);
        }
    }
}

#[test]
fn each_kind_has_its_name() {
    assert_eq!(ErrorKind::Configuration.label(), "ConfigurationError");
    assert_eq!(ErrorKind::Transport.label(), "TransportError");
    assert_eq!(ErrorKind::HttpStatus.label(), "HttpStatusError");
    assert_eq!(ErrorKind::Decode.label(), "DecodeError");
    assert_eq!(ErrorKind::Render.label(), "RenderError");
    assert_eq!(ErrorKind::Write.label(), "WriteError");
    assert_eq!(ErrorKind::CaptureWarning.label(), "CaptureWarning");
}

#[test]
fn the_message_names_the_kind_and_the_detail() {
    let error = WeatherError::new(ErrorKind::Write, "weather.html: permission denied");
    assert_eq!(error.kind, ErrorKind::Write);
    assert_eq!(error.detail, "weather.html: permission denied");
    assert_eq!(error.message(), "WriteError: weather.html: permission denied");
    let warning = WeatherError::new(ErrorKind::CaptureWarning, "");
    assert_eq!(warning.message(), "CaptureWarning: ");
}
