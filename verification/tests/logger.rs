use std::sync::Mutex;

use nix_bindings::codes;
use nix_bindings::logger::{
    deliver, log_event, message_text, result_string_event, start_activity_event,
    stop_activity_event, ActivityId, ActivityType, Logger, LoggerEvent, ResultType, Verbosity,
};

#[test]
fn verbosity_round_trips_known_values() {
    assert_eq!(Verbosity::from_raw(codes::NIX_LVL_ERROR), Verbosity::Error);
    assert_eq!(Verbosity::from_raw(codes::NIX_LVL_VOMIT), Verbosity::Vomit);
}

#[test]
fn verbosity_decodes_every_level() {
    let expected = [
        Verbosity::Error,
        Verbosity::Warn,
        Verbosity::Notice,
        Verbosity::Info,
        Verbosity::Talkative,
        Verbosity::Chatty,
        Verbosity::Debug,
        Verbosity::Vomit,
    ];
    for (raw, level) in expected.iter().enumerate() {
        assert_eq!(Verbosity::from_raw(raw as u32), *level);
    }
    assert_eq!(Verbosity::from_raw(8), Verbosity::Unknown(8));
    assert_eq!(Verbosity::from_raw(u32::MAX), Verbosity::Unknown(u32::MAX));
}

#[test]
fn activity_type_decodes_known_and_other_values() {
    assert_eq!(ActivityType::from_raw(0), ActivityType::Unknown);
    assert_eq!(ActivityType::from_raw(100), ActivityType::CopyPath);
    assert_eq!(ActivityType::from_raw(101), ActivityType::FileTransfer);
    assert_eq!(ActivityType::from_raw(102), ActivityType::Realise);
    assert_eq!(ActivityType::from_raw(103), ActivityType::CopyPaths);
    assert_eq!(ActivityType::from_raw(104), ActivityType::Builds);
    assert_eq!(ActivityType::from_raw(105), ActivityType::Build);
    assert_eq!(ActivityType::from_raw(106), ActivityType::OptimiseStore);
    assert_eq!(ActivityType::from_raw(107), ActivityType::VerifyPaths);
    assert_eq!(ActivityType::from_raw(108), ActivityType::Substitute);
    assert_eq!(ActivityType::from_raw(109), ActivityType::QueryPathInfo);
    assert_eq!(ActivityType::from_raw(110), ActivityType::PostBuildHook);
    assert_eq!(ActivityType::from_raw(111), ActivityType::BuildWaiting);
    assert_eq!(ActivityType::from_raw(112), ActivityType::FetchTree);
    assert_eq!(ActivityType::from_raw(1), ActivityType::Other(1));
    assert_eq!(ActivityType::from_raw(113), ActivityType::Other(113));
}

#[test]
fn result_type_decodes_known_and_other_values() {
    assert_eq!(ResultType::from_raw(100), ResultType::FileLinked);
    assert_eq!(ResultType::from_raw(101), ResultType::BuildLogLine);
    assert_eq!(ResultType::from_raw(102), ResultType::UntrustedPath);
    assert_eq!(ResultType::from_raw(103), ResultType::CorruptedPath);
    assert_eq!(ResultType::from_raw(104), ResultType::SetPhase);
    assert_eq!(ResultType::from_raw(105), ResultType::Progress);
    assert_eq!(ResultType::from_raw(106), ResultType::SetExpected);
    assert_eq!(ResultType::from_raw(107), ResultType::PostBuildLogLine);
    assert_eq!(ResultType::from_raw(108), ResultType::FetchStatus);
    assert_eq!(ResultType::from_raw(109), ResultType::HashMismatch);
    assert_eq!(ResultType::from_raw(110), ResultType::BuildResult);
    assert_eq!(ResultType::from_raw(0), ResultType::Other(0));
    assert_eq!(ResultType::from_raw(111), ResultType::Other(111));
}

#[test]
fn distinct_raw_values_decode_to_distinct_values() {
    for a in 0u32..130 {
        for b in 0u32..130 {
            if a != b {
                assert_ne!(Verbosity::from_raw(a), Verbosity::from_raw(b));
                assert_ne!(ActivityType::from_raw(a), ActivityType::from_raw(b));
                assert_ne!(ResultType::from_raw(a), ResultType::from_raw(b));
            }
        }
    }
}

#[test]
fn message_text_of_null_is_empty() {
    assert_eq!(message_text(None), "");
}

#[test]
fn message_text_keeps_valid_utf8() {
    assert_eq!(message_text(Some("building ‘hello’".as_bytes())), "building ‘hello’");
}

#[test]
fn message_text_replaces_invalid_utf8() {
    assert_eq!(message_text(Some(&[b'a', 0xff, b'b'])), "a\u{fffd}b");
}

#[test]
fn log_event_decodes_level_and_message() {
    assert_eq!(
        log_event(1, Some(b"warning: x")),
        LoggerEvent::Log { level: Verbosity::Warn, msg: "warning: x".to_string() }
    );
    assert_eq!(
        log_event(42, None),
        LoggerEvent::Log { level: Verbosity::Unknown(42), msg: String::new() }
    );
}

#[test]
fn start_activity_event_decodes_all_arguments() {
    assert_eq!(
        start_activity_event(7, 3, 105, Some(b"building foo"), 0),
        LoggerEvent::StartActivity {
            activity_id: 7,
            level: Verbosity::Info,
            activity_type: ActivityType::Build,
            description: "building foo".to_string(),
            parent_id: 0,
        }
    );
}

#[test]
fn stop_and_result_events_decode_arguments() {
    assert_eq!(stop_activity_event(9), LoggerEvent::StopActivity { activity_id: 9 });
    assert_eq!(
        result_string_event(9, 101, Some(b"line")),
        LoggerEvent::ResultString {
            activity_id: 9,
            result_type: ResultType::BuildLogLine,
            msg: "line".to_string(),
        }
    );
}

struct Recorder {
    seen: Mutex<Vec<String>>,
}

impl Logger for Recorder {
    fn log(&self, level: Verbosity, msg: &str) {
        self.seen.lock().unwrap().push(format!("log {:?} {}", level, msg));
    }

    fn start_activity(
        &self,
        activity_id: ActivityId,
        level: Verbosity,
        type_: ActivityType,
        description: &str,
        parent_id: ActivityId,
    ) {
        self.seen.lock().unwrap().push(format!(
            "start {} {:?} {:?} {} {}",
            activity_id, level, type_, description, parent_id
        ));
    }

    fn stop_activity(&self, activity_id: ActivityId) {
        self.seen.lock().unwrap().push(format!("stop {}", activity_id));
    }

    fn result_string(&self, activity_id: ActivityId, type_: ResultType, msg: &str) {
        self.seen.lock().unwrap().push(format!("result {} {:?} {}", activity_id, type_, msg));
    }
}

struct Silent;

impl Logger for Silent {}

#[test]
fn deliver_calls_the_matching_method() {
    let recorder = Recorder { seen: Mutex::new(Vec::new()) };
    deliver(&recorder, &log_event(0, Some(b"boom")));
    deliver(&recorder, &start_activity_event(1, 2, 112, Some(b"fetch"), 0));
    deliver(&recorder, &result_string_event(1, 104, Some(b"unpacking")));
    deliver(&recorder, &stop_activity_event(1));
    assert_eq!(
        *recorder.seen.lock().unwrap(),
        vec![
            "log Error boom".to_string(),
            "start 1 Notice FetchTree fetch 0".to_string(),
            "result 1 SetPhase unpacking".to_string(),
            "stop 1".to_string(),
        ]
    );
}

#[test]
fn default_logger_methods_ignore_events() {
    deliver(&Silent, &log_event(0, Some(b"ignored")));
    deliver(&Silent, &stop_activity_event(3));
}
