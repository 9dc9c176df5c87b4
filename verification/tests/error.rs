use worker_error::error::{Cause, Error};

fn cause_of(e: &std::io::Error) -> Cause {
    Cause { display_text: format!("{e}"), debug_text: format!("{e:?}") }
}

#[test]
fn context_token_display() {
    let e = Error::context(String::from("token"));
    assert_eq!(e.display_text(), "Missing argument token in context");
}

#[test]
fn thread_permission_denied_display() {
    let io = std::io::Error::new(std::io::ErrorKind::PermissionDenied, "permission denied");
    assert_eq!(format!("{io}"), "permission denied");
    let e = Error::thread(cause_of(&io));
    assert_eq!(e.display_text(), "Failed to run worker thread: permission denied");
}

#[test]
fn other_disk_full_display() {
    let inner = std::io::Error::new(std::io::ErrorKind::Other, "disk full");
    assert_eq!(format!("{inner}"), "disk full");
    let e = Error::other(cause_of(&inner));
    assert_eq!(e.display_text(), "Failed launch worker: disk full");
}

#[test]
fn context_empty_reason_display() {
    let e = Error::context(String::new());
    assert_eq!(e.display_text(), "Missing argument  in context");
}

#[test]
fn context_debug_is_quoted_display_text() {
    let e = Error::context(String::from("token"));
    assert_eq!(e.debug_text(), "Context(\"token\")");
    assert_eq!(e.debug_text(), format!("Context({:?})", "token"));
}

#[test]
fn context_debug_escapes_like_native_debug() {
    let reason = "a\"b\\c\nd\te\rf\0g\x01h\x1fi\x7fj";
    let e = Error::context(String::from(reason));
    assert_eq!(e.debug_text(), format!("Context({:?})", reason));
}

#[test]
fn context_debug_keeps_printable_unicode() {
    let reason = "naïve déjà-vu";
    let e = Error::context(String::from(reason));
    assert_eq!(e.debug_text(), format!("Context({:?})", reason));
}

#[test]
fn thread_debug_is_native_payload_debug() {
    let io = std::io::Error::new(std::io::ErrorKind::PermissionDenied, "permission denied");
    let expected = format!("Thread({io:?})");
    let e = Error::thread(cause_of(&io));
    assert_eq!(e.debug_text(), expected);
}

#[test]
fn other_debug_is_native_payload_debug() {
    let inner = std::io::Error::new(std::io::ErrorKind::Other, "disk full");
    let expected = format!("Other({inner:?})");
    let e = Error::other(cause_of(&inner));
    assert_eq!(e.debug_text(), expected);
}

#[test]
fn repeated_construction_yields_identical_display() {
    let e1 = Error::context(String::from("key"));
    let e2 = Error::context(String::from("key"));
    assert_eq!(e1.display_text(), e2.display_text());
    let io1 = std::io::Error::new(std::io::ErrorKind::TimedOut, "timed out");
    let io2 = std::io::Error::new(std::io::ErrorKind::TimedOut, "timed out");
    let t1 = Error::thread(cause_of(&io1));
    let t2 = Error::thread(cause_of(&io2));
    assert_eq!(t1.display_text(), t2.display_text());
}

#[test]
fn renderings_are_stable_over_repeated_calls() {
    let io = std::io::Error::new(std::io::ErrorKind::NotFound, "not found");
    let e = Error::thread(cause_of(&io));
    let d1 = e.display_text();
    let d2 = e.display_text();
    assert_eq!(d1, d2);
    let g1 = e.debug_text();
    let g2 = e.debug_text();
    assert_eq!(g1, g2);
    assert_ne!(d1, g1);
}
