use rats_rs::errors::ErrorKind;
use rats_rs::session::{SessionStream, SplitStream, StreamPhase};

/// A stand-in stream whose halves are numbered, so that a test can tell which
/// stream they came from.
#[derive(Debug, PartialEq)]
struct Numbered(u32);

impl SplitStream for Numbered {
    type Reader = u32;
    type Writer = u32;

    fn split_halves(self) -> (u32, u32) {
        (self.0, self.0 + 1000)
    }
}

#[test]
fn fresh_session_holds_nothing() {
    let mut s: SessionStream<Numbered> = SessionStream::new();
    assert_eq!(s.phase(), StreamPhase::Empty);
    assert_eq!(s.take_stream(), Err(ErrorKind::TransportStreamNotAvailable));
    assert_eq!(s.writer(), Err(ErrorKind::TransportStreamNotAvailable));
    assert_eq!(s.reader(), Err(ErrorKind::TransportStreamNotAvailable));
    assert_eq!(s.phase(), StreamPhase::Empty);
    assert_eq!(s.into_stream(), Err(ErrorKind::TransportStreamNotAvailable));
}

#[test]
fn installed_stream_is_handed_out_whole() {
    let mut s = SessionStream::new();
    s.install(Numbered(7));
    assert_eq!(s.phase(), StreamPhase::Full);
    assert_eq!(s.into_stream(), Ok(Numbered(7)));
}

#[test]
fn take_stream_succeeds_once() {
    let mut s = SessionStream::new();
    s.install(Numbered(3));
    assert_eq!(s.take_stream(), Ok(Numbered(3)));
    assert_eq!(s.phase(), StreamPhase::Taken);
    assert_eq!(s.take_stream(), Err(ErrorKind::TransportStreamNotAvailable));
    assert_eq!(s.phase(), StreamPhase::Empty);
    assert_eq!(s.writer(), Err(ErrorKind::TransportStreamNotAvailable));
}

#[test]
fn send_and_receive_no_longer_work_after_take() {
    let mut s = SessionStream::new();
    s.install(Numbered(3));
    assert!(s.take_stream().is_ok());
    assert_eq!(s.writer(), Err(ErrorKind::TransportStreamNotAvailable));
    assert_eq!(s.reader(), Err(ErrorKind::TransportStreamNotAvailable));
    assert_eq!(s.phase(), StreamPhase::Taken);
    assert_eq!(s.into_stream(), Err(ErrorKind::TransportStreamNotAvailable));
}

#[test]
fn first_access_splits_the_stream() {
    let mut s = SessionStream::new();
    s.install(Numbered(5));
    assert_eq!(s.writer().map(|w| *w), Ok(1005));
    assert_eq!(s.phase(), StreamPhase::Split);
    assert_eq!(s.reader().map(|r| *r), Ok(5));
    assert_eq!(s.phase(), StreamPhase::Split);
}

#[test]
fn access_is_repeatable() {
    let mut s = SessionStream::new();
    s.install(Numbered(1));
    for _ in 0..3 {
        assert_eq!(s.writer().map(|w| *w), Ok(1001));
        assert_eq!(s.reader().map(|r| *r), Ok(1));
    }
    // A write through the half stays in the session.
    *s.writer().unwrap() = 42;
    assert_eq!(s.writer().map(|w| *w), Ok(42));
}

#[test]
fn split_stream_cannot_be_taken() {
    let mut s = SessionStream::new();
    s.install(Numbered(9));
    assert!(s.reader().is_ok());
    assert_eq!(s.take_stream(), Err(ErrorKind::TransportStreamAlreadySplit));
    // A refused take drops the split halves.
    assert_eq!(s.phase(), StreamPhase::Empty);
    assert_eq!(s.writer(), Err(ErrorKind::TransportStreamNotAvailable));
}

#[test]
fn split_stream_into_stream_refused() {
    let mut s = SessionStream::new();
    s.install(Numbered(9));
    assert!(s.writer().is_ok());
    assert_eq!(s.into_stream(), Err(ErrorKind::TransportStreamAlreadySplit));
}

#[test]
fn renegotiation_replaces_the_stream() {
    let mut s = SessionStream::new();
    s.install(Numbered(1));
    assert!(s.writer().is_ok());
    s.install(Numbered(2));
    assert_eq!(s.phase(), StreamPhase::Full);
    assert_eq!(s.take_stream(), Ok(Numbered(2)));
}

#[test]
fn split_step_twice_is_split_once() {
    let mut s = SessionStream::new();
    s.install(Numbered(4));
    s.ensure_split();
    assert_eq!(s.phase(), StreamPhase::Split);
    s.ensure_split();
    assert_eq!(s.phase(), StreamPhase::Split);
    assert_eq!(s.reader().map(|r| *r), Ok(4));
    assert_eq!(s.writer().map(|w| *w), Ok(1004));
}

#[test]
fn split_step_leaves_other_states_alone() {
    let mut s: SessionStream<Numbered> = SessionStream::new();
    s.ensure_split();
    assert_eq!(s.phase(), StreamPhase::Empty);
    s.install(Numbered(8));
    assert!(s.take_stream().is_ok());
    s.ensure_split();
    assert_eq!(s.phase(), StreamPhase::Taken);
}
