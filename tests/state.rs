use stream_state::codec::{RecvError, UserError};
use stream_state::frame::{Reason, CANCEL, INTERNAL_ERROR, PROTOCOL_ERROR, REFUSED_STREAM};
use stream_state::proto::Error;
use stream_state::state::OpenPeer;
use stream_state::State;

fn protocol_error() -> RecvError {
    RecvError::Connection(Reason::from(PROTOCOL_ERROR))
}

fn open_both() -> State {
    let mut s = State::default();
    assert_eq!(s.recv_open(false), Ok(true));
    assert_eq!(s.send_open(false), Ok(()));
    s
}

#[test]
fn send_open_eos_from_idle_leaves_remote_to_open() {
    let mut s = State::default();
    assert_eq!(s.send_open(true), Ok(()));
    // Half closed on the local side, with the remote side not yet open.
    assert!(s.is_at_least_half_open());
    assert!(s.is_recv_headers());
    assert!(!s.is_send_streaming());
    assert!(!s.is_recv_streaming());
    assert!(!s.is_closed());
    // The remote may still open its side, which closes the stream.
    assert_eq!(s.recv_open(true), Ok(false));
    assert!(s.is_closed());
    assert!(!s.is_reset());
}

#[test]
fn recv_open_from_idle_streams_remote_only() {
    let mut s = State::default();
    assert_eq!(s.recv_open(false), Ok(true));
    assert!(s.is_recv_streaming());
    assert!(!s.is_send_streaming());
    assert!(s.is_at_least_half_open());
    assert!(!s.is_recv_headers());
}

#[test]
fn recv_reset_twice_keeps_first_cause() {
    let mut s = open_both();
    s.recv_reset(Reason::from(CANCEL));
    let after_first = s.clone();
    s.recv_reset(Reason::from(INTERNAL_ERROR));
    assert_eq!(s, after_first);
    assert_eq!(s.ensure_recv_open(), Err(Error::Proto(Reason::from(CANCEL))));
}

#[test]
fn half_closes_in_either_order_end_stream() {
    let mut a = open_both();
    a.send_close();
    assert_eq!(a.recv_close(), Ok(()));

    let mut b = open_both();
    assert_eq!(b.recv_close(), Ok(()));
    b.send_close();

    assert_eq!(a, b);
    assert!(a.is_closed());
    assert!(!a.is_reset());
    assert_eq!(a.ensure_recv_open(), Ok(false));
}

#[test]
fn set_canceled_is_local_reset() {
    let mut s = open_both();
    s.set_canceled();
    assert!(s.is_canceled());
    assert!(s.is_local_reset());
    assert!(s.is_reset());
    assert_eq!(s.ensure_recv_open(), Err(Error::Proto(Reason::from(CANCEL))));

    let mut idle = State::default();
    idle.set_canceled();
    assert!(idle.is_canceled());
    assert!(idle.is_local_reset());
}

#[test]
fn ensure_recv_open_on_closed_streams() {
    let mut clean = open_both();
    clean.send_close();
    clean.recv_close().unwrap();
    assert_eq!(clean.ensure_recv_open(), Ok(false));

    let mut remote = open_both();
    remote.recv_reset(Reason::from(REFUSED_STREAM));
    assert_eq!(remote.ensure_recv_open(), Err(Error::Proto(Reason::from(REFUSED_STREAM))));

    let mut local = open_both();
    local.recv_err(&Error::Proto(Reason::from(INTERNAL_ERROR)));
    assert_eq!(local.ensure_recv_open(), Err(Error::Proto(Reason::from(INTERNAL_ERROR))));
    assert!(local.is_local_reset());

    let mut io = open_both();
    io.recv_err(&Error::Io);
    assert_eq!(io.ensure_recv_open(), Err(Error::Io));
    assert!(io.is_reset());
    assert!(!io.is_local_reset());
}

#[test]
fn ensure_recv_open_while_receiving() {
    assert_eq!(State::default().ensure_recv_open(), Ok(true));
    assert_eq!(open_both().ensure_recv_open(), Ok(true));

    let mut half = open_both();
    half.recv_close().unwrap();
    assert!(half.is_recv_closed());
    assert_eq!(half.ensure_recv_open(), Ok(false));
}

#[test]
fn scenario_recv_open_send_open_recv_close() {
    let mut s = State::default();
    assert_eq!(s.recv_open(false), Ok(true));
    assert!(!s.is_send_streaming());
    assert!(s.is_recv_streaming());
    assert_eq!(s.send_open(true), Ok(()));
    assert!(s.is_at_least_half_open());
    assert!(s.is_recv_streaming());
    assert!(!s.is_send_streaming());
    assert_eq!(s.recv_close(), Ok(()));
    assert!(s.is_closed());
    assert!(!s.is_reset());
}

#[test]
fn scenario_reserve_remote_then_recv_open_eos() {
    let mut s = State::default();
    assert_eq!(s.reserve_remote(), Ok(()));
    assert!(!s.is_idle());
    assert!(s.is_recv_headers());
    assert!(!s.is_at_least_half_open());
    assert_eq!(s.recv_open(true), Ok(true));
    assert!(s.is_closed());
    assert!(!s.is_reset());
    assert_eq!(s.ensure_recv_open(), Ok(false));
}

#[test]
fn scenario_recv_reset_then_recv_err_is_noop() {
    let mut s = open_both();
    assert!(s.is_send_streaming());
    assert!(s.is_recv_streaming());
    s.recv_reset(Reason::from(CANCEL));
    assert!(s.is_closed());
    assert!(s.is_reset());
    assert!(!s.is_local_reset());
    assert!(!s.is_canceled());
    let before = s.clone();
    s.recv_err(&Error::Proto(Reason::from(PROTOCOL_ERROR)));
    assert_eq!(s, before);
    s.recv_err(&Error::Io);
    assert_eq!(s, before);
    assert!(!s.is_local_reset());
    assert_eq!(s.ensure_recv_open(), Err(Error::Proto(Reason::from(CANCEL))));
}

#[test]
fn send_open_refused_where_send_side_already_open() {
    let mut s = open_both();
    let before = s.clone();
    assert_eq!(s.send_open(false), Err(UserError::UnexpectedFrameType));
    assert_eq!(s, before);

    let mut r = State::default();
    r.reserve_remote().unwrap();
    assert_eq!(r.send_open(false), Err(UserError::UnexpectedFrameType));

    let mut closed = State::default();
    closed.set_reset(Reason::from(CANCEL));
    assert_eq!(closed.send_open(true), Err(UserError::UnexpectedFrameType));
}

#[test]
fn send_open_on_half_closed_remote() {
    let mut s = State::default();
    assert_eq!(s.recv_open(true), Ok(true));
    assert!(s.is_recv_closed());
    assert_eq!(s.send_open(false), Ok(()));
    assert!(s.is_send_streaming());
    assert_eq!(s.send_open(true), Err(UserError::UnexpectedFrameType));
    s.send_close();
    assert!(s.is_closed());
    assert!(!s.is_reset());

    let mut t = State::default();
    t.recv_open(true).unwrap();
    assert_eq!(t.send_open(true), Ok(()));
    assert!(t.is_closed());
}

#[test]
fn recv_open_refused_where_remote_already_open() {
    let mut s = open_both();
    let before = s.clone();
    assert_eq!(s.recv_open(false), Err(protocol_error()));
    assert_eq!(s, before);

    let mut closed = State::default();
    closed.recv_reset(Reason::from(CANCEL));
    assert_eq!(closed.recv_open(true), Err(protocol_error()));
}

#[test]
fn recv_open_after_local_open_is_not_initial() {
    let mut s = State::default();
    assert_eq!(s.send_open(false), Ok(()));
    assert!(s.is_send_streaming());
    assert!(s.is_recv_headers());
    assert_eq!(s.recv_open(false), Ok(false));
    assert!(s.is_recv_streaming());
    assert!(s.is_send_streaming());

    let mut t = State::default();
    t.send_open(false).unwrap();
    assert_eq!(t.recv_open(true), Ok(false));
    assert!(t.is_recv_closed());
    assert!(t.is_send_streaming());
}

#[test]
fn recv_open_on_half_closed_local() {
    let mut s = State::default();
    s.send_open(true).unwrap();
    assert_eq!(s.recv_open(false), Ok(false));
    assert!(s.is_recv_streaming());
    assert!(s.is_at_least_half_open());
    assert!(!s.is_recv_headers());
}

#[test]
fn reserve_remote_only_from_idle() {
    let mut s = State::default();
    assert_eq!(s.reserve_remote(), Ok(()));
    assert_eq!(s.reserve_remote(), Err(protocol_error()));
    assert_eq!(s.recv_open(false), Ok(true));
    assert!(s.is_recv_streaming());
    assert!(!s.is_send_streaming());

    let mut open = open_both();
    assert_eq!(open.reserve_remote(), Err(protocol_error()));
}

#[test]
fn recv_close_refused_outside_open_states() {
    let mut idle = State::default();
    assert_eq!(idle.recv_close(), Err(protocol_error()));
    assert!(idle.is_idle());

    let mut reserved = State::default();
    reserved.reserve_remote().unwrap();
    assert_eq!(reserved.recv_close(), Err(protocol_error()));

    let mut half = open_both();
    half.recv_close().unwrap();
    assert_eq!(half.recv_close(), Err(protocol_error()));
}

#[test]
fn recv_close_keeps_local_progress() {
    let mut s = State::default();
    s.recv_open(false).unwrap();
    s.recv_close().unwrap();
    assert!(!s.is_send_streaming());
    assert_eq!(s.send_open(false), Ok(()));
    assert!(s.is_send_streaming());
}

#[test]
fn set_reset_overrides_any_state() {
    let mut s = State::default();
    s.set_reset(Reason::from(REFUSED_STREAM));
    assert!(s.is_local_reset());
    assert!(s.is_reset());
    assert_eq!(s.ensure_recv_open(), Err(Error::Proto(Reason::from(REFUSED_STREAM))));

    let mut remote = open_both();
    remote.recv_reset(Reason::from(CANCEL));
    remote.set_reset(Reason::from(INTERNAL_ERROR));
    assert!(remote.is_local_reset());
    assert_eq!(remote.ensure_recv_open(), Err(Error::Proto(Reason::from(INTERNAL_ERROR))));
}

#[test]
fn recv_err_on_open_stream() {
    let mut s = State::default();
    s.recv_err(&Error::Io);
    assert!(s.is_closed());
    assert!(s.is_reset());
    s.recv_reset(Reason::from(CANCEL));
    assert_eq!(s.ensure_recv_open(), Err(Error::Io));
}

#[test]
fn recv_reset_after_clean_close_is_noop() {
    let mut s = open_both();
    s.send_close();
    s.recv_close().unwrap();
    s.recv_reset(Reason::from(CANCEL));
    assert!(!s.is_reset());
    assert_eq!(s.ensure_recv_open(), Ok(false));
}

#[test]
fn idle_queries() {
    let s = State::default();
    assert!(s.is_idle());
    assert!(!s.is_closed());
    assert!(!s.is_reset());
    assert!(!s.is_canceled());
    assert!(!s.is_local_reset());
    assert!(!s.is_at_least_half_open());
    assert!(!s.is_send_streaming());
    assert!(!s.is_recv_streaming());
    assert!(s.is_recv_headers());
    assert!(!s.is_recv_closed());
}

#[test]
fn default_peer_awaits_headers() {
    assert_eq!(OpenPeer::default(), OpenPeer::AwaitingHeaders);
}

#[test]
fn reason_from_code_keeps_code() {
    assert_eq!(Reason::from(CANCEL).code, 8);
    assert_eq!(Reason::from(0xdead_u32).code, 0xdead);
    assert_ne!(Reason::from(CANCEL), Reason::from(PROTOCOL_ERROR));
}
