use embassy_net::tcp_socket::{
    to_ioerr, ConnectPoll, IoError, IpEndpoint, ReadPoll, TcpError, TcpSocket, TcpState, WritePoll,
};
use embassy_net::config::Ipv4Address;

#[test]
fn new_socket_is_unbound_with_sized_buffers() {
    let mut s = TcpSocket::new(64, 128);
    assert!(s.needs_bind());
    assert_eq!(s.state(None), TcpState::Closed);
    assert!(!s.may_send(None));
    assert!(!s.may_recv(None));
    assert_eq!(s.local_endpoint(None), IpEndpoint::unspecified());
    assert_eq!(s.remote_endpoint(None), IpEndpoint::unspecified());
    s.bind();
    assert!(!s.needs_bind());
}

#[test]
fn bound_socket_reports_engine_answers() {
    let mut s = TcpSocket::new(8, 8);
    s.bind();
    assert_eq!(s.state(Some(TcpState::Established)), TcpState::Established);
    assert!(s.may_send(Some(true)));
    assert!(!s.may_recv(Some(false)));
    let e = IpEndpoint { addr: Ipv4Address(10, 0, 0, 1), port: 80 };
    assert_eq!(s.remote_endpoint(Some(e)), e);
}

#[test]
fn connect_rejected_on_listen_without_touching_buffers() {
    // Connect issued on a socket in Listen state resolves with the
    // "illegal operation" failure and mutates nothing.
    let s = TcpSocket::new(16, 16);
    let r = s.connect_poll(TcpState::Listen);
    assert_eq!(r, ConnectPoll::Failed(TcpError::Illegal));
    // The decision borrowed the socket immutably; the handle is untouched
    // and still usable.
    assert!(s.needs_bind());
}

#[test]
fn connect_poll_covers_every_state() {
    let s = TcpSocket::new(16, 16);
    assert_eq!(s.connect_poll(TcpState::Closed), ConnectPoll::Failed(TcpError::Unaddressable));
    assert_eq!(s.connect_poll(TcpState::TimeWait), ConnectPoll::Failed(TcpError::Unaddressable));
    assert_eq!(s.connect_poll(TcpState::SynSent), ConnectPoll::Pending);
    assert_eq!(s.connect_poll(TcpState::SynReceived), ConnectPoll::Pending);
    assert_eq!(s.connect_poll(TcpState::Established), ConnectPoll::Connected);
    assert_eq!(s.connect_poll(TcpState::CloseWait), ConnectPoll::Connected);
}

#[test]
fn read_finished_resolves_as_clean_eof() {
    // A recv reporting "stream finished" resolves a pending read with an
    // empty successful result, not a failure.
    let s = TcpSocket::new(16, 16);
    assert_eq!(s.poll_fill_buf(Err(TcpError::Finished)), ReadPoll::Ready(0));
}

#[test]
fn read_suspends_on_no_data_and_resolves_on_data() {
    let s = TcpSocket::new(16, 16);
    assert_eq!(s.poll_fill_buf(Ok(0)), ReadPoll::Pending);
    assert_eq!(s.poll_fill_buf(Ok(5)), ReadPoll::Ready(5));
    assert_eq!(s.poll_fill_buf(Err(TcpError::Illegal)), ReadPoll::Failed(IoError::Other));
}

#[test]
fn write_suspends_on_full_buffer_and_resolves_on_progress() {
    let s = TcpSocket::new(16, 16);
    assert_eq!(s.poll_write(Ok(0)), WritePoll::Pending);
    assert_eq!(s.poll_write(Ok(3)), WritePoll::Ready(3));
    assert_eq!(s.poll_write(Err(TcpError::Exhausted)), WritePoll::Failed(IoError::Other));
}

#[test]
fn engine_errors_surface_as_io_failures() {
    assert_eq!(to_ioerr(TcpError::Dropped), IoError::Other);
    assert_eq!(to_ioerr(TcpError::Unaddressable), IoError::Other);
}
