use at_commands::terminator::{
    ReceiveCompletion, ScanState, UartReceiveUntilTerminator, UartTerminatorReceiver, SCAN_WINDOW,
};
use at_commands::transport::{TransportRequest, UartError, UartParameters};

#[test]
fn new_receiver_is_passive() {
    let r = UartTerminatorReceiver::new();
    assert_eq!(r.state, ScanState::Normal);
}

#[test]
fn pass_through_requests_are_unchanged() {
    let r = UartTerminatorReceiver::new();
    let params = UartParameters { baud_rate: 9600, hw_flow_control: true };
    match r.configure(params) {
        TransportRequest::Configure { parameters } => assert_eq!(parameters, params),
        _ => panic!("expected a configure request"),
    }
    match r.transmit(vec![1, 2, 3], 3) {
        TransportRequest::Transmit { buffer, length } => {
            assert_eq!(buffer, vec![1, 2, 3]);
            assert_eq!(length, 3);
        }
        _ => panic!("expected a transmit request"),
    }
    match r.receive(vec![0u8; 5], 5) {
        TransportRequest::Receive { buffer, length } => {
            assert_eq!(buffer.len(), 5);
            assert_eq!(length, 5);
        }
        _ => panic!("expected a receive request"),
    }
    match r.abort_receive() {
        TransportRequest::AbortReceive => {}
        _ => panic!("expected an abort request"),
    }
}

#[test]
fn transmit_completion_passes_through() {
    let r = UartTerminatorReceiver::new();
    let (buffer, error) = r.transmit_complete(vec![4, 5], UartError::Aborted);
    assert_eq!(buffer, vec![4, 5]);
    assert_eq!(error, UartError::Aborted);
}

#[test]
fn normal_receive_completion_passes_through() {
    let mut r = UartTerminatorReceiver::new();
    let c = r.receive_complete(vec![9u8; 4], 4, UartError::CommandComplete);
    match c {
        Some(ReceiveCompletion { buffer, length, error }) => {
            assert_eq!(buffer, vec![9u8; 4]);
            assert_eq!(length, 4);
            assert_eq!(error, UartError::CommandComplete);
        }
        None => panic!("a pass-through completion was dropped"),
    }
    assert_eq!(r.state, ScanState::Normal);
}

#[test]
fn delimited_receive_requests_one_scan_window() {
    let mut r = UartTerminatorReceiver::new();
    match r.receive_until_terminator(vec![0u8; 12], b'\n') {
        TransportRequest::Receive { buffer, length } => {
            assert_eq!(buffer.len(), 12);
            assert_eq!(length, SCAN_WINDOW);
            assert_eq!(length, 10);
        }
        _ => panic!("expected a raw receive request"),
    }
    assert_eq!(r.state, ScanState::TerminatorReceive { terminator: b'\n' });
}

#[test]
fn terminator_found_reports_inclusive_length() {
    let mut r = UartTerminatorReceiver::new();
    let buffer = match r.receive_until_terminator(vec![0u8; 10], b'\n') {
        TransportRequest::Receive { buffer, .. } => buffer,
        _ => panic!("expected a raw receive request"),
    };
    let mut data = buffer;
    data[0] = b'o';
    data[1] = b'k';
    data[2] = b'\n';
    let c = r.receive_complete(data, 10, UartError::CommandComplete);
    match c {
        Some(ReceiveCompletion { length, error, .. }) => {
            assert_eq!(length, 3);
            assert_eq!(error, UartError::CommandComplete);
        }
        None => panic!("the terminator was not reported"),
    }
    assert_eq!(r.state, ScanState::Normal);
}

#[test]
fn first_of_several_terminators_wins() {
    let mut r = UartTerminatorReceiver::new();
    let mut data = vec![7u8; 10];
    data[4] = b';';
    data[8] = b';';
    r.receive_until_terminator(vec![0u8; 10], b';');
    let c = r.receive_complete(data, 10, UartError::CommandComplete);
    assert_eq!(c.map(|cc| cc.length), Some(5));
}

#[test]
fn terminator_on_last_window_byte() {
    let mut r = UartTerminatorReceiver::new();
    let mut data = vec![0u8; 10];
    data[9] = b'\n';
    r.receive_until_terminator(vec![0u8; 10], b'\n');
    let c = r.receive_complete(data, 10, UartError::CommandComplete);
    assert_eq!(c.map(|cc| cc.length), Some(10));
}

#[test]
fn missing_terminator_stalls_the_scan() {
    // Documented limitation: with no terminator in the window, no completion
    // is forwarded and no new raw receive is issued -- the scan stays armed.
    let mut r = UartTerminatorReceiver::new();
    r.receive_until_terminator(vec![0u8; 10], b'\n');
    let c = r.receive_complete(vec![7u8; 10], 10, UartError::CommandComplete);
    assert!(c.is_none());
    assert_eq!(r.state, ScanState::TerminatorReceive { terminator: b'\n' });
}

#[test]
fn scan_ignores_bytes_past_the_window() {
    let mut r = UartTerminatorReceiver::new();
    let mut data = vec![1u8; 16];
    data[12] = b'\n';
    r.receive_until_terminator(vec![0u8; 16], b'\n');
    let c = r.receive_complete(data, 16, UartError::CommandComplete);
    assert!(c.is_none());
    assert_eq!(r.state, ScanState::TerminatorReceive { terminator: b'\n' });
}

#[test]
fn aborted_completion_code_is_passed_through() {
    let mut r = UartTerminatorReceiver::new();
    let mut data = vec![0u8; 10];
    data[0] = b'\n';
    r.receive_until_terminator(vec![0u8; 10], b'\n');
    let c = r.receive_complete(data, 1, UartError::Aborted);
    match c {
        Some(ReceiveCompletion { length, error, .. }) => {
            assert_eq!(length, 1);
            assert_eq!(error, UartError::Aborted);
        }
        None => panic!("the terminator was not reported"),
    }
}
