use kafka_broker::kafka::broker::KafkaBroker;
use kafka_broker::kafka::connection::{
    ConnectionAction, ConnectionError, ConnectionEvent, ConnectionNote,
};

/// What a client saw and how the connection ended.
struct Session {
    /// Everything the broker wrote, in order.
    written: Vec<u8>,
    /// The action that ended the connection.
    last: ConnectionAction,
    /// How many frames were skipped or dropped without an answer.
    notes: Vec<String>,
    /// How many bytes of the input were read.
    consumed: usize,
}

/// Drives a connection over `input`, a stream that ends after its last
/// byte, the way a socket driver would.
fn run(input: &[u8]) -> Session {
    let broker = KafkaBroker::new();
    let mut written = Vec::new();
    let mut notes = Vec::new();
    let mut at = 0;
    let mut step = broker.open_connection();
    loop {
        match &step.note {
            Some(ConnectionNote::EmptyFrame) => notes.push("empty".to_string()),
            Some(ConnectionNote::RequestFailed(e)) => notes.push(format!("failed: {:?}", e)),
            _ => {}
        }
        let wanted = match &step.action {
            ConnectionAction::ReadLength => 4,
            ConnectionAction::ReadPayload { length } => *length,
            ConnectionAction::Write { frame } => {
                written.extend_from_slice(frame);
                step = broker.handle_connection(step.state, ConnectionEvent::Written);
                continue;
            }
            ConnectionAction::Finish | ConnectionAction::Abort { .. } => {
                return Session { written, last: step.action, notes, consumed: at };
            }
        };
        let available = input.len() - at;
        let event = if available < wanted {
            at = input.len();
            ConnectionEvent::EndOfStream { received: available }
        } else {
            let bytes = input[at..at + wanted].to_vec();
            at += wanted;
            match &step.action {
                ConnectionAction::ReadLength => ConnectionEvent::LengthRead {
                    prefix: [bytes[0], bytes[1], bytes[2], bytes[3]],
                },
                _ => ConnectionEvent::PayloadRead { payload: bytes },
            }
        };
        step = broker.handle_connection(step.state, event);
    }
}

const REQUEST: [u8; 11] = [
    0x00, 0x12, // API key 18
    0x00, 0x00, // API version 0
    0x00, 0x00, 0x00, 0x07, // correlation id 7
    0xFF, 0xFF, // client id absent
    0x00, // tag byte
];

fn framed(payload: &[u8]) -> Vec<u8> {
    let mut bytes = (payload.len() as u32).to_be_bytes().to_vec();
    bytes.extend_from_slice(payload);
    bytes
}

#[test]
fn scenario_api_versions() {
    let session = run(&framed(&REQUEST));
    assert_eq!(
        session.written,
        vec![
            0x00, 0x00, 0x00, 0x14, // frame length 20
            0x00, 0x00, 0x00, 0x07, // correlation id 7
            0x00, 0x00, // error code 0
            0x00, 0x00, 0x00, 0x01, // count 1
            0x00, 0x12, 0x00, 0x00, 0x00, 0x01, // (18, 0, 1)
            0x00, 0x00, 0x00, 0x00, // throttle 0
        ]
    );
    assert!(matches!(session.last, ConnectionAction::Finish));
    assert!(session.notes.is_empty());
}

#[test]
fn scenario_unsupported_api() {
    let mut request = REQUEST;
    request[1] = 99;
    let session = run(&framed(&request));
    assert_eq!(
        session.written,
        vec![0x00, 0x00, 0x00, 0x06, 0x00, 0x00, 0x00, 0x07, 0x00, 0x23]
    );
    assert!(matches!(session.last, ConnectionAction::Finish));
}

#[test]
fn scenario_frame_of_only_the_fixed_fields() {
    // A frame of eight bytes ends before the client id: the request is
    // dropped, nothing is written, the connection stays open.
    let session = run(&framed(&REQUEST[..8]));
    assert!(session.written.is_empty());
    assert_eq!(
        session.notes,
        vec!["failed: InsufficientBytes { expected: 2, actual: 0 }".to_string()]
    );
    assert!(matches!(session.last, ConnectionAction::Finish));
}

#[test]
fn scenario_oversized_frame() {
    let mut input = vec![0x00, 0x10, 0x00, 0x01];
    input.extend_from_slice(&REQUEST);
    let session = run(&input);
    assert!(session.written.is_empty());
    assert!(matches!(
        session.last,
        ConnectionAction::Abort { error: ConnectionError::MessageTooLarge { length: 1_048_577 } }
    ));
    // Nothing after the length prefix was read.
    assert_eq!(session.consumed, 4);
}

#[test]
fn scenario_empty_frame() {
    let mut input = vec![0x00, 0x00, 0x00, 0x00];
    input.extend_from_slice(&framed(&REQUEST));
    let session = run(&input);
    // The empty frame is skipped, the next one is answered.
    assert_eq!(session.notes, vec!["empty".to_string()]);
    assert_eq!(session.written.len(), 24);
    assert_eq!(&session.written[4..8], &[0x00, 0x00, 0x00, 0x07]);
    assert!(matches!(session.last, ConnectionAction::Finish));
}

#[test]
fn scenario_short_payload() {
    let mut input = framed(&REQUEST);
    input.truncate(4 + 6);
    let session = run(&input);
    assert!(session.written.is_empty());
    assert!(session.notes.is_empty());
    assert!(matches!(
        session.last,
        ConnectionAction::Abort { error: ConnectionError::UnexpectedEof }
    ));
}

#[test]
fn scenario_malformed_request_between_good_ones() {
    let mut input = framed(&REQUEST);
    input.extend_from_slice(&framed(&[1, 2, 3]));
    let mut second = REQUEST;
    second[7] = 8;
    input.extend_from_slice(&framed(&second));
    let session = run(&input);

    // Two answers, in the order of the requests; the malformed frame in
    // between got none.
    assert_eq!(session.written.len(), 48);
    assert_eq!(&session.written[4..8], &[0, 0, 0, 7]);
    assert_eq!(&session.written[28..32], &[0, 0, 0, 8]);
    assert_eq!(
        session.notes,
        vec!["failed: InsufficientBytes { expected: 8, actual: 3 }".to_string()]
    );
    assert!(matches!(session.last, ConnectionAction::Finish));
}

#[test]
fn scenario_peer_leaves_at_once() {
    let session = run(&[]);
    assert!(session.written.is_empty());
    assert!(matches!(session.last, ConnectionAction::Finish));
}
