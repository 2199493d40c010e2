use sysv_queue::cli::{parse_invocation, parse_queue_id, received_text, token_is, Command, ToolError};
use sysv_queue::flags::{
    NewMessageQueueFlags, SendReceiveFlags, IPC_CREAT, IPC_EXCL, IPC_NOWAIT, MSG_NOERROR,
    USER_RWX,
};
use sysv_queue::message::{MessageBuffer, BUFFER_SIZE};
use sysv_queue::queue::{MessageQueue, QueueOperation, IPC_PRIVATE};

fn args(words: &[&str]) -> Vec<String> {
    words.iter().map(|w| w.to_string()).collect()
}

/// Plays the kernel's part: the first `size` bytes of the sent record land
/// at the start of the receiving record.
fn deliver(sent: &MessageBuffer, size: usize, into: &mut MessageBuffer) -> isize {
    into.mtype = sent.mtype;
    into.mtext[..size].copy_from_slice(&sent.mtext[..size]);
    size as isize
}

fn open_queue(id: i32) -> MessageQueue {
    MessageQueue::new(id, String::new()).ok().unwrap()
}

#[test]
fn default_creation_flags_create_with_owner_rwx() {
    let f = NewMessageQueueFlags::default();
    assert_eq!(f.bits(), 0o1700);
    assert_eq!(f.bits(), IPC_CREAT | USER_RWX);
}

#[test]
fn default_send_receive_flags_are_empty() {
    assert_eq!(SendReceiveFlags::default().bits(), 0);
    assert_eq!(SendReceiveFlags::empty().bits(), 0);
}

#[test]
fn from_bits_accepts_only_named_bits() {
    assert_eq!(NewMessageQueueFlags::from_bits(IPC_CREAT | IPC_EXCL).unwrap().bits(), 0o3000);
    assert!(NewMessageQueueFlags::from_bits(0o4000).is_none());
    assert!(NewMessageQueueFlags::from_bits(-1).is_none());
    assert_eq!(SendReceiveFlags::from_bits(IPC_NOWAIT).unwrap().bits(), 0o4000);
    assert!(SendReceiveFlags::from_bits(0o1).is_none());
    assert_eq!(NewMessageQueueFlags::all().bits(), 0o3777);
    assert_eq!(SendReceiveFlags::all().bits(), IPC_NOWAIT | MSG_NOERROR);
}

#[test]
fn union_and_contains() {
    let nowait = SendReceiveFlags::from_bits(IPC_NOWAIT).unwrap();
    let noerror = SendReceiveFlags::from_bits(MSG_NOERROR).unwrap();
    let both = nowait.union(noerror);
    assert_eq!(both.bits(), 0o14000);
    assert!(both.contains(nowait));
    assert!(!nowait.contains(noerror));
    let creat = NewMessageQueueFlags::from_bits(IPC_CREAT).unwrap();
    let excl = NewMessageQueueFlags::from_bits(IPC_EXCL).unwrap();
    assert_eq!(creat.union(excl).bits(), 0o3000);
    assert!(NewMessageQueueFlags::default().contains(creat));
    assert!(!NewMessageQueueFlags::default().contains(excl));
}

#[test]
fn queue_operation_codes() {
    assert_eq!(QueueOperation::Remove.code(), 0);
    assert_eq!(QueueOperation::SetAttributes.code(), 1);
    assert_eq!(QueueOperation::Status.code(), 2);
}

#[test]
fn short_payload_is_padded_with_zeros() {
    let (buf, len) = MessageBuffer::outgoing(3, b"abc");
    assert_eq!(len, 3);
    assert_eq!(buf.mtype, 3);
    assert_eq!(buf.mtext.len(), BUFFER_SIZE);
    assert_eq!(&buf.mtext[..3], b"abc");
    assert!(buf.mtext[3..].iter().all(|b| *b == 0));
}

#[test]
fn empty_payload_sends_nothing() {
    let (buf, len) = MessageBuffer::outgoing(1, b"");
    assert_eq!(len, 0);
    assert!(buf.mtext.iter().all(|b| *b == 0));
}

#[test]
fn long_payload_is_cut_to_capacity() {
    let payload: Vec<u8> = (0..3000u32).map(|i| (i % 251) as u8).collect();
    let (buf, len) = MessageBuffer::outgoing(1, &payload);
    assert_eq!(len, 2048);
    assert_eq!(buf.mtext, payload[..2048].to_vec());
}

#[test]
fn payload_of_exactly_capacity_is_kept_whole() {
    let payload = vec![7u8; 2048];
    let (buf, len) = MessageBuffer::outgoing(1, &payload);
    assert_eq!(len, 2048);
    assert_eq!(buf.mtext, payload);
}

#[test]
fn blank_record_is_all_zero() {
    let b = MessageBuffer::blank();
    assert_eq!(b.mtype, 0);
    assert_eq!(b.mtext, vec![0u8; 2048]);
    assert_eq!(b.payload(0), Vec::<u8>::new());
}

#[test]
fn acquire_failure_carries_the_os_description() {
    let r = MessageQueue::new(-1, "No such file or directory".to_string());
    assert_eq!(r.err().unwrap(), "No such file or directory");
}

#[test]
fn acquire_success_keeps_the_identifier() {
    let q = open_queue(42);
    assert_eq!(q.id(), 42);
    let req = MessageQueue::acquire_request(IPC_PRIVATE, NewMessageQueueFlags::default());
    assert_eq!(req.key, 0);
    assert_eq!(req.flags, 0o1700);
}

#[test]
fn round_trip_returns_the_payload() {
    let q = open_queue(9);
    let payload = b"round trip payload".to_vec();
    let send = q.send_request(1, &payload, SendReceiveFlags::default());
    assert_eq!(send.msqid, 9);
    assert_eq!(send.size, payload.len());
    assert!(q.send(0, String::new()).is_ok());
    let mut recv = q.receive_request(1, SendReceiveFlags::default());
    let got = deliver(&send.buffer, send.size, &mut recv.buffer);
    let (t, p) = q.receive(got, &recv.buffer, String::new()).unwrap();
    assert_eq!(t, 1);
    assert_eq!(p, payload);
}

#[test]
fn round_trip_of_oversized_payload_returns_its_prefix() {
    let q = open_queue(9);
    let payload = vec![0xabu8; 2100];
    let send = q.send_request(1, &payload, SendReceiveFlags::default());
    let mut recv = q.receive_request(0, SendReceiveFlags::default());
    let got = deliver(&send.buffer, send.size, &mut recv.buffer);
    let (_, p) = q.receive(got, &recv.buffer, String::new()).unwrap();
    assert_eq!(p.len(), 2048);
    assert_eq!(p, payload[..2048].to_vec());
}

#[test]
fn receive_request_passes_filter_and_flags() {
    let q = open_queue(3);
    let any = q.receive_request(0, SendReceiveFlags::default());
    assert_eq!(any.msg_type, 0);
    assert_eq!(any.size, 2048);
    assert_eq!(any.flags, 0);
    let nowait = SendReceiveFlags::from_bits(IPC_NOWAIT).unwrap();
    let typed = q.receive_request(5, nowait);
    assert_eq!(typed.msg_type, 5);
    assert_eq!(typed.flags, IPC_NOWAIT);
}

#[test]
fn failed_receive_is_an_os_error() {
    let q = open_queue(3);
    let buf = MessageBuffer::blank();
    let r = q.receive(-1, &buf, "No message of desired type".to_string());
    assert_eq!(r.err().unwrap(), "No message of desired type");
}

#[test]
fn failed_send_is_an_os_error() {
    let q = open_queue(3);
    assert_eq!(q.send(-1, "Resource temporarily unavailable".to_string()).err().unwrap(),
        "Resource temporarily unavailable");
}

#[test]
fn remove_request_and_outcomes() {
    let q = open_queue(11);
    let req = q.remove_request();
    assert_eq!(req.msqid, 11);
    assert_eq!(req.command, 0);
    assert!(q.remove(0, String::new()).is_ok());
    // a second removal of the same identifier is refused by the kernel
    let again = open_queue(11);
    assert_eq!(again.remove(-1, "Invalid argument".to_string()).err().unwrap(), "Invalid argument");
}

#[test]
fn parse_hex_ids() {
    assert_eq!(parse_queue_id("1a"), Some(26));
    assert_eq!(parse_queue_id("0x1A"), Some(26));
    assert_eq!(parse_queue_id("0X10"), Some(16));
    assert_eq!(parse_queue_id("0"), Some(0));
    assert_eq!(parse_queue_id("0x"), None);
    assert_eq!(parse_queue_id("0x0"), Some(0));
    assert_eq!(parse_queue_id("7fffffff"), Some(i32::MAX));
    assert_eq!(parse_queue_id("80000000"), None);
    assert_eq!(parse_queue_id(""), None);
    assert_eq!(parse_queue_id("12g"), None);
    assert_eq!(parse_queue_id("-1"), None);
}

#[test]
fn token_comparison() {
    assert!(token_is("send", "send"));
    assert!(!token_is("sen", "send"));
    assert!(!token_is("Send", "send"));
}

#[test]
fn too_few_arguments_are_malformed() {
    assert!(matches!(parse_invocation(&args(&["sysvqueue"])), Err(ToolError::MalformedArguments)));
    assert!(matches!(parse_invocation(&args(&["sysvqueue", "receive"])), Err(ToolError::MalformedArguments)));
    assert!(matches!(parse_invocation(&args(&[])), Err(ToolError::MalformedArguments)));
}

#[test]
fn commands_parse() {
    match parse_invocation(&args(&["sysvqueue", "send", "1a", "hello"])) {
        Ok(Command::Send { queue_id, text }) => {
            assert_eq!(queue_id, 26);
            assert_eq!(text, b"hello".to_vec());
        }
        _ => panic!("expected a send"),
    }
    assert!(matches!(parse_invocation(&args(&["sysvqueue", "receive", "0x1a"])),
        Ok(Command::Receive { queue_id: 26 })));
    assert!(matches!(parse_invocation(&args(&["sysvqueue", "remove", "ff"])),
        Ok(Command::Remove { queue_id: 255 })));
    let c = parse_invocation(&args(&["sysvqueue", "remove", "ff"])).unwrap();
    assert_eq!(c.queue_id(), 255);
}

#[test]
fn wrong_argument_counts_and_bad_ids() {
    assert!(matches!(parse_invocation(&args(&["sysvqueue", "send", "1a"])), Err(ToolError::MalformedArguments)));
    assert!(matches!(parse_invocation(&args(&["sysvqueue", "receive", "1a", "x"])), Err(ToolError::MalformedArguments)));
    assert!(matches!(parse_invocation(&args(&["sysvqueue", "remove", "1a", "x"])), Err(ToolError::MalformedArguments)));
    assert!(matches!(parse_invocation(&args(&["sysvqueue", "send", "zz", "hi"])), Err(ToolError::MalformedArguments)));
}

#[test]
fn unknown_command() {
    assert!(matches!(parse_invocation(&args(&["sysvqueue", "peek", "1a"])), Err(ToolError::UnknownCommand)));
}

#[test]
fn received_text_outcomes() {
    assert_eq!(received_text(Ok((1, b"hello".to_vec()))).unwrap(), "hello");
    assert_eq!(received_text(Ok((1, "h\u{e9}".as_bytes().to_vec()))).unwrap(), "h\u{e9}");
    assert!(matches!(received_text(Ok((1, vec![0xff, 0xfe]))), Err(ToolError::Decode)));
    match received_text(Err("Identifier removed".to_string())) {
        Err(ToolError::Os(e)) => assert_eq!(e, "Identifier removed"),
        _ => panic!("expected an OS error"),
    }
}

#[test]
fn send_then_receive_prints_hello() {
    let sent = match parse_invocation(&args(&["sysvqueue", "send", "2b", "hello"])).unwrap() {
        Command::Send { queue_id, text } => (queue_id, text),
        _ => panic!("expected a send"),
    };
    let q = open_queue(sent.0);
    let send = q.send_request(1, &sent.1, SendReceiveFlags::default());
    let c = parse_invocation(&args(&["sysvqueue", "receive", "2b"])).unwrap();
    assert_eq!(c.queue_id(), sent.0);
    let mut recv = q.receive_request(0, SendReceiveFlags::default());
    let got = deliver(&send.buffer, send.size, &mut recv.buffer);
    let text = received_text(q.receive(got, &recv.buffer, String::new())).unwrap();
    assert_eq!(text, "hello");
}
