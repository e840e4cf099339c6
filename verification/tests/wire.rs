use securom_loader::channel::HandshakeChannel;
use securom_loader::consts::{HANDSHAKE_CAPACITY, IN_MESSAGE_ID, MESSAGE_SIZE};
use securom_loader::enums::LoaderError;
use securom_loader::loader::Bootstrap;
use securom_loader::message::{bytes_to_struct, encode_response, struct_to_bytes, Message, Payload};

fn sample_message() -> Message {
    Message {
        unk_var: 0x0403_0201,
        window_handle: 0x0807_0605,
        pad: [0x0C0B_0A09, 0x100F_0E0D],
        in_message_id: 0x1413_1211,
        payload: Payload { address: 0x1817_1615, value: 0x1C1B_1A19 },
    }
}

#[test]
fn encode_is_little_endian_and_28_bytes() {
    let enc = struct_to_bytes(&sample_message());
    let expected: Vec<u8> = (1..=28u8).collect();
    assert_eq!(enc.len(), MESSAGE_SIZE);
    assert_eq!(enc, expected);
}

#[test]
fn round_trip_preserves_every_field() {
    let m = Message {
        unk_var: u32::MAX,
        window_handle: 0,
        pad: [0xDEAD_BEEF, 1],
        in_message_id: 51,
        payload: Payload { address: 0x8000_0000, value: 7 },
    };
    let enc = struct_to_bytes(&m);
    let dec = bytes_to_struct(enc.as_slice()).expect("a full buffer decodes");
    assert_eq!(dec, m);
}

#[test]
fn round_trip_of_the_sample() {
    let m = sample_message();
    let dec = bytes_to_struct(struct_to_bytes(&m).as_slice()).expect("a full buffer decodes");
    assert_eq!(dec, m);
}

#[test]
fn decode_of_truncated_buffer_fails() {
    let short = vec![0u8; MESSAGE_SIZE - 1];
    assert_eq!(bytes_to_struct(short.as_slice()), Err(LoaderError::TruncatedMessage));
    let empty: Vec<u8> = Vec::new();
    assert_eq!(bytes_to_struct(empty.as_slice()), Err(LoaderError::TruncatedMessage));
}

#[test]
fn decode_reads_only_the_first_28_bytes() {
    let mut enc = struct_to_bytes(&sample_message());
    enc.push(0xFF);
    enc.push(0xFF);
    let dec = bytes_to_struct(enc.as_slice()).expect("a longer buffer still decodes");
    assert_eq!(dec, sample_message());
}

#[test]
fn handshake_message_announces_the_transport_handle() {
    let m = Message::handshake(0xCAFE);
    assert_eq!(m.unk_var, 0);
    assert_eq!(m.window_handle, 0xCAFE);
    assert_eq!(m.pad, [0, 0]);
    assert_eq!(m.in_message_id, IN_MESSAGE_ID);
    assert_eq!(m.payload.address, 0);
    assert_eq!(m.payload.value, 0);
}

#[test]
fn response_record_is_value_one_little_endian() {
    assert_eq!(encode_response(1), vec![1, 0, 0, 0]);
}

#[test]
fn handshake_fits_the_channel() {
    let mut channel = HandshakeChannel::create(HANDSHAKE_CAPACITY);
    let enc = struct_to_bytes(&Message::handshake(0xCAFE));
    assert_eq!(enc.len(), 28);
    assert_eq!(channel.write(enc.as_slice()), Ok(()));
    let contents = channel.as_bytes();
    assert_eq!(contents.len(), HANDSHAKE_CAPACITY);
    assert_eq!(&contents[..28], enc.as_slice());
    assert!(contents[28..].iter().all(|b| *b == 0));
}

#[test]
fn channel_takes_a_full_capacity_write() {
    let mut channel = HandshakeChannel::create(HANDSHAKE_CAPACITY);
    let buf = vec![0xABu8; HANDSHAKE_CAPACITY];
    assert_eq!(channel.write(buf.as_slice()), Ok(()));
    assert_eq!(channel.as_bytes().as_slice(), buf.as_slice());
}

#[test]
fn bootstrap_publishes_then_spawns() {
    let mut bootstrap = Bootstrap::new();
    let mut channel = HandshakeChannel::create(HANDSHAKE_CAPACITY);
    let enc = struct_to_bytes(&Message::handshake(77));
    assert_eq!(bootstrap.publish(&mut channel, enc.as_slice()), Ok(()));
    assert_eq!(&channel.as_bytes()[..28], enc.as_slice());
    let session = bootstrap.spawn(4242);
    assert!(session.is_running());
    assert_eq!(session.pid(), 4242);
}

#[test]
fn bootstrap_publish_fails_on_an_oversize_handshake() {
    let mut bootstrap = Bootstrap::new();
    let mut channel = HandshakeChannel::create(16);
    let enc = struct_to_bytes(&Message::handshake(77));
    assert_eq!(
        bootstrap.publish(&mut channel, enc.as_slice()),
        Err(LoaderError::BufferTooLarge)
    );
    assert!(channel.as_bytes().iter().all(|b| *b == 0));
}

#[test]
fn channel_rejects_an_oversize_write() {
    let mut channel = HandshakeChannel::create(HANDSHAKE_CAPACITY);
    let buf = vec![0xABu8; HANDSHAKE_CAPACITY + 1];
    assert_eq!(channel.write(buf.as_slice()), Err(LoaderError::BufferTooLarge));
    assert!(channel.as_bytes().iter().all(|b| *b == 0));
}
