use riot_wrappers::gcoap::{plan_blockwise, BlockwiseError};
use riot_wrappers::gcoap::{
    choose_block, plan_block_response, BlockWriter, PacketBuffer, PayloadWriter, COAP_OPT_BLOCK2,
    COAP_OPT_CONTENT_FORMAT, COAP_OPT_ETAG, COAP_OPT_OBSERVE, COAP_OPT_SIZE2,
};

#[test]
fn block_writer_keeps_its_window() {
    let mut buf = [0u8; 8];
    let mut w = BlockWriter { data: &mut buf, cursor: -4, etag: 0 };
    assert_eq!(w.bytes_in_buffer(), None);
    w.write_str("hello world").unwrap();
    assert_eq!(w.cursor, 7);
    assert_eq!(w.bytes_in_buffer(), Some(7));
    assert!(!w.did_overflow());
    assert_eq!(&buf[..7], b"o world");
    assert_eq!(buf[7], 0);
}

#[test]
fn block_writer_counts_past_its_window() {
    let mut buf = [0u8; 4];
    let mut w = BlockWriter { data: &mut buf, cursor: 0, etag: 0 };
    w.write_bytes(b"abcdef").unwrap();
    assert_eq!(w.cursor, 6);
    assert_eq!(w.bytes_in_buffer(), Some(4));
    assert!(w.did_overflow());
    assert_eq!(&buf, b"abcd");
}

#[test]
fn block_writer_etag_is_the_crc_of_everything_written() {
    let mut buf = [0u8; 2];
    let mut w = BlockWriter { data: &mut buf, cursor: -100, etag: 0 };
    w.write_str("hello ").unwrap();
    w.write_str("world").unwrap();
    assert_ne!(w.etag, 0);
    assert_eq!(w.etag, crc::crc64::checksum_ecma(b"hello world"));
}

#[test]
fn writes_in_two_pieces_equal_one_write() {
    let mut one = [0u8; 6];
    let mut w1 = BlockWriter { data: &mut one, cursor: -1, etag: 0 };
    w1.write_str("ab").unwrap();
    w1.write_str("cdefg").unwrap();
    let (c1, e1) = (w1.cursor, w1.etag);
    let mut two = [0u8; 6];
    let mut w2 = BlockWriter { data: &mut two, cursor: -1, etag: 0 };
    w2.write_str("abcdefg").unwrap();
    assert_eq!((c1, e1), (w2.cursor, w2.etag));
    assert_eq!(one, two);
    assert_eq!(&one, b"bcdefg");
}

#[test]
fn payload_writer_reports_overflow() {
    let mut buf = [0u8; 5];
    let mut w = PayloadWriter::new(&mut buf);
    assert_eq!(w.write_str("abc"), Ok(()));
    assert_eq!(w.cursor(), 3);
    assert_eq!(w.write_str("def"), Err(()));
    assert_eq!(w.cursor(), 5);
    assert_eq!(&buf, b"abcde");
}

#[test]
fn choose_block_shrinks_to_the_available_space() {
    let c = choose_block(0, 6, 100);
    assert_eq!((c.blksize, c.blknum, c.szx), (64, 0, 2));
    let c = choose_block(3, 6, 100);
    assert_eq!((c.blksize, c.blknum, c.szx), (64, 48, 2));
    let c = choose_block(1, 1, 100);
    assert_eq!((c.blksize, c.blknum, c.szx), (32, 1, 1));
    let c = choose_block(2, 7, 17);
    assert_eq!((c.blksize, c.blknum, c.szx), (16, 256, 0));
}

#[test]
fn first_block_carries_size_and_more_flag() {
    let mut buf = [0u8; 16];
    let mut w = BlockWriter { data: &mut buf, cursor: 0, etag: 0 };
    w.write_bytes(&[7u8; 20]).unwrap();
    let etag = w.etag;
    let plan = plan_block_response(&w, 0, 0, 40, u32::MAX);
    assert_eq!(plan.payload_len, 16);
    assert_eq!(
        plan.options,
        vec![
            (COAP_OPT_ETAG, etag as u32),
            (COAP_OPT_CONTENT_FORMAT, 40),
            (COAP_OPT_BLOCK2, 8),
            (COAP_OPT_SIZE2, 20),
        ]
    );
}

#[test]
fn observed_first_block_carries_observe() {
    let mut buf = [0u8; 16];
    let mut w = BlockWriter { data: &mut buf, cursor: 0, etag: 0 };
    w.write_bytes(b"short").unwrap();
    let etag = w.etag;
    let plan = plan_block_response(&w, 0, 0, 0, 5);
    assert_eq!(plan.payload_len, 5);
    assert_eq!(
        plan.options,
        vec![
            (COAP_OPT_ETAG, etag as u32),
            (COAP_OPT_OBSERVE, 5),
            (COAP_OPT_CONTENT_FORMAT, 0),
            (COAP_OPT_BLOCK2, 0),
            (COAP_OPT_SIZE2, 5),
        ]
    );
}

#[test]
fn later_block_has_neither_size_nor_observe() {
    let mut buf = [0u8; 32];
    let mut w = BlockWriter { data: &mut buf, cursor: -32, etag: 0 };
    w.write_bytes(&[1u8; 40]).unwrap();
    let etag = w.etag;
    let plan = plan_block_response(&w, 1, 1, 0, 5);
    assert_eq!(plan.payload_len, 8);
    assert_eq!(
        plan.options,
        vec![(COAP_OPT_ETAG, etag as u32), (COAP_OPT_CONTENT_FORMAT, 0), (COAP_OPT_BLOCK2, 0x11)]
    );
}

#[test]
fn packet_buffer_header_fields() {
    let mut buf = [0x42u8, 0x45, 0x12, 0x34, 0xaa, 0xbb, 0, 0, 0, 0, 0, 0];
    let mut pkt = PacketBuffer::new(&mut buf, 6, 6).unwrap();
    assert_eq!(pkt.get_code_raw(), 0x45);
    assert_eq!(pkt.get_total_hdr_len(), 6);
    pkt.set_code_raw(0x84);
    assert_eq!(pkt.get_code_raw(), 0x84);
    assert_eq!(pkt.get_length(3), 9);
    assert_eq!(pkt.payload().len(), 6);
}

#[test]
fn packet_buffer_rejects_windows_outside() {
    let mut small = [0u8; 3];
    assert!(PacketBuffer::new(&mut small, 0, 0).is_none());
    let mut buf = [0u8; 10];
    assert!(PacketBuffer::new(&mut buf, 6, 5).is_none());
    let mut buf = [0u8; 10];
    let mut pkt = PacketBuffer::new(&mut buf, 4, 6).unwrap();
    assert!(!pkt.set_payload_window(8, 3));
    assert!(pkt.set_payload_window(8, 2));
    assert_eq!(pkt.payload().len(), 2);
}

#[test]
fn packet_buffer_payload_gets_its_marker() {
    let mut buf = [0u8; 10];
    let mut pkt = PacketBuffer::new(&mut buf, 4, 6).unwrap();
    assert!(pkt.write_payload(b"hi"));
    assert_eq!(&pkt.payload()[..3], &[0xff, b'h', b'i']);
    assert!(!pkt.write_payload(b"too long"));
    assert!(!pkt.write_payload(b"sixsix"));
    assert!(pkt.write_payload(b"five5"));
    assert_eq!(pkt.payload(), &[0xff, b'f', b'i', b'v', b'e', b'5']);
}

#[test]
fn blockwise_plan_of_a_confirmable_request() {
    // version 1, confirmable, token length 2; buffer of 128 bytes
    let plan = plan_blockwise(0x42, 0x45, 128, None).unwrap();
    assert_eq!(plan.first_byte, 0x62);
    assert_eq!(plan.code, 0x45);
    assert_eq!(plan.payload_start, 4 + 2 + 25);
    assert_eq!(plan.payload_len, 128 - 31);
    assert_eq!((plan.block.blksize, plan.block.blknum, plan.block.szx), (64, 0, 2));
    assert_eq!(plan.start_cursor, 0);
    // non-confirmable stays, block 3 of size 1024 becomes block 48 of size 64
    let plan = plan_blockwise(0x52, 0x1_45, 128, Some((3, 6))).unwrap();
    assert_eq!(plan.first_byte, 0x52);
    assert_eq!(plan.code, 0x45);
    assert_eq!((plan.block.blksize, plan.block.blknum, plan.block.szx), (64, 48, 2));
    assert_eq!(plan.start_cursor, -(64 * 48));
    // too small: 4 + 0 + 25 + 16 bytes leave no block
    assert_eq!(plan_blockwise(0x40, 0x45, 45, None).err(), Some(BlockwiseError::BufferTooSmall));
    assert!(plan_blockwise(0x40, 0x45, 46, None).is_ok());
    assert_eq!(
        plan_blockwise(0x40, 0x45, 46, Some((u32::MAX, 6))).err(),
        Some(BlockwiseError::BlockNumberOverflow)
    );
}

#[test]
fn blockwise_writer_renders_the_planned_block() {
    let plan = plan_blockwise(0x40, 0x45, 128, Some((1, 2))).unwrap();
    let mut window = vec![0u8; plan.block.blksize];
    let mut w = BlockWriter { data: &mut window, cursor: plan.start_cursor, etag: 0 };
    let text: String = (0..100).map(|i| char::from(b'a' + (i % 26) as u8)).collect();
    w.write_str(&text).unwrap();
    let full = plan_block_response(&w, plan.block.blknum, plan.block.szx, 0, u32::MAX);
    assert_eq!(full.payload_len, 36);
    assert_eq!(&window[..36], &text.as_bytes()[64..100]);
}

#[test]
fn every_block_of_one_payload_carries_the_same_etag() {
    let payload = b"The quick brown fox jumps over the lazy dog, again and again.";
    let mut first = [0u8; 16];
    let mut w1 = BlockWriter { data: &mut first, cursor: 0, etag: 0 };
    w1.write_bytes(&payload[..10]).unwrap();
    w1.write_bytes(&payload[10..]).unwrap();
    let mut third = [0u8; 16];
    let mut w3 = BlockWriter { data: &mut third, cursor: -32, etag: 0 };
    w3.write_bytes(&payload[..40]).unwrap();
    w3.write_bytes(&payload[40..45]).unwrap();
    w3.write_bytes(&payload[45..]).unwrap();
    assert_eq!(w1.etag, w3.etag);
    assert_eq!(w1.etag, crc::crc64::checksum_ecma(payload));
    assert_eq!(&first, &payload[..16]);
    assert_eq!(&third, &payload[32..48]);
}
