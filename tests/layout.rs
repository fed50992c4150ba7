use windows_shared_memory::{
    copy_len, new_header, offset_to_client_to_server_buffer, offset_to_server_to_client_buffer,
    receive_step, total_size, FlagState, ReceiveError, ReceiveStep, SegmentHeader, SharedData,
    WaitOutcome, FLAG_CLOSED, FLAG_CONSUMED, FLAG_DATA_READY, FLAG_IDLE, HEADER_SIZE,
    OFFSET_BUFFER_SIZE, OFFSET_FLAG_CLIENT, OFFSET_FLAG_SERVER, OFFSET_LEN_CLIENT_TO_SERVER,
    OFFSET_LEN_SERVER_TO_CLIENT,
};

#[test]
fn header_size_is_fixed_and_aligned() {
    assert_eq!(HEADER_SIZE, 24);
    assert_eq!(HEADER_SIZE % 8, 0);
    assert_eq!(OFFSET_BUFFER_SIZE, 0);
    assert_eq!(OFFSET_FLAG_SERVER, 4);
    assert_eq!(OFFSET_FLAG_CLIENT, 8);
    assert_eq!(OFFSET_LEN_SERVER_TO_CLIENT, 12);
    assert_eq!(OFFSET_LEN_CLIENT_TO_SERVER, 16);
}

#[test]
fn sizes_and_offsets() {
    assert_eq!(total_size(1024), 24 + 2048);
    assert_eq!(total_size(16 * 1024), 24 + 32768);
    assert_eq!(total_size(0), 24);
    assert_eq!(offset_to_server_to_client_buffer(), 24);
    assert_eq!(offset_to_client_to_server_buffer(1024), 1048);
    assert_eq!(offset_to_client_to_server_buffer(0), 24);
}

#[test]
fn new_header_is_idle() {
    let h = new_header(4096);
    assert_eq!(
        h,
        SegmentHeader {
            buffer_size: 4096,
            flag_server: FLAG_IDLE,
            flag_client: FLAG_IDLE,
            data_len_server_to_client: 0,
            data_len_client_to_server: 0,
        }
    );
}

#[test]
fn header_bytes_are_little_endian_in_field_order() {
    let h = SegmentHeader {
        buffer_size: 0x0102_0304,
        flag_server: 1,
        flag_client: 3,
        data_len_server_to_client: 0x0000_0400,
        data_len_client_to_server: 0xffff_fffe,
    };
    assert_eq!(
        h.to_bytes(),
        vec![
            4, 3, 2, 1, 1, 0, 0, 0, 3, 0, 0, 0, 0, 4, 0, 0, 0xfe, 0xff, 0xff, 0xff, 0, 0, 0, 0
        ]
    );
}

#[test]
fn header_bytes_round_trip() {
    let h = SegmentHeader {
        buffer_size: 16384,
        flag_server: 2,
        flag_client: 0xdead_beef,
        data_len_server_to_client: 17,
        data_len_client_to_server: 16384,
    };
    assert_eq!(SegmentHeader::from_bytes(&h.to_bytes()), Some(h));
}

#[test]
fn header_from_short_bytes_is_none() {
    assert_eq!(SegmentHeader::from_bytes(&[0u8; 23]), None);
    assert_eq!(SegmentHeader::from_bytes(&[]), None);
    let mut longer = new_header(8).to_bytes();
    longer.extend_from_slice(&[1, 2, 3]);
    assert_eq!(SegmentHeader::from_bytes(&longer), Some(new_header(8)));
}

#[test]
fn segment_image_layout() {
    let mut shared = SharedData::with_buffer_size(4);
    windows_shared_memory::write_to_shared_memory(&mut shared, b"ab", true);
    windows_shared_memory::write_to_shared_memory(&mut shared, b"wxyz!", false);
    let image = shared.to_bytes();
    assert_eq!(image.len(), total_size(4));
    let h = SegmentHeader::from_bytes(&image).unwrap();
    assert_eq!(h, shared.header());
    assert_eq!(h.buffer_size, 4);
    assert_eq!(h.flag_server, FLAG_DATA_READY);
    assert_eq!(h.data_len_client_to_server, 4);
    let s2c = offset_to_server_to_client_buffer();
    let c2s = offset_to_client_to_server_buffer(4);
    assert_eq!(&image[s2c..s2c + 4], &[b'a', b'b', 0, 0]);
    assert_eq!(&image[c2s..c2s + 4], b"wxyz");
}

#[test]
fn fresh_segment_image_is_all_zero() {
    let image = SharedData::with_buffer_size(16).to_bytes();
    assert_eq!(image.len(), 24 + 32);
    assert_eq!(&image[0..4], &[16, 0, 0, 0]);
    assert!(image[4..].iter().all(|&b| b == 0));
}

#[test]
fn flag_values() {
    assert_eq!(FlagState::Idle.to_raw(), 0);
    assert_eq!(FlagState::DataReady.to_raw(), 1);
    assert_eq!(FlagState::Consumed.to_raw(), 2);
    assert_eq!(FlagState::Closed.to_raw(), 3);
    assert_eq!(FlagState::from_raw(0), Some(FlagState::Idle));
    assert_eq!(FlagState::from_raw(1), Some(FlagState::DataReady));
    assert_eq!(FlagState::from_raw(2), Some(FlagState::Consumed));
    assert_eq!(FlagState::from_raw(3), Some(FlagState::Closed));
    assert_eq!(FlagState::from_raw(4), None);
    assert_eq!(FlagState::from_raw(u32::MAX), None);
}

#[test]
fn copy_len_is_the_smaller() {
    assert_eq!(copy_len(10, 1024), 10);
    assert_eq!(copy_len(1024, 1024), 1024);
    assert_eq!(copy_len(2048, 1024), 1024);
    assert_eq!(copy_len(0, 0), 0);
    assert_eq!(copy_len(usize::MAX, u32::MAX), u32::MAX);
}

#[test]
fn reader_decisions() {
    assert_eq!(receive_step(FLAG_DATA_READY, WaitOutcome::Signaled), ReceiveStep::Take);
    assert_eq!(receive_step(FLAG_CLOSED, WaitOutcome::Signaled), ReceiveStep::Exit);
    assert_eq!(receive_step(FLAG_CONSUMED, WaitOutcome::Signaled), ReceiveStep::Timeout);
    assert_eq!(receive_step(FLAG_IDLE, WaitOutcome::Signaled), ReceiveStep::Timeout);
    assert_eq!(
        receive_step(5, WaitOutcome::Signaled),
        ReceiveStep::Fail(ReceiveError::UnknownState(5))
    );
    assert_eq!(receive_step(FLAG_DATA_READY, WaitOutcome::TimedOut), ReceiveStep::Timeout);
    assert_eq!(
        receive_step(FLAG_CLOSED, WaitOutcome::Failed),
        ReceiveStep::Fail(ReceiveError::WaitFailed)
    );
}
