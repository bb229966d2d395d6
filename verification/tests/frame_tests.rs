use libg933::frame::{build_frame, header_bytes, header_of, RequestError, FRAME_LEN, HEADER_LEN};

#[test]
fn frame_is_twenty_bytes_with_four_byte_header() {
    assert_eq!(FRAME_LEN, 20);
    assert_eq!(HEADER_LEN, 4);
}

#[test]
fn short_request_is_zero_padded() {
    let frame = build_frame(&[0x11, 0xff, 0x08, 0x01]).unwrap();
    let mut expected = [0u8; 20];
    expected[0] = 0x11;
    expected[1] = 0xff;
    expected[2] = 0x08;
    expected[3] = 0x01;
    assert_eq!(frame, expected);
}

#[test]
fn empty_request_is_all_zeros() {
    assert_eq!(build_frame(&[]), Ok([0u8; 20]));
}

#[test]
fn full_length_request_is_kept_whole() {
    let request: Vec<u8> = (1..=20).collect();
    let frame = build_frame(&request).unwrap();
    assert_eq!(frame.to_vec(), request);
}

#[test]
fn request_of_twenty_one_bytes_is_refused() {
    let request = [7u8; 21];
    assert_eq!(build_frame(&request), Err(RequestError::InvalidRequest));
}

#[test]
fn long_request_is_refused() {
    let request = vec![1u8; 300];
    assert_eq!(build_frame(&request), Err(RequestError::InvalidRequest));
}

#[test]
fn header_is_the_first_four_bytes_big_endian() {
    let mut frame = [0u8; 20];
    frame[0] = 0x11;
    frame[1] = 0xff;
    frame[2] = 0x04;
    frame[3] = 0x01;
    frame[4] = 0x99;
    assert_eq!(header_of(&frame), 0x11ff0401);
}

#[test]
fn header_of_extreme_frames() {
    assert_eq!(header_of(&[0u8; 20]), 0);
    assert_eq!(header_of(&[0xffu8; 20]), 0xffff_ffff);
}

#[test]
fn header_bytes_undo_header_of() {
    assert_eq!(header_bytes(0x11ff0701), [0x11, 0xff, 0x07, 0x01]);
    let mut frame = [0u8; 20];
    frame[..4].copy_from_slice(&header_bytes(0xdead_beef));
    assert_eq!(header_of(&frame), 0xdead_beef);
}

#[test]
fn payload_does_not_change_the_header() {
    let a = build_frame(&[0x11, 0xff, 0x07, 0x11, 10]).unwrap();
    let b = build_frame(&[0x11, 0xff, 0x07, 0x11, 90]).unwrap();
    assert_ne!(a, b);
    assert_eq!(header_of(&a), header_of(&b));
}
