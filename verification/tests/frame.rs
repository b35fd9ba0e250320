use dualstream::frame::{
    frame_from_encoding, strip_alpha, EncodingError, Frame, FrameGenerator, DEFAULT_HEIGHT,
    DEFAULT_WIDTH,
};

fn picture(width: u32, height: u32, shade: u8) -> Vec<u8> {
    let mut pixels = Vec::new();
    for i in 0..(width as usize * height as usize) {
        pixels.extend_from_slice(&[shade, (i % 251) as u8, 0, 255]);
    }
    pixels
}

#[test]
fn frame_keeps_its_bytes() {
    let frame = Frame::with_bitstream(vec![0, 0, 0, 1, 0x67, 0x42]).unwrap();
    assert_eq!(frame.data(), &[0, 0, 0, 1, 0x67, 0x42]);
    assert_eq!(frame.data().len(), 6);
    assert_eq!(frame.to_vec(), vec![0, 0, 0, 1, 0x67, 0x42]);
}

#[test]
fn there_is_no_empty_frame() {
    assert!(Frame::with_bitstream(Vec::new()).is_none());
    let smallest = Frame::with_bitstream(vec![0]).unwrap();
    assert_eq!(smallest.data(), &[0]);
    assert_eq!(smallest.to_vec(), vec![0]);
}

#[test]
fn strip_alpha_drops_every_fourth_byte() {
    assert_eq!(strip_alpha(&[1, 2, 3, 4, 5, 6, 7, 8]), vec![1, 2, 3, 5, 6, 7]);
    assert_eq!(strip_alpha(&[255, 0, 0, 255]), vec![255, 0, 0]);
    assert_eq!(strip_alpha(&[]), Vec::<u8>::new());
}

#[test]
fn strip_alpha_of_a_ragged_picture() {
    assert_eq!(strip_alpha(&[9]), vec![9]);
    assert_eq!(strip_alpha(&[9, 8, 7]), vec![9, 8, 7]);
    assert_eq!(strip_alpha(&[9, 8, 7, 6, 5]), vec![9, 8, 7, 5]);
    assert_eq!(strip_alpha(&[1, 2, 3, 4, 5, 6, 7, 8, 9, 10, 11]), vec![1, 2, 3, 5, 6, 7, 9, 10, 11]);
}

#[test]
fn strip_alpha_filters_by_place() {
    let pixels: Vec<u8> = (0..=255u8).collect();
    let expected: Vec<u8> = pixels
        .iter()
        .enumerate()
        .filter(|(index, _)| (index + 1) % 4 != 0)
        .map(|(_, pixel)| *pixel)
        .collect();
    assert_eq!(strip_alpha(&pixels), expected);
    assert_eq!(expected.len(), 192);
}

#[test]
fn encoder_answer_becomes_a_frame_or_an_error() {
    let frame = frame_from_encoding(Ok(vec![7, 8, 9])).unwrap();
    assert_eq!(frame.data(), &[7, 8, 9]);
    let refused = frame_from_encoding(Err(openh264::Error::msg("refused")));
    assert_eq!(refused.err(), Some(EncodingError::Encoder));
}

#[test]
fn empty_bitstream_is_a_skipped_frame() {
    assert_eq!(frame_from_encoding(Ok(Vec::new())).err(), Some(EncodingError::Skipped));
    assert_eq!(frame_from_encoding(Ok(vec![0])).unwrap().data(), &[0]);
}

#[test]
fn frames_that_come_out_are_never_empty() {
    // The same picture again and again, as fast as the encoder takes it: the
    // encoder may skip, and a frame that comes out still holds bytes.
    let mut generator = FrameGenerator::new(32, 32).unwrap();
    let still = picture(32, 32, 77);
    let mut came_out = 0;
    for _ in 0..300 {
        let before = generator.frames_produced();
        match generator.next_frame(&still) {
            Ok(frame) => {
                assert!(!frame.data().is_empty());
                came_out += 1;
                assert_eq!(generator.frames_produced(), before + 1);
            }
            Err(error) => {
                assert_eq!(error, EncodingError::Skipped);
                assert_eq!(generator.frames_produced(), before);
            }
        }
    }
    assert!(came_out >= 1);
    assert_eq!(generator.frames_produced(), came_out);
}

#[test]
fn default_canvas() {
    assert_eq!((DEFAULT_WIDTH, DEFAULT_HEIGHT), (800, 600));
    let generator = FrameGenerator::new(DEFAULT_WIDTH, DEFAULT_HEIGHT).unwrap();
    assert_eq!(generator.width(), 800);
    assert_eq!(generator.height(), 600);
    assert_eq!(generator.frames_produced(), 0);
}

#[test]
fn odd_canvas_is_refused() {
    assert_eq!(FrameGenerator::new(801, 600).err(), Some(EncodingError::Canvas));
    assert_eq!(FrameGenerator::new(800, 601).err(), Some(EncodingError::Canvas));
    assert_eq!(FrameGenerator::new(1, 1).err(), Some(EncodingError::Canvas));
}

#[test]
fn huge_canvas_is_refused() {
    assert_eq!(FrameGenerator::new(u32::MAX - 1, 2).err(), Some(EncodingError::Canvas));
    assert_eq!(FrameGenerator::new(2, 0x8000_0000).err(), Some(EncodingError::Canvas));
}

#[test]
fn picture_of_the_wrong_size_is_refused() {
    let mut generator = FrameGenerator::new(64, 48).unwrap();
    assert_eq!(generator.next_frame(&[]).err(), Some(EncodingError::Picture));
    assert_eq!(generator.next_frame(&vec![0; 64 * 48 * 3]).err(), Some(EncodingError::Picture));
    assert_eq!(
        generator.next_frame(&vec![0; 64 * 48 * 4 + 1]).err(),
        Some(EncodingError::Picture)
    );
    assert_eq!(generator.frames_produced(), 0);
    assert!(generator.next_frame(&picture(64, 48, 10)).is_ok());
}

#[test]
fn first_frame_is_a_bitstream() {
    let mut generator = FrameGenerator::new(64, 48).unwrap();
    let frame = generator.next_frame(&picture(64, 48, 200)).unwrap();
    assert!(!frame.data().is_empty());
    // An H.264 byte stream opens with a start code.
    assert_eq!(&frame.data()[..4], &[0, 0, 0, 1]);
    assert_ne!(frame.data(), &picture(64, 48, 200)[..]);
    assert_eq!(generator.frames_produced(), 1);
}

#[test]
fn frames_are_counted() {
    let mut generator = FrameGenerator::new(32, 32).unwrap();
    for expected in 1..=5u64 {
        let shade = (expected * 40) as u8;
        assert!(generator.next_frame(&picture(32, 32, shade)).is_ok());
        assert_eq!(generator.frames_produced(), expected);
    }
    assert_eq!(generator.width(), 32);
    assert_eq!(generator.height(), 32);
}

#[test]
fn generators_do_not_share_an_encoder() {
    let mut first = FrameGenerator::new(32, 32).unwrap();
    let mut second = FrameGenerator::new(32, 32).unwrap();
    let a = first.next_frame(&picture(32, 32, 1)).unwrap().to_vec();
    let _ = first.next_frame(&picture(32, 32, 90)).unwrap();
    let _ = first.next_frame(&picture(32, 32, 180)).unwrap();
    // The first frame of a fresh generator does not depend on what another
    // generator has seen.
    let b = second.next_frame(&picture(32, 32, 1)).unwrap().to_vec();
    assert_eq!(a, b);
    assert_eq!(second.frames_produced(), 1);
    assert_eq!(first.frames_produced(), 3);
}

#[test]
fn encoder_that_cannot_be_set_up_is_an_encoder_error() {
    assert_eq!(FrameGenerator::new(0, 0).err(), Some(EncodingError::Encoder));
}
