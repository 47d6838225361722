use framecast::captures::Dimensions;
use framecast::distributor::Distributor;
use framecast::frame_compressor::compress_frame;
use framecast::frame_compressor::convert_bgra_to_rgb;
use framecast::packet::make_packet;
use framecast::packet::read_packet_length;
use framecast::stage::pipeline_step;

#[test]
fn converter_reorders_channels_2x1() {
    let raw: Vec<u8> = vec![10, 20, 30, 40, 50, 60, 70, 80];
    let rgb = convert_bgra_to_rgb(&raw, 2, 1).expect("valid frame must convert");
    assert_eq!(rgb, vec![30, 20, 10, 70, 60, 50]);
}

#[test]
fn converter_output_length_is_three_quarters() {
    let width: u32 = 4;
    let height: u32 = 3;
    let raw: Vec<u8> = (0..(width * height * 4) as usize).map(|i| i as u8).collect();
    let rgb = convert_bgra_to_rgb(&raw, width, height).expect("valid frame must convert");
    assert_eq!(rgb.len(), (width * height * 3) as usize);
    for i in 0..(width * height) as usize {
        assert_eq!(rgb[3 * i], raw[4 * i + 2]);
        assert_eq!(rgb[3 * i + 1], raw[4 * i + 1]);
        assert_eq!(rgb[3 * i + 2], raw[4 * i]);
    }
}

#[test]
fn converter_rejects_wrong_length() {
    let raw: Vec<u8> = vec![1, 2, 3, 4, 5, 6, 7];
    assert!(convert_bgra_to_rgb(&raw, 2, 1).is_none());
    let raw_long: Vec<u8> = vec![0; 9];
    assert!(convert_bgra_to_rgb(&raw_long, 2, 1).is_none());
    assert!(convert_bgra_to_rgb(&Vec::new(), 2, 1).is_none());
}

#[test]
fn compress_frame_drops_wrong_length() {
    let raw: Vec<u8> = vec![1, 2, 3, 4, 5];
    let compressed = compress_frame(raw, 2, 1);
    assert!(compressed.is_empty());
}

#[test]
fn compress_frame_drops_dimensions_the_encoder_rejects() {
    // a zero-sized frame: the buffer length matches 0*0*4, but the JPEG
    // encoder rejects zero dimensions, so the frame is dropped
    let compressed = compress_frame(Vec::new(), 0, 0);
    assert!(compressed.is_empty());

    // a width beyond the encoder's 16-bit limit is rejected the same way
    let width: u32 = 70000;
    let raw: Vec<u8> = vec![0; (width * 4) as usize];
    let compressed = compress_frame(raw, width, 1);
    assert!(compressed.is_empty());
}

#[test]
fn end_to_end_2x1_frame() {
    // BGRA BGRA: pixel 0 = (B=1, G=2, R=3, A=4), pixel 1 = (B=5, G=6, R=7, A=8)
    let raw: Vec<u8> = vec![1, 2, 3, 4, 5, 6, 7, 8];

    let rgb = convert_bgra_to_rgb(&raw, 2, 1).expect("valid frame must convert");
    assert_eq!(rgb, vec![3, 2, 1, 7, 6, 5]);

    let encoded = framecast::frame_compressor::encode_frame(&rgb, 2, 1);
    assert!(!encoded.is_empty());

    let compressed = compress_frame(raw, 2, 1);
    assert_eq!(compressed, encoded);
    assert!(!compressed.is_empty());
    // a JPEG stream begins with the SOI marker, so the encoder really ran
    assert_eq!(compressed[0], 0xFF);
    assert_eq!(compressed[1], 0xD8);

    let packet = make_packet(&compressed).expect("non-empty frame must packetize");
    assert_eq!(read_packet_length(&packet) as usize, compressed.len());
    assert_eq!(&packet[4..], &compressed[..]);
}

#[test]
fn pipeline_survives_bad_frames() {
    let mut dist = Distributor::new();
    let dims = Dimensions { width: 2, height: 1 };
    let mut sub = dist.subscribe();

    // a frame of the wrong length is dropped without a packet
    assert!(!pipeline_step(&mut dist, vec![1, 2, 3], dims));
    assert_eq!(dist.published_count(), 0);

    // the next, valid frame still goes through
    assert!(pipeline_step(&mut dist, vec![1, 2, 3, 4, 5, 6, 7, 8], dims));
    assert_eq!(dist.published_count(), 1);

    let batch = dist.collect_ready(&mut sub);
    assert_eq!(batch.len(), 1);
    assert_eq!(read_packet_length(&batch[0]) as usize, batch[0].len() - 4);
}
