use ucra::output::RenderResult;
use ucra::wav::{encode_float32, WavHeader, FORMAT_IEEE_FLOAT, HEADER_LEN};

#[test]
fn header_of_a_small_file_byte_for_byte() {
    let samples = [1.0f32.to_bits(), (-0.5f32).to_bits()];
    let file = encode_float32(&samples, 44100, 1).unwrap();
    let expected: Vec<u8> = vec![
        b'R', b'I', b'F', b'F', 44, 0, 0, 0, // 8 + 36
        b'W', b'A', b'V', b'E', //
        b'f', b'm', b't', b' ', 16, 0, 0, 0, //
        3, 0, // IEEE float
        1, 0, // channels
        0x44, 0xac, 0, 0, // 44100
        0x10, 0xb1, 0x02, 0, // 176400
        4, 0, // bytes per frame
        32, 0, // bits per sample
        b'd', b'a', b't', b'a', 8, 0, 0, 0, //
        0x00, 0x00, 0x80, 0x3f, // 1.0
        0x00, 0x00, 0x00, 0xbf, // -0.5
    ];
    assert_eq!(file, expected);
}

#[test]
fn header_numbers() {
    let h = WavHeader::float32(1000, 48000, 2).unwrap();
    assert_eq!(h.riff_size, 4036);
    assert_eq!(h.format_tag, 3);
    assert_eq!(h.channels, 2);
    assert_eq!(h.sample_rate, 48000);
    assert_eq!(h.byte_rate, 384000);
    assert_eq!(h.block_align, 8);
    assert_eq!(h.bits_per_sample, 32);
    assert_eq!(h.data_size, 4000);
    assert_eq!(h.to_bytes().len(), HEADER_LEN);
}

#[test]
fn header_round_trip() {
    let buffer: Vec<u32> = (0..882).map(|i| (i as f32 / 882.0).to_bits()).collect();
    let out = RenderResult::new(Some(&buffer), 441, 2, 44100);
    let pcm = out.pcm().unwrap();
    let file = encode_float32(pcm, out.sample_rate(), out.channels()).unwrap();
    assert_eq!(file.len(), 44 + 4 * 882);
    let h = WavHeader::parse(&file).unwrap();
    assert_eq!(h.sample_rate, out.sample_rate());
    assert_eq!(h.channels as u32, out.channels());
    assert_eq!(h.format_tag, FORMAT_IEEE_FLOAT);
    assert_eq!(h.data_size, 4 * 882);
    assert_eq!(h, WavHeader::float32(882, 44100, 2).unwrap());
}

#[test]
fn samples_round_trip() {
    let samples = [0.25f32.to_bits(), f32::MAX.to_bits(), f32::NAN.to_bits(), 0x0102_0304];
    let file = encode_float32(&samples, 8000, 1).unwrap();
    for (i, sample) in samples.iter().enumerate() {
        let at = 44 + 4 * i;
        let bytes = [file[at], file[at + 1], file[at + 2], file[at + 3]];
        assert_eq!(u32::from_le_bytes(bytes), *sample);
    }
    assert_eq!(&file[56..60], &[4, 3, 2, 1]);
}

#[test]
fn header_bytes_read_back() {
    let h = WavHeader {
        riff_size: 0x0102_0304,
        format_tag: 0x0506,
        channels: 0x0708,
        sample_rate: 0x090a_0b0c,
        byte_rate: 0xfffe_fdfc,
        block_align: 0xfbfa,
        bits_per_sample: 0xf9f8,
        data_size: 0xf7f6_f5f4,
    };
    let bytes = h.to_bytes();
    assert_eq!(&bytes[4..8], &[4, 3, 2, 1]);
    assert_eq!(&bytes[20..22], &[6, 5]);
    assert_eq!(&bytes[40..44], &[0xf4, 0xf5, 0xf6, 0xf7]);
    assert_eq!(WavHeader::parse(&bytes), Some(h));
}

#[test]
fn empty_file_is_a_bare_header() {
    let file = encode_float32(&[], 44100, 1).unwrap();
    assert_eq!(file.len(), 44);
    let h = WavHeader::parse(&file).unwrap();
    assert_eq!(h.data_size, 0);
    assert_eq!(h.riff_size, 36);
}

#[test]
fn numbers_that_do_not_fit_are_refused() {
    // bytes per frame beyond 16 bits
    assert_eq!(WavHeader::float32(0, 1, 16384), None);
    assert!(WavHeader::float32(0, 1, 16383).is_some());
    assert_eq!(encode_float32(&[0; 4], 44100, 70000), None);
    // byte rate beyond 32 bits
    assert_eq!(WavHeader::float32(0, u32::MAX, 2), None);
    assert_eq!(WavHeader::float32(0, 0x4000_0000, 1), None);
    assert_eq!(WavHeader::float32(0, 0x3fff_ffff, 1).unwrap().byte_rate, 0xffff_fffc);
    // size of the file beyond 32 bits
    assert_eq!(WavHeader::float32(0x3fff_fff7, 44100, 1), None);
    assert_eq!(WavHeader::float32(0x3fff_fff6, 44100, 1).unwrap().riff_size, 0xffff_fffc);
}

#[test]
fn zero_rate_and_zero_channels_are_written_as_given() {
    let h = WavHeader::float32(3, 0, 0).unwrap();
    assert_eq!(h.sample_rate, 0);
    assert_eq!(h.channels, 0);
    assert_eq!(h.byte_rate, 0);
    assert_eq!(h.block_align, 0);
    assert_eq!(h.data_size, 12);
}

#[test]
fn parse_refuses_what_is_no_header() {
    assert_eq!(WavHeader::parse(&[]), None);
    let good = WavHeader::float32(0, 44100, 1).unwrap().to_bytes();
    assert!(WavHeader::parse(&good).is_some());
    assert_eq!(WavHeader::parse(&good[..43]), None);
    for at in [0usize, 3, 8, 11, 12, 15, 16, 19, 36, 39] {
        let mut bad = good.clone();
        bad[at] ^= 0x01;
        assert_eq!(WavHeader::parse(&bad), None, "byte {} was not looked at", at);
    }
}
