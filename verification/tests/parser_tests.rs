use multimedia_management_service::error::ServiceError;
use multimedia_management_service::mp4_parser::Mp4Parser;

fn boxed(kind: &[u8; 4], payload: &[u8]) -> Vec<u8> {
    let mut b = Vec::new();
    b.extend_from_slice(&((payload.len() as u32) + 8).to_be_bytes());
    b.extend_from_slice(kind);
    b.extend_from_slice(payload);
    b
}

fn mvhd(timescale: u32, duration: u32) -> Vec<u8> {
    let mut p = vec![0u8; 20];
    p[12..16].copy_from_slice(&timescale.to_be_bytes());
    p[16..20].copy_from_slice(&duration.to_be_bytes());
    boxed(b"mvhd", &p)
}

fn mdhd(timescale: u32, duration: u32) -> Vec<u8> {
    let mut p = vec![0u8; 20];
    p[12..16].copy_from_slice(&timescale.to_be_bytes());
    p[16..20].copy_from_slice(&duration.to_be_bytes());
    boxed(b"mdhd", &p)
}

fn tkhd(width: u32, height: u32) -> Vec<u8> {
    let mut p = vec![0u8; 84];
    p[76..80].copy_from_slice(&(width << 16).to_be_bytes());
    p[80..84].copy_from_slice(&(height << 16).to_be_bytes());
    boxed(b"tkhd", &p)
}

fn hdlr(kind: &[u8; 4]) -> Vec<u8> {
    let mut p = vec![0u8; 12];
    p[8..12].copy_from_slice(kind);
    boxed(b"hdlr", &p)
}

fn stsd(entry: &[u8]) -> Vec<u8> {
    let mut p = vec![0u8; 8];
    p[7] = 1;
    p.extend_from_slice(entry);
    boxed(b"stsd", &p)
}

fn stsz_fixed(sample_size: u32, count: u32) -> Vec<u8> {
    let mut p = vec![0u8; 12];
    p[4..8].copy_from_slice(&sample_size.to_be_bytes());
    p[8..12].copy_from_slice(&count.to_be_bytes());
    boxed(b"stsz", &p)
}

fn stsz_table(sizes: &[u32]) -> Vec<u8> {
    let mut p = vec![0u8; 12];
    p[8..12].copy_from_slice(&(sizes.len() as u32).to_be_bytes());
    for s in sizes {
        p.extend_from_slice(&s.to_be_bytes());
    }
    boxed(b"stsz", &p)
}

fn desc(tag: u8, payload: &[u8]) -> Vec<u8> {
    let mut d = vec![tag, payload.len() as u8];
    d.extend_from_slice(payload);
    d
}

fn esds(avg_bitrate: u32, freq_index: u8, chan_cfg: u8) -> Vec<u8> {
    let asc0 = (2u8 << 3) | (freq_index >> 1);
    let asc1 = ((freq_index & 1) << 7) | (chan_cfg << 3);
    let si = desc(5, &[asc0, asc1]);
    let mut dc_payload = vec![0x40, 0x15, 0, 0, 0];
    dc_payload.extend_from_slice(&0u32.to_be_bytes());
    dc_payload.extend_from_slice(&avg_bitrate.to_be_bytes());
    dc_payload.extend_from_slice(&si);
    let dc = desc(4, &dc_payload);
    let mut es_payload = vec![0, 0, 0];
    es_payload.extend_from_slice(&dc);
    let es = desc(3, &es_payload);
    let mut p = vec![0u8; 4];
    p.extend_from_slice(&es);
    boxed(b"esds", &p)
}

fn video_trak(width: u32, height: u32, stsz: Vec<u8>, timescale: u32, duration: u32) -> Vec<u8> {
    let entry = boxed(b"avc1", &[0u8; 8]);
    let mut stbl_payload = stsd(&entry);
    stbl_payload.extend_from_slice(&stsz);
    let stbl = boxed(b"stbl", &stbl_payload);
    let minf = boxed(b"minf", &stbl);
    let mut mdia_payload = mdhd(timescale, duration);
    mdia_payload.extend_from_slice(&hdlr(b"vide"));
    mdia_payload.extend_from_slice(&minf);
    let mdia = boxed(b"mdia", &mdia_payload);
    let mut trak_payload = tkhd(width, height);
    trak_payload.extend_from_slice(&mdia);
    boxed(b"trak", &trak_payload)
}

fn audio_trak(avg_bitrate: u32, freq_index: u8, chan_cfg: u8) -> Vec<u8> {
    let mut entry_extra = vec![0u8; 28];
    entry_extra.extend_from_slice(&esds(avg_bitrate, freq_index, chan_cfg));
    let entry = boxed(b"mp4a", &entry_extra);
    let stbl = boxed(b"stbl", &stsd(&entry));
    let minf = boxed(b"minf", &stbl);
    let mut mdia_payload = mdhd(1000, 10000);
    mdia_payload.extend_from_slice(&hdlr(b"soun"));
    mdia_payload.extend_from_slice(&minf);
    let mdia = boxed(b"mdia", &mdia_payload);
    let mut trak_payload = tkhd(0, 0);
    trak_payload.extend_from_slice(&mdia);
    boxed(b"trak", &trak_payload)
}

fn subtitle_trak() -> Vec<u8> {
    let entry = boxed(b"tx3g", &[0u8; 8]);
    let stbl = boxed(b"stbl", &stsd(&entry));
    let minf = boxed(b"minf", &stbl);
    let mut mdia_payload = mdhd(1000, 10000);
    mdia_payload.extend_from_slice(&hdlr(b"text"));
    mdia_payload.extend_from_slice(&minf);
    let mdia = boxed(b"mdia", &mdia_payload);
    let mut trak_payload = tkhd(0, 0);
    trak_payload.extend_from_slice(&mdia);
    boxed(b"trak", &trak_payload)
}

fn container(traks: Vec<Vec<u8>>, total_len: usize) -> Vec<u8> {
    let mut moov_payload = mvhd(1000, 10000);
    for t in traks {
        moov_payload.extend_from_slice(&t);
    }
    let mut bytes = boxed(b"moov", &moov_payload);
    assert!(total_len >= bytes.len() + 8);
    let filler = total_len - bytes.len() - 8;
    bytes.extend_from_slice(&boxed(b"mdat", &vec![0u8; filler]));
    bytes
}

#[test]
fn test_mp4_parser() {
    let video = video_trak(1280, 720, stsz_fixed(5685, 250), 1000, 10000);
    let audio = audio_trak(0, 4, 2);
    let bytes = container(vec![video, audio], 5862561);

    let mp4_parser = Mp4Parser::new();
    let (container_meta, video_track, audio_track, subtitle_track) =
        mp4_parser.parse_from_bytes(&bytes).unwrap();
    assert_eq!(container_meta.file_size_in_kb, 5862561);
    let video_track_unwrapped = video_track.unwrap();

    assert_eq!(video_track_unwrapped.media_type, "h264");
    assert_eq!(video_track_unwrapped.bit_rate, 1137);
    assert_eq!(video_track_unwrapped.frame_rate, 25);
    assert_eq!(video_track_unwrapped.width, 1280);
    assert_eq!(video_track_unwrapped.height, 720);

    let audio_track_unwrapped = audio_track.unwrap();
    assert_eq!(audio_track_unwrapped.media_type, "aac");
    assert_eq!(audio_track_unwrapped.bit_rate, 0);
    assert_eq!(audio_track_unwrapped.sample_frequenz, 44100);

    assert_eq!(subtitle_track, None);
}

#[test]
fn test_container_duration_truncates() {
    // 200230 units at timescale 1000 is 200.23 seconds; whole seconds are kept.
    let mut moov_payload = mvhd(1000, 200230);
    moov_payload.extend_from_slice(&video_trak(320, 240, stsz_fixed(100, 10), 1000, 10000));
    let bytes = boxed(b"moov", &moov_payload);
    let parser = Mp4Parser::new();
    let (meta, _, _, _) = parser.parse_from_bytes(&bytes).unwrap();
    assert_eq!(meta.duration, 200);
    assert_eq!(meta.file_size_in_kb, bytes.len() as i64);
}

#[test]
fn test_bit_rate_truncation() {
    // A raw rate of 1,799,999 bits per second stores as 1799 kbps, not 1800.
    let audio = audio_trak(1_799_999, 4, 2);
    let bytes = container(vec![audio], 4096);
    let parser = Mp4Parser::new();
    let (_, _, audio_track, _) = parser.parse_from_bytes(&bytes).unwrap();
    assert_eq!(audio_track.unwrap().bit_rate, 1799);

    // The same rate computed from video sample sizes: 2,249,999 bytes over
    // 10 seconds is 1,799,999 bits per second (truncating), so 1799 kbps.
    let video = video_trak(64, 48, stsz_table(&[2_249_999]), 1000, 10000);
    let bytes = container(vec![video], 4 * 1024 * 1024);
    let (_, video_track, _, _) = parser.parse_from_bytes(&bytes).unwrap();
    assert_eq!(video_track.unwrap().bit_rate, 1799);
}

#[test]
fn test_unresolvable_channel_config() {
    let parser = Mp4Parser::new();
    for cfg in [0u8, 8, 9, 15] {
        let bytes = container(vec![audio_trak(128_000, 4, cfg)], 4096);
        let (_, _, audio_track, _) = parser.parse_from_bytes(&bytes).unwrap();
        assert_eq!(audio_track.unwrap().channel_config, "-");
    }
    let bytes = container(vec![audio_trak(128_000, 4, 2)], 4096);
    let (_, _, audio_track, _) = parser.parse_from_bytes(&bytes).unwrap();
    assert_eq!(audio_track.unwrap().channel_config, "stereo");
    let bytes = container(vec![audio_trak(128_000, 4, 1)], 4096);
    let (_, _, audio_track, _) = parser.parse_from_bytes(&bytes).unwrap();
    assert_eq!(audio_track.unwrap().channel_config, "mono");
}

#[test]
fn test_subtitle_only_container() {
    let bytes = container(vec![subtitle_trak()], 2048);
    let parser = Mp4Parser::new();
    let (meta, video, audio, subtitle) = parser.parse_from_bytes(&bytes).unwrap();
    assert_eq!(video, None);
    assert_eq!(audio, None);
    assert_eq!(subtitle.unwrap().media_type, "tx3g");
    assert_eq!(meta.duration, 10);
}

#[test]
fn test_last_track_of_a_kind_wins() {
    let first = video_trak(640, 480, stsz_fixed(100, 10), 1000, 10000);
    let second = video_trak(1920, 1080, stsz_fixed(100, 10), 1000, 10000);
    let bytes = container(vec![first, second], 65536);
    let parser = Mp4Parser::new();
    let (_, video, _, _) = parser.parse_from_bytes(&bytes).unwrap();
    let v = video.unwrap();
    assert_eq!(v.width, 1920);
    assert_eq!(v.height, 1080);
}

#[test]
fn test_malformed_containers_fail_with_offset() {
    let parser = Mp4Parser::new();

    // An empty file has no movie box; the walk stops at offset 0.
    assert_eq!(
        parser.parse_from_bytes(&Vec::new()),
        Err(ServiceError::ParseError(0))
    );

    // A header whose declared size runs past the end of the file.
    let mut truncated = Vec::new();
    truncated.extend_from_slice(&20u32.to_be_bytes());
    truncated.extend_from_slice(b"moov");
    assert_eq!(
        parser.parse_from_bytes(&truncated),
        Err(ServiceError::ParseError(0))
    );

    // A well-formed file without a movie box fails at its end.
    let free = boxed(b"free", &[0u8; 8]);
    assert_eq!(
        parser.parse_from_bytes(&free),
        Err(ServiceError::ParseError(free.len() as u64))
    );

    // A movie box without a movie header fails at the movie box's end.
    let empty_moov = boxed(b"moov", &[]);
    assert_eq!(
        parser.parse_from_bytes(&empty_moov),
        Err(ServiceError::ParseError(8))
    );
}

#[test]
fn test_unsupported_structures_fail() {
    let parser = Mp4Parser::new();

    // A handler kind that is neither video, audio nor subtitle.
    let entry = boxed(b"avc1", &[0u8; 8]);
    let stbl = boxed(b"stbl", &stsd(&entry));
    let minf = boxed(b"minf", &stbl);
    let mut mdia_payload = mdhd(1000, 10000);
    mdia_payload.extend_from_slice(&hdlr(b"meta"));
    mdia_payload.extend_from_slice(&minf);
    let mdia = boxed(b"mdia", &mdia_payload);
    let mut trak_payload = tkhd(0, 0);
    trak_payload.extend_from_slice(&mdia);
    let odd_handler = boxed(b"trak", &trak_payload);
    assert!(parser.parse_from_bytes(&container(vec![odd_handler], 4096)).is_err());

    // A reserved sampling-frequency index.
    let bad_freq = audio_trak(128_000, 13, 2);
    assert!(parser.parse_from_bytes(&container(vec![bad_freq], 4096)).is_err());

    // An unknown video codec.
    let entry = boxed(b"zzzz", &[0u8; 8]);
    let mut stbl_payload = stsd(&entry);
    stbl_payload.extend_from_slice(&stsz_fixed(100, 10));
    let stbl = boxed(b"stbl", &stbl_payload);
    let minf = boxed(b"minf", &stbl);
    let mut mdia_payload = mdhd(1000, 10000);
    mdia_payload.extend_from_slice(&hdlr(b"vide"));
    mdia_payload.extend_from_slice(&minf);
    let mdia = boxed(b"mdia", &mdia_payload);
    let mut trak_payload = tkhd(0, 0);
    trak_payload.extend_from_slice(&mdia);
    let unknown_codec = boxed(b"trak", &trak_payload);
    assert!(parser.parse_from_bytes(&container(vec![unknown_codec], 4096)).is_err());
}
