//! Container format parser: walks the nested box tree of an MP4/MOV-style
//! file held in memory, classifies each track by its handler kind, and
//! extracts normalized per-track attributes plus container-level summary
//! attributes.
//!
//! The supported box model is the classic layout: every box is a 32-bit
//! big-endian byte length (header included, at least 8) followed by a
//! four-byte type code and its payload; container boxes hold a plain
//! sequence of child boxes. A header that does not fit, a length below 8 or
//! past its parent, and any unsupported structure fail the parse with the
//! byte offset at which the walk stopped.

use vstd::prelude::*;

use crate::container_meta::{ContainerMeta, ContainerMetaView};
use crate::error::ServiceError;
use crate::model::Model;
use crate::track::{AudioTrack, AudioTrackView, SubtitleTrack, SubtitleTrackView, VideoTrack, VideoTrackView};

verus! {

broadcast use vstd::std_specs::vec::group_vec_axioms;

/// Box type codes (big-endian four-character codes).
pub const BOX_MOOV: u32 = 0x6D6F6F76;
pub const BOX_MVHD: u32 = 0x6D766864;
pub const BOX_TRAK: u32 = 0x7472616B;
pub const BOX_TKHD: u32 = 0x746B6864;
pub const BOX_MDIA: u32 = 0x6D646961;
pub const BOX_MDHD: u32 = 0x6D646864;
pub const BOX_HDLR: u32 = 0x68646C72;
pub const BOX_MINF: u32 = 0x6D696E66;
pub const BOX_STBL: u32 = 0x7374626C;
pub const BOX_STSD: u32 = 0x73747364;
pub const BOX_STSZ: u32 = 0x7374737A;
pub const BOX_ESDS: u32 = 0x65736473;

/// Handler kinds.
pub const HDLR_VIDE: u32 = 0x76696465;
pub const HDLR_SOUN: u32 = 0x736F756E;
pub const HDLR_TEXT: u32 = 0x74657874;
pub const HDLR_SBTL: u32 = 0x7362746C;

/// Sample entry codecs.
pub const CODEC_AVC1: u32 = 0x61766331;
pub const CODEC_HEV1: u32 = 0x68657631;
pub const CODEC_HVC1: u32 = 0x68766331;
pub const CODEC_VP09: u32 = 0x76703039;
pub const CODEC_MP4A: u32 = 0x6D703461;
pub const CODEC_TX3G: u32 = 0x74783367;

/// The big-endian 16-bit value at offset `p`.
pub open spec fn be16(b: Seq<u8>, p: int) -> int {
    b[p] * 0x100 + b[p + 1]
}

/// The big-endian 32-bit value at offset `p`.
pub open spec fn be32(b: Seq<u8>, p: int) -> int {
    b[p] * 0x1000000 + b[p + 1] * 0x10000 + b[p + 2] * 0x100 + b[p + 3]
}

/// Reads the big-endian 16-bit value at offset `p`.
pub fn read_be16(b: &Vec<u8>, p: usize) -> (r: u16)
    requires
        p + 2 <= b@.len(),
    ensures
        r == be16(b@, p as int),
{
    proof {
        assert(b.len() == b@.len());
    }
    (b[p] as u16) * 0x100 + (b[p + 1] as u16)
}

/// Reads the big-endian 32-bit value at offset `p`.
pub fn read_be32(b: &Vec<u8>, p: usize) -> (r: u32)
    requires
        p + 4 <= b@.len(),
    ensures
        r == be32(b@, p as int),
{
    proof {
        assert(b.len() == b@.len());
    }
    (b[p] as u32) * 0x1000000 + (b[p + 1] as u32) * 0x10000 + (b[p + 2] as u32) * 0x100
        + (b[p + 3] as u32)
}

/// Outcome of scanning one level of the box tree for a type.
pub enum ScanOutcome {
    /// Payload range `[body, end)` of the first box of the requested type.
    Found { body: int, end: int },
    /// The level ended without that box type.
    Absent,
    /// A malformed box header at this offset.
    Bad { at: int },
}

/// Scans the boxes laid out in `[p, end)` for the first box of type `typ`.
pub open spec fn scan_box(b: Seq<u8>, p: int, end: int, typ: u32) -> ScanOutcome
    decreases end - p when p <= end
{
    if p == end {
        ScanOutcome::Absent
    } else if p + 8 > end {
        ScanOutcome::Bad { at: p }
    } else {
        let size = be32(b, p);
        if size < 8 || size > end - p {
            ScanOutcome::Bad { at: p }
        } else if be32(b, p + 4) == typ {
            ScanOutcome::Found { body: p + 8, end: p + size }
        } else {
            scan_box(b, p + size, end, typ)
        }
    }
}

/// Finds the payload range of the first box of type `typ` among the boxes
/// in `[p, end)`; `Ok(None)` when the level holds no such box, the offending
/// offset when a header is malformed.
pub fn find_box(b: &Vec<u8>, p: usize, end: usize, typ: u32) -> (r: Result<Option<(usize, usize)>, usize>)
    requires
        p <= end <= b@.len(),
    ensures
        match r {
            Ok(Some((body, box_end))) => scan_box(b@, p as int, end as int, typ)
                == (ScanOutcome::Found { body: body as int, end: box_end as int })
                && p <= body <= box_end <= end && body >= 8,
            Ok(None) => scan_box(b@, p as int, end as int, typ) == ScanOutcome::Absent,
            Err(at) => scan_box(b@, p as int, end as int, typ)
                == (ScanOutcome::Bad { at: at as int }) && at <= end,
        },
{
    let mut q: usize = p;
    while q != end
        invariant
            p <= q <= end <= b@.len(),
            scan_box(b@, p as int, end as int, typ) == scan_box(b@, q as int, end as int, typ),
        decreases end - q,
    {
        if end - q < 8 {
            return Err(q);
        }
        let size = read_be32(b, q);
        if size < 8 || (size as usize) > end - q {
            return Err(q);
        }
        let t = read_be32(b, q + 4);
        if t == typ {
            return Ok(Some((q + 8, q + size as usize)));
        }
        q = q + size as usize;
    }
    Ok(None)
}

/// The big-endian 64-bit value at offset `p`.
pub open spec fn be64(b: Seq<u8>, p: int) -> int {
    be32(b, p) * 0x100000000 + be32(b, p + 4)
}

/// Reads the big-endian 64-bit value at offset `p`.
pub fn read_be64(b: &Vec<u8>, p: usize) -> (r: u64)
    requires
        p + 8 <= b@.len(),
    ensures
        r == be64(b@, p as int),
{
    proof {
        assert(b.len() == b@.len());
    }
    (read_be32(b, p) as u64) * 0x100000000 + (read_be32(b, p + 4) as u64)
}

/// Clamps a nonnegative value into `i32`.
pub open spec fn clamp_i32(v: int) -> i32 {
    if v > 0x7FFFFFFF { 0x7FFFFFFF } else { v as i32 }
}

/// Clamps a nonnegative value into `i64`.
pub open spec fn clamp_i64(v: int) -> i64 {
    if v > 0x7FFFFFFFFFFFFFFF { 0x7FFFFFFFFFFFFFFF } else { v as i64 }
}

/// Timescale and duration of a `mvhd` or `mdhd` payload: version 0 has
/// 32-bit times, version 1 has 64-bit times; any other version is
/// unsupported.
pub open spec fn spec_header_timing(b: Seq<u8>, body: int, end: int) -> Result<(int, int), int> {
    if body + 1 > end {
        Err(body)
    } else if b[body] == 0 {
        if body + 20 <= end {
            Ok((be32(b, body + 12), be32(b, body + 16)))
        } else {
            Err(body)
        }
    } else if b[body] == 1 {
        if body + 32 <= end {
            Ok((be32(b, body + 20), be64(b, body + 24)))
        } else {
            Err(body)
        }
    } else {
        Err(body)
    }
}

/// Reads the timescale and duration of a `mvhd`/`mdhd` payload.
pub fn read_header_timing(b: &Vec<u8>, body: usize, end: usize) -> (r: Result<(u32, u64), usize>)
    requires
        body <= end <= b@.len(),
    ensures
        match r {
            Ok((timescale, duration)) => spec_header_timing(b@, body as int, end as int)
                == Ok::<(int, int), int>((timescale as int, duration as int)),
            Err(at) => spec_header_timing(b@, body as int, end as int) == Err::<(int, int), int>(at as int),
        },
{
    if end - body < 1 {
        return Err(body);
    }
    let version = b[body];
    if version == 0 {
        if end - body >= 20 {
            Ok((read_be32(b, body + 12), read_be32(b, body + 16) as u64))
        } else {
            Err(body)
        }
    } else if version == 1 {
        if end - body >= 32 {
            Ok((read_be32(b, body + 20), read_be64(b, body + 24)))
        } else {
            Err(body)
        }
    } else {
        Err(body)
    }
}

/// Pixel width and height of a `tkhd` payload, stored as 16.16 fixed point
/// at the payload's tail.
pub open spec fn spec_tkhd_dims(b: Seq<u8>, body: int, end: int) -> Result<(i32, i32), int> {
    if body + 1 > end {
        Err(body)
    } else if b[body] == 0 {
        if body + 84 <= end {
            Ok((clamp_i32(be32(b, body + 76) / 0x10000), clamp_i32(be32(b, body + 80) / 0x10000)))
        } else {
            Err(body)
        }
    } else if b[body] == 1 {
        if body + 96 <= end {
            Ok((clamp_i32(be32(b, body + 88) / 0x10000), clamp_i32(be32(b, body + 92) / 0x10000)))
        } else {
            Err(body)
        }
    } else {
        Err(body)
    }
}

/// Reads the pixel width and height of a `tkhd` payload.
pub fn read_tkhd_dims(b: &Vec<u8>, body: usize, end: usize) -> (r: Result<(i32, i32), usize>)
    requires
        body <= end <= b@.len(),
    ensures
        match r {
            Ok((w, h)) => spec_tkhd_dims(b@, body as int, end as int) == Ok::<(i32, i32), int>((w, h)),
            Err(at) => spec_tkhd_dims(b@, body as int, end as int) == Err::<(i32, i32), int>(at as int),
        },
{
    if end - body < 1 {
        return Err(body);
    }
    let version = b[body];
    if version == 0 {
        if end - body >= 84 {
            let w = read_be32(b, body + 76) / 0x10000;
            let h = read_be32(b, body + 80) / 0x10000;
            Ok((w as i32, h as i32))
        } else {
            Err(body)
        }
    } else if version == 1 {
        if end - body >= 96 {
            let w = read_be32(b, body + 88) / 0x10000;
            let h = read_be32(b, body + 92) / 0x10000;
            Ok((w as i32, h as i32))
        } else {
            Err(body)
        }
    } else {
        Err(body)
    }
}

/// The handler kind code of a `hdlr` payload.
pub open spec fn spec_hdlr_kind(b: Seq<u8>, body: int, end: int) -> Result<int, int> {
    if body + 12 <= end {
        Ok(be32(b, body + 8))
    } else {
        Err(body)
    }
}

/// Reads the handler kind code of a `hdlr` payload.
pub fn read_hdlr_kind(b: &Vec<u8>, body: usize, end: usize) -> (r: Result<u32, usize>)
    requires
        body <= end <= b@.len(),
    ensures
        match r {
            Ok(kind) => spec_hdlr_kind(b@, body as int, end as int) == Ok::<int, int>(kind as int),
            Err(at) => spec_hdlr_kind(b@, body as int, end as int) == Err::<int, int>(at as int),
        },
{
    if end - body >= 12 {
        Ok(read_be32(b, body + 8))
    } else {
        Err(body)
    }
}

/// The first sample entry of a `stsd` payload: its codec code and its
/// payload range.
pub open spec fn spec_stsd_entry(b: Seq<u8>, body: int, end: int) -> Result<(int, int, int), int> {
    if body + 16 > end {
        Err(body)
    } else if be32(b, body + 4) < 1 {
        Err(body)
    } else {
        let esize = be32(b, body + 8);
        if esize < 8 || esize > end - (body + 8) {
            Err(body + 8)
        } else {
            Ok((be32(b, body + 12), body + 16, body + 8 + esize))
        }
    }
}

/// Reads the first sample entry of a `stsd` payload: the codec code and the
/// range of the entry's fields and child boxes.
pub fn read_stsd_entry(b: &Vec<u8>, body: usize, end: usize) -> (r: Result<(u32, usize, usize), usize>)
    requires
        body <= end <= b@.len(),
    ensures
        match r {
            Ok((codec, ebody, eend)) => spec_stsd_entry(b@, body as int, end as int)
                == Ok::<(int, int, int), int>((codec as int, ebody as int, eend as int))
                && body <= ebody <= eend <= end,
            Err(at) => spec_stsd_entry(b@, body as int, end as int) == Err::<(int, int, int), int>(at as int),
        },
{
    if end - body < 16 {
        return Err(body);
    }
    if read_be32(b, body + 4) < 1 {
        return Err(body);
    }
    let esize = read_be32(b, body + 8);
    if esize < 8 || (esize as usize) > end - (body + 8) {
        return Err(body + 8);
    }
    Ok((read_be32(b, body + 12), body + 16, body + 8 + esize as usize))
}

/// Sum of the first `n` 32-bit sample sizes starting at offset `p`.
pub open spec fn stsz_sum(b: Seq<u8>, p: int, n: int) -> int
    decreases n when n >= 0
{
    if n <= 0 {
        0
    } else {
        be32(b, p) + stsz_sum(b, p + 4, n - 1)
    }
}

/// The sum over `n + 1` entries is the sum over the first `n` plus the
/// last entry.
pub proof fn lemma_stsz_sum_snoc(b: Seq<u8>, p: int, n: int)
    requires
        n >= 0,
    ensures
        stsz_sum(b, p, n + 1) == stsz_sum(b, p, n) + be32(b, p + 4 * n),
    decreases n,
{
    assert(stsz_sum(b, p, n + 1) == be32(b, p) + stsz_sum(b, p + 4, n));
    if n > 0 {
        lemma_stsz_sum_snoc(b, p + 4, n - 1);
        assert(stsz_sum(b, p, n) == be32(b, p) + stsz_sum(b, p + 4, n - 1));
    } else {
        assert(stsz_sum(b, p, 0) == 0);
    }
}

/// Total sample bytes and sample count of a `stsz` payload: either a
/// constant sample size times the count, or the sum of the per-sample size
/// table.
pub open spec fn spec_stsz_totals(b: Seq<u8>, body: int, end: int) -> Result<(int, int), int> {
    if body + 12 > end {
        Err(body)
    } else {
        let sample_size = be32(b, body + 4);
        let count = be32(b, body + 8);
        if sample_size != 0 {
            Ok((sample_size * count, count))
        } else if body + 12 + 4 * count <= end {
            Ok((stsz_sum(b, body + 12, count), count))
        } else {
            Err(body)
        }
    }
}

/// Reads the total sample bytes and the sample count of a `stsz` payload.
pub fn read_stsz_totals(b: &Vec<u8>, body: usize, end: usize) -> (r: Result<(u64, u32), usize>)
    requires
        body <= end <= b@.len(),
    ensures
        match r {
            Ok((total, count)) => spec_stsz_totals(b@, body as int, end as int)
                == Ok::<(int, int), int>((total as int, count as int)),
            Err(at) => spec_stsz_totals(b@, body as int, end as int) == Err::<(int, int), int>(at as int),
        },
{
    if end - body < 12 {
        return Err(body);
    }
    let sample_size = read_be32(b, body + 4);
    let count = read_be32(b, body + 8);
    if sample_size != 0 {
        proof {
            assert((sample_size as int) * (count as int) <= 0xFFFFFFFF * 0xFFFFFFFF)
                by (nonlinear_arith)
                requires
                    sample_size as int <= 0xFFFFFFFF,
                    count as int <= 0xFFFFFFFF,
            ;
        }
        return Ok(((sample_size as u64) * (count as u64), count));
    }
    if (count as usize) > (end - (body + 12)) / 4 {
        proof {
            assert(!(body + 12 + 4 * (count as int) <= end));
        }
        return Err(body);
    }
    let mut total: u64 = 0;
    let mut i: u32 = 0;
    while i < count
        invariant
            i <= count,
            body + 12 + 4 * (count as int) <= end <= b@.len(),
            total <= (i as u64) * 0xFFFFFFFFu64,
            total == stsz_sum(b@, body as int + 12, i as int),
        decreases count - i,
    {
        let e = read_be32(b, body + 12 + 4 * (i as usize));
        proof {
            lemma_stsz_sum_snoc(b@, body as int + 12, i as int);
        }
        total = total + (e as u64);
        i = i + 1;
    }
    Ok((total, count))
}

/// Length and header size of an MPEG-4 descriptor's expandable size field:
/// one to four bytes, each contributing seven value bits, the high bit
/// marking continuation.
pub open spec fn spec_desc_len(b: Seq<u8>, p: int, end: int) -> Option<(int, int)> {
    if p >= end {
        None
    } else if b[p] < 0x80 {
        Some((b[p] as int, 1))
    } else if p + 1 >= end {
        None
    } else if b[p + 1] < 0x80 {
        Some(((b[p] - 0x80) * 0x80 + b[p + 1], 2))
    } else if p + 2 >= end {
        None
    } else if b[p + 2] < 0x80 {
        Some((((b[p] - 0x80) * 0x80 + (b[p + 1] - 0x80)) * 0x80 + b[p + 2], 3))
    } else if p + 3 >= end {
        None
    } else if b[p + 3] < 0x80 {
        Some((((((b[p] - 0x80) * 0x80 + (b[p + 1] - 0x80)) * 0x80 + (b[p + 2] - 0x80)) * 0x80)
            + b[p + 3], 4))
    } else {
        None
    }
}

/// Reads a descriptor's expandable size field at offset `p`.
pub fn read_desc_len(b: &Vec<u8>, p: usize, end: usize) -> (r: Option<(u32, usize)>)
    requires
        p <= end <= b@.len(),
    ensures
        match r {
            Some((size, hdr)) => spec_desc_len(b@, p as int, end as int)
                == Some((size as int, hdr as int)) && 1 <= hdr <= 4,
            None => spec_desc_len(b@, p as int, end as int) is None,
        },
{
    if p >= end {
        return None;
    }
    let b0 = b[p];
    if b0 < 0x80 {
        return Some((b0 as u32, 1));
    }
    if p + 1 >= end {
        return None;
    }
    let b1 = b[p + 1];
    if b1 < 0x80 {
        return Some((((b0 - 0x80) as u32) * 0x80 + (b1 as u32), 2));
    }
    if p + 2 >= end {
        return None;
    }
    let b2 = b[p + 2];
    if b2 < 0x80 {
        return Some(
            ((((b0 - 0x80) as u32) * 0x80 + ((b1 - 0x80) as u32)) * 0x80 + (b2 as u32), 3),
        );
    }
    if p + 3 >= end {
        return None;
    }
    let b3 = b[p + 3];
    if b3 < 0x80 {
        return Some(
            (
                (((((b0 - 0x80) as u32) * 0x80 + ((b1 - 0x80) as u32)) * 0x80 + ((b2 - 0x80)
                    as u32)) * 0x80) + (b3 as u32),
                4,
            ),
        );
    }
    None
}

/// Scans the descriptors laid out in `[p, end)` for the first one with the
/// given tag, yielding its payload range.
pub open spec fn scan_desc(b: Seq<u8>, p: int, end: int, tag: u8) -> ScanOutcome
    decreases end - p when p <= end
{
    if p == end {
        ScanOutcome::Absent
    } else {
        match spec_desc_len(b, p + 1, end) {
            None => ScanOutcome::Bad { at: p },
            Some((size, hdr)) => {
                if size > end - (p + 1 + hdr) {
                    ScanOutcome::Bad { at: p }
                } else if b[p] == tag {
                    ScanOutcome::Found { body: p + 1 + hdr, end: p + 1 + hdr + size }
                } else {
                    scan_desc(b, p + 1 + hdr + size, end, tag)
                }
            },
        }
    }
}

/// Finds the payload range of the first descriptor with tag `tag` among the
/// descriptors in `[p, end)`.
pub fn find_desc(b: &Vec<u8>, p: usize, end: usize, tag: u8) -> (r: Result<Option<(usize, usize)>, usize>)
    requires
        p <= end <= b@.len(),
    ensures
        match r {
            Ok(Some((body, dend))) => scan_desc(b@, p as int, end as int, tag)
                == (ScanOutcome::Found { body: body as int, end: dend as int })
                && p <= body <= dend <= end,
            Ok(None) => scan_desc(b@, p as int, end as int, tag) == ScanOutcome::Absent,
            Err(at) => scan_desc(b@, p as int, end as int, tag)
                == (ScanOutcome::Bad { at: at as int }) && at <= end,
        },
{
    let mut q: usize = p;
    while q != end
        invariant
            p <= q <= end <= b@.len(),
            scan_desc(b@, p as int, end as int, tag) == scan_desc(b@, q as int, end as int, tag),
        decreases end - q,
    {
        let t = b[q];
        match read_desc_len(b, q + 1, end) {
            None => {
                return Err(q);
            },
            Some((size, hdr)) => {
                if (size as usize) > end - (q + 1 + hdr) {
                    return Err(q);
                }
                if t == tag {
                    return Ok(Some((q + 1 + hdr, q + 1 + hdr + size as usize)));
                }
                q = q + 1 + hdr + size as usize;
            },
        }
    }
    Ok(None)
}

/// MPEG-4 descriptor tags used inside an `esds` box.
pub const DESC_ES: u8 = 0x03;
pub const DESC_DECODER_CONFIG: u8 = 0x04;
pub const DESC_SPECIFIC_INFO: u8 = 0x05;

/// Average bit rate (bits per second), sampling-frequency index and channel
/// configuration of an `esds` payload: the elementary-stream descriptor's
/// decoder configuration plus the audio-specific configuration inside it.
/// An elementary-stream descriptor with optional dependency or URL fields
/// is unsupported.
pub open spec fn spec_esds_info(b: Seq<u8>, body: int, end: int) -> Result<(int, int, int), int> {
    if body + 4 > end {
        Err(body)
    } else {
        match scan_desc(b, body + 4, end, DESC_ES) {
            ScanOutcome::Bad { at } => Err(at),
            ScanOutcome::Absent => Err(end),
            ScanOutcome::Found { body: eb, end: ee } => {
                if eb + 3 > ee {
                    Err(eb)
                } else if b[eb + 2] >= 0x20 {
                    Err(eb)
                } else {
                    match scan_desc(b, eb + 3, ee, DESC_DECODER_CONFIG) {
                        ScanOutcome::Bad { at } => Err(at),
                        ScanOutcome::Absent => Err(ee),
                        ScanOutcome::Found { body: db, end: de } => {
                            if db + 13 > de {
                                Err(db)
                            } else {
                                match scan_desc(b, db + 13, de, DESC_SPECIFIC_INFO) {
                                    ScanOutcome::Bad { at } => Err(at),
                                    ScanOutcome::Absent => Err(de),
                                    ScanOutcome::Found { body: sb, end: se } => {
                                        if sb + 2 > se {
                                            Err(sb)
                                        } else {
                                            Ok((
                                                be32(b, db + 9),
                                                (b[sb] % 8) * 2 + b[sb + 1] / 0x80,
                                                ((b[sb + 1] / 8) % 16) as int,
                                            ))
                                        }
                                    },
                                }
                            }
                        },
                    }
                }
            },
        }
    }
}

/// Reads the average bit rate, sampling-frequency index and channel
/// configuration out of an `esds` payload.
pub fn read_esds_info(b: &Vec<u8>, body: usize, end: usize) -> (r: Result<(u32, u8, u8), usize>)
    requires
        body <= end <= b@.len(),
    ensures
        match r {
            Ok((avg, freq_index, chan_cfg)) => spec_esds_info(b@, body as int, end as int)
                == Ok::<(int, int, int), int>((avg as int, freq_index as int, chan_cfg as int)),
            Err(at) => spec_esds_info(b@, body as int, end as int) == Err::<(int, int, int), int>(at as int)
                && at <= end,
        },
{
    if end - body < 4 {
        return Err(body);
    }
    let es = match find_desc(b, body + 4, end, DESC_ES) {
        Err(at) => {
            return Err(at);
        },
        Ok(None) => {
            return Err(end);
        },
        Ok(Some(range)) => range,
    };
    let (eb, ee) = es;
    if ee - eb < 3 {
        return Err(eb);
    }
    if b[eb + 2] >= 0x20 {
        return Err(eb);
    }
    let dc = match find_desc(b, eb + 3, ee, DESC_DECODER_CONFIG) {
        Err(at) => {
            return Err(at);
        },
        Ok(None) => {
            return Err(ee);
        },
        Ok(Some(range)) => range,
    };
    let (db, de) = dc;
    if de - db < 13 {
        return Err(db);
    }
    let avg = read_be32(b, db + 9);
    let si = match find_desc(b, db + 13, de, DESC_SPECIFIC_INFO) {
        Err(at) => {
            return Err(at);
        },
        Ok(None) => {
            return Err(de);
        },
        Ok(Some(range)) => range,
    };
    let (sb, se) = si;
    if se - sb < 2 {
        return Err(sb);
    }
    let freq_index = (b[sb] % 8) * 2 + b[sb + 1] / 0x80;
    let chan_cfg = (b[sb + 1] / 8) % 16;
    Ok((avg, freq_index, chan_cfg))
}

/// The sampling frequency, in hertz, that an AAC frequency index denotes,
/// or -1 for a reserved index.
pub open spec fn freq_of_index(i: int) -> int {
    if i == 0 { 96000 } else if i == 1 { 88200 } else if i == 2 { 64000 }
    else if i == 3 { 48000 } else if i == 4 { 44100 } else if i == 5 { 32000 }
    else if i == 6 { 24000 } else if i == 7 { 22050 } else if i == 8 { 16000 }
    else if i == 9 { 12000 } else if i == 10 { 11025 } else if i == 11 { 8000 }
    else if i == 12 { 7350 } else { -1 }
}

/// Looks up the sampling frequency of an AAC frequency index.
pub fn freq_for_index(i: u8) -> (r: i32)
    ensures
        r == (if freq_of_index(i as int) >= 0 { freq_of_index(i as int) } else { -1 }),
{
    match i {
        0 => 96000, 1 => 88200, 2 => 64000, 3 => 48000, 4 => 44100, 5 => 32000,
        6 => 24000, 7 => 22050, 8 => 16000, 9 => 12000, 10 => 11025, 11 => 8000,
        12 => 7350, _ => -1,
    }
}

/// The speaker-layout label of an AAC channel configuration; any value that
/// names no layout yields the `"-"` sentinel, never an error.
pub open spec fn channel_label(c: int) -> Seq<char> {
    if c == 1 { "mono"@ } else if c == 2 { "stereo"@ } else if c == 3 { "three"@ }
    else if c == 4 { "four"@ } else if c == 5 { "five"@ } else if c == 6 { "five_one"@ }
    else if c == 7 { "seven_one"@ } else { "-"@ }
}

/// Resolves the speaker-layout label of an AAC channel configuration.
pub fn channel_label_string(c: u8) -> (r: String)
    ensures
        r@ == channel_label(c as int),
{
    let s = match c {
        1 => "mono", 2 => "stereo", 3 => "three", 4 => "four",
        5 => "five", 6 => "five_one", 7 => "seven_one", _ => "-",
    };
    <String as vstd::string::StringExecFns>::from_str(s)
}

/// The media subtype a video sample-entry codec code denotes.
pub open spec fn video_subtype(codec: int) -> Option<Seq<char>> {
    if codec == CODEC_AVC1 { Some("h264"@) }
    else if codec == CODEC_HEV1 || codec == CODEC_HVC1 { Some("h265"@) }
    else if codec == CODEC_VP09 { Some("vp9"@) }
    else { None }
}

/// One parsed track, classified by its handler kind.
pub enum TrackData {
    Vid(VideoTrack),
    Aud(AudioTrack),
    Sub(SubtitleTrack),
}

/// Spec-level image of one parsed track.
pub enum TrackInfo {
    Vid(VideoTrackView),
    Aud(AudioTrackView),
    Sub(SubtitleTrackView),
    Bad(int),
}

/// Extracts the track laid out in the `trak` payload `[body, end)`:
/// geometry from the track header, timing from the media header, the kind
/// from the handler box, and codec attributes from the first sample-table
/// entry. Bit rates are kilobits per second, truncated from raw bits per
/// second; frame rate is whole frames per second, truncated.
pub open spec fn spec_parse_trak(b: Seq<u8>, body: int, end: int) -> TrackInfo {
    let tkhd = scan_box(b, body, end, BOX_TKHD);
    let mdia = scan_box(b, body, end, BOX_MDIA);
    match (tkhd, mdia) {
        (ScanOutcome::Bad { at }, _) => TrackInfo::Bad(at),
        (ScanOutcome::Absent, _) => TrackInfo::Bad(end),
        (ScanOutcome::Found { .. }, ScanOutcome::Bad { at }) => TrackInfo::Bad(at),
        (ScanOutcome::Found { .. }, ScanOutcome::Absent) => TrackInfo::Bad(end),
        (
            ScanOutcome::Found { body: tb, end: te },
            ScanOutcome::Found { body: mb, end: me },
        ) => match spec_tkhd_dims(b, tb, te) {
            Err(at) => TrackInfo::Bad(at),
            Ok((width, height)) => match scan_box(b, mb, me, BOX_MDHD) {
                ScanOutcome::Bad { at } => TrackInfo::Bad(at),
                ScanOutcome::Absent => TrackInfo::Bad(me),
                ScanOutcome::Found { body: hb, end: he } => match spec_header_timing(b, hb, he) {
                    Err(at) => TrackInfo::Bad(at),
                    Ok((timescale, duration)) => if timescale == 0 {
                        TrackInfo::Bad(hb)
                    } else {
                        match scan_box(b, mb, me, BOX_HDLR) {
                            ScanOutcome::Bad { at } => TrackInfo::Bad(at),
                            ScanOutcome::Absent => TrackInfo::Bad(me),
                            ScanOutcome::Found { body: kb, end: ke } => match spec_hdlr_kind(b, kb, ke) {
                                Err(at) => TrackInfo::Bad(at),
                                Ok(kind) => spec_parse_media(
                                    b, mb, me, kind, width, height, timescale, duration,
                                ),
                            },
                        }
                    },
                },
            },
        },
    }
}

/// Continues [`spec_parse_trak`] below the media box: finds the sample
/// table and dispatches on the handler kind.
pub open spec fn spec_parse_media(
    b: Seq<u8>,
    mb: int,
    me: int,
    kind: int,
    width: i32,
    height: i32,
    timescale: int,
    duration: int,
) -> TrackInfo {
    match scan_box(b, mb, me, BOX_MINF) {
        ScanOutcome::Bad { at } => TrackInfo::Bad(at),
        ScanOutcome::Absent => TrackInfo::Bad(me),
        ScanOutcome::Found { body: fb, end: fe } => match scan_box(b, fb, fe, BOX_STBL) {
            ScanOutcome::Bad { at } => TrackInfo::Bad(at),
            ScanOutcome::Absent => TrackInfo::Bad(fe),
            ScanOutcome::Found { body: sb, end: se } => match scan_box(b, sb, se, BOX_STSD) {
                ScanOutcome::Bad { at } => TrackInfo::Bad(at),
                ScanOutcome::Absent => TrackInfo::Bad(se),
                ScanOutcome::Found { body: db, end: de } => match spec_stsd_entry(b, db, de) {
                    Err(at) => TrackInfo::Bad(at),
                    Ok((codec, eb, ee)) => {
                        if kind == HDLR_VIDE {
                            spec_video_track(b, sb, se, codec, eb, width, height, timescale, duration)
                        } else if kind == HDLR_SOUN {
                            spec_audio_track(b, codec, eb, ee)
                        } else if kind == HDLR_TEXT || kind == HDLR_SBTL {
                            if codec == CODEC_TX3G {
                                TrackInfo::Sub(SubtitleTrackView {
                                    id: 0,
                                    container_meta_id: 0,
                                    name: Seq::<char>::empty(),
                                    media_type: "tx3g"@,
                                })
                            } else {
                                TrackInfo::Bad(eb)
                            }
                        } else {
                            TrackInfo::Bad(mb)
                        }
                    },
                },
            },
        },
    }
}

/// The video-track attributes: subtype from the codec code, bit rate from
/// the sample-size totals over the media duration.
pub open spec fn spec_video_track(
    b: Seq<u8>,
    sb: int,
    se: int,
    codec: int,
    eb: int,
    width: i32,
    height: i32,
    timescale: int,
    duration: int,
) -> TrackInfo {
    match video_subtype(codec) {
        None => TrackInfo::Bad(eb),
        Some(subtype) => match scan_box(b, sb, se, BOX_STSZ) {
            ScanOutcome::Bad { at } => TrackInfo::Bad(at),
            ScanOutcome::Absent => TrackInfo::Bad(se),
            ScanOutcome::Found { body: zb, end: ze } => match spec_stsz_totals(b, zb, ze) {
                Err(at) => TrackInfo::Bad(at),
                Ok((total, count)) => TrackInfo::Vid(VideoTrackView {
                    id: 0,
                    container_meta_id: 0,
                    name: Seq::<char>::empty(),
                    media_type: subtype,
                    width: width,
                    height: height,
                    bit_rate: if duration == 0 {
                        0
                    } else {
                        clamp_i32(total * 8 * timescale / duration / 1000)
                    },
                    frame_rate: if duration == 0 {
                        0
                    } else {
                        clamp_i32(count * timescale / duration)
                    },
                }),
            },
        },
    }
}

/// Parses one `trak` payload.
pub fn parse_trak(b: &Vec<u8>, body: usize, end: usize) -> (r: Result<TrackData, usize>)
    requires
        body <= end <= b@.len(),
    ensures
        match r {
            Ok(TrackData::Vid(t)) => spec_parse_trak(b@, body as int, end as int) == TrackInfo::Vid(t@),
            Ok(TrackData::Aud(t)) => spec_parse_trak(b@, body as int, end as int) == TrackInfo::Aud(t@),
            Ok(TrackData::Sub(t)) => spec_parse_trak(b@, body as int, end as int) == TrackInfo::Sub(t@),
            Err(at) => spec_parse_trak(b@, body as int, end as int) == TrackInfo::Bad(at as int)
                && at <= end,
        },
{
    let (tb, te) = match find_box(b, body, end, BOX_TKHD) {
        Err(at) => {
            return Err(at);
        },
        Ok(None) => {
            return Err(end);
        },
        Ok(Some(range)) => range,
    };
    let (mb, me) = match find_box(b, body, end, BOX_MDIA) {
        Err(at) => {
            return Err(at);
        },
        Ok(None) => {
            return Err(end);
        },
        Ok(Some(range)) => range,
    };
    let (width, height) = match read_tkhd_dims(b, tb, te) {
        Err(at) => {
            return Err(at);
        },
        Ok(dims) => dims,
    };
    let (hb, he) = match find_box(b, mb, me, BOX_MDHD) {
        Err(at) => {
            return Err(at);
        },
        Ok(None) => {
            return Err(me);
        },
        Ok(Some(range)) => range,
    };
    let (timescale, duration) = match read_header_timing(b, hb, he) {
        Err(at) => {
            return Err(at);
        },
        Ok(timing) => timing,
    };
    if timescale == 0 {
        return Err(hb);
    }
    let (kb, ke) = match find_box(b, mb, me, BOX_HDLR) {
        Err(at) => {
            return Err(at);
        },
        Ok(None) => {
            return Err(me);
        },
        Ok(Some(range)) => range,
    };
    let kind = match read_hdlr_kind(b, kb, ke) {
        Err(at) => {
            return Err(at);
        },
        Ok(kind) => kind,
    };
    let (fb, fe) = match find_box(b, mb, me, BOX_MINF) {
        Err(at) => {
            return Err(at);
        },
        Ok(None) => {
            return Err(me);
        },
        Ok(Some(range)) => range,
    };
    let (sb, se) = match find_box(b, fb, fe, BOX_STBL) {
        Err(at) => {
            return Err(at);
        },
        Ok(None) => {
            return Err(fe);
        },
        Ok(Some(range)) => range,
    };
    let (db, de) = match find_box(b, sb, se, BOX_STSD) {
        Err(at) => {
            return Err(at);
        },
        Ok(None) => {
            return Err(se);
        },
        Ok(Some(range)) => range,
    };
    let (codec, eb, ee) = match read_stsd_entry(b, db, de) {
        Err(at) => {
            return Err(at);
        },
        Ok(entry) => entry,
    };
    if kind == HDLR_VIDE {
        parse_video_entry(b, sb, se, codec, eb, width, height, timescale, duration)
    } else if kind == HDLR_SOUN {
        parse_audio_entry(b, codec, eb, ee)
    } else if kind == HDLR_TEXT || kind == HDLR_SBTL {
        if codec == CODEC_TX3G {
            Ok(TrackData::Sub(SubtitleTrack {
                id: 0,
                container_meta_id: 0,
                name: String::new(),
                media_type: <String as vstd::string::StringExecFns>::from_str("tx3g"),
            }))
        } else {
            Err(eb)
        }
    } else {
        Err(mb)
    }
}

/// Finishes a video track: subtype from the codec code and rates from the
/// sample sizes.
fn parse_video_entry(
    b: &Vec<u8>,
    sb: usize,
    se: usize,
    codec: u32,
    eb: usize,
    width: i32,
    height: i32,
    timescale: u32,
    duration: u64,
) -> (r: Result<TrackData, usize>)
    requires
        sb <= se <= b@.len(),
        eb <= se,
        timescale > 0,
    ensures
        match r {
            Ok(TrackData::Vid(t)) => spec_video_track(
                b@, sb as int, se as int, codec as int, eb as int, width, height,
                timescale as int, duration as int,
            ) == TrackInfo::Vid(t@),
            Ok(TrackData::Aud(t)) => false,
            Ok(TrackData::Sub(t)) => false,
            Err(at) => spec_video_track(
                b@, sb as int, se as int, codec as int, eb as int, width, height,
                timescale as int, duration as int,
            ) == TrackInfo::Bad(at as int) && at <= se,
        },
{
    let subtype: &'static str = if codec == CODEC_AVC1 {
        "h264"
    } else if codec == CODEC_HEV1 || codec == CODEC_HVC1 {
        "h265"
    } else if codec == CODEC_VP09 {
        "vp9"
    } else {
        return Err(eb);
    };
    let (zb, ze) = match find_box(b, sb, se, BOX_STSZ) {
        Err(at) => {
            return Err(at);
        },
        Ok(None) => {
            return Err(se);
        },
        Ok(Some(range)) => range,
    };
    let (total, count) = match read_stsz_totals(b, zb, ze) {
        Err(at) => {
            return Err(at);
        },
        Ok(totals) => totals,
    };
    let bit_rate: i32 = if duration == 0 {
        0
    } else {
        proof {
            assert((total as int) * 8 * (timescale as int)
                <= 0xFFFFFFFFFFFFFFFF * 8 * 0xFFFFFFFF) by (nonlinear_arith)
                requires
                    total as int <= 0xFFFFFFFFFFFFFFFF,
                    timescale as int <= 0xFFFFFFFF,
            ;
        }
        let raw: u128 = (total as u128) * 8 * (timescale as u128) / (duration as u128) / 1000;
        if raw > 0x7FFFFFFF {
            0x7FFFFFFF
        } else {
            raw as i32
        }
    };
    let frame_rate: i32 = if duration == 0 {
        0
    } else {
        proof {
            assert((count as int) * (timescale as int) <= 0xFFFFFFFF * 0xFFFFFFFF)
                by (nonlinear_arith)
                requires
                    count as int <= 0xFFFFFFFF,
                    timescale as int <= 0xFFFFFFFF,
            ;
        }
        let fr: u128 = (count as u128) * (timescale as u128) / (duration as u128);
        if fr > 0x7FFFFFFF {
            0x7FFFFFFF
        } else {
            fr as i32
        }
    };
    Ok(TrackData::Vid(VideoTrack {
        id: 0,
        container_meta_id: 0,
        name: String::new(),
        media_type: <String as vstd::string::StringExecFns>::from_str(subtype),
        width,
        height,
        bit_rate,
        frame_rate,
    }))
}

/// Finishes an audio track from its `mp4a` sample entry.
fn parse_audio_entry(b: &Vec<u8>, codec: u32, eb: usize, ee: usize) -> (r: Result<TrackData, usize>)
    requires
        eb <= ee <= b@.len(),
    ensures
        match r {
            Ok(TrackData::Aud(t)) => spec_audio_track(b@, codec as int, eb as int, ee as int)
                == TrackInfo::Aud(t@),
            Ok(TrackData::Vid(t)) => false,
            Ok(TrackData::Sub(t)) => false,
            Err(at) => spec_audio_track(b@, codec as int, eb as int, ee as int)
                == TrackInfo::Bad(at as int) && at <= ee,
        },
{
    if codec != CODEC_MP4A {
        return Err(eb);
    }
    if ee - eb < 28 {
        return Err(eb);
    }
    let (xb, xe) = match find_box(b, eb + 28, ee, BOX_ESDS) {
        Err(at) => {
            return Err(at);
        },
        Ok(None) => {
            return Err(ee);
        },
        Ok(Some(range)) => range,
    };
    let (avg, freq_index, chan_cfg) = match read_esds_info(b, xb, xe) {
        Err(at) => {
            return Err(at);
        },
        Ok(info) => info,
    };
    let hz = freq_for_index(freq_index);
    if hz < 0 {
        return Err(eb);
    }
    Ok(TrackData::Aud(AudioTrack {
        id: 0,
        container_meta_id: 0,
        name: String::new(),
        media_type: <String as vstd::string::StringExecFns>::from_str("aac"),
        bit_rate: (avg / 1000) as i32,
        channel_config: channel_label_string(chan_cfg),
        sample_frequenz: hz,
    }))
}

/// The audio-track attributes: AAC only, with bit rate, frequency index and
/// channel configuration from the `esds` decoder configuration. A reserved
/// frequency index fails; an unresolvable channel configuration stores the
/// `"-"` sentinel.
pub open spec fn spec_audio_track(b: Seq<u8>, codec: int, eb: int, ee: int) -> TrackInfo {
    if codec != CODEC_MP4A {
        TrackInfo::Bad(eb)
    } else if eb + 28 > ee {
        TrackInfo::Bad(eb)
    } else {
        match scan_box(b, eb + 28, ee, BOX_ESDS) {
            ScanOutcome::Bad { at } => TrackInfo::Bad(at),
            ScanOutcome::Absent => TrackInfo::Bad(ee),
            ScanOutcome::Found { body: xb, end: xe } => match spec_esds_info(b, xb, xe) {
                Err(at) => TrackInfo::Bad(at),
                Ok((avg, freq_index, chan_cfg)) => {
                    if freq_of_index(freq_index) < 0 {
                        TrackInfo::Bad(eb)
                    } else {
                        TrackInfo::Aud(AudioTrackView {
                            id: 0,
                            container_meta_id: 0,
                            name: Seq::<char>::empty(),
                            media_type: "aac"@,
                            bit_rate: clamp_i32(avg / 1000),
                            channel_config: channel_label(chan_cfg),
                            sample_frequenz: clamp_i32(freq_of_index(freq_index)),
                        })
                    }
                },
            },
        }
    }
}

/// Outcome of folding every `trak` box at one level, last write winning per
/// track kind.
pub enum TraksInfo {
    Done {
        video: Option<VideoTrackView>,
        audio: Option<AudioTrackView>,
        subtitle: Option<SubtitleTrackView>,
    },
    Bad(int),
}

/// Spec-level image of an optional video track.
pub open spec fn opt_video_view(v: Option<VideoTrack>) -> Option<VideoTrackView> {
    match v {
        Some(t) => Some(t@),
        None => None,
    }
}

/// Spec-level image of an optional audio track.
pub open spec fn opt_audio_view(a: Option<AudioTrack>) -> Option<AudioTrackView> {
    match a {
        Some(t) => Some(t@),
        None => None,
    }
}

/// Spec-level image of an optional subtitle track.
pub open spec fn opt_subtitle_view(s: Option<SubtitleTrack>) -> Option<SubtitleTrackView> {
    match s {
        Some(t) => Some(t@),
        None => None,
    }
}

/// Folds the boxes in `[p, end)`: every `trak` box is parsed and lands in
/// the slot of its kind, overwriting an earlier track of the same kind;
/// other boxes are skipped.
pub open spec fn spec_scan_traks(
    b: Seq<u8>,
    p: int,
    end: int,
    video: Option<VideoTrackView>,
    audio: Option<AudioTrackView>,
    subtitle: Option<SubtitleTrackView>,
) -> TraksInfo
    decreases end - p when p <= end
{
    if p == end {
        TraksInfo::Done { video, audio, subtitle }
    } else if p + 8 > end {
        TraksInfo::Bad(p)
    } else {
        let size = be32(b, p);
        if size < 8 || size > end - p {
            TraksInfo::Bad(p)
        } else if be32(b, p + 4) == BOX_TRAK {
            match spec_parse_trak(b, p + 8, p + size) {
                TrackInfo::Bad(at) => TraksInfo::Bad(at),
                TrackInfo::Vid(t) => spec_scan_traks(b, p + size, end, Some(t), audio, subtitle),
                TrackInfo::Aud(t) => spec_scan_traks(b, p + size, end, video, Some(t), subtitle),
                TrackInfo::Sub(t) => spec_scan_traks(b, p + size, end, video, audio, Some(t)),
            }
        } else {
            spec_scan_traks(b, p + size, end, video, audio, subtitle)
        }
    }
}

/// Parses every `trak` box in `[p, end)`, keeping the last track of each
/// kind.
pub fn collect_traks(b: &Vec<u8>, p: usize, end: usize) -> (r: Result<
    (Option<VideoTrack>, Option<AudioTrack>, Option<SubtitleTrack>),
    usize,
>)
    requires
        p <= end <= b@.len(),
    ensures
        match r {
            Ok((video, audio, subtitle)) => spec_scan_traks(b@, p as int, end as int, None, None, None)
                == (TraksInfo::Done {
                    video: opt_video_view(video),
                    audio: opt_audio_view(audio),
                    subtitle: opt_subtitle_view(subtitle),
                }),
            Err(at) => spec_scan_traks(b@, p as int, end as int, None, None, None)
                == TraksInfo::Bad(at as int) && at <= end,
        },
{
    let mut video: Option<VideoTrack> = None;
    let mut audio: Option<AudioTrack> = None;
    let mut subtitle: Option<SubtitleTrack> = None;
    let mut q: usize = p;
    while q != end
        invariant
            p <= q <= end <= b@.len(),
            spec_scan_traks(b@, p as int, end as int, None, None, None) == spec_scan_traks(
                b@, q as int, end as int,
                opt_video_view(video), opt_audio_view(audio), opt_subtitle_view(subtitle),
            ),
        decreases end - q,
    {
        if end - q < 8 {
            return Err(q);
        }
        let size = read_be32(b, q);
        if size < 8 || (size as usize) > end - q {
            return Err(q);
        }
        let t = read_be32(b, q + 4);
        if t == BOX_TRAK {
            match parse_trak(b, q + 8, q + size as usize) {
                Err(at) => {
                    return Err(at);
                },
                Ok(TrackData::Vid(track)) => {
                    video = Some(track);
                },
                Ok(TrackData::Aud(track)) => {
                    audio = Some(track);
                },
                Ok(TrackData::Sub(track)) => {
                    subtitle = Some(track);
                },
            }
        }
        q = q + size as usize;
    }
    Ok((video, audio, subtitle))
}

/// Outcome of parsing a whole container.
pub enum ContainerOutcome {
    Parsed {
        meta: ContainerMetaView,
        video: Option<VideoTrackView>,
        audio: Option<AudioTrackView>,
        subtitle: Option<SubtitleTrackView>,
    },
    Bad(int),
}

/// The draft container a parse of `b` yields: summary attributes from the
/// movie header (duration in whole seconds, fraction truncated; size as the
/// byte length of the input), one track slot per kind, identifiers and
/// caller-supplied fields left blank for the ingestion to fill.
pub open spec fn spec_parse_container(b: Seq<u8>) -> ContainerOutcome {
    match scan_box(b, 0, b.len() as int, BOX_MOOV) {
        ScanOutcome::Bad { at } => ContainerOutcome::Bad(at),
        ScanOutcome::Absent => ContainerOutcome::Bad(b.len() as int),
        ScanOutcome::Found { body: mb, end: me } => match scan_box(b, mb, me, BOX_MVHD) {
            ScanOutcome::Bad { at } => ContainerOutcome::Bad(at),
            ScanOutcome::Absent => ContainerOutcome::Bad(me),
            ScanOutcome::Found { body: hb, end: he } => match spec_header_timing(b, hb, he) {
                Err(at) => ContainerOutcome::Bad(at),
                Ok((timescale, duration)) => if timescale == 0 {
                    ContainerOutcome::Bad(hb)
                } else {
                    match spec_scan_traks(b, mb, me, None, None, None) {
                        TraksInfo::Bad(at) => ContainerOutcome::Bad(at),
                        TraksInfo::Done { video, audio, subtitle } => ContainerOutcome::Parsed {
                            meta: ContainerMetaView {
                                id: 0,
                                date_time_created: 0,
                                date_time_updated: 0,
                                title: Seq::<char>::empty(),
                                description: Seq::<char>::empty(),
                                tags: Seq::<Option<Seq<char>>>::empty(),
                                video_track_id: 0,
                                audio_track_id: 0,
                                subtitle_track_id: 0,
                                file_size_in_kb: clamp_i64(b.len() as int),
                                duration: clamp_i64(duration / timescale),
                            },
                            video,
                            audio,
                            subtitle,
                        },
                    }
                },
            },
        },
    }
}

/// The container format parser.
#[derive(Clone)]
pub struct Mp4Parser {}

impl Mp4Parser {
    /// Constructs a parser.
    pub fn new() -> Self {
        Mp4Parser {}
    }

    /// Parses a container held in memory: walks its box tree and yields the
    /// draft container metadata plus one optional track per kind, or the
    /// byte offset at which the box tree is malformed or unsupported.
    pub fn parse_from_bytes(&self, bytes: &Vec<u8>) -> (r: Result<
        (ContainerMeta, Option<VideoTrack>, Option<AudioTrack>, Option<SubtitleTrack>),
        ServiceError,
    >)
        ensures
            match r {
                Ok((meta, video, audio, subtitle)) => spec_parse_container(bytes@)
                    == (ContainerOutcome::Parsed {
                        meta: meta@,
                        video: opt_video_view(video),
                        audio: opt_audio_view(audio),
                        subtitle: opt_subtitle_view(subtitle),
                    }),
                Err(e) => {
                    &&& spec_parse_container(bytes@) matches ContainerOutcome::Bad(at)
                    &&& e == ServiceError::ParseError(at as u64)
                },
            },
    {
        proof {
            assert(bytes.len() == bytes@.len());
        }
        let len = bytes.len();
        let (mb, me) = match find_box(bytes, 0, len, BOX_MOOV) {
            Err(at) => {
                return Err(ServiceError::ParseError(at as u64));
            },
            Ok(None) => {
                return Err(ServiceError::ParseError(len as u64));
            },
            Ok(Some(range)) => range,
        };
        let (hb, he) = match find_box(bytes, mb, me, BOX_MVHD) {
            Err(at) => {
                return Err(ServiceError::ParseError(at as u64));
            },
            Ok(None) => {
                return Err(ServiceError::ParseError(me as u64));
            },
            Ok(Some(range)) => range,
        };
        let (timescale, duration) = match read_header_timing(bytes, hb, he) {
            Err(at) => {
                return Err(ServiceError::ParseError(at as u64));
            },
            Ok(timing) => timing,
        };
        if timescale == 0 {
            return Err(ServiceError::ParseError(hb as u64));
        }
        let (video, audio, subtitle) = match collect_traks(bytes, mb, me) {
            Err(at) => {
                return Err(ServiceError::ParseError(at as u64));
            },
            Ok(tracks) => tracks,
        };
        let mut container_meta = ContainerMeta::new();
        container_meta.file_size_in_kb = if len as u64 > 0x7FFFFFFFFFFFFFFFu64 {
            0x7FFFFFFFFFFFFFFFi64
        } else {
            len as i64
        };
        let secs = duration / (timescale as u64);
        container_meta.duration = if secs > 0x7FFFFFFFFFFFFFFFu64 {
            0x7FFFFFFFFFFFFFFFi64
        } else {
            secs as i64
        };
        Ok((container_meta, video, audio, subtitle))
    }
}

} // verus!
