//! Finding key frames in a byte stream (Annex B) of H.264 or H.265.

use vstd::prelude::*;

verus! {

/// Whether the start code 00 00 01 stands at `p`.
pub open spec fn start_code_at(s: Seq<u8>, p: int) -> bool {
    0 <= p && p + 2 < s.len() && s[p] == 0 && s[p + 1] == 0 && s[p + 2] == 1
}

/// Whether `h` is the place of a NAL header: a start code ends before it.
pub open spec fn nal_header_at(s: Seq<u8>, h: int) -> bool {
    &&& h >= 3
    &&& h < s.len()
    &&& start_code_at(s, h - 3)
}

/// Whether a header is that of a key frame: types 16 to 21 of H.265 (BLA, IDR, CRA)
/// or type 5 of H.264 (IDR). The type is in the six bits above the lowest one, or
/// in the five lowest bits.
pub open spec fn key_header(b: u8) -> bool {
    16 <= (b as int / 2) % 64 <= 21 || b as int % 32 == 5
}

/// Whether the bytes hold the header of a key frame.
pub open spec fn holds_keyframe(s: Seq<u8>) -> bool {
    exists|h: int| #[trigger] nal_header_at(s, h) && key_header(s[h])
}

fn is_key_header(b: u8) -> (r: bool)
    ensures
        r == key_header(b),
{
    let h265_type: u8 = (b >> 1) & 0x3F;
    let h264_type: u8 = b & 0x1F;
    assert(h265_type == (b / 2) % 64) by (bit_vector)
        requires
            h265_type == (b >> 1) & 0x3F,
    ;
    assert(h264_type == b % 32) by (bit_vector)
        requires
            h264_type == b & 0x1F,
    ;
    (16 <= h265_type && h265_type <= 21) || h264_type == 5
}

/// Whether the bytes hold the header of a key frame.
pub fn is_nal_keyframe(data: &[u8]) -> (r: bool)
    ensures
        r == holds_keyframe(data@),
{
    let ghost s = data@;
    let mut i: usize = 0;
    while data.len() >= 4 && i <= data.len() - 4
        invariant
            s == data@,
            i <= s.len(),
            forall|h: int| #[trigger] nal_header_at(s, h) && h < i + 3 ==> !key_header(s[h]),
        decreases s.len() - i,
    {
        if data[i] == 0 && data[i + 1] == 0 && data[i + 2] == 1 {
            let hdr: usize = i + 3;
            assert(nal_header_at(s, hdr as int));
            if is_key_header(data[hdr]) {
                return true;
            }
            i = hdr;
        } else {
            i += 1;
        }
    }
    false
}

/// A key frame's header behind a start code is found wherever it stands, be it the
/// last byte.
pub proof fn law_keyframe_found(s: Seq<u8>, p: int)
    requires
        start_code_at(s, p),
        p + 3 < s.len(),
        key_header(s[p + 3]),
    ensures
        holds_keyframe(s),
{
    assert(nal_header_at(s, p + 3));
}

/// Bytes without a start code hold no key frame.
pub proof fn law_no_start_code_no_keyframe(s: Seq<u8>)
    requires
        forall|p: int| !start_code_at(s, p),
    ensures
        !holds_keyframe(s),
{
    assert forall|h: int| #[trigger] nal_header_at(s, h) implies false by {
        assert(start_code_at(s, h - 3));
    }
}

proof fn lemma_key_header(b: u8)
    ensures
        key_header(b) <==> 32 <= b % 128 < 44 || b % 32 == 5,
{
    assert(16 <= (b / 2) % 64 && (b / 2) % 64 <= 21 <==> 32 <= b % 128 && b % 128 < 44) by (bit_vector);
}

/// Bytes hold a key frame exactly where somewhere 00 00 01 is followed by a byte that is
/// the header of one: in H.265 its bits 1 to 6 are a number from 16 to 21, in H.264 its
/// bits 0 to 4 are 5.
pub proof fn law_keyframe_by_bytes(s: Seq<u8>)
    ensures
        holds_keyframe(s) <==> exists|p: int|
            0 <= p && p + 3 < s.len() && #[trigger] s.subrange(p, p + 3) == seq![0u8, 0, 1] && (32
                <= s[p + 3] % 128 < 44 || s[p + 3] % 32 == 5),
{
    if holds_keyframe(s) {
        let h = choose|h: int| #[trigger] nal_header_at(s, h) && key_header(s[h]);
        lemma_key_header(s[h]);
        assert(s.subrange(h - 3, h - 3 + 3) =~= seq![0u8, 0, 1]);
    }
    if exists|p: int|
        0 <= p && p + 3 < s.len() && #[trigger] s.subrange(p, p + 3) == seq![0u8, 0, 1] && (32
            <= s[p + 3] % 128 < 44 || s[p + 3] % 32 == 5) {
        let p = choose|p: int|
            0 <= p && p + 3 < s.len() && #[trigger] s.subrange(p, p + 3) == seq![0u8, 0, 1] && (32
                <= s[p + 3] % 128 < 44 || s[p + 3] % 32 == 5);
        let code = s.subrange(p, p + 3);
        assert(code[0] == s[p] && code[1] == s[p + 1] && code[2] == s[p + 2]);
        lemma_key_header(s[p + 3]);
        assert(nal_header_at(s, p + 3));
    }
}

/// More bytes around a key frame do not hide it.
pub proof fn law_keyframe_in_longer_data(before: Seq<u8>, s: Seq<u8>, after: Seq<u8>)
    requires
        holds_keyframe(s),
    ensures
        holds_keyframe(before + s + after),
{
    let h = choose|h: int| #[trigger] nal_header_at(s, h) && key_header(s[h]);
    let t = before + s + after;
    let n = before.len() as int;
    assert(t[n + h - 3] == s[h - 3] && t[n + h - 2] == s[h - 2] && t[n + h - 1] == s[h - 1]);
    assert(t[n + h] == s[h]);
    assert(nal_header_at(t, n + h));
}

} // verus!
