//! Taking an H.265 byte stream (Annex B) apart.
//!
//! A start code, 00 00 01 or 00 00 00 01, stands before each NAL unit. The units of
//! one picture, with the parameter sets before them, make an access unit.

use vstd::prelude::*;

verus! {

/// NAL type of a video parameter set.
pub const NAL_VPS: u8 = 32;

/// NAL type of a sequence parameter set.
pub const NAL_SPS: u8 = 33;

/// NAL type of a picture parameter set.
pub const NAL_PPS: u8 = 34;

/// NAL types of key pictures.
pub const NAL_IDR_W_RADL: u8 = 19;

pub const NAL_IDR_N_LP: u8 = 20;

/// The views of byte strings.
pub open spec fn byte_views(units: Seq<Vec<u8>>) -> Seq<Seq<u8>> {
    units.map_values(|u: Vec<u8>| u@)
}

/// The length of the start code at a position; 0 if there is none. A zero before
/// 00 00 01 belongs to the start code.
pub open spec fn code_len(s: Seq<u8>, i: int) -> int {
    if 0 <= i && i + 3 < s.len() && s[i] == 0 && s[i + 1] == 0 && s[i + 2] == 0 && s[i + 3] == 1 {
        4
    } else if 0 <= i && i + 2 < s.len() && s[i] == 0 && s[i + 1] == 0 && s[i + 2] == 1 {
        3
    } else {
        0
    }
}

/// What lies between the start code that ended at `start` and position `end`.
pub open spec fn unit_before(s: Seq<u8>, start: Option<int>, end: int) -> Seq<Seq<u8>> {
    match start {
        Some(b) => seq![s.subrange(b, end)],
        None => seq![],
    }
}

/// The units from position `i` on, where the last start code ended at `start`. What
/// is behind the last start code is a unit if it is not empty.
pub open spec fn units_from(s: Seq<u8>, i: int, start: Option<int>) -> Seq<Seq<u8>>
    decreases s.len() - i,
{
    if i + 3 > s.len() {
        match start {
            Some(b) => if b < s.len() {
                seq![s.subrange(b, s.len() as int)]
            } else {
                seq![]
            },
            None => seq![],
        }
    } else if code_len(s, i) > 0 {
        unit_before(s, start, i) + units_from(s, i + code_len(s, i), Some(i + code_len(s, i)))
    } else {
        units_from(s, i + 1, start)
    }
}

/// The NAL units of a stream. A stream without any is one unit as a whole.
pub open spec fn nal_units(s: Seq<u8>) -> Seq<Seq<u8>> {
    let units = units_from(s, 0, None);
    if units.len() == 0 && s.len() > 0 {
        seq![s]
    } else {
        units
    }
}

/// The type of a NAL unit: the six bits above the lowest one of its first byte.
pub open spec fn type_of(nal: Seq<u8>) -> u8 {
    if nal.len() == 0 {
        0
    } else {
        ((nal[0] as int / 2) % 64) as u8
    }
}

/// Whether a unit is a parameter set.
pub open spec fn is_param_set(t: u8) -> bool {
    t == NAL_VPS || t == NAL_SPS || t == NAL_PPS
}

/// Whether a unit begins an access unit: a parameter set, a key picture, or the first
/// slice of a picture, which has the highest bit of its third byte set.
pub open spec fn begins_access_unit(nal: Seq<u8>) -> bool {
    let t = type_of(nal);
    is_param_set(t) || t == NAL_IDR_W_RADL || t == NAL_IDR_N_LP || (t < 32 && nal.len() >= 3
        && nal[2] >= 128)
}

/// A unit behind a long start code.
pub open spec fn with_code(nal: Seq<u8>) -> Seq<u8> {
    seq![0u8, 0, 0, 1] + nal
}

/// Access units in the making: those that are complete, and the one that is not.
pub struct Grouping {
    pub done: Seq<Seq<u8>>,
    pub current: Seq<u8>,
}

/// The grouping of units, in order.
pub open spec fn grouped(units: Seq<Seq<u8>>) -> Grouping
    decreases units.len(),
{
    if units.len() == 0 {
        Grouping { done: seq![], current: seq![] }
    } else {
        let g = grouped(units.drop_last());
        let nal = units.last();
        if begins_access_unit(nal) && g.current.len() > 0 {
            Grouping { done: g.done.push(g.current), current: with_code(nal) }
        } else {
            Grouping { done: g.done, current: g.current + with_code(nal) }
        }
    }
}

/// The access units of a stream.
pub open spec fn access_units(s: Seq<u8>) -> Seq<Seq<u8>> {
    let g = grouped(nal_units(s));
    if g.current.len() > 0 {
        g.done.push(g.current)
    } else {
        g.done
    }
}

/// The type of a NAL unit.
pub fn nal_type(data: &[u8]) -> (r: u8)
    ensures
        r == type_of(data@),
{
    if data.len() == 0 {
        return 0;
    }
    let b: u8 = data[0];
    (b / 2) % 64
}

fn code_len_at(data: &[u8], i: usize) -> (r: usize)
    requires
        i + 3 <= data@.len(),
    ensures
        r == code_len(data@, i as int),
{
    if data[i] == 0 && data[i + 1] == 0 {
        if i < data.len() - 3 && data[i + 2] == 0 && data[i + 3] == 1 {
            return 4;
        }
        if data[i + 2] == 1 {
            return 3;
        }
    }
    0
}

/// The NAL units of a stream.
pub fn split_h265_nal_units(data: &[u8]) -> (r: Vec<Vec<u8>>)
    ensures
        byte_views(r@) == nal_units(data@),
{
    let ghost s = data@;
    let mut units: Vec<Vec<u8>> = Vec::new();
    let mut start: Option<usize> = None;
    let mut i: usize = 0;
    assert(byte_views(units@) + units_from(s, 0, None) =~= units_from(s, 0, None));
    while data.len() >= 3 && i <= data.len() - 3
        invariant
            s == data@,
            i <= s.len(),
            start matches Some(b) ==> b <= i,
            byte_views(units@) + units_from(
                s,
                i as int,
                match start {
                    Some(b) => Some(b as int),
                    None => None,
                },
            ) == units_from(s, 0, None),
        decreases s.len() - i,
    {
        let ghost before = byte_views(units@);
        let ghost from = match start {
            Some(b) => Some(b as int),
            None => None,
        };
        let n: usize = code_len_at(data, i);
        if n > 0 {
            if let Some(b) = start {
                units.push(vstd::slice::slice_to_vec(vstd::slice::slice_subrange(data, b, i)));
            }
            proof {
                let rest = units_from(s, i + n, Some(i + n));
                assert(byte_views(units@) =~= before + unit_before(s, from, i as int));
                assert(byte_views(units@) + rest =~= before + (unit_before(s, from, i as int)
                    + rest));
            }
            start = Some(i + n);
            i = i + n;
        } else {
            i += 1;
        }
    }
    let ghost before = byte_views(units@);
    if let Some(b) = start {
        if data.len() > b {
            units.push(vstd::slice::slice_to_vec(vstd::slice::slice_subrange(data, b, data.len())));
        }
    }
    assert(byte_views(units@) =~= units_from(s, 0, None));
    if units.len() == 0 && data.len() > 0 {
        units.push(vstd::slice::slice_to_vec(data));
        assert(byte_views(units@) =~= seq![s]);
    }
    units
}

fn begins_unit(nal: &Vec<u8>) -> (r: bool)
    ensures
        r == begins_access_unit(nal@),
{
    let t: u8 = nal_type(nal.as_slice());
    if t == NAL_VPS || t == NAL_SPS || t == NAL_PPS {
        true
    } else if t == NAL_IDR_W_RADL || t == NAL_IDR_N_LP {
        true
    } else if t < 32 {
        nal.len() >= 3 && nal[2] >= 128
    } else {
        false
    }
}

/// The access units of a stream.
pub fn split_h265_access_units(data: &[u8]) -> (r: Vec<Vec<u8>>)
    ensures
        byte_views(r@) == access_units(data@),
{
    let units = split_h265_nal_units(data);
    let ghost views = byte_views(units@);
    let mut done: Vec<Vec<u8>> = Vec::new();
    let mut current: Vec<u8> = Vec::new();
    let mut i: usize = 0;
    assert(views.take(0) =~= seq![]);
    assert(byte_views(done@) =~= seq![]);
    while i < units.len()
        invariant
            i <= units@.len(),
            views == byte_views(units@),
            byte_views(done@) == grouped(views.take(i as int)).done,
            current@ == grouped(views.take(i as int)).current,
        decreases units@.len() - i,
    {
        let ghost g = grouped(views.take(i as int));
        proof {
            assert(views.take(i as int + 1).drop_last() =~= views.take(i as int));
            assert(views.take(i as int + 1).last() == units@[i as int]@);
        }
        if begins_unit(&units[i]) && current.len() > 0 {
            let ghost before = done@;
            done.push(current);
            assert(byte_views(done@) =~= byte_views(before).push(g.current));
            current = Vec::new();
        }
        let ghost head = current@;
        current.push(0);
        current.push(0);
        current.push(0);
        current.push(1);
        current.extend_from_slice(units[i].as_slice());
        assert(current@ =~= head + with_code(units@[i as int]@));
        assert(Seq::<u8>::empty() + with_code(units@[i as int]@) =~= with_code(units@[i as int]@));
        i += 1;
    }
    assert(views.take(views.len() as int) =~= views);
    if current.len() > 0 {
        let ghost before = done@;
        let ghost last = current@;
        done.push(current);
        assert(byte_views(done@) =~= byte_views(before).push(last));
    }
    done
}

/// Whether the end of the first unit of an access unit is at a position: a start code
/// stands there.
pub open spec fn ends_first_nal(s: Seq<u8>, i: int) -> bool {
    code_len(s, i) > 0
}

/// The end of a unit, searched from position `i` on.
pub open spec fn first_nal_end(s: Seq<u8>, i: int) -> int
    decreases s.len() - i,
{
    if i >= s.len() {
        s.len() as int
    } else if ends_first_nal(s, i) {
        i
    } else {
        first_nal_end(s, i + 1)
    }
}

/// The first NAL unit of an access unit, without its start code.
pub open spec fn first_nal(s: Seq<u8>) -> Option<Seq<u8>> {
    let n = code_len(s, 0);
    if n == 0 {
        None
    } else {
        Some(s.subrange(n, first_nal_end(s, n)))
    }
}

/// The first NAL unit of an access unit, without its start code.
pub fn first_nal_in_au(au: &[u8]) -> (r: Option<&[u8]>)
    ensures
        match first_nal(au@) {
            Some(nal) => r matches Some(v) && v@ == nal,
            None => r is None,
        },
{
    let ghost s = au@;
    if au.len() < 3 {
        return None;
    }
    let start: usize = code_len_at(au, 0);
    if start == 0 {
        return None;
    }
    let mut i: usize = start;
    while i < au.len()
        invariant_except_break
            start <= i <= s.len(),
            s == au@,
            start == code_len(s, 0),
            first_nal_end(s, start as int) == first_nal_end(s, i as int),
        ensures
            start <= i <= s.len(),
            s == au@,
            first_nal_end(s, start as int) == i,
        decreases s.len() - i,
    {
        if au.len() - i >= 3 && code_len_at(au, i) > 0 {
            break ;
        }
        i += 1;
    }
    Some(vstd::slice::slice_subrange(au, start, i))
}

/// All bytes of byte strings, in order.
pub open spec fn joined(parts: Seq<Seq<u8>>) -> Seq<u8>
    decreases parts.len(),
{
    if parts.len() == 0 {
        seq![]
    } else {
        joined(parts.drop_last()) + parts.last()
    }
}

proof fn lemma_joined_push(parts: Seq<Seq<u8>>, part: Seq<u8>)
    ensures
        joined(parts.push(part)) == joined(parts) + part,
{
    assert(parts.push(part).drop_last() =~= parts);
}

proof fn lemma_grouped_joined(units: Seq<Seq<u8>>)
    ensures
        joined(grouped(units).done) + grouped(units).current == joined(
            units.map_values(|u: Seq<u8>| with_code(u)),
        ),
    decreases units.len(),
{
    let coded = units.map_values(|u: Seq<u8>| with_code(u));
    if units.len() == 0 {
        assert(coded =~= seq![]);
        assert(joined(grouped(units).done) + grouped(units).current =~= joined(coded));
    } else {
        let g = grouped(units.drop_last());
        let nal = with_code(units.last());
        lemma_grouped_joined(units.drop_last());
        assert(coded.drop_last() =~= units.drop_last().map_values(|u: Seq<u8>| with_code(u)));
        assert(coded.last() == nal);
        assert(joined(coded) == joined(g.done) + g.current + nal);
        if begins_access_unit(units.last()) && g.current.len() > 0 {
            lemma_joined_push(g.done, g.current);
        } else {
            assert(joined(g.done) + (g.current + nal) =~= joined(g.done) + g.current + nal);
        }
    }
}

/// Grouping loses and reorders nothing: the access units together are the NAL units
/// of the stream, each behind a start code.
pub proof fn law_access_units_complete(s: Seq<u8>)
    ensures
        joined(access_units(s)) == joined(nal_units(s).map_values(|u: Seq<u8>| with_code(u))),
{
    let g = grouped(nal_units(s));
    lemma_grouped_joined(nal_units(s));
    if g.current.len() > 0 {
        lemma_joined_push(g.done, g.current);
    } else {
        assert(joined(g.done) + g.current =~= joined(g.done));
    }
}

/// Whether no start code begins at the positions from `from` up to `to`.
pub open spec fn no_code_between(s: Seq<u8>, from: int, to: int) -> bool {
    forall|k: int| from <= k < to ==> #[trigger] code_len(s, k) == 0
}

/// Whether a unit holds no start code.
pub open spec fn no_code_in(u: Seq<u8>) -> bool {
    forall|k: int| #[trigger] code_len(u, k) == 0
}

proof fn lemma_part_has_no_code(s: Seq<u8>, from: int, to: int)
    requires
        0 <= from <= to <= s.len(),
        no_code_between(s, from, to),
    ensures
        no_code_in(s.subrange(from, to)),
{
    let u = s.subrange(from, to);
    assert forall|k: int| #[trigger] code_len(u, k) == 0 by {
        if code_len(u, k) != 0 {
            assert(code_len(s, from + k) != 0);
        }
    }
}

proof fn lemma_units_have_no_code(s: Seq<u8>, i: int, start: Option<int>)
    requires
        0 <= i <= s.len(),
        start matches Some(b) ==> 0 <= b <= i && no_code_between(s, b, i),
    ensures
        forall|k: int|
            0 <= k < units_from(s, i, start).len() ==> no_code_in(
                #[trigger] units_from(s, i, start)[k],
            ),
    decreases s.len() - i,
{
    if i + 3 > s.len() {
        if let Some(b) = start {
            if b < s.len() {
                assert forall|k: int| b <= k < s.len() implies #[trigger] code_len(s, k) == 0 by {
                    if k >= i {
                        assert(code_len(s, k) == 0);
                    }
                }
                lemma_part_has_no_code(s, b, s.len() as int);
                assert(units_from(s, i, start) =~= seq![s.subrange(b, s.len() as int)]);
            } else {
                assert(units_from(s, i, start).len() == 0);
            }
        } else {
            assert(units_from(s, i, start).len() == 0);
        }
    } else if code_len(s, i) > 0 {
        let n = code_len(s, i);
        lemma_units_have_no_code(s, i + n, Some(i + n));
        if let Some(b) = start {
            lemma_part_has_no_code(s, b, i);
        }
        let rest = units_from(s, i + n, Some(i + n));
        let all = units_from(s, i, start);
        let head = unit_before(s, start, i);
        assert(all == head + rest);
        assert forall|k: int| 0 <= k < all.len() implies no_code_in(#[trigger] all[k]) by {
            if k >= head.len() {
                assert(all[k] == rest[k - head.len()]);
            }
        }
    } else {
        lemma_units_have_no_code(s, i + 1, start);
        assert(units_from(s, i, start) == units_from(s, i + 1, start));
    }
}

/// No NAL unit of a stream holds a start code, unless the stream has no unit and is
/// taken as a whole.
pub proof fn law_units_hold_no_start_code(s: Seq<u8>, k: int)
    requires
        units_from(s, 0, None).len() > 0,
        0 <= k < nal_units(s).len(),
    ensures
        no_code_in(nal_units(s)[k]),
{
    lemma_units_have_no_code(s, 0, None);
}

proof fn lemma_scan_unit(s: Seq<u8>, b: int, i: int, end: int)
    requires
        0 <= b <= i <= end <= s.len(),
        no_code_between(s, i, end),
        end + 3 <= s.len() || end == s.len(),
    ensures
        units_from(s, i, Some(b)) == units_from(s, end, Some(b)),
    decreases end - i,
{
    if i < end {
        if i + 3 <= s.len() {
            assert(code_len(s, i) == 0);
            lemma_scan_unit(s, b, i + 1, end);
        }
    }
}

proof fn lemma_joined_front(parts: Seq<Seq<u8>>)
    requires
        parts.len() > 0,
    ensures
        joined(parts) == parts[0] + joined(parts.skip(1)),
    decreases parts.len(),
{
    if parts.len() == 1 {
        assert(parts.drop_last() =~= seq![]);
        assert(parts.skip(1) =~= seq![]);
        assert(joined(parts) =~= parts[0] + joined(parts.skip(1)));
    } else {
        lemma_joined_front(parts.drop_last());
        assert(parts.drop_last().skip(1) =~= parts.skip(1).drop_last());
        assert(joined(parts) =~= parts[0] + joined(parts.skip(1)));
    }
}

proof fn lemma_split_from(prefix: Seq<u8>, units: Seq<Seq<u8>>, start: Option<int>)
    requires
        units.len() > 0,
        forall|k: int| 0 <= k < units.len() ==> no_code_in(#[trigger] units[k]),
        units.last().len() > 0,
        start matches Some(b) ==> 0 <= b <= prefix.len(),
    ensures
        ({
            let s = prefix + joined(units.map_values(|u: Seq<u8>| with_code(u)));
            units_from(s, prefix.len() as int, start) == unit_before(
                s,
                start,
                prefix.len() as int,
            ) + units
        }),
    decreases units.len(),
{
    let coded = units.map_values(|u: Seq<u8>| with_code(u));
    let s = prefix + joined(coded);
    let p = prefix.len() as int;
    let u = units[0];
    let rest = units.skip(1);
    let rest_coded = rest.map_values(|u: Seq<u8>| with_code(u));
    lemma_joined_front(coded);
    assert(coded.skip(1) =~= rest_coded);
    assert(coded[0] == with_code(u));
    let next = prefix + with_code(u);
    assert(s =~= next + joined(rest_coded));
    assert(code_len(s, p) == 4);
    let b = p + 4;
    let end = b + u.len();
    assert(no_code_in(u));
    assert(next.len() == end);
    assert(s.subrange(b, end) =~= u);
    if rest.len() > 0 {
        lemma_joined_front(rest_coded);
        assert(rest_coded[0] == with_code(rest[0]));
        assert(s.len() >= end + 4);
        assert(s[end] == 0 && s[end + 1] == 0 && s[end + 2] == 0 && s[end + 3] == 1);
    } else {
        assert(rest_coded =~= seq![]);
        assert(joined(rest_coded) =~= seq![]);
        assert(s.len() == end);
    }
    assert(no_code_between(s, b, end)) by {
        assert forall|k: int| b <= k < end implies #[trigger] code_len(s, k) == 0 by {
            if code_len(s, k) != 0 {
                let n = code_len(s, k);
                if k + n <= end {
                    assert(u[k - b] == s[k] && u[k - b + 1] == s[k + 1] && u[k - b + 2] == s[k + 2]);
                    if n == 4 {
                        assert(u[k - b + 3] == s[k + 3]);
                    }
                    assert(code_len(u, k - b) != 0);
                } else {
                    assert(s[k + n - 1] == 1);
                    assert(end <= k + n - 1 <= end + 2);
                }
            }
        }
    }
    lemma_scan_unit(s, b, b, end);
    if rest.len() > 0 {
        assert forall|k: int| 0 <= k < rest.len() implies no_code_in(#[trigger] rest[k]) by {
            assert(rest[k] == units[k + 1]);
        }
        lemma_split_from(next, rest, Some(b));
        assert(units_from(s, end, Some(b)) == seq![u] + rest);
    } else {
        assert(units_from(s, end, Some(b)) =~= seq![u]);
    }
    assert(seq![u] + rest =~= units);
}

/// NAL units that were joined, each behind a start code, are found again as they
/// were, as long as none of them holds a start code and the last is not empty.
pub proof fn law_joined_units_split_again(units: Seq<Seq<u8>>)
    requires
        units.len() > 0,
        forall|k: int| 0 <= k < units.len() ==> no_code_in(#[trigger] units[k]),
        units.last().len() > 0,
    ensures
        nal_units(joined(units.map_values(|u: Seq<u8>| with_code(u)))) == units,
{
    let s = joined(units.map_values(|u: Seq<u8>| with_code(u)));
    lemma_split_from(seq![], units, None);
    assert(Seq::<u8>::empty() + s =~= s);
    assert(unit_before(s, None, 0) + units =~= units);
}

/// A start code is 00 00 01, and a zero before it belongs to it.
pub proof fn law_start_codes(s: Seq<u8>, i: int)
    requires
        0 <= i <= s.len(),
    ensures
        code_len(s, i) == 4 <==> i + 4 <= s.len() && s.subrange(i, i + 4) == seq![0u8, 0, 0, 1],
        code_len(s, i) == 3 <==> i + 3 <= s.len() && s.subrange(i, i + 3) == seq![0u8, 0, 1],
        code_len(s, i) == 0 || code_len(s, i) == 3 || code_len(s, i) == 4,
{
    if i + 4 <= s.len() {
        let t = s.subrange(i, i + 4);
        assert(t[0] == s[i] && t[1] == s[i + 1] && t[2] == s[i + 2] && t[3] == s[i + 3]);
        if code_len(s, i) == 4 {
            assert(t =~= seq![0u8, 0, 0, 1]);
        }
    }
    if i + 3 <= s.len() {
        let t = s.subrange(i, i + 3);
        assert(t[0] == s[i] && t[1] == s[i + 1] && t[2] == s[i + 2]);
        if code_len(s, i) == 3 {
            assert(t =~= seq![0u8, 0, 1]);
        }
    }
}

/// The type of a unit stands in its first byte, between the highest bit and the lowest.
pub proof fn law_unit_type(nal: Seq<u8>)
    ensures
        nal.len() > 0 ==> nal[0] == 128 * (nal[0] as int / 128) + 2 * type_of(nal) + nal[0] as int
            % 2,
        type_of(nal) < 64,
        nal.len() == 0 ==> type_of(nal) == 0,
        is_param_set(type_of(nal)) <==> 32 <= type_of(nal) <= 34,
{
}

/// The access units are runs of NAL units, in order and without gaps, each unit behind a
/// start code. A unit begins an access unit exactly where it is the first of all, a
/// parameter set (types 32 to 34), a key picture (types 19 and 20), or the first slice of
/// a picture (a type below 32 with the highest bit of the third byte set): such a unit is
/// never anything but the first of its run, and no other unit is but the first of all.
pub proof fn law_access_units_begin(s: Seq<u8>) -> (runs: Seq<Seq<Seq<u8>>>)
    ensures
        runs.flatten() == nal_units(s),
        runs.len() == access_units(s).len(),
        forall|i: int|
            0 <= i < runs.len() ==> (#[trigger] runs[i]).len() > 0 && access_units(s)[i] == joined(
                runs[i].map_values(|u: Seq<u8>| seq![0u8, 0, 0, 1] + u),
            ),
        forall|i: int, j: int|
            0 <= i < runs.len() && 0 <= j < runs[i].len() && (i > 0 || j > 0) ==> {
                let u = #[trigger] runs[i][j];
                j == 0 <==> u.len() > 0 && (64 <= u[0] % 128 < 70 || 38 <= u[0] % 128 < 42 || (
                u[0] % 128 < 64 && u.len() >= 3 && u[2] >= 128))
            },
{
    lemma_runs(nal_units(s))
}

proof fn lemma_begins(u: Seq<u8>)
    ensures
        begins_access_unit(u) <==> u.len() > 0 && (64 <= u[0] % 128 < 70 || 38 <= u[0] % 128 < 42
            || (u[0] % 128 < 64 && u.len() >= 3 && u[2] >= 128)),
{
    if u.len() > 0 {
        let b = u[0];
        assert((b / 2) % 64 == (b % 128) / 2) by (bit_vector);
    }
}

proof fn lemma_runs(units: Seq<Seq<u8>>) -> (runs: Seq<Seq<Seq<u8>>>)
    ensures
        runs.flatten() == units,
        ({
            let g = grouped(units);
            let aus = if g.current.len() > 0 {
                g.done.push(g.current)
            } else {
                g.done
            };
            &&& runs.len() == aus.len()
            &&& g.current.len() > 0 <==> runs.len() > 0
            &&& forall|i: int|
                0 <= i < runs.len() ==> (#[trigger] runs[i]).len() > 0 && aus[i] == joined(
                    runs[i].map_values(|u: Seq<u8>| seq![0u8, 0, 0, 1] + u),
                )
        }),
        forall|i: int, j: int|
            0 <= i < runs.len() && 0 <= j < runs[i].len() && (i > 0 || j > 0) ==> {
                let u = #[trigger] runs[i][j];
                j == 0 <==> u.len() > 0 && (64 <= u[0] % 128 < 70 || 38 <= u[0] % 128 < 42 || (
                u[0] % 128 < 64 && u.len() >= 3 && u[2] >= 128))
            },
    decreases units.len(),
{
    if units.len() == 0 {
        let none = Seq::<Seq<Seq<u8>>>::empty();
        assert(none.flatten() =~= units);
        none
    } else {
        let front = units.drop_last();
        let nal = units.last();
        let before = lemma_runs(front);
        lemma_begins(nal);
        let g = grouped(front);
        let coded = seq![0u8, 0, 0, 1] + nal;
        assert(with_code(nal) == coded);
        assert(front.push(nal) =~= units);
        if before.len() == 0 || begins_access_unit(nal) {
            let runs = before.push(seq![nal]);
            before.lemma_flatten_push(seq![nal]);
            assert(runs.flatten() =~= units);
            assert(seq![nal].map_values(|u: Seq<u8>| seq![0u8, 0, 0, 1] + u) =~= seq![coded]);
            lemma_joined_push(seq![], coded);
            assert(Seq::<Seq<u8>>::empty().push(coded) =~= seq![coded]);
            assert(joined(seq![]) + coded =~= coded);
            assert(g.current + coded =~= coded || g.current.len() > 0);
            assert forall|i: int, j: int|
                0 <= i < runs.len() && 0 <= j < runs[i].len() && (i > 0 || j > 0) implies {
                let u = #[trigger] runs[i][j];
                j == 0 <==> u.len() > 0 && (64 <= u[0] % 128 < 70 || 38 <= u[0] % 128 < 42 || (
                u[0] % 128 < 64 && u.len() >= 3 && u[2] >= 128))
            } by {
                if i < before.len() {
                    assert(runs[i][j] == before[i][j]);
                } else {
                    assert(runs[i][j] == nal);
                }
            }
            runs
        } else {
            let n = before.len() - 1;
            let last = before[n];
            let runs = before.update(n, last.push(nal));
            let head = before.drop_last();
            assert(before =~= head.push(last));
            assert(runs =~= head.push(last.push(nal)));
            head.lemma_flatten_push(last);
            head.lemma_flatten_push(last.push(nal));
            assert(head.flatten() + last.push(nal) =~= (head.flatten() + last).push(nal));
            assert(runs.flatten() =~= units);
            let old_coded = last.map_values(|u: Seq<u8>| seq![0u8, 0, 0, 1] + u);
            assert(last.push(nal).map_values(|u: Seq<u8>| seq![0u8, 0, 0, 1] + u)
                =~= old_coded.push(coded));
            lemma_joined_push(old_coded, coded);
            assert forall|i: int, j: int|
                0 <= i < runs.len() && 0 <= j < runs[i].len() && (i > 0 || j > 0) implies {
                let u = #[trigger] runs[i][j];
                j == 0 <==> u.len() > 0 && (64 <= u[0] % 128 < 70 || 38 <= u[0] % 128 < 42 || (
                u[0] % 128 < 64 && u.len() >= 3 && u[2] >= 128))
            } by {
                if i < n || j < last.len() {
                    assert(runs[i][j] == before[i][j]);
                } else {
                    assert(runs[i][j] == nal);
                }
            }
            runs
        }
    }
}

/// A stream with a start code that anything follows is taken apart so that 00 00 01
/// stands in none of its units.
pub proof fn law_no_unit_holds_start_code(s: Seq<u8>, p: int, k: int, i: int)
    requires
        0 <= p,
        p + 3 < s.len(),
        s.subrange(p, p + 3) == seq![0u8, 0, 1],
        0 <= k < nal_units(s).len(),
        0 <= i,
        i + 3 <= nal_units(s)[k].len(),
    ensures
        nal_units(s)[k].subrange(i, i + 3) != seq![0u8, 0, 1],
{
    let code = s.subrange(p, p + 3);
    assert(code[0] == s[p] && code[1] == s[p + 1] && code[2] == s[p + 2]);
    assert(code_len(s, p) > 0);
    lemma_code_gives_unit(s, 0, None, p);
    law_units_hold_no_start_code(s, k);
    let u = nal_units(s)[k];
    assert(code_len(u, i) == 0);
    law_start_codes(u, i);
}

proof fn lemma_code_gives_unit(s: Seq<u8>, i: int, start: Option<int>, p: int)
    requires
        0 <= i,
        start matches Some(b) ==> 0 <= b <= i && b < s.len(),
        start is None ==> i <= p && p + 3 < s.len() && s[p] == 0 && s[p + 1] == 0 && s[p + 2] == 1,
    ensures
        units_from(s, i, start).len() > 0,
    decreases s.len() - i,
{
    if i + 3 > s.len() {
    } else if code_len(s, i) > 0 {
        let n = code_len(s, i);
        if start is None {
            assert(i + n < s.len()) by {
                if n == 4 && i + 4 == s.len() {
                    assert(p + 3 < s.len() && i <= p);
                    assert(p == i);
                }
            }
            lemma_code_gives_unit(s, i + n, Some(i + n), p);
        }
    } else {
        lemma_code_gives_unit(s, i + 1, start, p);
    }
}

/// NAL units behind start codes of either length are found as they were: units that hold
/// no start code, the last not empty, and none that ends in a zero before a short start
/// code.
pub proof fn law_units_behind_any_codes(units: Seq<Seq<u8>>, long: Seq<bool>)
    requires
        units.len() > 0,
        long.len() == units.len(),
        forall|k: int| 0 <= k < units.len() ==> no_code_in(#[trigger] units[k]),
        units.last().len() > 0,
        forall|k: int|
            0 <= k < units.len() - 1 && !long[k + 1] ==> (#[trigger] units[k]).len() == 0
                || units[k].last() != 0,
    ensures
        nal_units(
            joined(
                Seq::new(
                    units.len(),
                    |k: int|
                        (if long[k] {
                            seq![0u8, 0, 0, 1]
                        } else {
                            seq![0u8, 0, 1]
                        }) + units[k],
                ),
            ),
        ) == units,
{
    let s = joined(coded_units(units, long));
    lemma_split_any(seq![], units, long, None);
    assert(Seq::<u8>::empty() + s =~= s);
    assert(unit_before(s, None, 0) + units =~= units);
    assert(coded_units(units, long) =~= Seq::new(
        units.len(),
        |k: int|
            (if long[k] {
                seq![0u8, 0, 0, 1]
            } else {
                seq![0u8, 0, 1]
            }) + units[k],
    ));
}

spec fn start_code(long: bool) -> Seq<u8> {
    if long {
        seq![0u8, 0, 0, 1]
    } else {
        seq![0u8, 0, 1]
    }
}

spec fn coded_units(units: Seq<Seq<u8>>, long: Seq<bool>) -> Seq<Seq<u8>> {
    Seq::new(units.len(), |k: int| start_code(long[k]) + units[k])
}

proof fn lemma_no_code_before(s: Seq<u8>, u: Seq<u8>, b: int)
    requires
        no_code_in(u),
        0 <= b,
        b + u.len() <= s.len(),
        s.subrange(b, b + u.len()) == u,
        ({
            let end = b + u.len();
            ||| s.len() == end
            ||| s.len() >= end + 4 && s[end] == 0 && s[end + 1] == 0 && s[end + 2] == 0 && s[end + 3]
                == 1
            ||| s.len() >= end + 3 && s[end] == 0 && s[end + 1] == 0 && s[end + 2] == 1 && (u.len()
                == 0 || u.last() != 0)
        }),
    ensures
        no_code_between(s, b, b + u.len()),
{
    let end = b + u.len();
    assert forall|k: int| b <= k < end implies s[k] == u[k - b] by {
        assert(s.subrange(b, end)[k - b] == s[k]);
    }
    assert forall|k: int| b <= k < end implies #[trigger] code_len(s, k) == 0 by {
        if code_len(s, k) != 0 {
            let n = code_len(s, k);
            if k + n <= end {
                assert(u[k - b] == s[k] && u[k - b + 1] == s[k + 1] && u[k - b + 2] == s[k + 2]);
                if n == 4 {
                    assert(u[k - b + 3] == s[k + 3]);
                }
                assert(code_len(u, k - b) != 0);
            } else {
                assert(s[k + n - 1] == 1);
                assert(end <= k + n - 1 <= end + 2);
                assert(s[end - 1] == 0);
                assert(u.last() == s[end - 1]);
            }
        }
    }
}

#[verifier::spinoff_prover]
proof fn lemma_split_any(prefix: Seq<u8>, units: Seq<Seq<u8>>, long: Seq<bool>, start: Option<int>)
    requires
        units.len() > 0,
        long.len() == units.len(),
        forall|k: int| 0 <= k < units.len() ==> no_code_in(#[trigger] units[k]),
        units.last().len() > 0,
        forall|k: int|
            0 <= k < units.len() - 1 && !long[k + 1] ==> (#[trigger] units[k]).len() == 0
                || units[k].last() != 0,
        start matches Some(b) ==> 0 <= b <= prefix.len(),
    ensures
        ({
            let s = prefix + joined(coded_units(units, long));
            units_from(s, prefix.len() as int, start) == unit_before(
                s,
                start,
                prefix.len() as int,
            ) + units
        }),
    decreases units.len(),
{
    let coded = coded_units(units, long);
    let s = prefix + joined(coded);
    let p = prefix.len() as int;
    let u = units[0];
    let c = start_code(long[0]);
    let rest = units.skip(1);
    let rest_long = long.skip(1);
    let rest_coded = coded_units(rest, rest_long);
    lemma_joined_front(coded);
    assert(coded.skip(1) =~= rest_coded);
    assert(coded[0] == c + u);
    let next = prefix + (c + u);
    assert(s =~= next + joined(rest_coded));
    assert(s.subrange(p, p + c.len()) =~= c);
    assert(code_len(s, p) == c.len()) by {
        assert(s[p] == c[0] && s[p + 1] == c[1] && s[p + 2] == c[2]);
        if long[0] {
            assert(s[p + 3] == c[3]);
        }
    }
    let b = p + c.len();
    let end = b + u.len();
    assert(no_code_in(u));
    assert(next.len() == end);
    assert(s.subrange(b, end) =~= u);
    if rest.len() > 0 {
        lemma_joined_front(rest_coded);
        let d = start_code(rest_long[0]);
        assert(rest_coded[0] == d + rest[0]);
        assert(s.len() >= end + d.len());
        assert(s[end] == d[0] && s[end + 1] == d[1] && s[end + 2] == d[2]);
        if rest_long[0] {
            assert(s[end + 3] == d[3]);
        }
        assert(long[1] == rest_long[0]);
    } else {
        assert(rest_coded =~= seq![]);
        assert(joined(rest_coded) =~= seq![]);
        assert(s.len() == end);
    }
    lemma_no_code_before(s, u, b);
    lemma_scan_unit(s, b, b, end);
    if rest.len() > 0 {
        assert forall|k: int| 0 <= k < rest.len() implies no_code_in(#[trigger] rest[k]) by {
            assert(rest[k] == units[k + 1]);
        }
        assert forall|k: int| 0 <= k < rest.len() - 1 && !rest_long[k + 1] implies (
        #[trigger] rest[k]).len() == 0 || rest[k].last() != 0 by {
            assert(rest[k] == units[k + 1]);
            assert(long[k + 2] == rest_long[k + 1]);
        }
        lemma_split_any(next, rest, rest_long, Some(b));
        assert(units_from(s, end, Some(b)) == seq![u] + rest);
    } else {
        assert(units_from(s, end, Some(b)) =~= seq![u]);
    }
    assert(seq![u] + rest =~= units);
}

/// The first unit of an access unit is what stands between the start code at its front
/// and the next one.
pub proof fn law_first_unit(nal: Seq<u8>, rest: Seq<u8>)
    requires
        no_code_in(nal),
        rest.len() == 0 || (rest.len() >= 4 && rest.take(4) == seq![0u8, 0, 0, 1]),
    ensures
        first_nal(seq![0u8, 0, 0, 1] + nal + rest) == Some(nal),
{
    let s = seq![0u8, 0, 0, 1] + nal + rest;
    let end = 4 + nal.len() as int;
    assert(code_len(s, 0) == 4);
    assert(s.subrange(4, end) =~= nal);
    if rest.len() > 0 {
        let t = rest.take(4);
        assert(t[0] == rest[0] && t[1] == rest[1] && t[2] == rest[2] && t[3] == rest[3]);
        assert(s[end] == 0 && s[end + 1] == 0 && s[end + 2] == 0 && s[end + 3] == 1);
        assert(code_len(s, end) == 4);
    }
    assert forall|k: int| 4 <= k < end implies #[trigger] code_len(s, k) == 0 by {
        if code_len(s, k) != 0 {
            let n = code_len(s, k);
            if k + n <= end {
                assert(nal[k - 4] == s[k] && nal[k - 3] == s[k + 1] && nal[k - 2] == s[k + 2]);
                if n == 4 {
                    assert(nal[k - 1] == s[k + 3]);
                }
                assert(code_len(nal, k - 4) != 0);
            } else {
                assert(s[k + n - 1] == 1);
                assert(end <= k + n - 1 <= end + 2);
            }
        }
    }
    lemma_first_end(s, 4, end);
}

proof fn lemma_first_end(s: Seq<u8>, i: int, end: int)
    requires
        0 <= i <= end <= s.len(),
        forall|k: int| i <= k < end ==> #[trigger] code_len(s, k) == 0,
        end < s.len() ==> code_len(s, end) > 0,
    ensures
        first_nal_end(s, i) == end,
    decreases end - i,
{
    if i < end {
        assert(code_len(s, i) == 0);
        lemma_first_end(s, i + 1, end);
    }
}

} // verus!
