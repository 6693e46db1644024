//! The name extractor and the text-conversion boundary.
//!
//! Names travel in records as sequences of 16-bit code units, possibly with
//! embedded zero (terminator) units that friendlier interfaces cannot
//! represent. They are extracted losslessly here; terminator units are
//! stripped only when a sequence is converted to text.

use vstd::prelude::*;

use crate::api::spec_u16_le;

verus! {

/// The text encoded by a sequence of 16-bit code units, or `None` where the
/// sequence is not valid text.
pub uninterp spec fn text_of_wide(units: Seq<u16>) -> Option<Seq<char>>;

/// The 16-bit code units that encode a text.
pub uninterp spec fn wide_units_of(text: Seq<char>) -> Seq<u16>;

/// Converts a code-unit sequence to text.
///
/// Relies on widestring's `U16Str::to_string`: it decodes the units as
/// 16-bit text, succeeds exactly when they are valid, and its result is a
/// function of the units alone.
#[verifier::external_body]
pub fn decode_wide(units: &[u16]) -> (r: Option<String>)
    ensures
        match r {
            Some(s) => text_of_wide(units@) == Some(s@),
            None => text_of_wide(units@) is None,
        },
{
    widestring::U16Str::from_slice(units).to_string().ok()
}

/// Converts a text to the code units that encode it.
///
/// Relies on widestring's `U16String::from_str`: it encodes the text as
/// 16-bit code units, a function of the characters alone, and decoding them
/// back yields the same text (the round trip both functions document).
#[verifier::external_body]
pub fn encode_wide(s: &str) -> (r: Vec<u16>)
    ensures
        r@ == wide_units_of(s@),
        text_of_wide(r@) == Some(s@),
{
    widestring::U16String::from_str(s).into_vec()
}

/// The code units stored at byte offset `off` of `raw`, `count` units of two
/// bytes each; empty where fewer bytes than that are available.
pub open spec fn spec_name_units(raw: Seq<u8>, off: int, count: int) -> Seq<u16> {
    if 0 <= off && 0 <= count && off + 2 * count <= raw.len() {
        Seq::new(count as nat, |i: int| spec_u16_le(raw, off + 2 * i))
    } else {
        Seq::empty()
    }
}

/// `units` with every zero (terminator) unit removed.
pub open spec fn strip_terminator_units(units: Seq<u16>) -> Seq<u16> {
    units.filter(|u: u16| u != 0)
}

/// Slices `code_unit_count` 16-bit code units out of `raw` starting at
/// `byte_offset`, combining each little-endian byte pair.
///
/// Where the buffer holds fewer bytes than requested, the whole name is
/// treated as absent and an empty sequence is returned; callers needing
/// strictness check the available length themselves.
pub fn decode_name(raw: &[u8], byte_offset: usize, code_unit_count: u32) -> (r: Vec<u16>)
    ensures
        r@ == spec_name_units(raw@, byte_offset as int, code_unit_count as int),
{
    let raw_len: usize = raw.len();
    if byte_offset <= raw_len && 2 * (code_unit_count as u64) <= (raw_len - byte_offset) as u64 {
        let count = code_unit_count as usize;
        let mut out: Vec<u16> = Vec::new();
        let mut i: usize = 0;
        while i < count
            invariant
                raw_len == raw@.len(),
                byte_offset + 2 * count <= raw_len,
                count == code_unit_count as int,
                i <= count,
                out@.len() == i,
                forall|j: int|
                    0 <= j < i ==> out@[j] == spec_u16_le(raw@, byte_offset + 2 * j),
            decreases count - i,
        {
            let unit = crate::api::read_u16_le(raw, byte_offset + 2 * i);
            out.push(unit);
            i += 1;
        }
        assert(out@ =~= spec_name_units(raw@, byte_offset as int, code_unit_count as int));
        out
    } else {
        let out: Vec<u16> = Vec::new();
        assert(out@ =~= spec_name_units(raw@, byte_offset as int, code_unit_count as int));
        out
    }
}

/// Copies `units` with every zero (terminator) unit removed.
pub fn strip_terminators(units: &Vec<u16>) -> (r: Vec<u16>)
    ensures
        r@ == strip_terminator_units(units@),
{
    let mut out: Vec<u16> = Vec::new();
    let mut i: usize = 0;
    while i < units.len()
        invariant
            i <= units@.len(),
            out@ == units@.subrange(0, i as int).filter(|u: u16| u != 0),
        decreases units@.len() - i,
    {
        let u = units[i];
        proof {
            let prefix = units@.subrange(0, i as int);
            let next = units@.subrange(0, i + 1);
            assert(next =~= prefix + seq![units@[i as int]]);
            Seq::<u16>::filter_distributes_over_add(prefix, seq![units@[i as int]], |u: u16| u != 0);
            reveal_with_fuel(Seq::<u16>::filter, 2);
            assert(seq![units@[i as int]].drop_last() =~= Seq::<u16>::empty());
        }
        if u != 0 {
            out.push(u);
        }
        i += 1;
    }
    proof {
        assert(units@.subrange(0, units@.len() as int) =~= units@);
    }
    out
}

/// Copies an owned code-unit buffer.
pub fn copy_units(units: &Vec<u16>) -> (r: Vec<u16>)
    ensures
        r@ == units@,
{
    vstd::slice::slice_to_vec(units.as_slice())
}

/// Copies an owned byte buffer.
pub fn copy_bytes(b: &Vec<u8>) -> (r: Vec<u8>)
    ensures
        r@ == b@,
{
    vstd::slice::slice_to_vec(b.as_slice())
}

/// The low byte of a 16-bit code unit.
pub open spec fn unit_lo(u: u16) -> u8 {
    (u & 0xff) as u8
}

/// The high byte of a 16-bit code unit.
pub open spec fn unit_hi(u: u16) -> u8 {
    (u >> 8) as u8
}

/// The little-endian byte encoding of a code-unit sequence.
pub open spec fn spec_units_to_bytes(units: Seq<u16>) -> Seq<u8> {
    Seq::new(
        units.len() * 2,
        |i: int| if i % 2 == 0 { unit_lo(units[i / 2]) } else { unit_hi(units[i / 2]) },
    )
}

/// Encodes a code-unit sequence as bytes, two per unit, low byte first.
pub fn units_to_bytes(units: &Vec<u16>) -> (r: Vec<u8>)
    ensures
        r@ == spec_units_to_bytes(units@),
{
    let mut out: Vec<u8> = Vec::new();
    let mut i: usize = 0;
    while i < units.len()
        invariant
            i <= units@.len(),
            out@ =~= spec_units_to_bytes(units@.subrange(0, i as int)),
        decreases units@.len() - i,
    {
        let u = units[i];
        proof {
            assert(u & 0xff <= 0xff) by (bit_vector);
            assert(u >> 8 <= 0xff) by (bit_vector);
        }
        out.push((u & 0xff) as u8);
        out.push((u >> 8) as u8);
        i += 1;
        proof {
            assert(out@ =~= spec_units_to_bytes(units@.subrange(0, i as int)));
        }
    }
    proof {
        assert(units@.subrange(0, units@.len() as int) =~= units@);
    }
    out
}

proof fn lemma_strip_all_nonzero(units: Seq<u16>)
    requires
        forall|i: int| 0 <= i < units.len() ==> units[i] != 0,
    ensures
        strip_terminator_units(units) == units,
    decreases units.len(),
{
    reveal(Seq::<u16>::filter);
    if units.len() == 0 {
        assert(strip_terminator_units(units) =~= units);
    } else {
        let head = units.drop_last();
        assert(forall|i: int| 0 <= i < head.len() ==> head[i] == units[i] && head[i] != 0);
        lemma_strip_all_nonzero(head);
        assert(units.last() != 0);
        assert(strip_terminator_units(units) =~= units);
    }
}

/// Law: a name encoded as code units and laid out as bytes is reproduced
/// exactly by the name extractor with matching offset and length; stripping
/// terminators removes every zero unit and nothing else, so a name free of
/// terminators survives the whole trip unchanged.
pub proof fn lemma_name_extraction_round_trip(units: Seq<u16>)
    ensures
        spec_name_units(spec_units_to_bytes(units), 0, units.len() as int) == units,
        forall|i: int|
            0 <= i < strip_terminator_units(units).len() ==> strip_terminator_units(units)[i]
                != 0,
        (forall|i: int| 0 <= i < units.len() ==> units[i] != 0) ==> strip_terminator_units(
            spec_name_units(spec_units_to_bytes(units), 0, units.len() as int),
        ) == units,
{
    let bytes = spec_units_to_bytes(units);
    let extracted = spec_name_units(bytes, 0, units.len() as int);
    assert(bytes.len() == 2 * units.len());
    assert(forall|x: u16|
        ((((x & 0xff) as u8) as u16) | ((((x >> 8) as u8) as u16) << 8)) == x) by (bit_vector);
    assert forall|i: int| 0 <= i < units.len() implies extracted[i] == units[i] by {
        assert(bytes[2 * i] == unit_lo(units[i]));
        assert(bytes[2 * i + 1] == unit_hi(units[i]));
    }
    assert(extracted =~= units);
    broadcast use Seq::lemma_filter_pred;

    if forall|i: int| 0 <= i < units.len() ==> units[i] != 0 {
        lemma_strip_all_nonzero(units);
    }
}

} // verus!
