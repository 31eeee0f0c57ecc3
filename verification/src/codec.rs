//! The wire format of the persisted state file: a compact, schema-evolvable
//! binary encoding of the two-field record.
//!
//! A record is a sequence of fields.  Each field starts with a key, a
//! variable-width little-endian base-128 integer (a varint) holding the
//! field number times eight plus a wire type.  The two enumeration fields
//! carry stable field numbers — one for the active slot, two for the
//! one-shot override — and wire type zero (varint); those numbers are an
//! external contract shared with the updater that writes the file and must
//! never change.  So that fields can be added later without breaking old
//! readers, unknown field numbers are skipped over by their wire type:
//! zero (a varint), one (eight bytes), two (a varint length and that many
//! bytes), five (four bytes).  The reserved wire types and the deprecated
//! group encodings are rejected.  A varint is at most ten bytes and its
//! value must fit sixty-four bits; an enumeration field keeps the low
//! thirty-two bits of its value, so out-of-range integers reach the
//! decoded record and are for the selector to judge.  When both fields
//! hold the zero ordinal the encoding is empty, and a decoded field that
//! is absent holds the zero ordinal.

use vstd::prelude::*;
use vstd::arithmetic::div_mod::{lemma_mod_multiples_vanish, lemma_small_mod};
use crate::slot::SLOT_NONE;
use crate::state::{DecodeError, LoaderState};

verus! {

/// The largest value a varint that still has `9 - count` continuation
/// bytes to go may denote: the ten-byte limit caps the whole varint at
/// sixty-four bits.
pub open spec fn varint_bound(count: nat) -> nat
    decreases 9 - count,
{
    if count >= 9 {
        1
    } else {
        127 + 128 * varint_bound(count + 1)
    }
}

/// Every varint bound fits sixty-four bits.
proof fn lemma_varint_bound_fits(count: nat)
    requires
        count <= 9,
    ensures
        varint_bound(count) <= 0xFFFF_FFFF_FFFF_FFFF,
        varint_bound(count) == 127 + 128 * varint_bound(count + 1) || varint_bound(count) == 1,
        varint_bound(0) == 0xFFFF_FFFF_FFFF_FFFF,
{
    reveal_with_fuel(varint_bound, 11);
    assert(varint_bound(9) == 1);
    assert(varint_bound(8) == 255);
    assert(varint_bound(7) == 0x7FFF);
    assert(varint_bound(6) == 0x3F_FFFF);
    assert(varint_bound(5) == 0x1FFF_FFFF);
    assert(varint_bound(4) == 0xF_FFFF_FFFF);
    assert(varint_bound(3) == 0x7FF_FFFF_FFFF);
    assert(varint_bound(2) == 0x3_FFFF_FFFF_FFFF);
    assert(varint_bound(1) == 0x1FF_FFFF_FFFF_FFFF);
    assert(varint_bound(0) == 0xFFFF_FFFF_FFFF_FFFF);
}

/// Parses the varint beginning at `i` whose first `count` continuation
/// bytes have already been consumed by enclosing calls: the denoted value
/// and the index just past the varint's last byte.  Running off the end of
/// the input, an eleventh byte, and a value past sixty-four bits are all
/// malformed varints.
pub open spec fn spec_parse_varint(s: Seq<u8>, i: int, count: nat) -> Result<
    (nat, int),
    DecodeError,
>
    decreases 9 - count,
{
    if !(0 <= i < s.len()) {
        Err(DecodeError::InvalidVarint)
    } else {
        let b = s[i];
        if b < 0x80 {
            if count == 9 && b >= 2 {
                Err(DecodeError::InvalidVarint)
            } else {
                Ok((b as nat, i + 1))
            }
        } else {
            if count >= 9 {
                Err(DecodeError::InvalidVarint)
            } else {
                match spec_parse_varint(s, i + 1, count + 1) {
                    Err(e) => Err(e),
                    Ok((rest, j)) => Ok((((b - 0x80) + 128 * rest) as nat, j)),
                }
            }
        }
    }
}

/// A parsed varint consumed at least one byte, stopped inside the input,
/// and its value is within the bound of its position.
pub proof fn lemma_parse_varint_props(s: Seq<u8>, i: int, count: nat)
    requires
        count <= 9,
    ensures
        spec_parse_varint(s, i, count) matches Ok(p) ==> i < p.1 <= s.len() && p.0 <= varint_bound(
            count,
        ),
    decreases 9 - count,
{
    if 0 <= i < s.len() {
        let b = s[i];
        if b >= 0x80 && count < 9 {
            lemma_parse_varint_props(s, i + 1, count + 1);
        }
    }
}

/// The value an enumeration field keeps of a decoded varint: its low
/// thirty-two bits, read as a signed integer.
pub open spec fn spec_truncate_to_i32(v: nat) -> i32 {
    let m = v % 0x1_0000_0000;
    if m >= 0x8000_0000 {
        (m - 0x1_0000_0000) as i32
    } else {
        m as i32
    }
}

/// The sixty-four-bit value a signed enumeration ordinal is encoded as:
/// negative ordinals are sign-extended.
pub open spec fn spec_wire_value(x: i32) -> nat {
    if x >= 0 {
        x as nat
    } else {
        (x + 0x1_0000_0000_0000_0000) as nat
    }
}

/// Keeping the low thirty-two bits of an ordinal's wire value gives the
/// ordinal back.
pub proof fn lemma_wire_value_roundtrip(x: i32)
    ensures
        spec_truncate_to_i32(spec_wire_value(x)) == x,
        spec_wire_value(x) < 0x1_0000_0000_0000_0000,
{
    if x >= 0 {
        lemma_small_mod(x as nat, 0x1_0000_0000);
    } else {
        let b = x + 0x1_0000_0000;
        lemma_mod_multiples_vanish(0xFFFF_FFFF, b, 0x1_0000_0000);
        assert(0x1_0000_0000 * 0xFFFF_FFFF + b == x + 0x1_0000_0000_0000_0000);
        lemma_small_mod(b as nat, 0x1_0000_0000);
    }
}

/// Parses every field from `i` to the end of the input into the record,
/// later occurrences of a field overwriting earlier ones.
pub open spec fn spec_parse_fields(s: Seq<u8>, i: int, st: LoaderState) -> Result<
    LoaderState,
    DecodeError,
>
    decreases s.len() - i,
    when 0 <= i <= s.len()
    via spec_parse_fields_decreases
{
    if i == s.len() {
        Ok(st)
    } else {
        match spec_parse_varint(s, i, 0) {
            Err(e) => Err(e),
            Ok((key, j)) => {
                if key > 0xFFFF_FFFF {
                    Err(DecodeError::InvalidKey)
                } else {
                    let tag = key / 8;
                    let wire = key % 8;
                    if wire == 3 || wire == 4 || wire >= 6 {
                        Err(DecodeError::InvalidWireType)
                    } else if tag == 0 {
                        Err(DecodeError::InvalidKey)
                    } else if tag == 1 || tag == 2 {
                        if wire != 0 {
                            Err(DecodeError::InvalidWireType)
                        } else {
                            match spec_parse_varint(s, j, 0) {
                                Err(e) => Err(e),
                                Ok((v, k)) => {
                                    let st2 = if tag == 1 {
                                        LoaderState {
                                            active_slot: spec_truncate_to_i32(v),
                                            next_slot: st.next_slot,
                                        }
                                    } else {
                                        LoaderState {
                                            active_slot: st.active_slot,
                                            next_slot: spec_truncate_to_i32(v),
                                        }
                                    };
                                    spec_parse_fields(s, k, st2)
                                },
                            }
                        }
                    } else if wire == 0 {
                        match spec_parse_varint(s, j, 0) {
                            Err(e) => Err(e),
                            Ok((v, k)) => spec_parse_fields(s, k, st),
                        }
                    } else if wire == 1 {
                        if j + 8 <= s.len() {
                            spec_parse_fields(s, j + 8, st)
                        } else {
                            Err(DecodeError::Truncated)
                        }
                    } else if wire == 5 {
                        if j + 4 <= s.len() {
                            spec_parse_fields(s, j + 4, st)
                        } else {
                            Err(DecodeError::Truncated)
                        }
                    } else {
                        match spec_parse_varint(s, j, 0) {
                            Err(e) => Err(e),
                            Ok((l, k)) => if k + l <= s.len() {
                                spec_parse_fields(s, k + l, st)
                            } else {
                                Err(DecodeError::Truncated)
                            },
                        }
                    }
                }
            },
        }
    }
}

#[via_fn]
proof fn spec_parse_fields_decreases(s: Seq<u8>, i: int, st: LoaderState) {
    lemma_parse_varint_props(s, i, 0);
    match spec_parse_varint(s, i, 0) {
        Ok((key, j)) => {
            lemma_parse_varint_props(s, j, 0);
        },
        Err(_) => {},
    }
}

/// What decoding the whole input yields: every field parsed into a record
/// whose absent fields hold the zero ordinal.
pub open spec fn spec_parse_state(s: Seq<u8>) -> Result<LoaderState, DecodeError> {
    spec_parse_fields(s, 0, LoaderState { active_slot: SLOT_NONE, next_slot: SLOT_NONE })
}

/// The canonical encoding of a varint value: seven bits to a byte, least
/// significant group first, the continuation bit on every byte but the
/// last.
pub open spec fn spec_encode_varint(v: nat) -> Seq<u8>
    decreases v,
{
    if v < 0x80 {
        seq![v as u8]
    } else {
        seq![((v % 0x80) + 0x80) as u8] + spec_encode_varint(v / 0x80)
    }
}

/// The canonical encoding of a record: each field that holds a non-zero
/// ordinal as its key and the ordinal's wire value, fields in the order of
/// their numbers; a field holding the zero ordinal is left out.
pub open spec fn spec_encode_state(st: LoaderState) -> Seq<u8> {
    (if st.active_slot != 0 {
        seq![8u8] + spec_encode_varint(spec_wire_value(st.active_slot))
    } else {
        Seq::<u8>::empty()
    }) + (if st.next_slot != 0 {
        seq![16u8] + spec_encode_varint(spec_wire_value(st.next_slot))
    } else {
        Seq::<u8>::empty()
    })
}

/// Parsing a canonically encoded varint that lies within the input gives
/// back exactly the encoded value and stops just past its last byte.
proof fn lemma_parse_encode_varint(s: Seq<u8>, i: int, count: nat, v: nat)
    requires
        0 <= i,
        count <= 9,
        v <= varint_bound(count),
        i + spec_encode_varint(v).len() <= s.len(),
        s.subrange(i, i + spec_encode_varint(v).len()) == spec_encode_varint(v),
    ensures
        spec_parse_varint(s, i, count) == Ok::<(nat, int), DecodeError>(
            (v, i + spec_encode_varint(v).len()),
        ),
    decreases v,
{
    let e = spec_encode_varint(v);
    assert(s.subrange(i, i + e.len())[0] == s[i]);
    if v < 0x80 {
        assert(e =~= seq![v as u8]);
        assert(s[i] == v as u8);
    } else {
        let rest = spec_encode_varint(v / 0x80);
        let b0 = ((v % 0x80) + 0x80) as u8;
        assert(e =~= seq![b0] + rest);
        assert(s[i] == b0);
        assert(count < 9);
        assert(varint_bound(count) == 127 + 128 * varint_bound(count + 1));
        assert(v / 0x80 <= varint_bound(count + 1)) by {
            assert(v <= 127 + 128 * varint_bound(count + 1));
        }
        assert(s.subrange(i + 1, i + e.len()) =~= rest) by {
            assert forall|idx: int| 0 <= idx < rest.len() implies s.subrange(
                i + 1,
                i + e.len(),
            )[idx] == rest[idx] by {
                assert(s.subrange(i, i + e.len())[idx + 1] == s[i + idx + 1]);
                assert(e[idx + 1] == rest[idx]);
            }
        }
        lemma_parse_encode_varint(s, i + 1, count + 1, v / 0x80);
        assert((b0 - 0x80) + 128 * (v / 0x80) == v);
    }
}

/// Decoding a canonically encoded record gives the record back, for every
/// record: what the library writes, a later boot reads back unchanged.
pub proof fn lemma_state_roundtrip(st: LoaderState)
    ensures
        spec_parse_state(spec_encode_state(st)) == Ok::<LoaderState, DecodeError>(st),
{
    let s = spec_encode_state(st);
    let init = LoaderState { active_slot: SLOT_NONE, next_slot: SLOT_NONE };
    lemma_varint_bound_fits(0);
    lemma_wire_value_roundtrip(st.active_slot);
    lemma_wire_value_roundtrip(st.next_slot);
    let wva = spec_wire_value(st.active_slot);
    let wvb = spec_wire_value(st.next_slot);
    let ea = spec_encode_varint(wva);
    let eb = spec_encode_varint(wvb);
    if st.active_slot == 0 && st.next_slot == 0 {
        assert(s =~= Seq::<u8>::empty());
        assert(st == init);
    } else if st.next_slot == 0 {
        assert(s =~= seq![8u8] + ea);
        assert(spec_parse_varint(s, 0, 0) == Ok::<(nat, int), DecodeError>((8, 1)));
        assert(s.subrange(1, 1 + ea.len() as int) =~= ea);
        lemma_parse_encode_varint(s, 1, 0, wva);
        let st2 = LoaderState { active_slot: st.active_slot, next_slot: SLOT_NONE };
        assert(spec_parse_fields(s, s.len() as int, st2) == Ok::<LoaderState, DecodeError>(st2));
        assert(spec_parse_fields(s, 0, init) == Ok::<LoaderState, DecodeError>(st));
    } else if st.active_slot == 0 {
        assert(s =~= seq![16u8] + eb);
        assert(spec_parse_varint(s, 0, 0) == Ok::<(nat, int), DecodeError>((16, 1)));
        assert(s.subrange(1, 1 + eb.len() as int) =~= eb);
        lemma_parse_encode_varint(s, 1, 0, wvb);
        let st2 = LoaderState { active_slot: SLOT_NONE, next_slot: st.next_slot };
        assert(spec_parse_fields(s, s.len() as int, st2) == Ok::<LoaderState, DecodeError>(st2));
        assert(spec_parse_fields(s, 0, init) == Ok::<LoaderState, DecodeError>(st));
    } else {
        assert(s =~= seq![8u8] + ea + seq![16u8] + eb);
        let mid = 1 + ea.len() as int;
        assert(spec_parse_varint(s, 0, 0) == Ok::<(nat, int), DecodeError>((8, 1)));
        assert(s.subrange(1, 1 + ea.len() as int) =~= ea);
        lemma_parse_encode_varint(s, 1, 0, wva);
        let st2 = LoaderState { active_slot: st.active_slot, next_slot: SLOT_NONE };
        assert(s[mid] == 16);
        assert(spec_parse_varint(s, mid, 0) == Ok::<(nat, int), DecodeError>((16, mid + 1)));
        assert(s.subrange(mid + 1, mid + 1 + eb.len()) =~= eb);
        lemma_parse_encode_varint(s, mid + 1, 0, wvb);
        assert(spec_parse_fields(s, s.len() as int, st) == Ok::<LoaderState, DecodeError>(st));
        assert(spec_parse_fields(s, mid, st2) == Ok::<LoaderState, DecodeError>(st));
        assert(spec_parse_fields(s, 0, init) == Ok::<LoaderState, DecodeError>(st));
    }
}

/// Parses one varint of the input, `count` continuation bytes deep.
fn parse_varint_from(bytes: &Vec<u8>, i: usize, count: u32) -> (r: Result<
    (u64, usize),
    DecodeError,
>)
    requires
        count <= 9,
    ensures
        spec_parse_varint(bytes@, i as int, count as nat) matches Ok(p) ==> (r matches Ok(q)
            && q.0 as nat == p.0 && q.1 as int == p.1),
        spec_parse_varint(bytes@, i as int, count as nat) matches Err(e) ==> r == Err::<
            (u64, usize),
            DecodeError,
        >(e),
    decreases 9 - count,
{
    if i >= bytes.len() {
        return Err(DecodeError::InvalidVarint);
    }
    let b = bytes[i];
    if b < 0x80 {
        if count == 9 && b >= 2 {
            Err(DecodeError::InvalidVarint)
        } else {
            Ok((b as u64, i + 1))
        }
    } else {
        if count == 9 {
            Err(DecodeError::InvalidVarint)
        } else {
            match parse_varint_from(bytes, i + 1, count + 1) {
                Err(e) => Err(e),
                Ok((rest, j)) => {
                    proof {
                        lemma_parse_varint_props(bytes@, i + 1, (count + 1) as nat);
                        lemma_varint_bound_fits(count as nat);
                    }
                    Ok(((b - 0x80) as u64 + 128 * rest, j))
                },
            }
        }
    }
}

/// The low thirty-two bits of a decoded value, read as a signed integer.
fn truncate_to_i32(v: u64) -> (r: i32)
    ensures
        r == spec_truncate_to_i32(v as nat),
{
    let m: u64 = v % 0x1_0000_0000;
    if m >= 0x8000_0000 {
        ((m as i64) - 0x1_0000_0000) as i32
    } else {
        m as i32
    }
}

/// The sixty-four-bit wire value of a signed enumeration ordinal.
fn wire_value_of(x: i32) -> (r: u64)
    ensures
        r as nat == spec_wire_value(x),
{
    if x >= 0 {
        x as u64
    } else {
        let w: i128 = (x as i128) + 0x1_0000_0000_0000_0000;
        w as u64
    }
}

/// Decodes the bytes of the state file into a record, or says how they
/// are malformed.  Decoding never substitutes a default for unreadable
/// contents: that decision belongs to the selector.
pub fn decode_loader_state(bytes: &Vec<u8>) -> (r: Result<LoaderState, DecodeError>)
    ensures
        r == spec_parse_state(bytes@),
{
    let mut st = LoaderState { active_slot: SLOT_NONE, next_slot: SLOT_NONE };
    let mut i: usize = 0;
    while i < bytes.len()
        invariant
            i <= bytes.len(),
            spec_parse_fields(bytes@, i as int, st) == spec_parse_state(bytes@),
        decreases bytes@.len() - i,
    {
        let (key, j) = match parse_varint_from(bytes, i, 0) {
            Ok(p) => p,
            Err(e) => {
                return Err(e);
            },
        };
        proof {
            lemma_parse_varint_props(bytes@, i as int, 0);
        }
        if key > 0xFFFF_FFFF {
            return Err(DecodeError::InvalidKey);
        }
        let tag: u64 = key / 8;
        let wire: u64 = key % 8;
        if wire == 3 || wire == 4 || wire >= 6 {
            return Err(DecodeError::InvalidWireType);
        }
        if tag == 0 {
            return Err(DecodeError::InvalidKey);
        }
        if tag == 1 || tag == 2 {
            if wire != 0 {
                return Err(DecodeError::InvalidWireType);
            }
            let (v, k) = match parse_varint_from(bytes, j, 0) {
                Ok(p) => p,
                Err(e) => {
                    return Err(e);
                },
            };
            proof {
                lemma_parse_varint_props(bytes@, j as int, 0);
            }
            let x = truncate_to_i32(v);
            if tag == 1 {
                st = LoaderState { active_slot: x, next_slot: st.next_slot };
            } else {
                st = LoaderState { active_slot: st.active_slot, next_slot: x };
            }
            i = k;
        } else if wire == 0 {
            let (_v, k) = match parse_varint_from(bytes, j, 0) {
                Ok(p) => p,
                Err(e) => {
                    return Err(e);
                },
            };
            proof {
                lemma_parse_varint_props(bytes@, j as int, 0);
            }
            i = k;
        } else if wire == 1 {
            if bytes.len() - j >= 8 {
                i = j + 8;
            } else {
                return Err(DecodeError::Truncated);
            }
        } else if wire == 5 {
            if bytes.len() - j >= 4 {
                i = j + 4;
            } else {
                return Err(DecodeError::Truncated);
            }
        } else {
            let (l, k) = match parse_varint_from(bytes, j, 0) {
                Ok(p) => p,
                Err(e) => {
                    return Err(e);
                },
            };
            proof {
                lemma_parse_varint_props(bytes@, j as int, 0);
            }
            if l <= (bytes.len() - k) as u64 {
                i = k + (l as usize);
            } else {
                return Err(DecodeError::Truncated);
            }
        }
    }
    Ok(st)
}

/// Appends the canonical varint encoding of `v` to `out`.
fn encode_varint(v: u64, out: &mut Vec<u8>)
    ensures
        final(out)@ == old(out)@ + spec_encode_varint(v as nat),
    decreases v,
{
    if v < 0x80 {
        out.push(v as u8);
        assert(out@ =~= old(out)@ + spec_encode_varint(v as nat));
    } else {
        out.push((v % 0x80 + 0x80) as u8);
        encode_varint(v / 0x80, out);
        assert(out@ =~= old(out)@ + spec_encode_varint(v as nat));
    }
}

/// Encodes a record into the canonical bytes of the state file.
pub fn encode_loader_state(st: &LoaderState) -> (r: Vec<u8>)
    ensures
        r@ == spec_encode_state(*st),
{
    let mut out: Vec<u8> = Vec::new();
    if st.active_slot != 0 {
        out.push(8);
        encode_varint(wire_value_of(st.active_slot), &mut out);
    }
    if st.next_slot != 0 {
        out.push(16);
        encode_varint(wire_value_of(st.next_slot), &mut out);
    }
    assert(out@ =~= spec_encode_state(*st));
    out
}

} // verus!
