//! Fixed-width encodings of the primitive fields shared by instructions and
//! records: byte runs, little-endian integers, flags and optional fields.

use vstd::prelude::*;
use vstd::bytes::{spec_u64_from_le_bytes, spec_u64_to_le_bytes, u64_from_le_bytes, u64_to_le_bytes};
use vstd::bytes::lemma_auto_spec_u64_to_from_le_bytes;
use vstd::slice::slice_subrange;
use crate::pubkey::Pubkey;

verus! {

/// A run of `n` zero bytes.
pub open spec fn zeros(n: nat) -> Seq<u8> {
    Seq::new(n, |i: int| 0u8)
}

/// The flag byte of a boolean.
pub open spec fn spec_flag(b: bool) -> u8 {
    if b {
        1
    } else {
        0
    }
}

/// The boolean of a flag byte; `None` for any byte but 0 and 1.
pub open spec fn spec_unflag(b: u8) -> Option<bool> {
    if b == 0 {
        Some(false)
    } else if b == 1 {
        Some(true)
    } else {
        None
    }
}

/// An optional identifier in a record: a presence flag, then 32 bytes that
/// are zero when the identifier is absent.
pub open spec fn spec_pack_option_key(key: Option<Pubkey>) -> Seq<u8> {
    match key {
        Some(k) => seq![1u8] + k@,
        None => seq![0u8] + zeros(32),
    }
}

/// Reads the 33 bytes of an optional identifier; `None` unless they are
/// the encoding of one.
pub open spec fn spec_unpack_option_key(b: Seq<u8>) -> Option<Option<Pubkey>> {
    if b.len() != 33 {
        None
    } else if b[0] == 1 {
        Some(Some(Pubkey::spec_new(b.subrange(1, 33))))
    } else if b[0] == 0 && b.subrange(1, 33) == zeros(32) {
        Some(None)
    } else {
        None
    }
}

/// An optional amount in a record: a presence flag, then 8 little-endian
/// bytes that are zero when the amount is absent.
pub open spec fn spec_pack_option_u64(value: Option<u64>) -> Seq<u8> {
    match value {
        Some(x) => seq![1u8] + spec_u64_to_le_bytes(x),
        None => seq![0u8] + zeros(8),
    }
}

/// Reads the 9 bytes of an optional amount; `None` unless they are the
/// encoding of one.
pub open spec fn spec_unpack_option_u64(b: Seq<u8>) -> Option<Option<u64>> {
    if b.len() != 9 {
        None
    } else if b[0] == 1 {
        Some(Some(spec_u64_from_le_bytes(b.subrange(1, 9))))
    } else if b[0] == 0 && b.subrange(1, 9) == zeros(8) {
        Some(None)
    } else {
        None
    }
}

/// Decoding an encoded optional identifier gives it back.
pub proof fn lemma_option_key_round_trip(key: Option<Pubkey>)
    ensures
        spec_pack_option_key(key).len() == 33,
        spec_unpack_option_key(spec_pack_option_key(key)) == Some(key),
{
    let b = spec_pack_option_key(key);
    match key {
        Some(k) => {
            Pubkey::lemma_view_injective(k, k);
            assert(b.subrange(1, 33) =~= k@);
        },
        None => {
            assert(b.subrange(1, 33) =~= zeros(32));
        },
    }
}

/// Bytes that decode as an optional identifier are its encoding.
pub proof fn lemma_option_key_canonical(b: Seq<u8>)
    requires
        spec_unpack_option_key(b) is Some,
    ensures
        spec_pack_option_key(spec_unpack_option_key(b)->0) == b,
{
    let key = spec_unpack_option_key(b)->0;
    match key {
        Some(k) => {
            Pubkey::lemma_spec_new(b.subrange(1, 33));
            assert(k@ =~= b.subrange(1, 33));
            assert(spec_pack_option_key(key) =~= b);
        },
        None => {
            assert(spec_pack_option_key(key) =~= seq![0u8] + b.subrange(1, 33));
            assert(seq![0u8] + b.subrange(1, 33) =~= b);
        },
    }
}

/// Decoding an encoded optional amount gives it back.
pub proof fn lemma_option_u64_round_trip(value: Option<u64>)
    ensures
        spec_pack_option_u64(value).len() == 9,
        spec_unpack_option_u64(spec_pack_option_u64(value)) == Some(value),
{
    lemma_auto_spec_u64_to_from_le_bytes();
    let b = spec_pack_option_u64(value);
    match value {
        Some(x) => {
            assert(b.subrange(1, 9) =~= spec_u64_to_le_bytes(x));
        },
        None => {
            assert(b.subrange(1, 9) =~= zeros(8));
        },
    }
}

/// Bytes that decode as an optional amount are its encoding.
pub proof fn lemma_option_u64_canonical(b: Seq<u8>)
    requires
        spec_unpack_option_u64(b) is Some,
    ensures
        spec_pack_option_u64(spec_unpack_option_u64(b)->0) == b,
{
    lemma_auto_spec_u64_to_from_le_bytes();
    let value = spec_unpack_option_u64(b)->0;
    match value {
        Some(x) => {
            assert(spec_u64_to_le_bytes(x) == b.subrange(1, 9));
            assert(spec_pack_option_u64(value) =~= b);
        },
        None => {
            assert(spec_pack_option_u64(value) =~= seq![0u8] + b.subrange(1, 9));
            assert(seq![0u8] + b.subrange(1, 9) =~= b);
        },
    }
}

/// Appends `bytes` to `buf`.
pub(crate) fn append(buf: &mut Vec<u8>, bytes: &[u8])
    ensures
        final(buf)@ == old(buf)@ + bytes@,
{
    let mut i: usize = 0;
    while i < bytes.len()
        invariant
            i <= bytes@.len(),
            buf@ == old(buf)@ + bytes@.subrange(0, i as int),
        decreases bytes@.len() - i,
    {
        buf.push(bytes[i]);
        i += 1;
        assert(buf@ =~= old(buf)@ + bytes@.subrange(0, i as int));
    }
    assert(bytes@.subrange(0, i as int) =~= bytes@);
}

/// Appends `n` zero bytes to `buf`.
pub(crate) fn append_zeros(buf: &mut Vec<u8>, n: usize)
    ensures
        final(buf)@ == old(buf)@ + zeros(n as nat),
{
    let mut i: usize = 0;
    while i < n
        invariant
            i <= n,
            buf@ == old(buf)@ + zeros(i as nat),
        decreases n - i,
    {
        buf.push(0);
        i += 1;
        assert(buf@ =~= old(buf)@ + zeros(i as nat));
    }
}

/// Appends the 8 little-endian bytes of `value` to `buf`.
pub(crate) fn append_u64(buf: &mut Vec<u8>, value: u64)
    ensures
        final(buf)@ == old(buf)@ + spec_u64_to_le_bytes(value),
{
    let bytes = u64_to_le_bytes(value);
    append(buf, bytes.as_slice());
}

/// Appends the 32 bytes of `key` to `buf`.
pub(crate) fn append_key(buf: &mut Vec<u8>, key: &Pubkey)
    ensures
        final(buf)@ == old(buf)@ + key@,
{
    append(buf, key.0.as_slice());
}

/// Appends the 33 bytes of an optional identifier to `buf`.
pub(crate) fn append_option_key(buf: &mut Vec<u8>, key: &Option<Pubkey>)
    ensures
        final(buf)@ == old(buf)@ + spec_pack_option_key(*key),
{
    match key {
        Some(k) => {
            buf.push(1);
            append_key(buf, k);
            assert(buf@ =~= old(buf)@ + (seq![1u8] + k@));
        },
        None => {
            buf.push(0);
            append_zeros(buf, 32);
            assert(buf@ =~= old(buf)@ + (seq![0u8] + zeros(32)));
        },
    }
}

/// Appends the 9 bytes of an optional amount to `buf`.
pub(crate) fn append_option_u64(buf: &mut Vec<u8>, value: &Option<u64>)
    ensures
        final(buf)@ == old(buf)@ + spec_pack_option_u64(*value),
{
    match value {
        Some(x) => {
            buf.push(1);
            append_u64(buf, *x);
            assert(buf@ =~= old(buf)@ + (seq![1u8] + spec_u64_to_le_bytes(*x)));
        },
        None => {
            buf.push(0);
            append_zeros(buf, 8);
            assert(buf@ =~= old(buf)@ + (seq![0u8] + zeros(8)));
        },
    }
}

/// Whether every byte of `bytes` is zero.
pub(crate) fn all_zero(bytes: &[u8]) -> (r: bool)
    ensures
        r == (bytes@ == zeros(bytes@.len())),
{
    let mut i: usize = 0;
    while i < bytes.len()
        invariant
            i <= bytes@.len(),
            forall|j: int| 0 <= j < i ==> bytes@[j] == 0,
        decreases bytes@.len() - i,
    {
        if bytes[i] != 0 {
            assert(zeros(bytes@.len())[i as int] == 0);
            return false;
        }
        i += 1;
    }
    assert(bytes@ =~= zeros(bytes@.len()));
    true
}

/// Reads a flag byte.
pub(crate) fn unflag(b: u8) -> (r: Option<bool>)
    ensures
        r == spec_unflag(b),
{
    if b == 0 {
        Some(false)
    } else if b == 1 {
        Some(true)
    } else {
        None
    }
}

/// Reads the identifier that starts at `start`.
pub(crate) fn read_key(input: &[u8], start: usize) -> (key: Pubkey)
    requires
        start + 32 <= input@.len(),
    ensures
        key == Pubkey::spec_new(input@.subrange(start as int, start + 32)),
        key@ == input@.subrange(start as int, start + 32),
{
    let len: usize = input.len();
    Pubkey::new(slice_subrange(input, start, start + 32))
}

/// Reads the little-endian amount that starts at `start`.
pub(crate) fn read_u64(input: &[u8], start: usize) -> (value: u64)
    requires
        start + 8 <= input@.len(),
    ensures
        value == spec_u64_from_le_bytes(input@.subrange(start as int, start + 8)),
{
    let len: usize = input.len();
    u64_from_le_bytes(slice_subrange(input, start, start + 8))
}

/// Reads the optional identifier that starts at `start`.
pub(crate) fn read_option_key(input: &[u8], start: usize) -> (key: Option<Option<Pubkey>>)
    requires
        start + 33 <= input@.len(),
    ensures
        key == spec_unpack_option_key(input@.subrange(start as int, start + 33)),
{
    let ghost field = input@.subrange(start as int, start + 33);
    assert(field.subrange(1, 33) =~= input@.subrange(start + 1, start + 33));
    if input[start] == 1 {
        Some(Some(read_key(input, start + 1)))
    } else if input[start] == 0 && all_zero(slice_subrange(input, start + 1, start + 33)) {
        Some(None)
    } else {
        None
    }
}

/// Reads the optional amount that starts at `start`.
pub(crate) fn read_option_u64(input: &[u8], start: usize) -> (value: Option<Option<u64>>)
    requires
        start + 9 <= input@.len(),
    ensures
        value == spec_unpack_option_u64(input@.subrange(start as int, start + 9)),
{
    let ghost field = input@.subrange(start as int, start + 9);
    assert(field.subrange(1, 9) =~= input@.subrange(start + 1, start + 9));
    if input[start] == 1 {
        Some(Some(read_u64(input, start + 1)))
    } else if input[start] == 0 && all_zero(slice_subrange(input, start + 1, start + 9)) {
        Some(None)
    } else {
        None
    }
}

} // verus!
