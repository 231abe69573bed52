use vstd::prelude::*;
use vstd::slice::slice_to_vec;
use vstd::utf8::encode_utf8;

use crate::error::ContractError;

verus! {

/// Base-128 varint encoding: seven bits per byte, least significant group
/// first, the high bit of a byte set exactly when more bytes follow.
pub open spec fn spec_varint(n: nat) -> Seq<u8>
    decreases n,
{
    if n < 128 {
        seq![n as u8]
    } else {
        seq![(128 + (n % 128)) as u8] + spec_varint(n / 128)
    }
}

/// The key of a field: `(field_number << 3) | wire_type`, varint-encoded.
pub open spec fn spec_key(field: nat, wire: nat) -> Seq<u8> {
    spec_varint(field * 8 + wire)
}

/// A length-delimited field: key, payload length as a varint, payload.
pub open spec fn spec_len_delimited(field: nat, payload: Seq<u8>) -> Seq<u8> {
    spec_key(field, 2) + spec_varint(payload.len()) + payload
}

/// A bytes field. An empty value is the field's default and is absent from
/// the output; there are no null markers.
pub open spec fn spec_bytes_field(field: nat, b: Seq<u8>) -> Seq<u8> {
    if b.len() == 0 {
        Seq::empty()
    } else {
        spec_len_delimited(field, b)
    }
}

/// A string field: the UTF-8 bytes of the string as a bytes field.
pub open spec fn spec_string_field(field: nat, s: Seq<char>) -> Seq<u8> {
    spec_bytes_field(field, encode_utf8(s))
}

/// A numeric field of wire type 0. A zero value is the default and is absent
/// from the output.
pub open spec fn spec_varint_field(field: nat, n: nat) -> Seq<u8> {
    if n == 0 {
        Seq::empty()
    } else {
        spec_key(field, 0) + spec_varint(n)
    }
}

/// A record with a deterministic tagged-field encoding.
pub trait ProtoMessage {
    /// The byte-exact encoding of the record.
    spec fn spec_encoding(&self) -> Seq<u8>;

    /// Appends the encoding of the record to `buf`.
    fn encode_raw(&self, buf: &mut Vec<u8>)
        ensures
            final(buf)@ == old(buf)@ + self.spec_encoding(),
    ;
}

/// Appends the varint encoding of `n` to `buf`.
pub fn encode_varint(buf: &mut Vec<u8>, n: u64)
    ensures
        final(buf)@ == old(buf)@ + spec_varint(n as nat),
    decreases n,
{
    if n < 128 {
        buf.push(n as u8);
        assert(buf@ =~= old(buf)@ + spec_varint(n as nat));
    } else {
        buf.push((n % 128) as u8 + 128);
        encode_varint(buf, n / 128);
        assert(buf@ =~= old(buf)@ + spec_varint(n as nat));
    }
}

/// Appends the key of a field to `buf`.
pub fn encode_key(buf: &mut Vec<u8>, field: u32, wire: u32)
    requires
        wire <= 7,
    ensures
        final(buf)@ == old(buf)@ + spec_key(field as nat, wire as nat),
{
    encode_varint(buf, (field as u64) * 8 + (wire as u64));
}

/// Appends a bytes field to `buf`; emits nothing for an empty value.
pub fn encode_bytes_field(buf: &mut Vec<u8>, field: u32, b: &[u8])
    ensures
        final(buf)@ == old(buf)@ + spec_bytes_field(field as nat, b@),
{
    if b.len() == 0 {
        assert(buf@ =~= old(buf)@ + spec_bytes_field(field as nat, b@));
        return ;
    }
    encode_key(buf, field, 2);
    encode_varint(buf, b.len() as u64);
    let mut payload = slice_to_vec(b);
    buf.append(&mut payload);
    assert(buf@ =~= old(buf)@ + spec_bytes_field(field as nat, b@));
}

/// Appends a string field to `buf`; emits nothing for an empty string.
pub fn encode_string_field(buf: &mut Vec<u8>, field: u32, s: &str)
    ensures
        final(buf)@ == old(buf)@ + spec_string_field(field as nat, s@),
{
    let b = s.as_bytes();
    encode_bytes_field(buf, field, b);
}

/// Appends a numeric field of wire type 0 to `buf`; emits nothing for zero.
pub fn encode_varint_field(buf: &mut Vec<u8>, field: u32, n: u64)
    ensures
        final(buf)@ == old(buf)@ + spec_varint_field(field as nat, n as nat),
{
    if n == 0 {
        assert(buf@ =~= old(buf)@ + spec_varint_field(field as nat, n as nat));
        return ;
    }
    encode_key(buf, field, 0);
    encode_varint(buf, n);
    assert(buf@ =~= old(buf)@ + spec_varint_field(field as nat, n as nat));
}

/// Appends an embedded-message field to `buf`. A present message is always
/// emitted, length-prefixed, even when its own encoding is empty.
pub fn encode_message_field<M: ProtoMessage>(buf: &mut Vec<u8>, field: u32, m: &M)
    ensures
        final(buf)@ == old(buf)@ + spec_len_delimited(field as nat, m.spec_encoding()),
{
    let mut payload: Vec<u8> = Vec::new();
    m.encode_raw(&mut payload);
    assert(payload@ =~= m.spec_encoding());
    encode_key(buf, field, 2);
    encode_varint(buf, payload.len() as u64);
    buf.append(&mut payload);
    assert(buf@ =~= old(buf)@ + spec_len_delimited(field as nat, m.spec_encoding()));
}

/// Encodes a whole record. Encoding a well-typed record cannot break an
/// encoder-internal invariant, so the result is always `Ok`; the fallible
/// shape is kept for callers that treat the codec as fallible.
pub fn pb_encode_message<M: ProtoMessage>(message: &M) -> (r: Result<Vec<u8>, ContractError>)
    ensures
        r matches Ok(v) && v@ == message.spec_encoding(),
{
    let mut buf: Vec<u8> = Vec::new();
    message.encode_raw(&mut buf);
    assert(buf@ =~= message.spec_encoding());
    Ok(buf)
}

} // verus!
