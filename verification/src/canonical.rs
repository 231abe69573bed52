use vstd::prelude::*;
use vstd::slice::slice_to_vec;

verus! {

/// 256-based power function, the bound under which a number's minimal
/// big-endian form has a given number of bytes.
pub open spec fn pow256(k: nat) -> nat
    decreases k,
{
    if k == 0 {
        1
    } else {
        256 * pow256((k - 1) as nat)
    }
}

/// The minimal big-endian byte representation of a number: no leading zero
/// bytes, and zero itself is represented by the empty sequence.
pub open spec fn spec_be_bytes(n: nat) -> Seq<u8>
    decreases n,
{
    if n == 0 {
        Seq::empty()
    } else {
        spec_be_bytes(n / 256) + seq![(n % 256) as u8]
    }
}

/// A number below `pow256(k)` needs at most `k` big-endian bytes.
pub proof fn lemma_be_bytes_len(n: nat, k: nat)
    requires
        n < pow256(k),
    ensures
        spec_be_bytes(n).len() <= k,
    decreases k,
{
    if n == 0 {
    } else {
        assert(k > 0);
        assert(n < 256 * pow256((k - 1) as nat));
        assert(256 * (n / 256) <= n) by {
            assert(n == 256 * (n / 256) + n % 256);
        }
        assert(n / 256 < pow256((k - 1) as nat));
        lemma_be_bytes_len(n / 256, (k - 1) as nat);
    }
}

/// A `u64` needs at most eight big-endian bytes.
pub proof fn lemma_be_bytes_len_u64(n: u64)
    ensures
        spec_be_bytes(n as nat).len() <= 8,
{
    assert(pow256(8) == 0x1_0000_0000_0000_0000) by {
        assert(pow256(0) == 1);
        assert(pow256(1) == 0x100);
        assert(pow256(2) == 0x1_0000);
        assert(pow256(3) == 0x100_0000);
        assert(pow256(4) == 0x1_0000_0000);
        assert(pow256(5) == 0x100_0000_0000);
        assert(pow256(6) == 0x1_0000_0000_0000);
        assert(pow256(7) == 0x100_0000_0000_0000);
    }
    lemma_be_bytes_len(n as nat, 8);
}

/// The canonical encoding of a byte string: a single byte below `0x80` is
/// itself; otherwise the string is prefixed by its length, the length itself
/// in length-prefixed big-endian form when it does not fit the short form.
pub open spec fn spec_rlp_str(b: Seq<u8>) -> Seq<u8> {
    if b.len() == 1 && b[0] < 0x80 {
        b
    } else if b.len() < 56 {
        seq![(0x80 + b.len()) as u8] + b
    } else {
        seq![(0xb7 + spec_be_bytes(b.len()).len()) as u8] + spec_be_bytes(b.len()) + b
    }
}

/// The canonical encoding of an unsigned number: its minimal big-endian
/// bytes, encoded as a byte string. Zero encodes as the empty byte string.
pub open spec fn spec_rlp_uint(n: nat) -> Seq<u8> {
    spec_rlp_str(spec_be_bytes(n))
}

/// The prefix a list carries: the total encoded length of its contents,
/// short form below 56, length-prefixed big-endian form otherwise.
pub open spec fn spec_rlp_list_prefix(payload_len: nat) -> Seq<u8> {
    if payload_len < 56 {
        seq![(0xc0 + payload_len) as u8]
    } else {
        seq![(0xf7 + spec_be_bytes(payload_len).len()) as u8] + spec_be_bytes(payload_len)
    }
}

/// The canonical encoding of a list: the prefix followed by the
/// concatenated encodings of its items.
pub open spec fn spec_rlp_list(payload: Seq<u8>) -> Seq<u8> {
    spec_rlp_list_prefix(payload.len()) + payload
}

/// The minimal big-endian bytes of `n`, as a vector.
pub fn u64_be_bytes(n: u64) -> (out: Vec<u8>)
    ensures
        out@ == spec_be_bytes(n as nat),
    decreases n,
{
    if n == 0 {
        let out: Vec<u8> = Vec::new();
        assert(out@ =~= spec_be_bytes(n as nat));
        out
    } else {
        let mut out = u64_be_bytes(n / 256);
        out.push((n % 256) as u8);
        assert(out@ =~= spec_be_bytes(n as nat));
        out
    }
}

/// Appends the canonical byte-string encoding of `b` to `buf`.
pub fn rlp_append_bytes(buf: &mut Vec<u8>, b: &[u8])
    ensures
        final(buf)@ == old(buf)@ + spec_rlp_str(b@),
{
    if b.len() == 1 && b[0] < 0x80 {
        buf.push(b[0]);
        assert(b@ =~= seq![b@[0]]);
        assert(buf@ =~= old(buf)@ + spec_rlp_str(b@));
    } else if b.len() < 56 {
        buf.push(0x80 + b.len() as u8);
        let mut payload = slice_to_vec(b);
        buf.append(&mut payload);
        assert(buf@ =~= old(buf)@ + spec_rlp_str(b@));
    } else {
        let mut len_bytes = u64_be_bytes(b.len() as u64);
        proof {
            lemma_be_bytes_len_u64(b.len() as u64);
        }
        buf.push(0xb7 + len_bytes.len() as u8);
        buf.append(&mut len_bytes);
        let mut payload = slice_to_vec(b);
        buf.append(&mut payload);
        assert(buf@ =~= old(buf)@ + spec_rlp_str(b@));
    }
}

/// Appends the canonical encoding of an unsigned number to `buf`.
pub fn rlp_append_uint(buf: &mut Vec<u8>, n: u64)
    ensures
        final(buf)@ == old(buf)@ + spec_rlp_uint(n as nat),
{
    let be = u64_be_bytes(n);
    rlp_append_bytes(buf, be.as_slice());
}

/// An unsigned or loosely-signed legacy-style transaction record. Immutable
/// once constructed; it is encoded, never mutated in place.
pub struct LegacyTransaction {
    pub nonce: u64,
    pub gas_price: u64,
    pub gas_limit: u64,
    pub to: Option<[u8; 20]>,
    pub value: u64,
    pub data: Vec<u8>,
}

/// The nine items of a canonical-list-encoded legacy transaction record, in
/// their fixed order: `nonce, gas_price, gas_limit, to-or-empty-string,
/// value, data, v, r, s`. An absent `to` is encoded as the empty byte
/// string, never omitted from the list.
pub open spec fn spec_tx_items(tx: LegacyTransaction, r: Seq<u8>, s: Seq<u8>, v: nat) -> Seq<u8> {
    spec_rlp_uint(tx.nonce as nat) + spec_rlp_uint(tx.gas_price as nat) + spec_rlp_uint(
        tx.gas_limit as nat,
    ) + (match tx.to {
        Some(a) => spec_rlp_str(a@),
        None => spec_rlp_str(Seq::empty()),
    }) + spec_rlp_uint(tx.value as nat) + spec_rlp_str(tx.data@) + spec_rlp_uint(v) + spec_rlp_str(
        r,
    ) + spec_rlp_str(s)
}

/// The canonical encoding of a legacy transaction record with its `v, r, s`
/// values: the nine items as a list.
pub open spec fn spec_rlp_tx(tx: LegacyTransaction, r: Seq<u8>, s: Seq<u8>, v: nat) -> Seq<u8> {
    spec_rlp_list(spec_tx_items(tx, r, s, v))
}

/// Canonically encodes a legacy transaction record as a nine-item list. The
/// `v, r, s` values are caller-supplied raw material and are not validated
/// as a cryptographic signature; a structurally valid but meaningless
/// signature is an accepted input.
pub fn rlp_encode(tx: &LegacyTransaction, r: &[u8], s: &[u8], v: u64) -> (out: Vec<u8>)
    ensures
        out@ == spec_rlp_tx(*tx, r@, s@, v as nat),
{
    let mut payload: Vec<u8> = Vec::new();
    rlp_append_uint(&mut payload, tx.nonce);
    rlp_append_uint(&mut payload, tx.gas_price);
    rlp_append_uint(&mut payload, tx.gas_limit);
    match &tx.to {
        Some(a) => {
            rlp_append_bytes(&mut payload, a.as_slice());
        },
        None => {
            let empty: Vec<u8> = Vec::new();
            rlp_append_bytes(&mut payload, empty.as_slice());
        },
    }
    rlp_append_uint(&mut payload, tx.value);
    rlp_append_bytes(&mut payload, tx.data.as_slice());
    rlp_append_uint(&mut payload, v);
    rlp_append_bytes(&mut payload, r);
    rlp_append_bytes(&mut payload, s);
    assert(payload@ =~= spec_tx_items(*tx, r@, s@, v as nat));
    let mut out: Vec<u8> = Vec::new();
    if payload.len() < 56 {
        out.push(0xc0 + payload.len() as u8);
    } else {
        let mut len_bytes = u64_be_bytes(payload.len() as u64);
        proof {
            lemma_be_bytes_len_u64(payload.len() as u64);
        }
        out.push(0xf7 + len_bytes.len() as u8);
        out.append(&mut len_bytes);
    }
    out.append(&mut payload);
    assert(out@ =~= spec_rlp_tx(*tx, r@, s@, v as nat));
    out
}

/// The length of the canonical encoding of a legacy transaction record is
/// the length of the list prefix plus the sum of each of the nine fields'
/// length-prefix-encoded sizes.
pub proof fn lemma_canonical_encode_length(tx: LegacyTransaction, r: Seq<u8>, s: Seq<u8>, v: nat)
    ensures
        spec_rlp_tx(tx, r, s, v).len() == spec_rlp_list_prefix(spec_tx_items(tx, r, s, v).len()).len()
            + spec_rlp_uint(tx.nonce as nat).len() + spec_rlp_uint(tx.gas_price as nat).len()
            + spec_rlp_uint(tx.gas_limit as nat).len() + (match tx.to {
            Some(a) => spec_rlp_str(a@).len(),
            None => spec_rlp_str(Seq::<u8>::empty()).len(),
        }) + spec_rlp_uint(tx.value as nat).len() + spec_rlp_str(tx.data@).len() + spec_rlp_uint(
            v,
        ).len() + spec_rlp_str(r).len() + spec_rlp_str(s).len(),
{
}

} // verus!
