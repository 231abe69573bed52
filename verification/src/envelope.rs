use vstd::prelude::*;

use crate::proto::{
    encode_bytes_field, encode_message_field, encode_string_field, spec_bytes_field,
    spec_len_delimited, spec_string_field, ProtoMessage,
};

verus! {

/// An opaquely-typed, type-tagged binary message: a schema name paired with
/// an encoded payload. The envelope itself does not check that `value` is a
/// valid encoding of the schema named by `type_url`; that association is the
/// caller's responsibility, by design, so that a generic dispatcher can
/// forward payloads without introspecting them.
pub struct Envelope {
    pub type_url: String,
    pub value: Vec<u8>,
}

impl ProtoMessage for Envelope {
    /// Encoded as a two-field record: the type URL as string field 1, the
    /// payload as bytes field 2.
    open spec fn spec_encoding(&self) -> Seq<u8> {
        spec_string_field(1, self.type_url@) + spec_bytes_field(2, self.value@)
    }

    fn encode_raw(&self, buf: &mut Vec<u8>) {
        encode_string_field(buf, 1, self.type_url.as_str());
        encode_bytes_field(buf, 2, self.value.as_slice());
        assert(buf@ =~= old(buf)@ + self.spec_encoding());
    }
}

/// Encodes `record` with the tagged-field encoding and pairs it with
/// `type_url`. The association between the two is caller-trusted.
pub fn wrap<M: ProtoMessage>(type_url: String, record: &M) -> (e: Envelope)
    ensures
        e.type_url@ == type_url@,
        e.value@ == record.spec_encoding(),
{
    let mut value: Vec<u8> = Vec::new();
    record.encode_raw(&mut value);
    assert(value@ =~= record.spec_encoding());
    Envelope { type_url, value }
}

/// A repeated embedded-message field: one key-and-payload pair per element,
/// in sequence order.
pub open spec fn spec_envelopes_field(field: nat, msgs: Seq<Envelope>) -> Seq<u8>
    decreases msgs.len(),
{
    if msgs.len() == 0 {
        Seq::empty()
    } else {
        spec_envelopes_field(field, msgs.drop_last()) + spec_len_delimited(
            field,
            msgs.last().spec_encoding(),
        )
    }
}

/// Appends a repeated embedded-message field to `buf`, one entry per element
/// of `msgs`, in order.
pub fn encode_envelopes_field(buf: &mut Vec<u8>, field: u32, msgs: &Vec<Envelope>)
    ensures
        final(buf)@ == old(buf)@ + spec_envelopes_field(field as nat, msgs@),
{
    let n = msgs.len();
    let mut i: usize = 0;
    while i < n
        invariant
            i <= n,
            n == msgs@.len(),
            buf@ == old(buf)@ + spec_envelopes_field(field as nat, msgs@.take(i as int)),
        decreases n - i,
    {
        encode_message_field(buf, field, &msgs[i]);
        proof {
            let taken = msgs@.take(i + 1 as int);
            assert(taken.drop_last() =~= msgs@.take(i as int));
            assert(taken.last() == msgs@[i as int]);
        }
        i += 1;
    }
    assert(msgs@.take(n as int) =~= msgs@);
}

} // verus!
