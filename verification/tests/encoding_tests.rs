use authz_gate::authz::{
    execute_submit_authz_grant, execute_submit_authz_exec, GenericAuthorization, Grant, MsgExec,
    MsgGrant, Timestamp,
};
use authz_gate::canonical::{rlp_encode, LegacyTransaction};
use authz_gate::envelope::{wrap, Envelope};
use authz_gate::evm::{build_ethereum_tx_envelope, execute as evm_execute, MsgEthereumTx};
use authz_gate::proto::pb_encode_message;

use prost::Message;

/// Reads one base-128 varint from `buf` at `*pos`.
fn read_varint(buf: &[u8], pos: &mut usize) -> u64 {
    let mut value: u64 = 0;
    let mut shift: u32 = 0;
    loop {
        let b = buf[*pos];
        *pos += 1;
        value |= u64::from(b & 0x7f) << shift;
        if b & 0x80 == 0 {
            return value;
        }
        shift += 7;
    }
}

/// Reads one length-delimited field, checking its number, and returns its
/// payload.
fn read_ld_field(buf: &[u8], pos: &mut usize, expected_field: u64) -> Vec<u8> {
    let key = read_varint(buf, pos);
    assert_eq!(key >> 3, expected_field);
    assert_eq!(key & 7, 2);
    let len = read_varint(buf, pos) as usize;
    let payload = buf[*pos..*pos + len].to_vec();
    *pos += len;
    payload
}

#[test]
fn envelope_encoding_matches_reference_any() {
    let value = vec![0x0a, 0x03, b'a', b'b', b'c'];
    let env = Envelope { type_url: "/test.v1.Msg".to_string(), value: value.clone() };
    let encoded = pb_encode_message(&env).unwrap();
    let reference = prost_types::Any { type_url: "/test.v1.Msg".to_string(), value };
    assert_eq!(encoded, reference.encode_to_vec());
}

#[test]
fn envelope_encoding_round_trips_through_reference_decoder() {
    let env = Envelope { type_url: "/test.v1.Msg".to_string(), value: vec![9, 8, 7] };
    let encoded = pb_encode_message(&env).unwrap();
    let decoded = prost_types::Any::decode(encoded.as_slice()).unwrap();
    assert_eq!(decoded.type_url, "/test.v1.Msg");
    assert_eq!(decoded.value, vec![9, 8, 7]);
}

#[test]
fn long_payload_takes_a_two_byte_length_varint() {
    let value = vec![0x55u8; 300];
    let env = Envelope { type_url: "/test.v1.Big".to_string(), value: value.clone() };
    let encoded = pb_encode_message(&env).unwrap();
    let reference = prost_types::Any { type_url: "/test.v1.Big".to_string(), value };
    assert_eq!(encoded, reference.encode_to_vec());
}

#[test]
fn empty_fields_are_absent_from_the_output() {
    let env = Envelope { type_url: String::new(), value: vec![] };
    assert_eq!(pb_encode_message(&env).unwrap(), Vec::<u8>::new());
    let ga = GenericAuthorization { msg: String::new() };
    assert_eq!(pb_encode_message(&ga).unwrap(), Vec::<u8>::new());
    let grant = Grant { authorization: None, expiration: None };
    assert_eq!(pb_encode_message(&grant).unwrap(), Vec::<u8>::new());
}

#[test]
fn present_but_empty_submessage_is_emitted() {
    let grant = Grant {
        authorization: Some(Envelope { type_url: String::new(), value: vec![] }),
        expiration: None,
    };
    // Key of field 1, then a zero length: present, no payload.
    assert_eq!(pb_encode_message(&grant).unwrap(), vec![0x0a, 0x00]);
}

#[test]
fn timestamp_fields_use_wire_type_zero() {
    let t = Timestamp { seconds: 300, nanos: 5 };
    assert_eq!(pb_encode_message(&t).unwrap(), vec![0x08, 0xac, 0x02, 0x10, 0x05]);
    let zero = Timestamp { seconds: 0, nanos: 0 };
    assert_eq!(pb_encode_message(&zero).unwrap(), Vec::<u8>::new());
}

#[test]
fn generic_authorization_encoding_is_exact() {
    let ga = GenericAuthorization { msg: "/injective.evm.v1.MsgEthereumTx".to_string() };
    let mut expected = vec![0x0a, 31];
    expected.extend_from_slice(b"/injective.evm.v1.MsgEthereumTx");
    assert_eq!(pb_encode_message(&ga).unwrap(), expected);
}

#[test]
fn wrap_pairs_type_url_with_encoded_record() {
    let ga = GenericAuthorization { msg: "/a.B".to_string() };
    let env = wrap("/cosmos.authz.v1beta1.GenericAuthorization".to_string(), &ga);
    assert_eq!(env.type_url, "/cosmos.authz.v1beta1.GenericAuthorization");
    assert_eq!(env.value, pb_encode_message(&ga).unwrap());
}

#[test]
fn msg_grant_nests_authorization_without_expiration() {
    let ga = GenericAuthorization { msg: "/injective.evm.v1.MsgEthereumTx".to_string() };
    let auth_any = wrap("/cosmos.authz.v1beta1.GenericAuthorization".to_string(), &ga);
    let grant = Grant { authorization: Some(auth_any), expiration: None };
    let msg_grant = MsgGrant {
        granter: "inj1granter".to_string(),
        grantee: "inj1grantee".to_string(),
        grant: Some(grant),
    };
    let bytes = pb_encode_message(&msg_grant).unwrap();
    let mut pos = 0usize;
    assert_eq!(read_ld_field(&bytes, &mut pos, 1), b"inj1granter");
    assert_eq!(read_ld_field(&bytes, &mut pos, 2), b"inj1grantee");
    let grant_bytes = read_ld_field(&bytes, &mut pos, 3);
    assert_eq!(pos, bytes.len());
    let mut gpos = 0usize;
    let any_bytes = read_ld_field(&grant_bytes, &mut gpos, 1);
    // No expiration field follows the authorization.
    assert_eq!(gpos, grant_bytes.len());
    let decoded = prost_types::Any::decode(any_bytes.as_slice()).unwrap();
    assert_eq!(decoded.type_url, "/cosmos.authz.v1beta1.GenericAuthorization");
}

#[test]
fn submit_authz_grant_names_granter_and_grantee() {
    let resp = execute_submit_authz_grant(
        "inj1contract".to_string(),
        "inj1grantee".to_string(),
    )
    .unwrap();
    assert_eq!(resp.messages.len(), 1);
    let env = &resp.messages[0];
    assert_eq!(env.type_url, "/cosmos.authz.v1beta1.MsgGrant");
    let mut pos = 0usize;
    assert_eq!(read_ld_field(&env.value, &mut pos, 1), b"inj1contract");
    assert_eq!(read_ld_field(&env.value, &mut pos, 2), b"inj1grantee");
    let grant_bytes = read_ld_field(&env.value, &mut pos, 3);
    assert_eq!(pos, env.value.len());
    let mut gpos = 0usize;
    let any_bytes = read_ld_field(&grant_bytes, &mut gpos, 1);
    let decoded = prost_types::Any::decode(any_bytes.as_slice()).unwrap();
    assert_eq!(decoded.type_url, "/cosmos.authz.v1beta1.GenericAuthorization");
    let mut apos = 0usize;
    assert_eq!(read_ld_field(&decoded.value, &mut apos, 1), b"/injective.evm.v1.MsgEthereumTx");
}

#[test]
fn submit_authz_exec_names_the_contract_as_grantee() {
    let resp = execute_submit_authz_exec("inj1contract".to_string(), vec![0xaa; 20]).unwrap();
    assert_eq!(resp.messages.len(), 1);
    let env = &resp.messages[0];
    assert_eq!(env.type_url, "/cosmos.authz.v1beta1.MsgExec");
    let mut pos = 0usize;
    // The grantee is the contract's own address, never the submitter.
    assert_eq!(read_ld_field(&env.value, &mut pos, 1), b"inj1contract");
    let any_bytes = read_ld_field(&env.value, &mut pos, 2);
    assert_eq!(pos, env.value.len());
    let decoded = prost_types::Any::decode(any_bytes.as_slice()).unwrap();
    assert_eq!(decoded.type_url, "/injective.evm.v1.MsgEthereumTx");
}

#[test]
fn msg_exec_emits_one_entry_per_message_in_order() {
    let e1 = Envelope { type_url: "/a.B".to_string(), value: vec![1] };
    let e2 = Envelope { type_url: "/c.D".to_string(), value: vec![2] };
    let exec = MsgExec { grantee: "inj1contract".to_string(), msgs: vec![e1, e2] };
    let bytes = pb_encode_message(&exec).unwrap();
    let mut pos = 0usize;
    assert_eq!(read_ld_field(&bytes, &mut pos, 1), b"inj1contract");
    let first = read_ld_field(&bytes, &mut pos, 2);
    let second = read_ld_field(&bytes, &mut pos, 2);
    assert_eq!(pos, bytes.len());
    assert_eq!(prost_types::Any::decode(first.as_slice()).unwrap().type_url, "/a.B");
    assert_eq!(prost_types::Any::decode(second.as_slice()).unwrap().type_url, "/c.D");
}

#[test]
fn ethereum_tx_envelope_carries_decoded_body_and_placeholder_signature() {
    let env = build_ethereum_tx_envelope(vec![0x11; 20]);
    assert_eq!(env.type_url, "/injective.evm.v1.MsgEthereumTx");
    let mut pos = 0usize;
    let key = read_varint(&env.value, &mut pos);
    assert_eq!(key >> 3, 5);
    pos = 0;
    let from = read_ld_field(&env.value, &mut pos, 5);
    assert_eq!(from, vec![0x11; 20]);
    let raw = read_ld_field(&env.value, &mut pos, 6);
    assert_eq!(pos, env.value.len());
    let decoded = rlp::Rlp::new(&raw);
    assert_eq!(decoded.item_count().unwrap(), 9);
    assert_eq!(decoded.val_at::<u64>(0).unwrap(), 0);
    assert_eq!(decoded.val_at::<u64>(1).unwrap(), 1);
    assert_eq!(decoded.val_at::<u64>(2).unwrap(), u64::MAX);
    assert_eq!(decoded.at(3).unwrap().data().unwrap(), b"");
    assert_eq!(decoded.val_at::<u64>(4).unwrap(), 0);
    // The transaction body is the decoded form of the hex constant, not the
    // hex text itself.
    assert_eq!(decoded.at(5).unwrap().data().unwrap(), [0x5b, 0x59, 0x56]);
    assert_eq!(decoded.val_at::<u64>(6).unwrap(), 27);
    assert_eq!(decoded.at(7).unwrap().data().unwrap(), [1u8; 32]);
    assert_eq!(decoded.at(8).unwrap().data().unwrap(), [1u8; 32]);
}

#[test]
fn evm_execute_emits_the_fixed_envelope() {
    let resp = evm_execute(vec![0x22; 20]).unwrap();
    assert_eq!(resp.messages.len(), 1);
    assert_eq!(resp.messages[0].type_url, "/injective.evm.v1.MsgEthereumTx");
    assert_eq!(resp.messages[0].value, build_ethereum_tx_envelope(vec![0x22; 20]).value);
}

#[test]
fn msg_ethereum_tx_uses_fields_five_and_six() {
    let msg = MsgEthereumTx { from: vec![0xaa], raw: vec![0xbb, 0xcc] };
    assert_eq!(
        pb_encode_message(&msg).unwrap(),
        vec![0x2a, 0x01, 0xaa, 0x32, 0x02, 0xbb, 0xcc]
    );
}

fn reference_rlp(tx: &LegacyTransaction, r: &[u8], s: &[u8], v: u64) -> Vec<u8> {
    let mut stream = rlp::RlpStream::new();
    stream.begin_list(9);
    stream.append(&tx.nonce);
    stream.append(&tx.gas_price);
    stream.append(&tx.gas_limit);
    match tx.to {
        Some(ref to_addr) => stream.append(&to_addr.to_vec()),
        None => stream.append(&""),
    };
    stream.append(&tx.value);
    stream.append(&tx.data);
    stream.append(&v);
    stream.append(&r);
    stream.append(&s);
    stream.out().to_vec()
}

#[test]
fn rlp_encode_matches_reference_encoder() {
    let tx = LegacyTransaction {
        nonce: 5,
        gas_price: 7,
        gas_limit: 21000,
        to: Some([0xab; 20]),
        value: 9,
        data: vec![1, 2, 3],
    };
    let out = rlp_encode(&tx, &[0x11; 32], &[0x22; 32], 27);
    assert_eq!(out, reference_rlp(&tx, &[0x11; 32], &[0x22; 32], 27));
}

#[test]
fn rlp_encode_without_recipient_matches_reference_encoder() {
    let tx = LegacyTransaction {
        nonce: 0,
        gas_price: 1,
        gas_limit: u64::MAX,
        to: None,
        value: 0,
        data: vec![0x5b, 0x59, 0x56],
    };
    let out = rlp_encode(&tx, &[1; 32], &[1; 32], 27);
    assert_eq!(out, reference_rlp(&tx, &[1; 32], &[1; 32], 27));
}

#[test]
fn rlp_encode_long_data_uses_long_form_lengths() {
    let tx = LegacyTransaction {
        nonce: 1,
        gas_price: 2,
        gas_limit: 3,
        to: None,
        value: 4,
        data: vec![0x77; 200],
    };
    let out = rlp_encode(&tx, &[9; 32], &[8; 32], 28);
    assert_eq!(out, reference_rlp(&tx, &[9; 32], &[8; 32], 28));
}

#[test]
fn canonical_encoding_reproduces_the_nine_fields_in_order() {
    let tx = LegacyTransaction {
        nonce: 12,
        gas_price: 34,
        gas_limit: 56,
        to: Some([0xcd; 20]),
        value: 78,
        data: vec![0xde, 0xad],
    };
    let out = rlp_encode(&tx, &[0x33; 32], &[0x44; 32], 27);
    let decoded = rlp::Rlp::new(&out);
    assert_eq!(decoded.item_count().unwrap(), 9);
    assert_eq!(decoded.val_at::<u64>(0).unwrap(), 12);
    assert_eq!(decoded.val_at::<u64>(1).unwrap(), 34);
    assert_eq!(decoded.val_at::<u64>(2).unwrap(), 56);
    assert_eq!(decoded.at(3).unwrap().data().unwrap(), [0xcd; 20]);
    assert_eq!(decoded.val_at::<u64>(4).unwrap(), 78);
    assert_eq!(decoded.at(5).unwrap().data().unwrap(), [0xde, 0xad]);
    assert_eq!(decoded.val_at::<u64>(6).unwrap(), 27);
    assert_eq!(decoded.at(7).unwrap().data().unwrap(), [0x33; 32]);
    assert_eq!(decoded.at(8).unwrap().data().unwrap(), [0x44; 32]);
}

#[test]
fn canonical_encoding_length_is_the_sum_of_the_field_sizes() {
    let tx = LegacyTransaction {
        nonce: 12,
        gas_price: 34,
        gas_limit: 56,
        to: None,
        value: 78,
        data: vec![0xde, 0xad, 0xbe, 0xef],
    };
    let out = rlp_encode(&tx, &[0x33; 32], &[0x44; 32], 27);
    let field_sizes = [
        1usize, // nonce 12: a single byte below 0x80
        1,      // gas_price 34
        1,      // gas_limit 56
        1,      // absent recipient: the empty byte string's prefix
        1,      // value 78
        5,      // data: prefix plus four bytes
        1,      // v = 27
        33,     // r: prefix plus 32 bytes
        33,     // s: prefix plus 32 bytes
    ];
    let payload: usize = field_sizes.iter().sum();
    // The payload exceeds 55 bytes, so the list prefix takes its long form:
    // one marker byte plus one length byte.
    assert!(payload >= 56);
    assert_eq!(out.len(), 2 + payload);
}
