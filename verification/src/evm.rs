use vstd::prelude::*;
use vstd::string::StringExecFns;

use crate::canonical::{rlp_encode, spec_rlp_list, spec_rlp_str, spec_rlp_uint, LegacyTransaction};
use crate::envelope::{wrap, Envelope};
use crate::error::ContractError;
use crate::hexstr::{hex_decode, is_hex_digit, spec_hex_bytes};
use crate::proto::{encode_bytes_field, spec_bytes_field, ProtoMessage};
use crate::response::Response;

verus! {

/// The message carried to the host's virtual-machine module: the canonical
/// address of the sender and a raw, canonically encoded transaction.
pub struct MsgEthereumTx {
    pub from: Vec<u8>,
    pub raw: Vec<u8>,
}

impl ProtoMessage for MsgEthereumTx {
    /// Encoded as two bytes fields, numbered 5 and 6.
    open spec fn spec_encoding(&self) -> Seq<u8> {
        spec_bytes_field(5, self.from@) + spec_bytes_field(6, self.raw@)
    }

    fn encode_raw(&self, buf: &mut Vec<u8>) {
        encode_bytes_field(buf, 5, self.from.as_slice());
        encode_bytes_field(buf, 6, self.raw.as_slice());
        assert(buf@ =~= old(buf)@ + self.spec_encoding());
    }
}

pub struct InstantiateMsg {}

pub struct ExecuteMsg {}

/// A sequence of `n` bytes, each one.
pub open spec fn spec_ones(n: nat) -> Seq<u8> {
    Seq::new(n, |i: int| 1u8)
}

/// The transaction body: three opcodes that jump back to their own start, an
/// unbounded loop limited only by the host's execution-resource budget.
pub open spec fn spec_loop_body() -> Seq<u8> {
    spec_hex_bytes("5b5956"@)
}

/// The canonical encoding of the fixed legacy transaction record this
/// module emits: nonce 0, gas price 1, the maximum gas limit, no recipient,
/// value 0, the looping body, and the placeholder signature `v = 27`,
/// `r = s = [1; 32]`.
pub open spec fn spec_loop_tx_raw() -> Seq<u8> {
    spec_rlp_list(
        spec_rlp_uint(0) + spec_rlp_uint(1) + spec_rlp_uint(0xffff_ffff_ffff_ffff) + spec_rlp_str(
            Seq::empty(),
        ) + spec_rlp_uint(0) + spec_rlp_str(spec_loop_body()) + spec_rlp_uint(27) + spec_rlp_str(
            spec_ones(32),
        ) + spec_rlp_str(spec_ones(32)),
    )
}

/// A vector of 32 bytes, each one: the placeholder half of a signature.
fn ones32() -> (out: Vec<u8>)
    ensures
        out@ == spec_ones(32),
{
    let mut out: Vec<u8> = Vec::new();
    let mut i: usize = 0;
    while i < 32
        invariant
            i <= 32,
            out@ =~= spec_ones(i as nat),
        decreases 32 - i,
    {
        out.push(1);
        i += 1;
    }
    assert(out@ =~= spec_ones(32));
    out
}

/// Builds the fixed looping legacy transaction record, canonically encodes
/// it with a placeholder signature (nothing downstream verifies it), and
/// wraps the result as a transaction envelope on behalf of `from`.
pub fn build_ethereum_tx_envelope(from: Vec<u8>) -> (e: Envelope)
    ensures
        e.type_url@ == "/injective.evm.v1.MsgEthereumTx"@,
        e.value@ == spec_bytes_field(5, from@) + spec_bytes_field(6, spec_loop_tx_raw()),
{
    let data_opt = hex_decode("5b5956");
    proof {
        reveal_strlit("5b5956");
        assert(forall|i: int| 0 <= i < "5b5956"@.len() ==> is_hex_digit("5b5956"@[i]));
    }
    let data = data_opt.unwrap();
    let tx = LegacyTransaction {
        nonce: 0,
        gas_price: 1,
        gas_limit: 0xffff_ffff_ffff_ffff,
        to: None,
        value: 0,
        data,
    };
    let r = ones32();
    let s = ones32();
    let raw = rlp_encode(&tx, r.as_slice(), s.as_slice(), 27);
    assert(raw@ =~= spec_loop_tx_raw());
    let msg = MsgEthereumTx { from, raw };
    wrap(String::from_str("/injective.evm.v1.MsgEthereumTx"), &msg)
}

/// Builds and re-emits the fixed transaction envelope under the contract's
/// own canonical address. The computation cannot fail; the fallible shape
/// mirrors the host's calling convention.
pub fn execute(contract_canonical: Vec<u8>) -> (r: Result<Response, ContractError>)
    ensures
        r matches Ok(resp) && resp.attributes@.len() == 0 && resp.messages@.len() == 1
            && resp.messages@[0].type_url@ == "/injective.evm.v1.MsgEthereumTx"@
            && resp.messages@[0].value@ == spec_bytes_field(5, contract_canonical@)
            + spec_bytes_field(6, spec_loop_tx_raw()),
{
    let e = build_ethereum_tx_envelope(contract_canonical);
    Ok(Response::new().add_message(e))
}

/// Creation of the holding contract records no state.
pub fn instantiate(_msg: InstantiateMsg) -> (r: Result<Response, ContractError>)
    ensures
        r matches Ok(resp) && resp.attributes@.len() == 0 && resp.messages@.len() == 0,
{
    Ok(Response::new())
}

} // verus!
