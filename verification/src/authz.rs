use vstd::prelude::*;
use vstd::string::StringExecFns;

use crate::envelope::{
    encode_envelopes_field, spec_envelopes_field, wrap, Envelope,
};
use crate::error::ContractError;
use crate::evm::{build_ethereum_tx_envelope, spec_loop_tx_raw};
use crate::proto::{
    encode_message_field, encode_string_field, encode_varint_field, spec_bytes_field,
    spec_len_delimited, spec_string_field, spec_varint_field, ProtoMessage,
};
use crate::response::Response;

verus! {

/// An authorization policy restricted to a single message type: only
/// messages whose type tag equals `msg` may be executed under the
/// resulting grant.
pub struct GenericAuthorization {
    pub msg: String,
}

impl ProtoMessage for GenericAuthorization {
    open spec fn spec_encoding(&self) -> Seq<u8> {
        spec_string_field(1, self.msg@)
    }

    fn encode_raw(&self, buf: &mut Vec<u8>) {
        encode_string_field(buf, 1, self.msg.as_str());
    }
}

/// A point in time, used only as a grant's optional expiration.
pub struct Timestamp {
    pub seconds: u64,
    pub nanos: u32,
}

impl ProtoMessage for Timestamp {
    open spec fn spec_encoding(&self) -> Seq<u8> {
        spec_varint_field(1, self.seconds as nat) + spec_varint_field(2, self.nanos as nat)
    }

    fn encode_raw(&self, buf: &mut Vec<u8>) {
        encode_varint_field(buf, 1, self.seconds);
        encode_varint_field(buf, 2, self.nanos as u64);
        assert(buf@ =~= old(buf)@ + self.spec_encoding());
    }
}

/// A delegation record: the grantee may later execute messages matching the
/// `authorization` policy. An absent expiration means the grant does not
/// expire on its own.
pub struct Grant {
    pub authorization: Option<Envelope>,
    pub expiration: Option<Timestamp>,
}

impl ProtoMessage for Grant {
    open spec fn spec_encoding(&self) -> Seq<u8> {
        (match self.authorization {
            Some(a) => spec_len_delimited(1, a.spec_encoding()),
            None => Seq::empty(),
        }) + (match self.expiration {
            Some(t) => spec_len_delimited(2, t.spec_encoding()),
            None => Seq::empty(),
        })
    }

    fn encode_raw(&self, buf: &mut Vec<u8>) {
        match &self.authorization {
            Some(a) => encode_message_field(buf, 1, a),
            None => (),
        }
        match &self.expiration {
            Some(t) => encode_message_field(buf, 2, t),
            None => (),
        }
        assert(buf@ =~= old(buf)@ + self.spec_encoding());
    }
}

/// The outer grant record submitted to the host's authorization subsystem:
/// the granter issues `grant` to the grantee.
pub struct MsgGrant {
    pub granter: String,
    pub grantee: String,
    pub grant: Option<Grant>,
}

impl ProtoMessage for MsgGrant {
    open spec fn spec_encoding(&self) -> Seq<u8> {
        spec_string_field(1, self.granter@) + spec_string_field(2, self.grantee@) + (
        match self.grant {
            Some(g) => spec_len_delimited(3, g.spec_encoding()),
            None => Seq::empty(),
        })
    }

    fn encode_raw(&self, buf: &mut Vec<u8>) {
        encode_string_field(buf, 1, self.granter.as_str());
        encode_string_field(buf, 2, self.grantee.as_str());
        match &self.grant {
            Some(g) => encode_message_field(buf, 3, g),
            None => (),
        }
        assert(buf@ =~= old(buf)@ + self.spec_encoding());
    }
}

/// A request that the grantee execute a list of pre-authorized envelopes.
/// The host's authorization subsystem recovers the acting signer of this
/// request as `grantee`, so a correct caller names an identity the host
/// accepts as self-authored.
pub struct MsgExec {
    pub grantee: String,
    pub msgs: Vec<Envelope>,
}

impl ProtoMessage for MsgExec {
    open spec fn spec_encoding(&self) -> Seq<u8> {
        spec_string_field(1, self.grantee@) + spec_envelopes_field(2, self.msgs@)
    }

    fn encode_raw(&self, buf: &mut Vec<u8>) {
        encode_string_field(buf, 1, self.grantee.as_str());
        encode_envelopes_field(buf, 2, &self.msgs);
        assert(buf@ =~= old(buf)@ + self.spec_encoding());
    }
}

pub struct InstantiateMsg {}

/// The operations of the authorization bridge: submit a grant naming a
/// delegate, or ask for execution on behalf of a granter.
pub enum ExecuteMsg {
    SubmitAuthzGrant { grantee: String },
    SubmitAuthzExec { granter: String },
}

/// The encoding of the authorization policy envelope inside a grant: a
/// `GenericAuthorization` restricted to the transaction message type,
/// wrapped under its own type URL.
pub open spec fn spec_auth_any_bytes() -> Seq<u8> {
    spec_string_field(1, "/cosmos.authz.v1beta1.GenericAuthorization"@) + spec_bytes_field(
        2,
        spec_string_field(1, "/injective.evm.v1.MsgEthereumTx"@),
    )
}

/// The encoding of the grant built here: the authorization envelope as
/// field 1, and no expiration.
pub open spec fn spec_grant_bytes() -> Seq<u8> {
    spec_len_delimited(1, spec_auth_any_bytes())
}

/// The encoding of the whole grant record: granter, grantee, and the grant.
pub open spec fn spec_msg_grant_bytes(granter: Seq<char>, grantee: Seq<char>) -> Seq<u8> {
    spec_string_field(1, granter) + spec_string_field(2, grantee) + spec_len_delimited(
        3,
        spec_grant_bytes(),
    )
}

/// The encoding of the transaction envelope carried inside an exec request,
/// built on behalf of `from`.
pub open spec fn spec_tx_any_bytes(from: Seq<u8>) -> Seq<u8> {
    spec_string_field(1, "/injective.evm.v1.MsgEthereumTx"@) + spec_bytes_field(
        2,
        spec_bytes_field(5, from) + spec_bytes_field(6, spec_loop_tx_raw()),
    )
}

/// The encoding of the exec request: the grantee, and the one transaction
/// envelope.
pub open spec fn spec_msg_exec_bytes(grantee: Seq<char>, from: Seq<u8>) -> Seq<u8> {
    spec_string_field(1, grantee) + spec_len_delimited(2, spec_tx_any_bytes(from))
}

/// Builds the two-step authorization grant: a `GenericAuthorization`
/// restricted to the transaction message type, embedded in a `Grant`
/// without expiration, issued by this contract to `grantee`, and wrapped
/// ready for host submission. Construction is pure and cannot fail.
pub fn execute_submit_authz_grant(contract_address: String, grantee: String) -> (r: Result<
    Response,
    ContractError,
>)
    ensures
        r matches Ok(resp) && resp.attributes@.len() == 0 && resp.messages@.len() == 1
            && resp.messages@[0].type_url@ == "/cosmos.authz.v1beta1.MsgGrant"@
            && resp.messages@[0].value@ == spec_msg_grant_bytes(contract_address@, grantee@),
{
    let generic_auth = GenericAuthorization {
        msg: String::from_str("/injective.evm.v1.MsgEthereumTx"),
    };
    let auth_any = wrap(
        String::from_str("/cosmos.authz.v1beta1.GenericAuthorization"),
        &generic_auth,
    );
    proof {
        assert(auth_any.spec_encoding() =~= spec_auth_any_bytes());
    }
    let grant = Grant { authorization: Some(auth_any), expiration: None };
    let msg_grant = MsgGrant { granter: contract_address, grantee, grant: Some(grant) };
    let env = wrap(String::from_str("/cosmos.authz.v1beta1.MsgGrant"), &msg_grant);
    proof {
        assert(env.value@ =~= spec_msg_grant_bytes(contract_address@, grantee@));
    }
    Ok(Response::new().add_message(env))
}

/// Builds the exec request that asks the host to run the fixed transaction
/// envelope on behalf of `granter_canonical` (the granter's canonical
/// address bytes). The grantee of the request is the contract's own
/// address: the host's authorization subsystem recovers the request's
/// signer as the grantee, and the host only accepts messages signed by the
/// contract itself.
pub fn execute_submit_authz_exec(contract_address: String, granter_canonical: Vec<u8>) -> (r:
    Result<Response, ContractError>)
    ensures
        r matches Ok(resp) && resp.attributes@.len() == 0 && resp.messages@.len() == 1
            && resp.messages@[0].type_url@ == "/cosmos.authz.v1beta1.MsgExec"@
            && resp.messages@[0].value@ == spec_msg_exec_bytes(
            contract_address@,
            granter_canonical@,
        ),
{
    let tx_env = build_ethereum_tx_envelope(granter_canonical);
    let mut msgs: Vec<Envelope> = Vec::new();
    msgs.push(tx_env);
    let msg_exec = MsgExec { grantee: contract_address, msgs };
    proof {
        let ms = msg_exec.msgs@;
        assert(ms.drop_last() =~= Seq::<Envelope>::empty());
        assert(spec_envelopes_field(2, Seq::<Envelope>::empty()) =~= Seq::<u8>::empty());
        assert(spec_envelopes_field(2, ms) =~= spec_len_delimited(2, ms.last().spec_encoding()));
    }
    let env = wrap(String::from_str("/cosmos.authz.v1beta1.MsgExec"), &msg_exec);
    proof {
        assert(env.value@ =~= spec_msg_exec_bytes(contract_address@, granter_canonical@));
    }
    Ok(Response::new().add_message(env))
}

/// Creation of the bridging contract records no state.
pub fn instantiate(_msg: InstantiateMsg) -> (r: Result<Response, ContractError>)
    ensures
        r matches Ok(resp) && resp.attributes@.len() == 0 && resp.messages@.len() == 0,
{
    Ok(Response::new())
}

} // verus!
