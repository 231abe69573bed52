use vstd::prelude::*;

use crate::envelope::Envelope;
use crate::error::ContractError;
use crate::identity::{valid_identity, Identity};
use crate::response::Response;

verus! {

/// The single persisted owner of the dispatcher: exactly one identity is
/// recorded at all times, created at instantiation and only ever replaced,
/// never deleted.
pub struct OwnerState {
    pub owner: Identity,
}

impl OwnerState {
    /// The recorded owner passed identity validation.
    pub open spec fn wf(&self) -> bool {
        valid_identity(self.owner.addr@)
    }
}

pub struct InstantiateMsg {
    pub owner: String,
}

/// The gated operations: replace the owner, or re-emit a list of pre-built
/// envelopes through the contract's own identity.
pub enum ExecuteMsg {
    UpdateOwner { new_owner: String },
    ExecuteMsgs { msgs: Vec<Envelope> },
}

pub struct MigrateMsg {}

/// The ownership-transfer transition, as a function of the current owner,
/// the caller and the candidate: it fails with `Unauthorized` unless the
/// caller is the current owner, fails with `InvalidIdentity` on a malformed
/// candidate, and otherwise yields the new owner.
pub open spec fn spec_transfer_owner(current: Seq<char>, sender: Seq<char>, new_owner: Seq<char>)
    -> Result<Seq<char>, ContractError> {
    if sender != current {
        Err(ContractError::Unauthorized)
    } else if !valid_identity(new_owner) {
        Err(ContractError::InvalidIdentity)
    } else {
        Ok(new_owner)
    }
}

/// Creates the dispatcher in its one live state, holding a validated owner.
pub fn instantiate(creator: &Identity, msg: InstantiateMsg) -> (r: Result<
    (OwnerState, Response),
    ContractError,
>)
    ensures
        valid_identity(msg.owner@) ==> (r matches Ok(p) && p.0.owner.addr@ == msg.owner@
            && p.0.wf() && p.1.messages@.len() == 0 && p.1.attributes@.len() == 3
            && p.1.attributes@[0].key@ == "method"@ && p.1.attributes@[0].value@ == "instantiate"@
            && p.1.attributes@[1].key@ == "owner"@ && p.1.attributes@[1].value@ == msg.owner@
            && p.1.attributes@[2].key@ == "creator"@ && p.1.attributes@[2].value@
            == creator.addr@),
        !valid_identity(msg.owner@) ==> r matches Err(ContractError::InvalidIdentity),
{
    let owner = match Identity::validate(msg.owner) {
        Ok(o) => o,
        Err(e) => {
            return Err(e);
        },
    };
    let resp = Response::new().add_attribute("method", "instantiate").add_attribute(
        "owner",
        owner.addr.as_str(),
    ).add_attribute("creator", creator.addr.as_str());
    Ok((OwnerState { owner }, resp))
}

/// Replaces the stored owner, gated on the caller being the current owner
/// (exact identity equality). On success the replacement is immediately
/// effective and an audit attribute records the action; on failure the
/// stored owner is left unchanged.
pub fn update_owner(state: &mut OwnerState, sender: &Identity, new_owner: String) -> (r: Result<
    Response,
    ContractError,
>)
    requires
        old(state).wf(),
    ensures
        final(state).wf(),
        (match spec_transfer_owner(old(state).owner.addr@, sender.addr@, new_owner@) {
            Ok(n) => (r matches Ok(resp) && final(state).owner.addr@ == n
                && resp.messages@.len() == 0 && resp.attributes@.len() == 2
                && resp.attributes@[0].key@ == "action"@ && resp.attributes@[0].value@
                == "update_owner"@ && resp.attributes@[1].key@ == "owner"@
                && resp.attributes@[1].value@ == n),
            Err(e) => ((r matches Err(e2) && e2 == e) && final(state).owner.addr@ == old(
                state,
            ).owner.addr@),
        }),
        sender.addr@ != old(state).owner.addr@ ==> (r matches Err(ContractError::Unauthorized)
            && final(state).owner.addr@ == old(state).owner.addr@),
{
    if !sender.addr.eq(&state.owner.addr) {
        return Err(ContractError::Unauthorized);
    }
    let new_owner = match Identity::validate(new_owner) {
        Ok(o) => o,
        Err(e) => {
            return Err(e);
        },
    };
    let resp = Response::new().add_attribute("action", "update_owner").add_attribute(
        "owner",
        new_owner.addr.as_str(),
    );
    state.owner = new_owner;
    Ok(resp)
}

/// Re-emits `msgs` unmodified and in order for host execution, gated on the
/// caller being the current owner: the owner's escape hatch for pushing
/// arbitrary pre-built envelopes through this contract's own identity.
pub fn exec_msgs(state: &OwnerState, sender: &Identity, msgs: Vec<Envelope>) -> (r: Result<
    Response,
    ContractError,
>)
    ensures
        sender.addr@ == state.owner.addr@ ==> (r matches Ok(resp) && resp.messages@ == msgs@
            && resp.attributes@.len() == 1 && resp.attributes@[0].key@ == "action"@
            && resp.attributes@[0].value@ == "execute_msgs"@),
        sender.addr@ != state.owner.addr@ ==> r matches Err(ContractError::Unauthorized),
{
    if !sender.addr.eq(&state.owner.addr) {
        return Err(ContractError::Unauthorized);
    }
    let resp = Response::new().add_attribute("action", "execute_msgs").add_messages(msgs);
    proof {
        assert(resp.messages@ =~= msgs@);
    }
    Ok(resp)
}

/// Dispatches a gated operation to its handler.
pub fn execute(state: &mut OwnerState, sender: &Identity, msg: ExecuteMsg) -> (r: Result<
    Response,
    ContractError,
>)
    requires
        old(state).wf(),
    ensures
        final(state).wf(),
        (msg matches ExecuteMsg::UpdateOwner { new_owner } ==> (match spec_transfer_owner(
            old(state).owner.addr@,
            sender.addr@,
            new_owner@,
        ) {
            Ok(n) => r matches Ok(_) && final(state).owner.addr@ == n,
            Err(e) => (r matches Err(e2) && e2 == e) && final(state).owner.addr@ == old(
                state,
            ).owner.addr@,
        })),
        (msg matches ExecuteMsg::ExecuteMsgs { msgs } ==> final(state).owner.addr@ == old(
            state,
        ).owner.addr@ && (if sender.addr@ == old(state).owner.addr@ {
            r matches Ok(resp) && resp.messages@ == msgs@
        } else {
            r matches Err(ContractError::Unauthorized)
        })),
{
    match msg {
        ExecuteMsg::UpdateOwner { new_owner } => update_owner(state, sender, new_owner),
        ExecuteMsg::ExecuteMsgs { msgs } => exec_msgs(state, sender, msgs),
    }
}

/// Ownership is single-writer and immediately effective: once the owner
/// `a` has transferred ownership to a distinct `x`, a second transfer
/// attempted by `a` fails with `Unauthorized`, whatever its candidate.
pub proof fn lemma_ownership_single_writer(a: Seq<char>, x: Seq<char>, y: Seq<char>)
    requires
        valid_identity(x),
        x != a,
    ensures
        spec_transfer_owner(a, a, x) == Ok::<Seq<char>, ContractError>(x),
        spec_transfer_owner(x, a, y) == Err::<Seq<char>, ContractError>(
            ContractError::Unauthorized,
        ),
{
}

} // verus!
