use vstd::prelude::*;
use vstd::string::{StringExecFns, StrSliceExecFns};

use crate::error::ContractError;
use crate::owner::OwnerState;

verus! {

/// A denomination and an amount, one entry of a transfer's amount set.
pub struct Coin {
    pub denom: String,
    pub amount: u128,
}

/// The read-only queries: the current owner, or a restriction decision for
/// a transfer-like action.
pub enum QueryMsg {
    Owner,
    SendRestriction {
        from_address: String,
        to_address: String,
        action: String,
        amounts: Vec<Coin>,
    },
}

/// The outcome of policy evaluation: the transfer is allowed with its
/// destination replaced by a redirect identity, denied with a reason, or
/// classified as diverging — the evaluator's deliberate non-termination
/// case, bounded only by the host's execution-resource budget.
pub enum RestrictionDecision {
    Allow(String),
    Deny(String),
    Diverge,
}

/// The mathematical form of a restriction decision.
pub enum DecisionView {
    Allow { redirect: Seq<char> },
    Deny { reason: Seq<char> },
    Diverge,
}

impl View for RestrictionDecision {
    type V = DecisionView;

    open spec fn view(&self) -> DecisionView {
        match self {
            RestrictionDecision::Allow(s) => DecisionView::Allow { redirect: s@ },
            RestrictionDecision::Deny(s) => DecisionView::Deny { reason: s@ },
            RestrictionDecision::Diverge => DecisionView::Diverge,
        }
    }
}

/// Lower-cases a single ASCII letter; leaves every other character alone.
/// The policy reads the destination's last character case-insensitively,
/// with ASCII case folding.
pub open spec fn spec_ascii_lower(c: char) -> char {
    if ('A' as u32) <= (c as u32) && (c as u32) <= ('Z' as u32) {
        (((c as u8) + 32) as char)
    } else {
        c
    }
}

/// The denial reason echoes the action and the destination.
pub open spec fn spec_deny_reason(action: Seq<char>, to: Seq<char>) -> Seq<char> {
    "action \""@ + action + "\" is restricted for user \""@ + to + "\""@
}

/// The restriction policy, over the last character of the destination,
/// case-insensitively: a character in the range `'0'..='c'` denies the
/// action, exactly `'d'` diverges, and anything else allows the transfer
/// redirected to the policy holder's own identity. The character range is a
/// character-code comparison, kept exactly as stated, not a numeric rule.
pub open spec fn spec_evaluate(contract: Seq<char>, action: Seq<char>, to: Seq<char>)
    -> DecisionView
    recommends
        to.len() > 0,
{
    let lc = spec_ascii_lower(to.last());
    if ('0' as u32) <= (lc as u32) && (lc as u32) <= ('c' as u32) {
        DecisionView::Deny { reason: spec_deny_reason(action, to) }
    } else if lc == 'd' {
        DecisionView::Diverge
    } else {
        DecisionView::Allow { redirect: contract }
    }
}

fn ascii_lower(c: char) -> (r: char)
    ensures
        r == spec_ascii_lower(c),
{
    if ('A' as u32) <= (c as u32) && (c as u32) <= ('Z' as u32) {
        ((c as u8) + 32) as char
    } else {
        c
    }
}

fn deny_reason(action: &String, to: &String) -> (r: String)
    ensures
        r@ == spec_deny_reason(action@, to@),
{
    let mut r = String::from_str("action \"");
    r.append(action.as_str());
    r.append("\" is restricted for user \"");
    r.append(to.as_str());
    r.append("\"");
    assert(r@ =~= spec_deny_reason(action@, to@));
    r
}

/// Evaluates the restriction policy. The decision is a pure function of the
/// inputs: identical inputs always yield identical decisions, and the
/// amounts and the source take no part in it. An empty destination is
/// rejected as `InvalidInput` rather than read out of bounds.
pub fn evaluate(
    contract_address: &String,
    action: &String,
    from_address: &String,
    to_address: &String,
    amounts: &Vec<Coin>,
) -> (r: Result<RestrictionDecision, ContractError>)
    ensures
        to_address@.len() == 0 ==> r matches Err(ContractError::InvalidInput),
        to_address@.len() > 0 ==> (r matches Ok(d) && d@ == spec_evaluate(
            contract_address@,
            action@,
            to_address@,
        )),
{
    let n = to_address.as_str().unicode_len();
    if n == 0 {
        return Err(ContractError::InvalidInput);
    }
    let c = to_address.as_str().get_char(n - 1);
    let lc = ascii_lower(c);
    if ('0' as u32) <= (lc as u32) && (lc as u32) <= ('c' as u32) {
        Ok(RestrictionDecision::Deny(deny_reason(action, to_address)))
    } else if lc == 'd' {
        Ok(RestrictionDecision::Diverge)
    } else {
        Ok(RestrictionDecision::Allow(contract_address.clone()))
    }
}

/// A query's successful outcome: an identity (the stored owner, or the
/// redirect destination of an allowed transfer), or the explicit `Diverge`
/// marker. On `Diverge` the host glue wrapping this crate must literally
/// not answer: it is to loop unboundedly, limited only by the host's
/// externally imposed execution-resource ceiling, never by a timeout of its
/// own.
pub enum QueryOutcome {
    Identity(String),
    Diverge,
}

/// Answers a read-only query. The owner query returns the stored owner. A
/// restriction query returns the redirect identity when the transfer is
/// allowed, the denial reason as a `Denied` error, and the `Diverge` marker
/// on the deliberately non-terminating case.
pub fn query(state: &OwnerState, contract_address: &String, msg: QueryMsg) -> (r: Result<
    QueryOutcome,
    ContractError,
>)
    ensures
        msg matches QueryMsg::Owner ==> (r matches Ok(QueryOutcome::Identity(o)) && o@
            == state.owner.addr@),
        msg matches QueryMsg::SendRestriction { to_address: t, .. } ==> (t@.len() == 0
            ==> r matches Err(ContractError::InvalidInput)),
        msg matches QueryMsg::SendRestriction { to_address: t, action: a, .. } ==> (t@.len() > 0
            ==> {
            &&& (spec_evaluate(contract_address@, a@, t@) matches DecisionView::Deny { reason }
                ==> (r matches Err(e) && e matches ContractError::Denied(m) && m@ == reason))
            &&& (spec_evaluate(contract_address@, a@, t@) matches DecisionView::Allow { redirect }
                ==> (r matches Ok(QueryOutcome::Identity(o)) && o@ == redirect))
            &&& (spec_evaluate(contract_address@, a@, t@) is Diverge ==> r matches Ok(
                QueryOutcome::Diverge,
            ))
        }),
{
    match msg {
        QueryMsg::Owner => Ok(QueryOutcome::Identity(state.owner.addr.clone())),
        QueryMsg::SendRestriction { from_address, to_address, action, amounts } => {
            match evaluate(contract_address, &action, &from_address, &to_address, &amounts) {
                Err(e) => Err(e),
                Ok(d) => match d {
                    RestrictionDecision::Deny(reason) => Err(ContractError::Denied(reason)),
                    RestrictionDecision::Diverge => Ok(QueryOutcome::Diverge),
                    RestrictionDecision::Allow(redirect) => Ok(QueryOutcome::Identity(redirect)),
                },
            }
        },
    }
}

} // verus!
