use vstd::prelude::*;
use vstd::string::StrSliceExecFns;

use crate::error::ContractError;

verus! {

/// An address character: a lowercase ASCII letter or a decimal digit.
pub open spec fn is_identity_char(c: char) -> bool {
    (('a' as u32) <= (c as u32) && (c as u32) <= ('z' as u32)) || (('0' as u32) <= (c as u32)
        && (c as u32) <= ('9' as u32))
}

/// The validation predicate for account addresses: non-empty, at most 90
/// characters, every character a lowercase ASCII letter or digit.
pub open spec fn valid_identity(s: Seq<char>) -> bool {
    &&& 1 <= s.len()
    &&& s.len() <= 90
    &&& forall|i: int| 0 <= i < s.len() ==> is_identity_char(s[i])
}

/// A validated account or contract address. Equality of identities is exact
/// string equality of the underlying address.
pub struct Identity {
    pub addr: String,
}

impl Identity {
    /// A well-formed identity passed validation before it was built.
    pub open spec fn wf(&self) -> bool {
        valid_identity(self.addr@)
    }

    /// Checks the validation predicate on a candidate address.
    pub fn is_valid(s: &str) -> (b: bool)
        ensures
            b == valid_identity(s@),
    {
        let n = s.unicode_len();
        if n < 1 || n > 90 {
            return false;
        }
        let mut i: usize = 0;
        while i < n
            invariant
                i <= n,
                n == s@.len(),
                forall|j: int| 0 <= j < i ==> is_identity_char(s@[j]),
            decreases n - i,
        {
            let c = s.get_char(i);
            let u = c as u32;
            if !((('a' as u32) <= u && u <= ('z' as u32)) || (('0' as u32) <= u && u <= ('9'
                as u32))) {
                return false;
            }
            i += 1;
        }
        true
    }

    /// Validates a candidate address and wraps it; the address is persisted
    /// or compared only after this succeeds.
    pub fn validate(addr: String) -> (r: Result<Identity, ContractError>)
        ensures
            valid_identity(addr@) ==> (r matches Ok(id) && id.addr@ == addr@ && id.wf()),
            !valid_identity(addr@) ==> r matches Err(ContractError::InvalidIdentity),
    {
        if Identity::is_valid(addr.as_str()) {
            Ok(Identity { addr })
        } else {
            Err(ContractError::InvalidIdentity)
        }
    }
}

} // verus!
