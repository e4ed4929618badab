use vstd::prelude::*;

use crate::constants::{gateway_prefix, spec_gateway_prefix, MAX_ID_LENGTH, MAX_TEXT_LENGTH};
use crate::error::ContractError;

verus! {

/// Relies on is_false::is_false: it returns the negation of its argument.
pub assume_specification[ is_false::is_false ](arg: bool) -> (r: bool)
    ensures
        r == !arg,
;

/// `prefix` is an initial segment of `s`.
pub open spec fn spec_starts_with(s: Seq<char>, prefix: Seq<char>) -> bool {
    prefix.len() <= s.len() && s.subrange(0, prefix.len() as int) == prefix
}

/// Character-by-character prefix test.
pub fn starts_with_prefix(s: &str, prefix: &str) -> (r: bool)
    ensures
        r == spec_starts_with(s@, prefix@),
{
    let n = prefix.unicode_len();
    if n > s.unicode_len() {
        return false;
    }
    let mut i: usize = 0;
    while i < n
        invariant
            n == prefix@.len(),
            n <= s@.len(),
            i <= n,
            forall|j: int| 0 <= j < i ==> s@[j] == prefix@[j],
        decreases n - i,
    {
        if s.get_char(i) != prefix.get_char(i) {
            proof {
                assert(s@.subrange(0, n as int)[i as int] == s@[i as int]);
            }
            return false;
        }
        i += 1;
    }
    proof {
        assert(s@.subrange(0, n as int) =~= prefix@);
    }
    true
}

/// The content rules, in the order they are checked: text at most
/// `MAX_TEXT_LENGTH` characters, external reference at most `MAX_ID_LENGTH`
/// characters and starting with the approved gateway prefix.
pub open spec fn spec_validate(text: Seq<char>, external_id: Seq<char>) -> Result<
    (),
    ContractError,
> {
    if text.len() > MAX_TEXT_LENGTH as int {
        Err(ContractError::TooMuchText)
    } else if external_id.len() > MAX_ID_LENGTH as int {
        Err(ContractError::OnlyOneLink)
    } else if !spec_starts_with(external_id, spec_gateway_prefix()) {
        Err(ContractError::MustUseApprovedGateway)
    } else {
        Ok(())
    }
}

/// The content validator: accepts or rejects a text and an external
/// reference exactly as `spec_validate` states.
pub fn validate(text: &str, external_id: &str) -> (r: Result<(), ContractError>)
    ensures
        r == spec_validate(text@, external_id@),
{
    if text.unicode_len() > MAX_TEXT_LENGTH {
        return Err(ContractError::TooMuchText);
    }
    if external_id.unicode_len() > MAX_ID_LENGTH {
        return Err(ContractError::OnlyOneLink);
    }
    if is_false::is_false(starts_with_prefix(external_id, gateway_prefix())) {
        return Err(ContractError::MustUseApprovedGateway);
    }
    Ok(())
}

} // verus!
