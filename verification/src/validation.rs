use vstd::prelude::*;
use crate::types::{ContractError, Address, text_len, byte_len, MAX_STRING_LENGTH, MAX_CAPABILITIES};

verus! {

/// The error a single metadata string gives, if any.
pub open spec fn metadata_error(s: String) -> Option<ContractError> {
    if text_len(s) == 0 {
        Some(ContractError::InvalidMetadata)
    } else if text_len(s) > MAX_STRING_LENGTH {
        Some(ContractError::MetadataTooLong)
    } else {
        None
    }
}

/// Outcome of validating a metadata string.
pub open spec fn metadata_result(s: String) -> Result<(), ContractError> {
    match metadata_error(s) {
        Some(e) => Err(e),
        None => Ok(()),
    }
}

/// Outcome of checking capabilities from the first one on: the error of the
/// first invalid capability.
pub open spec fn capability_scan(caps: Seq<String>) -> Result<(), ContractError>
    decreases caps.len(),
{
    if caps.len() == 0 {
        Ok(())
    } else {
        match metadata_error(caps[0]) {
            Some(e) => Err(e),
            None => capability_scan(caps.drop_first()),
        }
    }
}

/// Outcome of validating a capability list.
pub open spec fn capabilities_result(caps: Seq<String>) -> Result<(), ContractError> {
    if caps.len() > MAX_CAPABILITIES {
        Err(ContractError::CapabilitiesExceeded)
    } else {
        capability_scan(caps)
    }
}

/// A scan that succeeds means every capability is valid.
pub proof fn lemma_capability_scan_ok(caps: Seq<String>)
    ensures
        capability_scan(caps) is Ok <==> forall|i: int|
            0 <= i < caps.len() ==> #[trigger] metadata_error(caps[i]) is None,
    decreases caps.len(),
{
    if caps.len() > 0 {
        lemma_capability_scan_ok(caps.drop_first());
        assert forall|i: int| 0 < i < caps.len() implies caps.drop_first()[i - 1] == caps[i] by {}
        if capability_scan(caps) is Ok {
            assert forall|i: int| 0 <= i < caps.len() implies #[trigger] metadata_error(caps[i]) is None by {
                if i > 0 {
                    assert(caps.drop_first()[i - 1] == caps[i]);
                }
            }
        }
        if forall|i: int| 0 <= i < caps.len() ==> #[trigger] metadata_error(caps[i]) is None {
            assert(metadata_error(caps[0]) is None);
            assert forall|i: int| 0 <= i < caps.drop_first().len() implies #[trigger] metadata_error(caps.drop_first()[i]) is None by {
                assert(caps.drop_first()[i] == caps[i + 1]);
            }
        }
    }
}

/// Every address is accepted.
pub fn validate_address(address: &Address) -> (r: Result<(), ContractError>)
    ensures
        r is Ok,
{
    let _ = address;
    Ok(())
}

/// Checks that a metadata string is non-empty and at most `MAX_STRING_LENGTH` bytes.
pub fn validate_metadata(metadata: &String) -> (r: Result<(), ContractError>)
    ensures
        r == metadata_result(*metadata),
{
    let n = byte_len(metadata);
    if n == 0 {
        return Err(ContractError::InvalidMetadata);
    }
    if n > MAX_STRING_LENGTH as usize {
        return Err(ContractError::MetadataTooLong);
    }
    Ok(())
}

/// Checks that there are at most `MAX_CAPABILITIES` capabilities, each a valid
/// metadata string; the first invalid one decides the error.
pub fn validate_capabilities(capabilities: &Vec<String>) -> (r: Result<(), ContractError>)
    ensures
        r == capabilities_result(capabilities@),
{
    if capabilities.len() > MAX_CAPABILITIES {
        return Err(ContractError::CapabilitiesExceeded);
    }
    let mut i: usize = 0;
    assert(capabilities@.skip(0) =~= capabilities@);
    while i < capabilities.len()
        invariant
            i <= capabilities.len(),
            capabilities.len() <= MAX_CAPABILITIES,
            capability_scan(capabilities@) == capability_scan(capabilities@.skip(i as int)),
        decreases capabilities.len() - i,
    {
        let ghost rest = capabilities@.skip(i as int);
        assert(rest[0] == capabilities@[i as int]);
        assert(rest.drop_first() =~= capabilities@.skip(i as int + 1));
        match validate_metadata(&capabilities[i]) {
            Err(e) => {
                return Err(e);
            },
            Ok(()) => {},
        }
        i = i + 1;
    }
    assert(capabilities@.skip(i as int).len() == 0);
    Ok(())
}

/// Rejects the identifier zero.
pub fn validate_nonzero_id(id: u64) -> (r: Result<(), ContractError>)
    ensures
        r == (if id == 0 { Err(ContractError::InvalidInput) } else { Ok(()) }),
{
    if id == 0 {
        return Err(ContractError::InvalidInput);
    }
    Ok(())
}

} // verus!
