use vstd::prelude::*;
use crate::types::{Address, ContractError};

verus! {

/// Reads the administrator from the admin slot of a contract's storage.
pub fn get_admin(admin: &Option<Address>) -> (r: Result<Address, ContractError>)
    ensures
        r == (match *admin {
            Some(a) => Ok(a),
            None => Err(ContractError::Unauthorized),
        }),
{
    match admin {
        Some(a) => Ok(*a),
        None => Err(ContractError::Unauthorized),
    }
}

/// Succeeds exactly when `caller` is the stored administrator.
pub fn verify_admin(admin: &Option<Address>, caller: &Address) -> (r: Result<(), ContractError>)
    ensures
        r is Ok <==> *admin == Some(*caller),
        r is Err ==> r == Err::<(), ContractError>(ContractError::Unauthorized),
{
    let a = get_admin(admin)?;
    if a != *caller {
        return Err(ContractError::Unauthorized);
    }
    Ok(())
}

/// Hands the admin slot to `new_admin` when `current_admin` is the administrator.
pub fn transfer_admin(admin: &mut Option<Address>, current_admin: &Address, new_admin: &Address) -> (r: Result<(), ContractError>)
    ensures
        r is Ok <==> *old(admin) == Some(*current_admin),
        r is Ok ==> *final(admin) == Some(*new_admin),
        r is Err ==> *final(admin) == *old(admin) && r == Err::<(), ContractError>(ContractError::Unauthorized),
{
    verify_admin(admin, current_admin)?;
    *admin = Some(*new_admin);
    Ok(())
}

} // verus!
