use vstd::prelude::*;

use crate::errors::ContractError;
use crate::storage::{get_admin, has_admin, set_admin, Storage, StorageView};
use crate::types::Address;

verus! {

/// Configures the first administrator; refused once one is configured.
pub fn set_initial_admin(store: &mut Storage, admin: &Address) -> (r: Result<(), ContractError>)
    requires
        old(store).inv(),
    ensures
        final(store).inv(),
        old(store)@.admin is Some ==> r == Err::<(), ContractError>(ContractError::AlreadyExists)
            && final(store)@ == old(store)@,
        old(store)@.admin is None ==> r is Ok && final(store)@ == (StorageView {
            admin: Some(*admin),
            ..old(store)@
        }),
{
    if has_admin(store) {
        return Err(ContractError::AlreadyExists);
    }
    set_admin(store, admin);
    Ok(())
}

/// The administrator whose authorisation an administrative operation needs;
/// refused with `Unauthorized` when none is configured.
pub fn require_admin(store: &Storage) -> (r: Result<Address, ContractError>)
    ensures
        r == (match store@.admin {
            Some(a) => Ok::<Address, ContractError>(a),
            None => Err(ContractError::Unauthorized),
        }),
{
    match get_admin(store) {
        Some(admin) => Ok(admin),
        None => Err(ContractError::Unauthorized),
    }
}

/// Hands the administrator role to `new_admin`; refused with `Unauthorized`
/// when no administrator is configured.
pub fn transfer_admin(store: &mut Storage, new_admin: &Address) -> (r: Result<(), ContractError>)
    requires
        old(store).inv(),
    ensures
        final(store).inv(),
        old(store)@.admin is None ==> r == Err::<(), ContractError>(ContractError::Unauthorized)
            && final(store)@ == old(store)@,
        old(store)@.admin is Some ==> r is Ok && final(store)@ == (StorageView {
            admin: Some(*new_admin),
            ..old(store)@
        }),
{
    require_admin(store)?;
    set_admin(store, new_admin);
    Ok(())
}

} // verus!
