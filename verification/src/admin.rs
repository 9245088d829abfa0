//! The singleton program record: one-time initialization, and authority-gated
//! changes to the platform fee and the fee-collection target.

use vstd::prelude::*;
use crate::addr::Addr;
use crate::error::ErrorCode;
use crate::records::{ProgramMetadata, PROGRAM_VERSION};

verus! {

/// Initializes the singleton program record. It can be created exactly
/// once: a second call finds the initialized flag set and is rejected with
/// nothing changed.
pub fn initialize(
    program_metadata: &mut ProgramMetadata,
    creator: Addr,
    authority: Addr,
    secondary_authority: Addr,
    fee_account: Addr,
    fee: u64,
) -> (r: Result<(), ErrorCode>)
    ensures
        ({
            match r {
                Result::Err(e) => {
                    &&& e == ErrorCode::AlreadyInitialized
                    &&& old(program_metadata).initialized
                    &&& *final(program_metadata) == *old(program_metadata)
                },
                Result::Ok(_) => {
                    &&& !old(program_metadata).initialized
                    &&& *final(program_metadata) == (ProgramMetadata {
                        initialized: true,
                        version: PROGRAM_VERSION,
                        creator: creator,
                        authority: authority,
                        secondary_authority: secondary_authority,
                        fee_account: fee_account,
                        fee: fee,
                    })
                },
            }
        }),
{
    if program_metadata.initialized {
        return Err(ErrorCode::AlreadyInitialized);
    }
    program_metadata.version = PROGRAM_VERSION;
    program_metadata.initialized = true;
    program_metadata.creator = creator;
    program_metadata.authority = authority;
    program_metadata.secondary_authority = secondary_authority;
    program_metadata.fee_account = fee_account;
    program_metadata.fee = fee;
    Ok(())
}

/// Sets the flat platform fee. Only the program's authority (primary or
/// secondary) may change it; on rejection nothing changes.
pub fn change_fee(
    program_metadata: &mut ProgramMetadata,
    authority: Addr,
    fee: u64,
) -> (r: Result<(), ErrorCode>)
    ensures
        ({
            match r {
                Result::Err(e) => {
                    &&& e == ErrorCode::IncorrectAuthority
                    &&& authority != old(program_metadata).authority
                    &&& authority != old(program_metadata).secondary_authority
                    &&& *final(program_metadata) == *old(program_metadata)
                },
                Result::Ok(_) => {
                    &&& authority == old(program_metadata).authority
                        || authority == old(program_metadata).secondary_authority
                    &&& *final(program_metadata) == (ProgramMetadata {
                        fee: fee,
                        ..*old(program_metadata)
                    })
                },
            }
        }),
{
    if !program_metadata.is_authorized(&authority) {
        return Err(ErrorCode::IncorrectAuthority);
    }
    program_metadata.fee = fee;
    Ok(())
}

/// Re-targets fee collection to another account. Only the program's
/// authority (primary or secondary) may change it; on rejection nothing
/// changes.
pub fn change_fee_account(
    program_metadata: &mut ProgramMetadata,
    authority: Addr,
    fee_account: Addr,
) -> (r: Result<(), ErrorCode>)
    ensures
        ({
            match r {
                Result::Err(e) => {
                    &&& e == ErrorCode::IncorrectAuthority
                    &&& authority != old(program_metadata).authority
                    &&& authority != old(program_metadata).secondary_authority
                    &&& *final(program_metadata) == *old(program_metadata)
                },
                Result::Ok(_) => {
                    &&& authority == old(program_metadata).authority
                        || authority == old(program_metadata).secondary_authority
                    &&& *final(program_metadata) == (ProgramMetadata {
                        fee_account: fee_account,
                        ..*old(program_metadata)
                    })
                },
            }
        }),
{
    if !program_metadata.is_authorized(&authority) {
        return Err(ErrorCode::IncorrectAuthority);
    }
    program_metadata.fee_account = fee_account;
    Ok(())
}

} // verus!
