//! The predicate library: independent, stateless validation functions.
//! Each compares one or two decoded account fields against an expected
//! reference value and returns either success or one typed failure.
//! Callers chain them and treat the first failure as authoritative.

use vstd::prelude::*;

use crate::accounts::AccountRecord;
use crate::accounts::Mint;
use crate::accounts::Pubkey;
use crate::accounts::StakeState;
use crate::accounts::TokenAccount;
use crate::error::CheckError;
use crate::error::DiagValue;
use crate::error::ErrorCode;

verus! {

/// The minimum-amount predicate holds when the observed quantity reaches
/// the threshold.
pub open spec fn min_amount_ok(amount: u64, min_amount: u64) -> bool {
    amount >= min_amount
}

/// The address-equality predicate holds when the observed address is the
/// expected one.
pub open spec fn address_matches(actual: Pubkey, expected: Pubkey) -> bool {
    actual == expected
}

/// Checks that `amount` reaches `min_amount`; below the threshold the
/// operation named by `action_name` is rejected with `NumberTooLow`.
pub fn check_min_amount(amount: u64, min_amount: u64, action_name: &str) -> (r: Result<
    (),
    CheckError,
>)
    ensures
        r is Ok <==> min_amount_ok(amount, min_amount),
        r matches Err(e) ==> e.code == ErrorCode::NumberTooLow && e.field@ == action_name@
            && e.expected == Some(DiagValue::Amount(min_amount)) && e.actual == Some(
            DiagValue::Amount(amount),
        ),
{
    if amount >= min_amount {
        Ok(())
    } else {
        Err(
            CheckError {
                code: ErrorCode::NumberTooLow,
                field: action_name.to_owned(),
                expected: Some(DiagValue::Amount(min_amount)),
                actual: Some(DiagValue::Amount(amount)),
            },
        )
    }
}

/// The owning-program predicate holds when the record's declared owning
/// program is the expected one.
pub open spec fn owner_program_matches(account: AccountRecord, owner: Pubkey) -> bool {
    account.owner_program == owner
}

/// The mint-authority predicate holds when the mint's authority is
/// present and equals the expected address; an absent authority fails.
pub open spec fn mint_authority_matches(mint: Mint, authority: Pubkey) -> bool {
    mint.mint_authority == Some(authority)
}

/// The freeze-authority predicate holds when the mint's freeze authority
/// is unset.
pub open spec fn freeze_authority_absent(mint: Mint) -> bool {
    mint.freeze_authority is None
}

/// The mint-supply predicate holds when nothing of the mint has been
/// issued yet.
pub open spec fn mint_supply_empty(mint: Mint) -> bool {
    mint.supply == 0
}

/// The token-mint predicate holds when the holding records units of the
/// expected mint.
pub open spec fn token_mint_matches(token: TokenAccount, mint: Pubkey) -> bool {
    token.mint == mint
}

/// The token-owner predicate holds when the holding belongs to the
/// expected owner.
pub open spec fn token_owner_matches(token: TokenAccount, owner: Pubkey) -> bool {
    token.owner == owner
}

/// How an optional authority is quoted in a diagnostic: as its address
/// when present, as nothing when absent.
pub open spec fn authority_diag(authority: Option<Pubkey>) -> Option<DiagValue> {
    match authority {
        Some(a) => Some(DiagValue::Address(a)),
        None => None,
    }
}

/// The delegation check succeeds exactly when the position is actively
/// delegated to the expected validator for the expected amount.
pub open spec fn delegation_ok(
    stake_state: StakeState,
    expected_stake_amount: u64,
    validator_vote_pubkey: Pubkey,
) -> bool {
    match stake_state.spec_delegation() {
        Some(d) => d.voter_pubkey == validator_vote_pubkey && d.stake == expected_stake_amount,
        None => false,
    }
}

/// Checks that `actual_address` is exactly `reference_address`; any other
/// address is rejected with `InvalidArgument`.
pub fn check_address(actual_address: &Pubkey, reference_address: &Pubkey, field_name: &str) -> (r:
    Result<(), CheckError>)
    ensures
        r is Ok <==> address_matches(*actual_address, *reference_address),
        r matches Err(e) ==> e.code == ErrorCode::InvalidArgument && e.field@ == field_name@
            && e.expected == Some(DiagValue::Address(*reference_address)) && e.actual == Some(
            DiagValue::Address(*actual_address),
        ),
{
    if *actual_address == *reference_address {
        Ok(())
    } else {
        Err(
            CheckError {
                code: ErrorCode::InvalidArgument,
                field: field_name.to_owned(),
                expected: Some(DiagValue::Address(*reference_address)),
                actual: Some(DiagValue::Address(*actual_address)),
            },
        )
    }
}

/// Checks that the record's declared owning program is `owner`; any
/// other owning program is rejected with `InvalidArgument`.
pub fn check_owner_program(account: &AccountRecord, owner: &Pubkey, field_name: &str) -> (r: Result<
    (),
    CheckError,
>)
    ensures
        r is Ok <==> owner_program_matches(*account, *owner),
        r matches Err(e) ==> e.code == ErrorCode::InvalidArgument && e.field@ == field_name@
            && e.expected == Some(DiagValue::Address(*owner)) && e.actual == Some(
            DiagValue::Address(account.owner_program),
        ),
{
    if account.owner_program == *owner {
        Ok(())
    } else {
        Err(
            CheckError {
                code: ErrorCode::InvalidArgument,
                field: field_name.to_owned(),
                expected: Some(DiagValue::Address(*owner)),
                actual: Some(DiagValue::Address(account.owner_program)),
            },
        )
    }
}

/// Checks that the mint's authority is present and equals
/// `mint_authority`; an absent or different authority is rejected with
/// `InvalidAccountData`.
pub fn check_mint_authority(mint: &Mint, mint_authority: Pubkey, field_name: &str) -> (r: Result<
    (),
    CheckError,
>)
    ensures
        r is Ok <==> mint_authority_matches(*mint, mint_authority),
        r matches Err(e) ==> e.code == ErrorCode::InvalidAccountData && e.field@ == field_name@
            && e.expected == Some(DiagValue::Address(mint_authority)) && e.actual == authority_diag(
            mint.mint_authority,
        ),
{
    let authority_present_and_equal = match mint.mint_authority {
        Some(a) => a == mint_authority,
        None => false,
    };
    if authority_present_and_equal {
        Ok(())
    } else {
        let actual = match mint.mint_authority {
            Some(a) => Some(DiagValue::Address(a)),
            None => None,
        };
        Err(
            CheckError {
                code: ErrorCode::InvalidAccountData,
                field: field_name.to_owned(),
                expected: Some(DiagValue::Address(mint_authority)),
                actual,
            },
        )
    }
}

/// Checks that the mint has no freeze authority; a set freeze authority
/// is rejected with `InvalidAccountData`.
pub fn check_freeze_authority(mint: &Mint, field_name: &str) -> (r: Result<(), CheckError>)
    ensures
        r is Ok <==> freeze_authority_absent(*mint),
        r matches Err(e) ==> e.code == ErrorCode::InvalidAccountData && e.field@ == field_name@
            && e.expected == None::<DiagValue> && e.actual == authority_diag(mint.freeze_authority),
{
    match mint.freeze_authority {
        None => Ok(()),
        Some(a) => Err(
            CheckError {
                code: ErrorCode::InvalidAccountData,
                field: field_name.to_owned(),
                expected: None,
                actual: Some(DiagValue::Address(a)),
            },
        ),
    }
}

/// Checks that the mint's supply is zero (a fresh mint); a non-empty
/// mint is rejected with `InvalidArgument`.
pub fn check_mint_empty(mint: &Mint, field_name: &str) -> (r: Result<(), CheckError>)
    ensures
        r is Ok <==> mint_supply_empty(*mint),
        r matches Err(e) ==> e.code == ErrorCode::InvalidArgument && e.field@ == field_name@
            && e.expected == Some(DiagValue::Amount(0)) && e.actual == Some(
            DiagValue::Amount(mint.supply),
        ),
{
    if mint.supply == 0 {
        Ok(())
    } else {
        Err(
            CheckError {
                code: ErrorCode::InvalidArgument,
                field: field_name.to_owned(),
                expected: Some(DiagValue::Amount(0)),
                actual: Some(DiagValue::Amount(mint.supply)),
            },
        )
    }
}

/// Checks that the holding records units of `mint`; a holding of any
/// other mint is rejected with `InvalidAccountData`.
pub fn check_token_mint(token: &TokenAccount, mint: Pubkey, field_name: &str) -> (r: Result<
    (),
    CheckError,
>)
    ensures
        r is Ok <==> token_mint_matches(*token, mint),
        r matches Err(e) ==> e.code == ErrorCode::InvalidAccountData && e.field@ == field_name@
            && e.expected == Some(DiagValue::Address(mint)) && e.actual == Some(
            DiagValue::Address(token.mint),
        ),
{
    if token.mint == mint {
        Ok(())
    } else {
        Err(
            CheckError {
                code: ErrorCode::InvalidAccountData,
                field: field_name.to_owned(),
                expected: Some(DiagValue::Address(mint)),
                actual: Some(DiagValue::Address(token.mint)),
            },
        )
    }
}

/// Checks that the holding belongs to `owner`; a holding of any other
/// owner is rejected with `InvalidAccountData`.
pub fn check_token_owner(token: &TokenAccount, owner: &Pubkey, field_name: &str) -> (r: Result<
    (),
    CheckError,
>)
    ensures
        r is Ok <==> token_owner_matches(*token, *owner),
        r matches Err(e) ==> e.code == ErrorCode::InvalidAccountData && e.field@ == field_name@
            && e.expected == Some(DiagValue::Address(*owner)) && e.actual == Some(
            DiagValue::Address(token.owner),
        ),
{
    if token.owner == *owner {
        Ok(())
    } else {
        Err(
            CheckError {
                code: ErrorCode::InvalidAccountData,
                field: field_name.to_owned(),
                expected: Some(DiagValue::Address(*owner)),
                actual: Some(DiagValue::Address(token.owner)),
            },
        )
    }
}

/// Checks that the stake position is delegated, that it is delegated to
/// the expected validator, and that its amount agrees with the
/// protocol's bookkeeping.  The three failures are distinguished because
/// they imply different recovery actions: `StakeNotDelegated` asks for
/// an external delegation first, `InvalidInstructionData` is fatal to
/// the call, and `StakeAccountNotUpdatedYet` asks for a reconciliation
/// step, then a retry.
pub fn check_stake_amount_and_validator(
    stake_state: &StakeState,
    expected_stake_amount: u64,
    validator_vote_pubkey: &Pubkey,
) -> (r: Result<(), CheckError>)
    ensures
        r is Ok <==> delegation_ok(*stake_state, expected_stake_amount, *validator_vote_pubkey),
        (r matches Err(e) && e.code == ErrorCode::StakeNotDelegated) <==> stake_state
            .spec_delegation() is None,
        stake_state.spec_delegation() is None ==> (r matches Err(e) && e.field@ == "stake"@
            && e.expected == None::<DiagValue> && e.actual == None::<DiagValue>),
        stake_state.spec_delegation() matches Some(d) ==> (d.voter_pubkey
            != *validator_vote_pubkey ==> (r matches Err(e)
            && e.code == ErrorCode::InvalidInstructionData && e.field@ == "validator"@
            && e.expected == Some(DiagValue::Address(*validator_vote_pubkey)) && e.actual == Some(
            DiagValue::Address(d.voter_pubkey),
        ))),
        stake_state.spec_delegation() matches Some(d) ==> (d.voter_pubkey == *validator_vote_pubkey
            && d.stake != expected_stake_amount ==> (r matches Err(e)
            && e.code == ErrorCode::StakeAccountNotUpdatedYet && e.field@ == "delegated_stake"@
            && e.expected == Some(DiagValue::Amount(expected_stake_amount)) && e.actual == Some(
            DiagValue::Amount(d.stake),
        ))),
{
    let currently_staked: u64 = match stake_state.delegation() {
        Some(delegation) => {
            if delegation.voter_pubkey == *validator_vote_pubkey {
                delegation.stake
            } else {
                return Err(
                    CheckError {
                        code: ErrorCode::InvalidInstructionData,
                        field: "validator".to_owned(),
                        expected: Some(DiagValue::Address(*validator_vote_pubkey)),
                        actual: Some(DiagValue::Address(delegation.voter_pubkey)),
                    },
                );
            }
        },
        None => {
            return Err(
                CheckError {
                    code: ErrorCode::StakeNotDelegated,
                    field: "stake".to_owned(),
                    expected: None,
                    actual: None,
                },
            );
        },
    };
    if currently_staked == expected_stake_amount {
        Ok(())
    } else {
        Err(
            CheckError {
                code: ErrorCode::StakeAccountNotUpdatedYet,
                field: "delegated_stake".to_owned(),
                expected: Some(DiagValue::Amount(expected_stake_amount)),
                actual: Some(DiagValue::Amount(currently_staked)),
            },
        )
    }
}

/// Every equality predicate is reflexive: checking a value against
/// itself always succeeds.  Holds for the address check, the
/// owning-program check, the token-mint check, the token-owner check,
/// and for the mint-authority check whenever the authority is present.
pub proof fn lemma_equality_checks_reflexive(
    address: Pubkey,
    account: AccountRecord,
    mint: Mint,
    token: TokenAccount,
)
    ensures
        address_matches(address, address),
        owner_program_matches(account, account.owner_program),
        token_mint_matches(token, token.mint),
        token_owner_matches(token, token.owner),
        mint.mint_authority matches Some(a) ==> mint_authority_matches(mint, a),
{
}

/// A mint with zero supply, no freeze authority, and the expected mint
/// authority passes all three mint predicates.
pub proof fn lemma_fresh_mint_passes(mint: Mint, expected_authority: Pubkey)
    requires
        mint.supply == 0,
        mint.freeze_authority is None,
        mint.mint_authority == Some(expected_authority),
    ensures
        mint_authority_matches(mint, expected_authority),
        freeze_authority_absent(mint),
        mint_supply_empty(mint),
{
}

/// Each mint predicate reads exactly one field of the descriptor: two
/// mints that agree on that field agree on the predicate.  So changing
/// one field of a mint flips at most the corresponding predicate.
pub proof fn lemma_mint_predicates_independent(m1: Mint, m2: Mint, authority: Pubkey)
    ensures
        m1.mint_authority == m2.mint_authority ==> mint_authority_matches(m1, authority)
            == mint_authority_matches(m2, authority),
        m1.freeze_authority == m2.freeze_authority ==> freeze_authority_absent(m1)
            == freeze_authority_absent(m2),
        m1.supply == m2.supply ==> mint_supply_empty(m1) == mint_supply_empty(m2),
{
}

} // verus!
