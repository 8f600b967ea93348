//! Accounts, the roles they must play, and the one function that holds a
//! list of accounts to a table of roles.

use vstd::prelude::*;
use anchor_lang::prelude::Pubkey;
use crate::metadata_program::key_bytes;
use crate::metadata_program::rent_sysvar_bytes;
use crate::metadata_program::system_program_bytes;

verus! {

/// What the ledger says of one account that takes part in a request.
#[derive(Clone, Copy, Debug, PartialEq, Eq)]
pub struct Account {
    pub key: Pubkey,
    /// The account's owner signed the transaction.
    pub is_signer: bool,
    /// The transaction may change the account.
    pub is_writable: bool,
    /// The account holds a program.
    pub executable: bool,
}

/// The address that a role asks of its account.
#[derive(Clone, Copy, Debug, PartialEq, Eq, Structural)]
pub enum Address {
    /// Any address will do: the metadata program decides whether it is the
    /// right one.
    Any,
    SystemProgram,
    RentSysvar,
}

/// What an operation asks of one of its accounts.
#[derive(Clone, Copy, Debug, PartialEq, Eq, Structural)]
pub struct Role {
    pub signer: bool,
    pub writable: bool,
    pub executable: bool,
    pub address: Address,
}

impl Role {
    /// An account that the operation changes.
    pub open spec fn spec_writable() -> Role {
        Role { signer: false, writable: true, executable: false, address: Address::Any }
    }

    /// An account whose owner must have signed.
    pub open spec fn spec_signer() -> Role {
        Role { signer: true, writable: false, executable: false, address: Address::Any }
    }

    /// An account whose owner must have signed and that the operation
    /// changes.
    pub open spec fn spec_writable_signer() -> Role {
        Role { signer: true, writable: true, executable: false, address: Address::Any }
    }

    /// An account that holds a program.
    pub open spec fn spec_program() -> Role {
        Role { signer: false, writable: false, executable: true, address: Address::Any }
    }

    /// The system program.
    pub open spec fn spec_system_program() -> Role {
        Role {
            signer: false,
            writable: false,
            executable: true,
            address: Address::SystemProgram,
        }
    }

    /// The rent sysvar.
    pub open spec fn spec_rent_sysvar() -> Role {
        Role { signer: false, writable: false, executable: false, address: Address::RentSysvar }
    }

    #[verifier::when_used_as_spec(spec_writable)]
    pub fn writable() -> (role: Role)
        ensures
            role == Self::spec_writable(),
    {
        Role { signer: false, writable: true, executable: false, address: Address::Any }
    }

    #[verifier::when_used_as_spec(spec_signer)]
    pub fn signer() -> (role: Role)
        ensures
            role == Self::spec_signer(),
    {
        Role { signer: true, writable: false, executable: false, address: Address::Any }
    }

    #[verifier::when_used_as_spec(spec_writable_signer)]
    pub fn writable_signer() -> (role: Role)
        ensures
            role == Self::spec_writable_signer(),
    {
        Role { signer: true, writable: true, executable: false, address: Address::Any }
    }

    #[verifier::when_used_as_spec(spec_program)]
    pub fn program() -> (role: Role)
        ensures
            role == Self::spec_program(),
    {
        Role { signer: false, writable: false, executable: true, address: Address::Any }
    }

    #[verifier::when_used_as_spec(spec_system_program)]
    pub fn system_program() -> (role: Role)
        ensures
            role == Self::spec_system_program(),
    {
        Role {
            signer: false,
            writable: false,
            executable: true,
            address: Address::SystemProgram,
        }
    }

    #[verifier::when_used_as_spec(spec_rent_sysvar)]
    pub fn rent_sysvar() -> (role: Role)
        ensures
            role == Self::spec_rent_sysvar(),
    {
        Role { signer: false, writable: false, executable: false, address: Address::RentSysvar }
    }
}

/// The way in which an account fails its role.
#[derive(Clone, Copy, Debug, PartialEq, Eq, Structural)]
pub enum Violation {
    /// The list of accounts ends before this role.
    Missing,
    NotSigner,
    NotWritable,
    NotExecutable,
    WrongAddress,
}

/// The first account of a request that fails its role, by its place in the
/// operation's table, and how it fails.
#[derive(Clone, Copy, Debug, PartialEq, Eq, Structural)]
pub struct ContextError {
    pub index: usize,
    pub violation: Violation,
}

pub open spec fn address_matches(key: Pubkey, address: Address) -> bool {
    match address {
        Address::Any => true,
        Address::SystemProgram => key_bytes(key) == system_program_bytes(),
        Address::RentSysvar => key_bytes(key) == rent_sysvar_bytes(),
    }
}

/// How `account` fails `role`, if it does. Where it fails in several ways,
/// the signature counts first, then writability, then the program flag, then
/// the address.
pub open spec fn violation_of(account: Account, role: Role) -> Option<Violation> {
    if role.signer && !account.is_signer {
        Some(Violation::NotSigner)
    } else if role.writable && !account.is_writable {
        Some(Violation::NotWritable)
    } else if role.executable && !account.executable {
        Some(Violation::NotExecutable)
    } else if !address_matches(account.key, role.address) {
        Some(Violation::WrongAddress)
    } else {
        None
    }
}

/// How the account at place `index` fails the role at that place.
pub open spec fn violation_at(accounts: Seq<Account>, roles: Seq<Role>, index: int) -> Option<
    Violation,
> {
    if index >= accounts.len() {
        Some(Violation::Missing)
    } else {
        violation_of(accounts[index], roles[index])
    }
}

/// Every role of the table is met by the account at its place. Accounts
/// beyond the table are not looked at.
pub open spec fn conforms(accounts: Seq<Account>, roles: Seq<Role>) -> bool {
    forall|index: int| 0 <= index < roles.len() ==> violation_at(accounts, roles, index) is None
}

/// `error` names the first place at which an account fails its role, and the
/// way it fails there.
pub open spec fn is_first_violation(
    accounts: Seq<Account>,
    roles: Seq<Role>,
    error: ContextError,
) -> bool {
    &&& error.index < roles.len()
    &&& violation_at(accounts, roles, error.index as int) == Some(error.violation)
    &&& forall|index: int|
        0 <= index < error.index ==> violation_at(accounts, roles, index) is None
}

/// The account with its signature taken away.
pub open spec fn unsigned(account: Account) -> Account {
    Account { is_signer: false, ..account }
}

/// Whether two addresses hold the same bytes.
pub fn same_key(left: Pubkey, right: Pubkey) -> (same: bool)
    ensures
        same == (key_bytes(left) == key_bytes(right)),
{
    let left_bytes = left.to_bytes();
    let right_bytes = right.to_bytes();
    let mut next: usize = 0;
    while next < 32
        invariant
            next <= 32,
            left_bytes@ == key_bytes(left),
            right_bytes@ == key_bytes(right),
            forall|i: int| 0 <= i < next ==> left_bytes@[i] == right_bytes@[i],
        decreases 32 - next,
    {
        if left_bytes[next] != right_bytes[next] {
            return false;
        }
        next += 1;
    }
    assert(left_bytes@ =~= right_bytes@);
    true
}

/// Whether `key` is the address that a role asks for.
pub fn check_address(key: Pubkey, address: Address) -> (matches: bool)
    ensures
        matches == address_matches(key, address),
{
    match address {
        Address::Any => true,
        Address::SystemProgram => same_key(
            key,
            anchor_lang::solana_program::system_program::id(),
        ),
        Address::RentSysvar => same_key(key, anchor_lang::solana_program::sysvar::rent::id()),
    }
}

/// Holds one account to one role.
pub fn check_role(account: &Account, role: &Role) -> (found: Option<Violation>)
    ensures
        found == violation_of(*account, *role),
{
    if role.signer && !account.is_signer {
        Some(Violation::NotSigner)
    } else if role.writable && !account.is_writable {
        Some(Violation::NotWritable)
    } else if role.executable && !account.executable {
        Some(Violation::NotExecutable)
    } else if !check_address(account.key, role.address) {
        Some(Violation::WrongAddress)
    } else {
        None
    }
}

/// Holds a list of accounts to a table of roles, place by place, and reports
/// the first account that fails.
pub fn validate(accounts: &Vec<Account>, roles: &Vec<Role>) -> (result: Result<(), ContextError>)
    ensures
        result is Ok <==> conforms(accounts@, roles@),
        match result {
            Ok(_) => true,
            Err(error) => is_first_violation(accounts@, roles@, error),
        },
{
    let mut index: usize = 0;
    while index < roles.len()
        invariant
            index <= roles@.len(),
            forall|i: int| 0 <= i < index ==> violation_at(accounts@, roles@, i) is None,
        decreases roles@.len() - index,
    {
        if index >= accounts.len() {
            let error = ContextError { index, violation: Violation::Missing };
            assert(violation_at(accounts@, roles@, index as int) is Some);
            return Err(error);
        }
        match check_role(&accounts[index], &roles[index]) {
            Some(violation) => {
                let error = ContextError { index, violation };
                assert(violation_at(accounts@, roles@, index as int) is Some);
                return Err(error);
            },
            None => {},
        }
        index += 1;
    }
    Ok(())
}

/// A list of accounts has at most one first violation.
pub proof fn lemma_first_violation_unique(
    accounts: Seq<Account>,
    roles: Seq<Role>,
    first: ContextError,
    second: ContextError,
)
    requires
        is_first_violation(accounts, roles, first),
        is_first_violation(accounts, roles, second),
    ensures
        first == second,
{
    if first.index < second.index {
        assert(violation_at(accounts, roles, first.index as int) is None);
    } else if second.index < first.index {
        assert(violation_at(accounts, roles, second.index as int) is None);
    }
}

/// Taking the signature away from an account whose role asks for one makes
/// the list fail its table, whatever else the list holds.
pub proof fn lemma_unsigned_is_rejected(accounts: Seq<Account>, roles: Seq<Role>, index: int)
    requires
        0 <= index < roles.len(),
        index < accounts.len(),
        roles[index].signer,
    ensures
        !conforms(accounts.update(index, unsigned(accounts[index])), roles),
{
    let changed = accounts.update(index, unsigned(accounts[index]));
    assert(violation_at(changed, roles, index) == Some(Violation::NotSigner));
}

/// A list that meets its table holds a signature at every place whose role
/// asks for one.
pub proof fn lemma_conforming_list_is_signed(accounts: Seq<Account>, roles: Seq<Role>, index: int)
    requires
        conforms(accounts, roles),
        0 <= index < roles.len(),
        roles[index].signer,
    ensures
        index < accounts.len(),
        accounts[index].is_signer,
{
    assert(violation_at(accounts, roles, index) is None);
}

} // verus!
