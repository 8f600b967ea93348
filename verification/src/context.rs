//! The accounts of each operation, and the table of roles that each
//! operation holds them to.

use vstd::prelude::*;
use crate::roles::Account;
use crate::roles::ContextError;
use crate::roles::Role;
use crate::roles::conforms;
use crate::roles::is_first_violation;
use crate::roles::validate;

verus! {

/// The accounts of one operation, as a list in the order of the operation's
/// table of roles.
pub trait AccountContext: Sized {
    /// The role of each account, in the order in which the operation declares
    /// its accounts.
    spec fn role_table() -> Seq<Role>;

    /// The accounts, in the order of the table.
    spec fn account_list(&self) -> Seq<Account>;

    fn roles() -> (table: Vec<Role>)
        ensures
            table@ == Self::role_table(),
    ;

    fn accounts(&self) -> (list: Vec<Account>)
        ensures
            list@ == self.account_list(),
    ;
}

/// Every account of the context plays the role that its operation gives it.
pub open spec fn context_conforms<C: AccountContext>(context: &C) -> bool {
    conforms(context.account_list(), C::role_table())
}

/// Holds the accounts of a context to the table of its operation.
pub fn check_context<C: AccountContext>(context: &C) -> (result: Result<(), ContextError>)
    ensures
        result is Ok <==> context_conforms(context),
        match result {
            Ok(_) => true,
            Err(error) => is_first_violation(context.account_list(), C::role_table(), error),
        },
{
    let list = context.accounts();
    let table = C::roles();
    validate(&list, &table)
}

/// The accounts of a request to create the metadata record of an asset.
#[derive(Clone, Copy, Debug)]
pub struct CreateMetadataAccountsContext {
    /// The metadata record to create.
    pub metadata_account: Account,
    /// The mint of the asset.
    pub mint: Account,
    pub mint_authority: Account,
    /// Pays for the new account.
    pub payer: Account,
    pub update_authority: Account,
    pub system_program: Account,
    pub rent: Account,
    pub token_metadata_program: Account,
}

impl AccountContext for CreateMetadataAccountsContext {
    open spec fn role_table() -> Seq<Role> {
        seq![
            Role::writable(),
            Role::writable(),
            Role::signer(),
            Role::writable_signer(),
            Role::signer(),
            Role::system_program(),
            Role::rent_sysvar(),
            Role::program(),
        ]
    }

    open spec fn account_list(&self) -> Seq<Account> {
        seq![
            self.metadata_account,
            self.mint,
            self.mint_authority,
            self.payer,
            self.update_authority,
            self.system_program,
            self.rent,
            self.token_metadata_program,
        ]
    }

    fn roles() -> (table: Vec<Role>) {
        let table = vec![
            Role::writable(),
            Role::writable(),
            Role::signer(),
            Role::writable_signer(),
            Role::signer(),
            Role::system_program(),
            Role::rent_sysvar(),
            Role::program(),
        ];
        assert(table@ =~= Self::role_table());
        table
    }

    fn accounts(&self) -> (list: Vec<Account>) {
        let list = vec![
            self.metadata_account,
            self.mint,
            self.mint_authority,
            self.payer,
            self.update_authority,
            self.system_program,
            self.rent,
            self.token_metadata_program,
        ];
        assert(list@ =~= self.account_list());
        list
    }
}

/// The accounts of a request to make an asset the master of its editions.
#[derive(Clone, Copy, Debug)]
pub struct CreateMasterEditionAccountContext {
    /// The master edition record to create.
    pub master_edition_account: Account,
    /// The metadata record of the asset.
    pub metadata_account: Account,
    /// The mint of the asset.
    pub mint: Account,
    pub mint_authority: Account,
    /// Pays for the new account.
    pub payer: Account,
    pub update_authority: Account,
    pub system_program: Account,
    pub rent: Account,
    pub token_metadata_program: Account,
    pub token_program: Account,
}

impl AccountContext for CreateMasterEditionAccountContext {
    open spec fn role_table() -> Seq<Role> {
        seq![
            Role::writable(),
            Role::writable(),
            Role::writable(),
            Role::signer(),
            Role::writable_signer(),
            Role::signer(),
            Role::system_program(),
            Role::rent_sysvar(),
            Role::program(),
            Role::program(),
        ]
    }

    open spec fn account_list(&self) -> Seq<Account> {
        seq![
            self.master_edition_account,
            self.metadata_account,
            self.mint,
            self.mint_authority,
            self.payer,
            self.update_authority,
            self.system_program,
            self.rent,
            self.token_metadata_program,
            self.token_program,
        ]
    }

    fn roles() -> (table: Vec<Role>) {
        let table = vec![
            Role::writable(),
            Role::writable(),
            Role::writable(),
            Role::signer(),
            Role::writable_signer(),
            Role::signer(),
            Role::system_program(),
            Role::rent_sysvar(),
            Role::program(),
            Role::program(),
        ];
        assert(table@ =~= Self::role_table());
        table
    }

    fn accounts(&self) -> (list: Vec<Account>) {
        let list = vec![
            self.master_edition_account,
            self.metadata_account,
            self.mint,
            self.mint_authority,
            self.payer,
            self.update_authority,
            self.system_program,
            self.rent,
            self.token_metadata_program,
            self.token_program,
        ];
        assert(list@ =~= self.account_list());
        list
    }
}

/// The accounts of a request to set the size of a collection.
#[derive(Clone, Copy, Debug)]
pub struct SetCollectionSizeContext {
    /// The metadata record of the asset that defines the collection.
    pub collection_metadata_account: Account,
    /// Who may change the collection.
    pub collection_authority: Account,
    /// The mint of the asset that defines the collection.
    pub collection_mint: Account,
    /// The record that delegates authority over the collection.
    pub collection_authority_record: Account,
    pub token_metadata_program: Account,
}

impl AccountContext for SetCollectionSizeContext {
    open spec fn role_table() -> Seq<Role> {
        seq![
            Role::writable(),
            Role::signer(),
            Role::writable(),
            Role::writable(),
            Role::program(),
        ]
    }

    open spec fn account_list(&self) -> Seq<Account> {
        seq![
            self.collection_metadata_account,
            self.collection_authority,
            self.collection_mint,
            self.collection_authority_record,
            self.token_metadata_program,
        ]
    }

    fn roles() -> (table: Vec<Role>) {
        let table = vec![
            Role::writable(),
            Role::signer(),
            Role::writable(),
            Role::writable(),
            Role::program(),
        ];
        assert(table@ =~= Self::role_table());
        table
    }

    fn accounts(&self) -> (list: Vec<Account>) {
        let list = vec![
            self.collection_metadata_account,
            self.collection_authority,
            self.collection_mint,
            self.collection_authority_record,
            self.token_metadata_program,
        ];
        assert(list@ =~= self.account_list());
        list
    }
}

/// The accounts of a request to change the metadata record of an asset.
#[derive(Clone, Copy, Debug)]
pub struct UpdateMetadataAccountContext {
    /// The metadata record to change.
    pub metadata_account: Account,
    pub update_authority: Account,
    pub token_metadata_program: Account,
}

impl AccountContext for UpdateMetadataAccountContext {
    open spec fn role_table() -> Seq<Role> {
        seq![Role::writable(), Role::signer(), Role::program()]
    }

    open spec fn account_list(&self) -> Seq<Account> {
        seq![self.metadata_account, self.update_authority, self.token_metadata_program]
    }

    fn roles() -> (table: Vec<Role>) {
        let table = vec![Role::writable(), Role::signer(), Role::program()];
        assert(table@ =~= Self::role_table());
        table
    }

    fn accounts(&self) -> (list: Vec<Account>) {
        let list = vec![self.metadata_account, self.update_authority, self.token_metadata_program];
        assert(list@ =~= self.account_list());
        list
    }
}

/// The accounts of a request to confirm that an asset belongs to a
/// collection.
#[derive(Clone, Copy, Debug)]
pub struct VerifyCollection {
    /// The metadata record of the asset whose membership is confirmed.
    pub metadata_account: Account,
    /// Who may change the collection.
    pub collection_authority: Account,
    pub payer: Account,
    /// The mint of the asset that defines the collection.
    pub collection_mint: Account,
    /// The metadata record of the asset that defines the collection.
    pub collection_metadata_account: Account,
    /// The master edition record of the asset that defines the collection.
    pub collection_master_edition_account: Account,
    pub system_program: Account,
    pub token_metadata_program: Account,
}

impl AccountContext for VerifyCollection {
    open spec fn role_table() -> Seq<Role> {
        seq![
            Role::writable(),
            Role::signer(),
            Role::signer(),
            Role::writable(),
            Role::writable(),
            Role::writable(),
            Role::system_program(),
            Role::program(),
        ]
    }

    open spec fn account_list(&self) -> Seq<Account> {
        seq![
            self.metadata_account,
            self.collection_authority,
            self.payer,
            self.collection_mint,
            self.collection_metadata_account,
            self.collection_master_edition_account,
            self.system_program,
            self.token_metadata_program,
        ]
    }

    fn roles() -> (table: Vec<Role>) {
        let table = vec![
            Role::writable(),
            Role::signer(),
            Role::signer(),
            Role::writable(),
            Role::writable(),
            Role::writable(),
            Role::system_program(),
            Role::program(),
        ];
        assert(table@ =~= Self::role_table());
        table
    }

    fn accounts(&self) -> (list: Vec<Account>) {
        let list = vec![
            self.metadata_account,
            self.collection_authority,
            self.payer,
            self.collection_mint,
            self.collection_metadata_account,
            self.collection_master_edition_account,
            self.system_program,
            self.token_metadata_program,
        ];
        assert(list@ =~= self.account_list());
        list
    }
}

} // verus!
