//! Assembles the instructions by which the metadata of a non-fungible token
//! and its membership in a collection are managed through the token-metadata
//! program, and checks the accounts of each request before anything is sent.
//!
//! Each operation takes the accounts of a request and its arguments. It
//! holds the accounts to the operation's table of roles, converts the
//! arguments to the metadata program's schema and builds the instruction.
//! What it hands back is the instruction together with the accounts to pass
//! along, in the order in which they are passed; sending it is the caller's
//! part, and [`settle`] turns what the program answered into this library's
//! result.

#![allow(deprecated)]

pub mod adapter;
pub mod context;
pub mod metadata_program;
pub mod roles;
pub mod state;

use vstd::prelude::*;
use anchor_lang::prelude::Pubkey;
use anchor_lang::solana_program::instruction::Instruction;
use anchor_lang::solana_program::program_error::ProgramError;
use mpl_token_metadata::state::CollectionDetails as MplCollectionDetails;
use mpl_token_metadata::state::DataV2 as MplDataV2;
use crate::adapter::collection_into;
use crate::adapter::creators_into;
use crate::context::AccountContext;
use crate::context::CreateMasterEditionAccountContext;
use crate::context::CreateMetadataAccountsContext;
use crate::context::SetCollectionSizeContext;
use crate::context::UpdateMetadataAccountContext;
use crate::context::check_context;
use crate::context::context_conforms;
use crate::metadata_program::CREATE_METADATA_ACCOUNT_V3;
use crate::metadata_program::InstructionView;
use crate::metadata_program::UPDATE_METADATA_ACCOUNT_V2;
use crate::metadata_program::create_master_edition_v3_accounts;
use crate::metadata_program::create_master_edition_v3_data;
use crate::metadata_program::create_metadata_v3_accounts;
use crate::metadata_program::create_metadata_v3_data;
use crate::metadata_program::data_fits;
use crate::metadata_program::fits_length;
use crate::metadata_program::instruction_view;
use crate::metadata_program::key_bytes;
use crate::metadata_program::option_key_bytes;
use crate::metadata_program::set_collection_size_accounts;
use crate::metadata_program::set_collection_size_data;
use crate::metadata_program::token_metadata_program_bytes;
use crate::metadata_program::update_metadata_v2_accounts;
use crate::metadata_program::update_metadata_v2_data;
use crate::metadata_program::wire_len;
use crate::roles::Account;
use crate::roles::ContextError;
use crate::roles::is_first_violation;
use crate::state::Collection;
use crate::state::CollectionDetails;
use crate::state::Creator;
use crate::state::DataV2;
use crate::state::DataV2View;
use crate::state::creators_view;
use crate::state::option_collection_view;
use crate::state::option_data_view;

verus! {

/// The royalty that a new metadata record is given. It is not an argument of
/// the operation: records are created without a royalty on purpose.
pub const SELLER_FEE_BASIS_POINTS: u16 = 0;

/// A new metadata record is created with its update authority as a signer.
pub const UPDATE_AUTHORITY_IS_SIGNER: bool = true;

/// A new metadata record can be changed later.
pub const IS_MUTABLE: bool = true;

/// Why a request did not go through.
#[derive(Debug, PartialEq, Eq)]
pub enum Error {
    /// An account of the request fails its role. Nothing was built or sent.
    Context(ContextError),
    /// The metadata program rejected the instruction, for the reason it gave.
    Rejected(ProgramError),
}

/// An instruction that is ready to be sent, and the accounts to pass along
/// with it, in the order in which they are passed.
#[derive(Debug, PartialEq, Eq)]
pub struct Invocation {
    pub instruction: Instruction,
    pub accounts: Vec<Account>,
}

/// Turns the outcome of a context check into this library's result.
pub open spec fn context_failure<T>(result: Result<T, Error>, context: Seq<Account>, roles: Seq<
    crate::roles::Role,
>) -> bool {
    match result {
        Ok(_) => false,
        Err(Error::Context(error)) => is_first_violation(context, roles, error),
        Err(Error::Rejected(_)) => false,
    }
}

/// Whether a text is short enough to be written as instruction data.
pub fn text_fits(text: &String) -> (fits: bool)
    ensures
        fits == fits_length(wire_len(text@)),
{
    text.as_str().as_bytes().len() <= 0xffff_ffff
}

/// Whether a list of creators is short enough to be written as instruction
/// data.
pub fn creators_fit(creators: &Vec<Creator>) -> (fits: bool)
    ensures
        fits == fits_length(creators@.len()),
{
    creators.len() <= 0xffff_ffff
}

/// Whether a descriptive record can be written as instruction data.
pub fn record_fits(data: &DataV2) -> (fits: bool)
    ensures
        fits == data_fits(data@),
{
    let creators_fit = match &data.creators {
        Some(list) => creators_fit(list),
        None => true,
    };
    text_fits(&data.name) && text_fits(&data.symbol) && text_fits(&data.uri) && creators_fit
}

/// The collection details that a size stands for.
pub open spec fn sized(size: Option<u64>) -> Option<CollectionDetails> {
    match size {
        Some(size) => Some(CollectionDetails::V1 { size }),
        None => None,
    }
}

/// The instruction that creates a metadata record: the creators in their
/// order, the three texts as given, no royalty, no uses, a mutable record
/// whose update authority signs.
pub open spec fn create_metadata_instruction(
    context: CreateMetadataAccountsContext,
    creators: Seq<Creator>,
    name: Seq<char>,
    symbol: Seq<char>,
    uri: Seq<char>,
    collection: Option<Collection>,
    size: Option<u64>,
) -> InstructionView {
    InstructionView {
        program_id: token_metadata_program_bytes(),
        accounts: create_metadata_v3_accounts(
            key_bytes(context.metadata_account.key),
            key_bytes(context.mint.key),
            key_bytes(context.mint_authority.key),
            key_bytes(context.payer.key),
            key_bytes(context.update_authority.key),
            UPDATE_AUTHORITY_IS_SIGNER,
        ),
        data: create_metadata_v3_data(
            DataV2View {
                name,
                symbol,
                uri,
                seller_fee_basis_points: SELLER_FEE_BASIS_POINTS,
                creators: Some(creators_view(creators)),
                collection: option_collection_view(collection),
                uses: None,
            },
            IS_MUTABLE,
            sized(size),
        ),
    }
}

/// The accounts passed along with a request to create a metadata record.
pub open spec fn create_metadata_passed(context: CreateMetadataAccountsContext) -> Seq<Account> {
    seq![
        context.metadata_account,
        context.mint,
        context.mint_authority,
        context.payer,
        context.update_authority,
        context.system_program,
        context.rent,
        context.token_metadata_program,
    ]
}

/// Prepares the creation of the metadata record of an asset.
///
/// The request is refused where an account fails its role, and only there;
/// in particular where the mint authority, the payer or the update authority
/// has not signed. The shares of the creators are not looked at: the
/// metadata program judges them. The three texts and the list of creators
/// must have lengths that instruction data can hold; [`text_fits`] and
/// [`creators_fit`] tell.
pub fn create_metadata_account(
    ctx: &CreateMetadataAccountsContext,
    creators: Vec<Creator>,
    name: String,
    symbol: String,
    uri: String,
    collection: Option<Collection>,
    size: Option<u64>,
) -> (result: Result<Invocation, Error>)
    requires
        fits_length(wire_len(name@)),
        fits_length(wire_len(symbol@)),
        fits_length(wire_len(uri@)),
        fits_length(creators@.len()),
    ensures
        result is Ok <==> context_conforms(ctx),
        !ctx.mint_authority.is_signer || !ctx.payer.is_signer || !ctx.update_authority.is_signer
            ==> result is Err,
        match result {
            Ok(invocation) => {
                &&& instruction_view(invocation.instruction) == create_metadata_instruction(
                    *ctx,
                    creators@,
                    name@,
                    symbol@,
                    uri@,
                    collection,
                    size,
                )
                &&& invocation.instruction.data@.len() >= 1
                &&& invocation.instruction.data@[0] == CREATE_METADATA_ACCOUNT_V3
                &&& invocation.accounts@ == create_metadata_passed(*ctx)
            },
            Err(_) => context_failure(
                result,
                ctx.account_list(),
                CreateMetadataAccountsContext::role_table(),
            ),
        },
{
    proof {
        signers_of_create_metadata(*ctx);
    }
    match check_context(ctx) {
        Err(error) => {
            return Err(Error::Context(error));
        },
        Ok(_) => {},
    }
    let token_creators = creators_into(creators);
    let token_collection = collection_into(collection);
    let token_collection_details = match size {
        Some(size) => Some(MplCollectionDetails::V1 { size }),
        None => None,
    };
    let instruction = mpl_token_metadata::instruction::create_metadata_accounts_v3(
        mpl_token_metadata::id(),
        ctx.metadata_account.key,
        ctx.mint.key,
        ctx.mint_authority.key,
        ctx.payer.key,
        ctx.update_authority.key,
        name,
        symbol,
        uri,
        Some(token_creators),
        SELLER_FEE_BASIS_POINTS,
        UPDATE_AUTHORITY_IS_SIGNER,
        IS_MUTABLE,
        token_collection,
        None,
        token_collection_details,
    );
    let accounts = vec![
        ctx.metadata_account,
        ctx.mint,
        ctx.mint_authority,
        ctx.payer,
        ctx.update_authority,
        ctx.system_program,
        ctx.rent,
        ctx.token_metadata_program,
    ];
    assert(accounts@ =~= create_metadata_passed(*ctx));
    Ok(Invocation { instruction, accounts })
}

/// A request to create a metadata record whose accounts play their roles is
/// signed by the mint authority, the payer and the update authority.
pub proof fn signers_of_create_metadata(context: CreateMetadataAccountsContext)
    ensures
        context_conforms(&context) ==> context.mint_authority.is_signer && context.payer.is_signer
            && context.update_authority.is_signer,
{
    if context_conforms(&context) {
        let list = context.account_list();
        let table = CreateMetadataAccountsContext::role_table();
        crate::roles::lemma_conforming_list_is_signed(list, table, 2);
        crate::roles::lemma_conforming_list_is_signed(list, table, 3);
        crate::roles::lemma_conforming_list_is_signed(list, table, 4);
    }
}

/// The instruction that creates a master edition record. The supply limit
/// is always present: an edition without a limit cannot be asked for.
pub open spec fn create_master_edition_instruction(
    context: CreateMasterEditionAccountContext,
    max_supply: u64,
) -> InstructionView {
    InstructionView {
        program_id: token_metadata_program_bytes(),
        accounts: create_master_edition_v3_accounts(
            key_bytes(context.master_edition_account.key),
            key_bytes(context.mint.key),
            key_bytes(context.update_authority.key),
            key_bytes(context.mint_authority.key),
            key_bytes(context.metadata_account.key),
            key_bytes(context.payer.key),
        ),
        data: create_master_edition_v3_data(Some(max_supply)),
    }
}

/// The accounts passed along with a request to create a master edition
/// record.
pub open spec fn create_master_edition_passed(context: CreateMasterEditionAccountContext) -> Seq<
    Account,
> {
    seq![
        context.metadata_account,
        context.mint,
        context.mint_authority,
        context.payer,
        context.update_authority,
        context.system_program,
        context.rent,
        context.token_metadata_program,
        context.master_edition_account,
        context.token_program,
    ]
}

/// Prepares the creation of the master edition record of an asset, of which
/// at most `max_supply` further copies can be made.
///
/// The request is refused where an account fails its role, and only there;
/// in particular where the mint authority, the payer or the update authority
/// has not signed.
pub fn create_master_edition_account(ctx: &CreateMasterEditionAccountContext, max_supply: u64) -> (result:
    Result<Invocation, Error>)
    ensures
        result is Ok <==> context_conforms(ctx),
        !ctx.mint_authority.is_signer || !ctx.payer.is_signer || !ctx.update_authority.is_signer
            ==> result is Err,
        match result {
            Ok(invocation) => {
                &&& instruction_view(invocation.instruction) == create_master_edition_instruction(
                    *ctx,
                    max_supply,
                )
                &&& invocation.accounts@ == create_master_edition_passed(*ctx)
            },
            Err(_) => context_failure(
                result,
                ctx.account_list(),
                CreateMasterEditionAccountContext::role_table(),
            ),
        },
{
    proof {
        signers_of_create_master_edition(*ctx);
    }
    match check_context(ctx) {
        Err(error) => {
            return Err(Error::Context(error));
        },
        Ok(_) => {},
    }
    let instruction = mpl_token_metadata::instruction::create_master_edition_v3(
        mpl_token_metadata::id(),
        ctx.master_edition_account.key,
        ctx.mint.key,
        ctx.update_authority.key,
        ctx.mint_authority.key,
        ctx.metadata_account.key,
        ctx.payer.key,
        Some(max_supply),
    );
    let accounts = vec![
        ctx.metadata_account,
        ctx.mint,
        ctx.mint_authority,
        ctx.payer,
        ctx.update_authority,
        ctx.system_program,
        ctx.rent,
        ctx.token_metadata_program,
        ctx.master_edition_account,
        ctx.token_program,
    ];
    assert(accounts@ =~= create_master_edition_passed(*ctx));
    Ok(Invocation { instruction, accounts })
}

/// A request to create a master edition record whose accounts play their
/// roles is signed by the mint authority, the payer and the update
/// authority.
pub proof fn signers_of_create_master_edition(context: CreateMasterEditionAccountContext)
    ensures
        context_conforms(&context) ==> context.mint_authority.is_signer && context.payer.is_signer
            && context.update_authority.is_signer,
{
    if context_conforms(&context) {
        let list = context.account_list();
        let table = CreateMasterEditionAccountContext::role_table();
        crate::roles::lemma_conforming_list_is_signed(list, table, 3);
        crate::roles::lemma_conforming_list_is_signed(list, table, 4);
        crate::roles::lemma_conforming_list_is_signed(list, table, 5);
    }
}

/// The instruction that changes a metadata record. Each of the four changes
/// is there or not as the caller gave it; one that is absent leaves its part
/// of the record as it is.
pub open spec fn update_metadata_instruction(
    context: UpdateMetadataAccountContext,
    new_update_authority: Option<Pubkey>,
    data: Option<DataV2>,
    primary_sale_happened: Option<bool>,
    is_mutable: Option<bool>,
) -> InstructionView {
    InstructionView {
        program_id: token_metadata_program_bytes(),
        accounts: update_metadata_v2_accounts(
            key_bytes(context.metadata_account.key),
            key_bytes(context.update_authority.key),
        ),
        data: update_metadata_v2_data(
            option_key_bytes(new_update_authority),
            option_data_view(data),
            primary_sale_happened,
            is_mutable,
        ),
    }
}

/// The accounts passed along with a request to change a metadata record.
pub open spec fn update_metadata_passed(context: UpdateMetadataAccountContext) -> Seq<Account> {
    seq![context.metadata_account, context.update_authority, context.token_metadata_program]
}

/// Prepares a change of the metadata record of an asset.
///
/// The request is refused where an account fails its role, and only there;
/// in particular where the update authority has not signed. A request with
/// no change at all is prepared like any other. A new record must have
/// lengths that instruction data can hold; [`record_fits`] tells.
pub fn update_metadata_account(
    ctx: &UpdateMetadataAccountContext,
    new_update_authority: Option<Pubkey>,
    data: Option<DataV2>,
    primary_sale_happened: Option<bool>,
    is_mutable: Option<bool>,
) -> (result: Result<Invocation, Error>)
    requires
        match data {
            Some(record) => data_fits(record@),
            None => true,
        },
    ensures
        result is Ok <==> context_conforms(ctx),
        !ctx.update_authority.is_signer ==> result is Err,
        match result {
            Ok(invocation) => {
                &&& instruction_view(invocation.instruction) == update_metadata_instruction(
                    *ctx,
                    new_update_authority,
                    data,
                    primary_sale_happened,
                    is_mutable,
                )
                &&& invocation.instruction.data@.len() >= 1
                &&& invocation.instruction.data@[0] == UPDATE_METADATA_ACCOUNT_V2
                &&& invocation.accounts@ == update_metadata_passed(*ctx)
            },
            Err(_) => context_failure(
                result,
                ctx.account_list(),
                UpdateMetadataAccountContext::role_table(),
            ),
        },
{
    proof {
        signers_of_update_metadata(*ctx);
    }
    match check_context(ctx) {
        Err(error) => {
            return Err(Error::Context(error));
        },
        Ok(_) => {},
    }
    let update_data = match data {
        Some(data_record) => Some(MplDataV2::from(data_record)),
        None => None,
    };
    let instruction = mpl_token_metadata::instruction::update_metadata_accounts_v2(
        mpl_token_metadata::id(),
        ctx.metadata_account.key,
        ctx.update_authority.key,
        new_update_authority,
        update_data,
        primary_sale_happened,
        is_mutable,
    );
    let accounts = vec![ctx.metadata_account, ctx.update_authority, ctx.token_metadata_program];
    assert(accounts@ =~= update_metadata_passed(*ctx));
    Ok(Invocation { instruction, accounts })
}

/// A request to change a metadata record whose accounts play their roles is
/// signed by the update authority.
pub proof fn signers_of_update_metadata(context: UpdateMetadataAccountContext)
    ensures
        context_conforms(&context) ==> context.update_authority.is_signer,
{
    if context_conforms(&context) {
        crate::roles::lemma_conforming_list_is_signed(
            context.account_list(),
            UpdateMetadataAccountContext::role_table(),
            1,
        );
    }
}

/// The instruction that sets the size of a collection. The collection
/// authority record is always named.
pub open spec fn set_collection_size_instruction(
    context: SetCollectionSizeContext,
    size: u64,
) -> InstructionView {
    InstructionView {
        program_id: token_metadata_program_bytes(),
        accounts: set_collection_size_accounts(
            key_bytes(context.collection_metadata_account.key),
            key_bytes(context.collection_authority.key),
            key_bytes(context.collection_mint.key),
            Some(key_bytes(context.collection_authority_record.key)),
        ),
        data: set_collection_size_data(size),
    }
}

/// The accounts passed along with a request to set the size of a
/// collection. The collection authority is passed twice.
pub open spec fn set_collection_size_passed(context: SetCollectionSizeContext) -> Seq<Account> {
    seq![
        context.collection_metadata_account,
        context.collection_authority,
        context.collection_mint,
        context.collection_authority,
        context.token_metadata_program,
        context.collection_authority_record,
    ]
}

/// Prepares the setting of the size of a collection.
///
/// The request is refused where an account fails its role, and only there;
/// in particular where the collection authority has not signed.
pub fn set_collection_size(ctx: &SetCollectionSizeContext, size: u64) -> (result: Result<
    Invocation,
    Error,
>)
    ensures
        result is Ok <==> context_conforms(ctx),
        !ctx.collection_authority.is_signer ==> result is Err,
        match result {
            Ok(invocation) => {
                &&& instruction_view(invocation.instruction) == set_collection_size_instruction(
                    *ctx,
                    size,
                )
                &&& invocation.accounts@ == set_collection_size_passed(*ctx)
            },
            Err(_) => context_failure(
                result,
                ctx.account_list(),
                SetCollectionSizeContext::role_table(),
            ),
        },
{
    proof {
        signers_of_set_collection_size(*ctx);
    }
    match check_context(ctx) {
        Err(error) => {
            return Err(Error::Context(error));
        },
        Ok(_) => {},
    }
    let instruction = mpl_token_metadata::instruction::set_collection_size(
        mpl_token_metadata::id(),
        ctx.collection_metadata_account.key,
        ctx.collection_authority.key,
        ctx.collection_mint.key,
        Some(ctx.collection_authority_record.key),
        size,
    );
    let accounts = vec![
        ctx.collection_metadata_account,
        ctx.collection_authority,
        ctx.collection_mint,
        ctx.collection_authority,
        ctx.token_metadata_program,
        ctx.collection_authority_record,
    ];
    assert(accounts@ =~= set_collection_size_passed(*ctx));
    Ok(Invocation { instruction, accounts })
}

/// A request to set the size of a collection whose accounts play their roles
/// is signed by the collection authority.
pub proof fn signers_of_set_collection_size(context: SetCollectionSizeContext)
    ensures
        context_conforms(&context) ==> context.collection_authority.is_signer,
{
    if context_conforms(&context) {
        crate::roles::lemma_conforming_list_is_signed(
            context.account_list(),
            SetCollectionSizeContext::role_table(),
            1,
        );
    }
}

/// Turns what the metadata program answered to an instruction into this
/// library's result. A rejection is handed on with the reason that the
/// program gave, as a rejection and as nothing else; nothing is tried again.
pub fn settle(outcome: Result<(), ProgramError>) -> (result: Result<(), Error>)
    ensures
        result == match outcome {
            Ok(_) => Ok::<(), Error>(()),
            Err(reason) => Err(Error::Rejected(reason)),
        },
{
    match outcome {
        Ok(_) => Ok(()),
        Err(reason) => Err(Error::Rejected(reason)),
    }
}

} // verus!
