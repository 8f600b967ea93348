//! The interface of the token-metadata program as this library sees it.
//!
//! Everything in this file is either a declaration of a type that the
//! `solana_program` and `mpl_token_metadata` crates own, a mathematical model
//! of such a type, or a contract that is believed of one of their functions
//! without proof. The rest of the library is proved against these.

use vstd::prelude::*;
use anchor_lang::prelude::Pubkey;
use anchor_lang::solana_program::instruction::AccountMeta;
use anchor_lang::solana_program::instruction::Instruction;
use anchor_lang::solana_program::program_error::ProgramError;
use mpl_token_metadata::state::Collection as MplCollection;
use mpl_token_metadata::state::CollectionDetails as MplCollectionDetails;
use mpl_token_metadata::state::Creator as MplCreator;
use mpl_token_metadata::state::DataV2 as MplDataV2;
use mpl_token_metadata::state::UseMethod as MplUseMethod;
use mpl_token_metadata::state::Uses as MplUses;
use crate::state::CollectionDetails;
use crate::state::CollectionView;
use crate::state::CreatorView;
use crate::state::DataV2View;
use crate::state::UseMethod;
use crate::state::Uses;

verus! {

/// `solana_program::pubkey::Pubkey`: a 32-byte address. Its field is private
/// to its crate, so a value is carried through and read only by
/// [`key_bytes`].
#[verifier::external_type_specification]
#[verifier::external_body]
pub struct ExPubkey(Pubkey);

/// `solana_program::program_error::ProgramError`: the reason a program gives
/// for rejecting an instruction. The library never looks inside one.
#[verifier::external_type_specification]
#[verifier::external_body]
pub struct ExProgramError(ProgramError);

/// `solana_program::instruction::AccountMeta`, with its three public fields.
#[verifier::external_type_specification]
pub struct ExAccountMeta(AccountMeta);

/// `solana_program::instruction::Instruction`, with its three public fields.
#[verifier::external_type_specification]
pub struct ExInstruction(Instruction);

/// `mpl_token_metadata::state::Creator`, with its three public fields.
#[verifier::external_type_specification]
pub struct ExCreator(MplCreator);

/// `mpl_token_metadata::state::Collection`, with its two public fields.
#[verifier::external_type_specification]
pub struct ExCollection(MplCollection);

/// `mpl_token_metadata::state::UseMethod`, with its three variants.
#[verifier::external_type_specification]
pub struct ExUseMethod(MplUseMethod);

/// `mpl_token_metadata::state::Uses`, with its three public fields.
#[verifier::external_type_specification]
pub struct ExUses(MplUses);

/// `mpl_token_metadata::state::CollectionDetails`, with its one variant.
#[verifier::external_type_specification]
pub struct ExCollectionDetails(MplCollectionDetails);

/// `mpl_token_metadata::state::DataV2`, with its seven public fields.
#[verifier::external_type_specification]
pub struct ExDataV2(MplDataV2);

/// The number by which the metadata program knows the operation that changes
/// a metadata record.
pub const UPDATE_METADATA_ACCOUNT_V2: u8 = 15;

/// The number by which the metadata program knows the operation that creates
/// a master edition record.
pub const CREATE_MASTER_EDITION_V3: u8 = 17;

/// The number by which the metadata program knows the operation that creates
/// a metadata record.
pub const CREATE_METADATA_ACCOUNT_V3: u8 = 33;

/// The number by which the metadata program knows the operation that sets
/// the size of a collection.
pub const SET_COLLECTION_SIZE: u8 = 34;

/// The 32 bytes that an address holds: what `Pubkey::to_bytes` returns.
pub uninterp spec fn key_bytes(key: Pubkey) -> Seq<u8>;

/// The instruction data that `create_metadata_accounts_v3` produces: the
/// Borsh encoding of `MetadataInstruction::CreateMetadataAccountV3` over
/// these arguments.
pub uninterp spec fn create_metadata_v3_data(
    data: DataV2View,
    is_mutable: bool,
    collection_details: Option<CollectionDetails>,
) -> Seq<u8>;

/// The instruction data that `update_metadata_accounts_v2` produces: the
/// Borsh encoding of `MetadataInstruction::UpdateMetadataAccountV2` over
/// these arguments.
pub uninterp spec fn update_metadata_v2_data(
    new_update_authority: Option<Seq<u8>>,
    data: Option<DataV2View>,
    primary_sale_happened: Option<bool>,
    is_mutable: Option<bool>,
) -> Seq<u8>;

/// The address of the token-metadata program,
/// `metaqbxxUerdq28cj1RbAWkYQm3ybzjb6a8bt518x1s`.
pub open spec fn token_metadata_program_bytes() -> Seq<u8> {
    seq![
        11u8, 112, 101, 177, 227, 209, 124, 69, 56, 157, 82, 127, 107, 4, 195, 205,
        88, 184, 108, 115, 26, 160, 253, 181, 73, 182, 209, 188, 3, 248, 41, 70,
    ]
}

/// The address of the system program, `11111111111111111111111111111111`.
pub open spec fn system_program_bytes() -> Seq<u8> {
    seq![
        0u8, 0, 0, 0, 0, 0, 0, 0, 0, 0, 0, 0, 0, 0, 0, 0,
        0, 0, 0, 0, 0, 0, 0, 0, 0, 0, 0, 0, 0, 0, 0, 0,
    ]
}

/// The address of the rent sysvar,
/// `SysvarRent111111111111111111111111111111111`.
pub open spec fn rent_sysvar_bytes() -> Seq<u8> {
    seq![
        6u8, 167, 213, 23, 25, 44, 92, 81, 33, 140, 201, 76, 61, 74, 241, 127,
        88, 218, 238, 8, 155, 161, 253, 68, 227, 219, 217, 138, 0, 0, 0, 0,
    ]
}

/// The address of the token program,
/// `TokenkegQfeZyiNwAJbNbGKPFXCWuBvf9Ss623VQ5DA`.
pub open spec fn token_program_bytes() -> Seq<u8> {
    seq![
        6u8, 221, 246, 225, 215, 101, 161, 147, 217, 203, 225, 70, 206, 235, 121, 172,
        28, 180, 133, 237, 95, 91, 55, 145, 58, 140, 245, 133, 126, 255, 0, 169,
    ]
}

/// The length of a text in instruction data: the number of bytes of its
/// UTF-8 encoding.
pub open spec fn wire_len(text: Seq<char>) -> nat {
    vstd::utf8::encode_utf8(text).len()
}

/// The length fits in the four bytes that instruction data has for the
/// length of a text or of a list.
pub open spec fn fits_length(length: nat) -> bool {
    length <= u32::MAX
}

/// A descriptive record can be written as instruction data: each text and
/// the list of creators has a length that fits.
pub open spec fn data_fits(data: DataV2View) -> bool {
    &&& fits_length(wire_len(data.name))
    &&& fits_length(wire_len(data.symbol))
    &&& fits_length(wire_len(data.uri))
    &&& match data.creators {
        Some(list) => fits_length(list.len()),
        None => true,
    }
}

/// One entry of an instruction's account list, as plain values.
pub struct MetaView {
    pub key: Seq<u8>,
    pub is_signer: bool,
    pub is_writable: bool,
}

/// An instruction as plain values: the program addressed, the accounts it
/// names in order, and its data.
pub struct InstructionView {
    pub program_id: Seq<u8>,
    pub accounts: Seq<MetaView>,
    pub data: Seq<u8>,
}

/// An account-list entry that the program may write to.
pub open spec fn writable(key: Seq<u8>, is_signer: bool) -> MetaView {
    MetaView { key, is_signer, is_writable: true }
}

/// An account-list entry that the program only reads.
pub open spec fn readonly(key: Seq<u8>, is_signer: bool) -> MetaView {
    MetaView { key, is_signer, is_writable: false }
}

pub open spec fn meta_view(meta: AccountMeta) -> MetaView {
    MetaView {
        key: key_bytes(meta.pubkey),
        is_signer: meta.is_signer,
        is_writable: meta.is_writable,
    }
}

pub open spec fn instruction_view(instruction: Instruction) -> InstructionView {
    InstructionView {
        program_id: key_bytes(instruction.program_id),
        accounts: instruction.accounts@.map_values(|meta: AccountMeta| meta_view(meta)),
        data: instruction.data@,
    }
}

pub open spec fn option_key_bytes(key: Option<Pubkey>) -> Option<Seq<u8>> {
    match key {
        Some(key) => Some(key_bytes(key)),
        None => None,
    }
}

/// What a creator entry of the metadata program holds.
pub open spec fn creator_model(creator: MplCreator) -> CreatorView {
    CreatorView {
        address: key_bytes(creator.address),
        verified: creator.verified,
        share: creator.share,
    }
}

/// What a collection reference of the metadata program holds.
pub open spec fn collection_model(collection: MplCollection) -> CollectionView {
    CollectionView { verified: collection.verified, key: key_bytes(collection.key) }
}

pub open spec fn use_method_model(method: MplUseMethod) -> UseMethod {
    match method {
        MplUseMethod::Burn => UseMethod::Burn,
        MplUseMethod::Multiple => UseMethod::Multiple,
        MplUseMethod::Single => UseMethod::Single,
    }
}

/// What a usage allowance of the metadata program holds.
pub open spec fn uses_model(uses: MplUses) -> Uses {
    Uses {
        use_method: use_method_model(uses.use_method),
        remaining: uses.remaining,
        total: uses.total,
    }
}

pub open spec fn collection_details_model(details: MplCollectionDetails) -> CollectionDetails {
    match details {
        MplCollectionDetails::V1 { size } => CollectionDetails::V1 { size },
    }
}

pub open spec fn creators_model(creators: Option<Vec<MplCreator>>) -> Option<Seq<CreatorView>> {
    match creators {
        Some(list) => Some(list@.map_values(|creator: MplCreator| creator_model(creator))),
        None => None,
    }
}

pub open spec fn option_collection_model(collection: Option<MplCollection>) -> Option<
    CollectionView,
> {
    match collection {
        Some(collection) => Some(collection_model(collection)),
        None => None,
    }
}

pub open spec fn option_uses_model(uses: Option<MplUses>) -> Option<Uses> {
    match uses {
        Some(uses) => Some(uses_model(uses)),
        None => None,
    }
}

pub open spec fn option_details_model(details: Option<MplCollectionDetails>) -> Option<
    CollectionDetails,
> {
    match details {
        Some(details) => Some(collection_details_model(details)),
        None => None,
    }
}

/// What a descriptive record of the metadata program holds.
pub open spec fn data_model(data: MplDataV2) -> DataV2View {
    DataV2View {
        name: data.name@,
        symbol: data.symbol@,
        uri: data.uri@,
        seller_fee_basis_points: data.seller_fee_basis_points,
        creators: creators_model(data.creators),
        collection: option_collection_model(data.collection),
        uses: option_uses_model(data.uses),
    }
}

pub open spec fn option_data_model(data: Option<MplDataV2>) -> Option<DataV2View> {
    match data {
        Some(data) => Some(data_model(data)),
        None => None,
    }
}

/// The account list of a `CreateMetadataAccountV3` instruction.
pub open spec fn create_metadata_v3_accounts(
    metadata_account: Seq<u8>,
    mint: Seq<u8>,
    mint_authority: Seq<u8>,
    payer: Seq<u8>,
    update_authority: Seq<u8>,
    update_authority_is_signer: bool,
) -> Seq<MetaView> {
    seq![
        writable(metadata_account, false),
        readonly(mint, false),
        readonly(mint_authority, true),
        writable(payer, true),
        readonly(update_authority, update_authority_is_signer),
        readonly(system_program_bytes(), false),
    ]
}

/// The account list of a `CreateMasterEditionV3` instruction.
pub open spec fn create_master_edition_v3_accounts(
    edition: Seq<u8>,
    mint: Seq<u8>,
    update_authority: Seq<u8>,
    mint_authority: Seq<u8>,
    metadata: Seq<u8>,
    payer: Seq<u8>,
) -> Seq<MetaView> {
    seq![
        writable(edition, false),
        writable(mint, false),
        readonly(update_authority, true),
        readonly(mint_authority, true),
        writable(payer, true),
        writable(metadata, false),
        readonly(token_program_bytes(), false),
        readonly(system_program_bytes(), false),
    ]
}

/// The account list of an `UpdateMetadataAccountV2` instruction.
pub open spec fn update_metadata_v2_accounts(
    metadata_account: Seq<u8>,
    update_authority: Seq<u8>,
) -> Seq<MetaView> {
    seq![writable(metadata_account, false), readonly(update_authority, true)]
}

/// The account list of a `SetCollectionSize` instruction: three fixed
/// entries, then the collection authority record where one is given.
pub open spec fn set_collection_size_accounts(
    metadata_account: Seq<u8>,
    update_authority: Seq<u8>,
    mint: Seq<u8>,
    collection_authority_record: Option<Seq<u8>>,
) -> Seq<MetaView> {
    let fixed = seq![
        writable(metadata_account, false),
        readonly(update_authority, true),
        readonly(mint, false),
    ];
    match collection_authority_record {
        Some(record) => fixed.push(readonly(record, false)),
        None => fixed,
    }
}

/// The data of a `CreateMasterEditionV3` instruction: the operation's number,
/// then the optional supply limit, a presence byte before the limit's eight
/// bytes, lowest first.
pub open spec fn create_master_edition_v3_data(max_supply: Option<u64>) -> Seq<u8> {
    match max_supply {
        Some(limit) => seq![CREATE_MASTER_EDITION_V3, 1u8] + vstd::bytes::spec_u64_to_le_bytes(
            limit,
        ),
        None => seq![CREATE_MASTER_EDITION_V3, 0u8],
    }
}

/// The data of a `SetCollectionSize` instruction: the operation's number,
/// then the size's eight bytes, lowest first.
pub open spec fn set_collection_size_data(size: u64) -> Seq<u8> {
    seq![SET_COLLECTION_SIZE] + vstd::bytes::spec_u64_to_le_bytes(size)
}

/// `Pubkey::to_bytes` hands out the address's 32 bytes.
pub assume_specification[ Pubkey::to_bytes ](key: Pubkey) -> (bytes: [u8; 32])
    ensures
        bytes@ == key_bytes(key),
;

/// `mpl_token_metadata::id` returns the address that the crate declares for
/// the token-metadata program.
pub assume_specification[ mpl_token_metadata::id ]() -> (key: Pubkey)
    ensures
        key_bytes(key) == token_metadata_program_bytes(),
;

/// `solana_program::system_program::id` returns the address that the crate
/// declares for the system program.
pub assume_specification[ anchor_lang::solana_program::system_program::id ]() -> (key: Pubkey)
    ensures
        key_bytes(key) == system_program_bytes(),
;

/// `solana_program::sysvar::rent::id` returns the address that the crate
/// declares for the rent sysvar.
pub assume_specification[ anchor_lang::solana_program::sysvar::rent::id ]() -> (key: Pubkey)
    ensures
        key_bytes(key) == rent_sysvar_bytes(),
;

/// `create_metadata_accounts_v3` addresses the given program, lists the six
/// accounts of [`create_metadata_v3_accounts`] and encodes the descriptive
/// record, the mutability flag and the collection details as data, behind
/// the operation's number. It panics on a text or a list of creators whose
/// length does not fit in four bytes, so such arguments are left out.
pub assume_specification[ mpl_token_metadata::instruction::create_metadata_accounts_v3 ](
    program_id: Pubkey,
    metadata_account: Pubkey,
    mint: Pubkey,
    mint_authority: Pubkey,
    payer: Pubkey,
    update_authority: Pubkey,
    name: String,
    symbol: String,
    uri: String,
    creators: Option<Vec<MplCreator>>,
    seller_fee_basis_points: u16,
    update_authority_is_signer: bool,
    is_mutable: bool,
    collection: Option<MplCollection>,
    uses: Option<MplUses>,
    collection_details: Option<MplCollectionDetails>,
) -> (instruction: Instruction)
    requires
        fits_length(wire_len(name@)),
        fits_length(wire_len(symbol@)),
        fits_length(wire_len(uri@)),
        match creators {
            Some(list) => fits_length(list@.len()),
            None => true,
        },
    ensures
        key_bytes(instruction.program_id) == key_bytes(program_id),
        instruction.accounts@.map_values(|meta: AccountMeta| meta_view(meta))
            == create_metadata_v3_accounts(
            key_bytes(metadata_account),
            key_bytes(mint),
            key_bytes(mint_authority),
            key_bytes(payer),
            key_bytes(update_authority),
            update_authority_is_signer,
        ),
        instruction.data@ == create_metadata_v3_data(
            (DataV2View {
                name: name@,
                symbol: symbol@,
                uri: uri@,
                seller_fee_basis_points,
                creators: creators_model(creators),
                collection: option_collection_model(collection),
                uses: option_uses_model(uses),
            }),
            is_mutable,
            option_details_model(collection_details),
        ),
        instruction.data@.len() >= 1,
        instruction.data@[0] == CREATE_METADATA_ACCOUNT_V3,
;

/// `create_master_edition_v3` addresses the given program, lists the eight
/// accounts of [`create_master_edition_v3_accounts`] and encodes the supply
/// limit as data.
pub assume_specification[ mpl_token_metadata::instruction::create_master_edition_v3 ](
    program_id: Pubkey,
    edition: Pubkey,
    mint: Pubkey,
    update_authority: Pubkey,
    mint_authority: Pubkey,
    metadata: Pubkey,
    payer: Pubkey,
    max_supply: Option<u64>,
) -> (instruction: Instruction)
    ensures
        key_bytes(instruction.program_id) == key_bytes(program_id),
        instruction.accounts@.map_values(|meta: AccountMeta| meta_view(meta))
            == create_master_edition_v3_accounts(
            key_bytes(edition),
            key_bytes(mint),
            key_bytes(update_authority),
            key_bytes(mint_authority),
            key_bytes(metadata),
            key_bytes(payer),
        ),
        instruction.data@ == create_master_edition_v3_data(max_supply),
;

/// `update_metadata_accounts_v2` addresses the given program, lists the two
/// accounts of [`update_metadata_v2_accounts`] and encodes the four optional
/// changes as data, behind the operation's number. It panics on a record
/// with a text or a list of creators whose length does not fit in four
/// bytes, so such arguments are left out.
pub assume_specification[ mpl_token_metadata::instruction::update_metadata_accounts_v2 ](
    program_id: Pubkey,
    metadata_account: Pubkey,
    update_authority: Pubkey,
    new_update_authority: Option<Pubkey>,
    data: Option<MplDataV2>,
    primary_sale_happened: Option<bool>,
    is_mutable: Option<bool>,
) -> (instruction: Instruction)
    requires
        match data {
            Some(record) => data_fits(data_model(record)),
            None => true,
        },
    ensures
        key_bytes(instruction.program_id) == key_bytes(program_id),
        instruction.accounts@.map_values(|meta: AccountMeta| meta_view(meta))
            == update_metadata_v2_accounts(
            key_bytes(metadata_account),
            key_bytes(update_authority),
        ),
        instruction.data@ == update_metadata_v2_data(
            option_key_bytes(new_update_authority),
            option_data_model(data),
            primary_sale_happened,
            is_mutable,
        ),
        instruction.data@.len() >= 1,
        instruction.data@[0] == UPDATE_METADATA_ACCOUNT_V2,
;

/// `set_collection_size` addresses the given program, lists the accounts of
/// [`set_collection_size_accounts`] and encodes the size as data.
pub assume_specification[ mpl_token_metadata::instruction::set_collection_size ](
    program_id: Pubkey,
    metadata_account: Pubkey,
    update_authority: Pubkey,
    mint: Pubkey,
    collection_authority_record: Option<Pubkey>,
    size: u64,
) -> (instruction: Instruction)
    ensures
        key_bytes(instruction.program_id) == key_bytes(program_id),
        instruction.accounts@.map_values(|meta: AccountMeta| meta_view(meta))
            == set_collection_size_accounts(
            key_bytes(metadata_account),
            key_bytes(update_authority),
            key_bytes(mint),
            option_key_bytes(collection_authority_record),
        ),
        instruction.data@ == set_collection_size_data(size),
;

} // verus!
