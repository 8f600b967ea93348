use anchor_lang::prelude::Pubkey;
use nft_collection::context::check_context;
use nft_collection::context::AccountContext;
use nft_collection::context::CreateMasterEditionAccountContext;
use nft_collection::context::CreateMetadataAccountsContext;
use nft_collection::context::SetCollectionSizeContext;
use nft_collection::context::UpdateMetadataAccountContext;
use nft_collection::context::VerifyCollection;
use nft_collection::roles::check_address;
use nft_collection::roles::check_role;
use nft_collection::roles::same_key;
use nft_collection::roles::validate;
use nft_collection::roles::Account;
use nft_collection::roles::Address;
use nft_collection::roles::ContextError;
use nft_collection::roles::Role;
use nft_collection::roles::Violation;

const RENT_SYSVAR: [u8; 32] = [
    6, 167, 213, 23, 25, 44, 92, 81, 33, 140, 201, 76, 61, 74, 241, 127, 88, 218, 238, 8, 155,
    161, 253, 68, 227, 219, 217, 138, 0, 0, 0, 0,
];

fn key(tag: u8) -> Pubkey {
    Pubkey::new_from_array([tag; 32])
}

fn plain(tag: u8) -> Account {
    Account { key: key(tag), is_signer: false, is_writable: false, executable: false }
}

fn writable(tag: u8) -> Account {
    Account { key: key(tag), is_signer: false, is_writable: true, executable: false }
}

fn signer(tag: u8) -> Account {
    Account { key: key(tag), is_signer: true, is_writable: false, executable: false }
}

fn paying(tag: u8) -> Account {
    Account { key: key(tag), is_signer: true, is_writable: true, executable: false }
}

fn program(tag: u8) -> Account {
    Account { key: key(tag), is_signer: false, is_writable: false, executable: true }
}

fn system() -> Account {
    Account {
        key: Pubkey::new_from_array([0; 32]),
        is_signer: false,
        is_writable: false,
        executable: true,
    }
}

fn rent() -> Account {
    Account {
        key: Pubkey::new_from_array(RENT_SYSVAR),
        is_signer: false,
        is_writable: false,
        executable: false,
    }
}

fn create_metadata_context() -> CreateMetadataAccountsContext {
    CreateMetadataAccountsContext {
        metadata_account: writable(1),
        mint: writable(2),
        mint_authority: signer(3),
        payer: paying(4),
        update_authority: signer(5),
        system_program: system(),
        rent: rent(),
        token_metadata_program: program(8),
    }
}

fn master_edition_context() -> CreateMasterEditionAccountContext {
    CreateMasterEditionAccountContext {
        master_edition_account: writable(9),
        metadata_account: writable(1),
        mint: writable(2),
        mint_authority: signer(3),
        payer: paying(4),
        update_authority: signer(5),
        system_program: system(),
        rent: rent(),
        token_metadata_program: program(8),
        token_program: program(10),
    }
}

fn update_context() -> UpdateMetadataAccountContext {
    UpdateMetadataAccountContext {
        metadata_account: writable(1),
        update_authority: signer(5),
        token_metadata_program: program(8),
    }
}

fn collection_size_context() -> SetCollectionSizeContext {
    SetCollectionSizeContext {
        collection_metadata_account: writable(1),
        collection_authority: signer(5),
        collection_mint: writable(2),
        collection_authority_record: writable(6),
        token_metadata_program: program(8),
    }
}

fn verify_collection_context() -> VerifyCollection {
    VerifyCollection {
        metadata_account: writable(1),
        collection_authority: signer(5),
        payer: signer(4),
        collection_mint: writable(2),
        collection_metadata_account: writable(11),
        collection_master_edition_account: writable(12),
        system_program: system(),
        token_metadata_program: program(8),
    }
}

fn failure(index: usize, violation: Violation) -> Result<(), ContextError> {
    Err(ContextError { index, violation })
}

#[test]
fn same_key_compares_all_bytes() {
    assert!(same_key(key(7), key(7)));
    assert!(!same_key(key(7), key(8)));
    let mut bytes = [7u8; 32];
    bytes[31] = 8;
    assert!(!same_key(key(7), Pubkey::new_from_array(bytes)));
    bytes[31] = 7;
    bytes[0] = 6;
    assert!(!same_key(key(7), Pubkey::new_from_array(bytes)));
}

#[test]
fn any_address_is_accepted() {
    assert!(check_address(key(1), Address::Any));
    assert!(check_address(Pubkey::new_from_array([0; 32]), Address::Any));
}

#[test]
fn system_program_address_is_all_zero() {
    assert!(check_address(Pubkey::new_from_array([0; 32]), Address::SystemProgram));
    assert!(check_address(anchor_lang::solana_program::system_program::ID, Address::SystemProgram));
    assert!(!check_address(key(1), Address::SystemProgram));
    assert!(!check_address(Pubkey::new_from_array(RENT_SYSVAR), Address::SystemProgram));
}

#[test]
fn rent_sysvar_address_is_the_declared_one() {
    assert!(check_address(Pubkey::new_from_array(RENT_SYSVAR), Address::RentSysvar));
    assert!(check_address(anchor_lang::solana_program::sysvar::rent::ID, Address::RentSysvar));
    assert!(!check_address(Pubkey::new_from_array([0; 32]), Address::RentSysvar));
}

#[test]
fn role_constructors_set_their_flags() {
    assert_eq!(
        Role::writable(),
        Role { signer: false, writable: true, executable: false, address: Address::Any }
    );
    assert_eq!(
        Role::signer(),
        Role { signer: true, writable: false, executable: false, address: Address::Any }
    );
    assert_eq!(
        Role::writable_signer(),
        Role { signer: true, writable: true, executable: false, address: Address::Any }
    );
    assert_eq!(
        Role::program(),
        Role { signer: false, writable: false, executable: true, address: Address::Any }
    );
    assert_eq!(
        Role::system_program(),
        Role { signer: false, writable: false, executable: true, address: Address::SystemProgram }
    );
    assert_eq!(
        Role::rent_sysvar(),
        Role { signer: false, writable: false, executable: false, address: Address::RentSysvar }
    );
}

#[test]
fn check_role_reports_each_violation() {
    assert_eq!(check_role(&plain(1), &Role::signer()), Some(Violation::NotSigner));
    assert_eq!(check_role(&plain(1), &Role::writable()), Some(Violation::NotWritable));
    assert_eq!(check_role(&plain(1), &Role::program()), Some(Violation::NotExecutable));
    assert_eq!(check_role(&program(1), &Role::system_program()), Some(Violation::WrongAddress));
    assert_eq!(check_role(&plain(1), &Role::rent_sysvar()), Some(Violation::WrongAddress));
    assert_eq!(check_role(&signer(1), &Role::signer()), None);
    assert_eq!(check_role(&writable(1), &Role::writable()), None);
    assert_eq!(check_role(&program(1), &Role::program()), None);
    assert_eq!(check_role(&system(), &Role::system_program()), None);
    assert_eq!(check_role(&rent(), &Role::rent_sysvar()), None);
}

#[test]
fn check_role_reports_the_signature_first() {
    assert_eq!(check_role(&plain(1), &Role::writable_signer()), Some(Violation::NotSigner));
    assert_eq!(check_role(&signer(1), &Role::writable_signer()), Some(Violation::NotWritable));
    assert_eq!(check_role(&writable(1), &Role::writable_signer()), Some(Violation::NotSigner));
    assert_eq!(check_role(&paying(1), &Role::writable_signer()), None);
    let zero = Account {
        key: Pubkey::new_from_array([0; 32]),
        is_signer: false,
        is_writable: false,
        executable: false,
    };
    assert_eq!(check_role(&zero, &Role::system_program()), Some(Violation::NotExecutable));
}

#[test]
fn a_role_that_asks_nothing_is_always_met() {
    let nothing = Role { signer: false, writable: false, executable: false, address: Address::Any };
    assert_eq!(check_role(&plain(1), &nothing), None);
    assert_eq!(check_role(&paying(1), &nothing), None);
}

#[test]
fn validate_accepts_an_empty_table() {
    assert_eq!(validate(&vec![], &vec![]), Ok(()));
    assert_eq!(validate(&vec![plain(1)], &vec![]), Ok(()));
}

#[test]
fn validate_reports_a_missing_account() {
    assert_eq!(validate(&vec![], &vec![Role::signer()]), failure(0, Violation::Missing));
    assert_eq!(
        validate(&vec![signer(1)], &vec![Role::signer(), Role::writable()]),
        failure(1, Violation::Missing)
    );
}

#[test]
fn validate_ignores_accounts_beyond_the_table() {
    assert_eq!(validate(&vec![signer(1), plain(2)], &vec![Role::signer()]), Ok(()));
}

#[test]
fn validate_reports_the_first_failing_place() {
    let roles = vec![Role::writable(), Role::signer(), Role::program()];
    assert_eq!(validate(&vec![writable(1), signer(2), program(3)], &roles), Ok(()));
    assert_eq!(
        validate(&vec![plain(1), plain(2), plain(3)], &roles),
        failure(0, Violation::NotWritable)
    );
    assert_eq!(
        validate(&vec![writable(1), plain(2), plain(3)], &roles),
        failure(1, Violation::NotSigner)
    );
    assert_eq!(
        validate(&vec![writable(1), signer(2), plain(3)], &roles),
        failure(2, Violation::NotExecutable)
    );
}

#[test]
fn create_metadata_table_and_accounts() {
    assert_eq!(
        CreateMetadataAccountsContext::roles(),
        vec![
            Role::writable(),
            Role::writable(),
            Role::signer(),
            Role::writable_signer(),
            Role::signer(),
            Role::system_program(),
            Role::rent_sysvar(),
            Role::program(),
        ]
    );
    assert_eq!(
        create_metadata_context().accounts(),
        vec![writable(1), writable(2), signer(3), paying(4), signer(5), system(), rent(), program(8)]
    );
    assert_eq!(check_context(&create_metadata_context()), Ok(()));
}

#[test]
fn create_metadata_context_needs_each_role() {
    let good = create_metadata_context();
    let mut ctx = good;
    ctx.metadata_account.is_writable = false;
    assert_eq!(check_context(&ctx), failure(0, Violation::NotWritable));
    ctx = good;
    ctx.mint.is_writable = false;
    assert_eq!(check_context(&ctx), failure(1, Violation::NotWritable));
    ctx = good;
    ctx.mint_authority.is_signer = false;
    assert_eq!(check_context(&ctx), failure(2, Violation::NotSigner));
    ctx = good;
    ctx.payer.is_signer = false;
    assert_eq!(check_context(&ctx), failure(3, Violation::NotSigner));
    ctx = good;
    ctx.payer.is_writable = false;
    assert_eq!(check_context(&ctx), failure(3, Violation::NotWritable));
    ctx = good;
    ctx.update_authority.is_signer = false;
    assert_eq!(check_context(&ctx), failure(4, Violation::NotSigner));
    ctx = good;
    ctx.system_program.key = key(1);
    assert_eq!(check_context(&ctx), failure(5, Violation::WrongAddress));
    ctx = good;
    ctx.system_program.executable = false;
    assert_eq!(check_context(&ctx), failure(5, Violation::NotExecutable));
    ctx = good;
    ctx.rent.key = key(1);
    assert_eq!(check_context(&ctx), failure(6, Violation::WrongAddress));
    ctx = good;
    ctx.token_metadata_program.executable = false;
    assert_eq!(check_context(&ctx), failure(7, Violation::NotExecutable));
}

#[test]
fn create_metadata_context_does_not_ask_authorities_to_be_writable() {
    let ctx = create_metadata_context();
    assert!(!ctx.mint_authority.is_writable);
    assert!(!ctx.update_authority.is_writable);
    assert_eq!(check_context(&ctx), Ok(()));
}

#[test]
fn master_edition_table_and_accounts() {
    assert_eq!(
        CreateMasterEditionAccountContext::roles(),
        vec![
            Role::writable(),
            Role::writable(),
            Role::writable(),
            Role::signer(),
            Role::writable_signer(),
            Role::signer(),
            Role::system_program(),
            Role::rent_sysvar(),
            Role::program(),
            Role::program(),
        ]
    );
    assert_eq!(
        master_edition_context().accounts(),
        vec![
            writable(9),
            writable(1),
            writable(2),
            signer(3),
            paying(4),
            signer(5),
            system(),
            rent(),
            program(8),
            program(10),
        ]
    );
    assert_eq!(check_context(&master_edition_context()), Ok(()));
}

#[test]
fn master_edition_context_needs_each_role() {
    let good = master_edition_context();
    let mut ctx = good;
    ctx.master_edition_account.is_writable = false;
    assert_eq!(check_context(&ctx), failure(0, Violation::NotWritable));
    ctx = good;
    ctx.metadata_account.is_writable = false;
    assert_eq!(check_context(&ctx), failure(1, Violation::NotWritable));
    ctx = good;
    ctx.mint.is_writable = false;
    assert_eq!(check_context(&ctx), failure(2, Violation::NotWritable));
    ctx = good;
    ctx.mint_authority.is_signer = false;
    assert_eq!(check_context(&ctx), failure(3, Violation::NotSigner));
    ctx = good;
    ctx.payer.is_signer = false;
    assert_eq!(check_context(&ctx), failure(4, Violation::NotSigner));
    ctx = good;
    ctx.update_authority.is_signer = false;
    assert_eq!(check_context(&ctx), failure(5, Violation::NotSigner));
    ctx = good;
    ctx.system_program.key = key(1);
    assert_eq!(check_context(&ctx), failure(6, Violation::WrongAddress));
    ctx = good;
    ctx.rent.key = key(1);
    assert_eq!(check_context(&ctx), failure(7, Violation::WrongAddress));
    ctx = good;
    ctx.token_metadata_program.executable = false;
    assert_eq!(check_context(&ctx), failure(8, Violation::NotExecutable));
    ctx = good;
    ctx.token_program.executable = false;
    assert_eq!(check_context(&ctx), failure(9, Violation::NotExecutable));
}

#[test]
fn update_table_and_accounts() {
    assert_eq!(
        UpdateMetadataAccountContext::roles(),
        vec![Role::writable(), Role::signer(), Role::program()]
    );
    assert_eq!(update_context().accounts(), vec![writable(1), signer(5), program(8)]);
    assert_eq!(check_context(&update_context()), Ok(()));
}

#[test]
fn update_context_needs_each_role() {
    let good = update_context();
    let mut ctx = good;
    ctx.metadata_account.is_writable = false;
    assert_eq!(check_context(&ctx), failure(0, Violation::NotWritable));
    ctx = good;
    ctx.update_authority.is_signer = false;
    assert_eq!(check_context(&ctx), failure(1, Violation::NotSigner));
    ctx = good;
    ctx.token_metadata_program.executable = false;
    assert_eq!(check_context(&ctx), failure(2, Violation::NotExecutable));
}

#[test]
fn collection_size_table_and_accounts() {
    assert_eq!(
        SetCollectionSizeContext::roles(),
        vec![Role::writable(), Role::signer(), Role::writable(), Role::writable(), Role::program()]
    );
    assert_eq!(
        collection_size_context().accounts(),
        vec![writable(1), signer(5), writable(2), writable(6), program(8)]
    );
    assert_eq!(check_context(&collection_size_context()), Ok(()));
}

#[test]
fn collection_size_context_needs_each_role() {
    let good = collection_size_context();
    let mut ctx = good;
    ctx.collection_metadata_account.is_writable = false;
    assert_eq!(check_context(&ctx), failure(0, Violation::NotWritable));
    ctx = good;
    ctx.collection_authority.is_signer = false;
    assert_eq!(check_context(&ctx), failure(1, Violation::NotSigner));
    ctx = good;
    ctx.collection_mint.is_writable = false;
    assert_eq!(check_context(&ctx), failure(2, Violation::NotWritable));
    ctx = good;
    ctx.collection_authority_record.is_writable = false;
    assert_eq!(check_context(&ctx), failure(3, Violation::NotWritable));
    ctx = good;
    ctx.token_metadata_program.executable = false;
    assert_eq!(check_context(&ctx), failure(4, Violation::NotExecutable));
}

#[test]
fn verify_collection_table_and_accounts() {
    assert_eq!(
        VerifyCollection::roles(),
        vec![
            Role::writable(),
            Role::signer(),
            Role::signer(),
            Role::writable(),
            Role::writable(),
            Role::writable(),
            Role::system_program(),
            Role::program(),
        ]
    );
    assert_eq!(
        verify_collection_context().accounts(),
        vec![
            writable(1),
            signer(5),
            signer(4),
            writable(2),
            writable(11),
            writable(12),
            system(),
            program(8),
        ]
    );
    assert_eq!(check_context(&verify_collection_context()), Ok(()));
}

#[test]
fn verify_collection_context_needs_its_signers() {
    let good = verify_collection_context();
    let mut ctx = good;
    ctx.collection_authority.is_signer = false;
    assert_eq!(check_context(&ctx), failure(1, Violation::NotSigner));
    ctx = good;
    ctx.payer.is_signer = false;
    assert_eq!(check_context(&ctx), failure(2, Violation::NotSigner));
    ctx = good;
    ctx.collection_master_edition_account.is_writable = false;
    assert_eq!(check_context(&ctx), failure(5, Violation::NotWritable));
    ctx = good;
    ctx.system_program.key = key(1);
    assert_eq!(check_context(&ctx), failure(6, Violation::WrongAddress));
}

#[test]
fn the_first_failing_account_is_reported_when_several_fail() {
    let mut ctx = create_metadata_context();
    ctx.update_authority.is_signer = false;
    ctx.mint.is_writable = false;
    ctx.token_metadata_program.executable = false;
    assert_eq!(check_context(&ctx), failure(1, Violation::NotWritable));
}
