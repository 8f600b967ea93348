use anchor_lang::prelude::Pubkey;
use nft_collection::adapter::collection_into;
use nft_collection::adapter::creators_into;
use nft_collection::adapter::uses_into;
use nft_collection::state::Collection;
use nft_collection::state::CollectionDetails;
use nft_collection::state::Creator;
use nft_collection::state::DataV2;
use nft_collection::state::UseMethod;
use nft_collection::state::Uses;

fn address(tag: u8) -> Pubkey {
    Pubkey::new_from_array([tag; 32])
}

#[test]
fn creator_keeps_its_fields() {
    let converted = mpl_token_metadata::state::Creator::from(Creator {
        address: address(9),
        verified: true,
        share: 40,
    });
    assert_eq!(converted.address, address(9));
    assert!(converted.verified);
    assert_eq!(converted.share, 40);
}

#[test]
fn creator_share_is_not_rescaled_or_checked() {
    let converted = mpl_token_metadata::state::Creator::from(Creator {
        address: address(1),
        verified: false,
        share: 255,
    });
    assert_eq!(converted.share, 255);
    assert!(!converted.verified);
}

#[test]
fn collection_keeps_its_fields() {
    let converted = mpl_token_metadata::state::Collection::from(Collection {
        verified: true,
        key: address(3),
    });
    assert_eq!(converted, mpl_token_metadata::state::Collection { verified: true, key: address(3) });
    let converted = mpl_token_metadata::state::Collection::from(Collection {
        verified: false,
        key: address(4),
    });
    assert_eq!(
        converted,
        mpl_token_metadata::state::Collection { verified: false, key: address(4) }
    );
}

#[test]
fn use_methods_map_by_name() {
    assert_eq!(
        mpl_token_metadata::state::UseMethod::from(UseMethod::Burn),
        mpl_token_metadata::state::UseMethod::Burn
    );
    assert_eq!(
        mpl_token_metadata::state::UseMethod::from(UseMethod::Multiple),
        mpl_token_metadata::state::UseMethod::Multiple
    );
    assert_eq!(
        mpl_token_metadata::state::UseMethod::from(UseMethod::Single),
        mpl_token_metadata::state::UseMethod::Single
    );
}

#[test]
fn uses_keep_their_fields() {
    let converted = mpl_token_metadata::state::Uses::from(Uses {
        use_method: UseMethod::Multiple,
        remaining: 3,
        total: u64::MAX,
    });
    assert_eq!(
        converted,
        mpl_token_metadata::state::Uses {
            use_method: mpl_token_metadata::state::UseMethod::Multiple,
            remaining: 3,
            total: u64::MAX,
        }
    );
}

#[test]
fn uses_are_not_checked_against_their_total() {
    let converted = mpl_token_metadata::state::Uses::from(Uses {
        use_method: UseMethod::Single,
        remaining: 9,
        total: 1,
    });
    assert_eq!(converted.remaining, 9);
    assert_eq!(converted.total, 1);
}

#[test]
#[allow(deprecated)]
fn collection_details_keep_their_size() {
    let converted =
        mpl_token_metadata::state::CollectionDetails::from(CollectionDetails::V1 { size: 77 });
    assert_eq!(converted, mpl_token_metadata::state::CollectionDetails::V1 { size: 77 });
    let converted =
        mpl_token_metadata::state::CollectionDetails::from(CollectionDetails::V1 { size: 0 });
    assert_eq!(converted, mpl_token_metadata::state::CollectionDetails::V1 { size: 0 });
}

#[test]
fn creators_keep_their_order() {
    let converted = creators_into(vec![
        Creator { address: address(1), verified: false, share: 10 },
        Creator { address: address(2), verified: true, share: 20 },
        Creator { address: address(3), verified: false, share: 70 },
    ]);
    assert_eq!(
        converted,
        vec![
            mpl_token_metadata::state::Creator { address: address(1), verified: false, share: 10 },
            mpl_token_metadata::state::Creator { address: address(2), verified: true, share: 20 },
            mpl_token_metadata::state::Creator { address: address(3), verified: false, share: 70 },
        ]
    );
}

#[test]
fn an_empty_creator_list_stays_empty() {
    assert_eq!(creators_into(vec![]), vec![]);
}

#[test]
fn absent_parts_stay_absent() {
    assert_eq!(collection_into(None), None);
    assert_eq!(uses_into(None), None);
}

#[test]
fn present_parts_stay_present() {
    assert_eq!(
        collection_into(Some(Collection { verified: false, key: address(5) })),
        Some(mpl_token_metadata::state::Collection { verified: false, key: address(5) })
    );
    assert_eq!(
        uses_into(Some(Uses { use_method: UseMethod::Burn, remaining: 1, total: 2 })),
        Some(mpl_token_metadata::state::Uses {
            use_method: mpl_token_metadata::state::UseMethod::Burn,
            remaining: 1,
            total: 2,
        })
    );
}

#[test]
fn data_keeps_every_field() {
    let converted = mpl_token_metadata::state::DataV2::from(DataV2 {
        name: String::from("Ticket"),
        symbol: String::from("TKT"),
        uri: String::from("https://example.org/ticket.json"),
        seller_fee_basis_points: 10000,
        creators: Some(vec![
            Creator { address: address(1), verified: true, share: 60 },
            Creator { address: address(2), verified: false, share: 40 },
        ]),
        collection: Some(Collection { verified: false, key: address(7) }),
        uses: Some(Uses { use_method: UseMethod::Single, remaining: 1, total: 1 }),
    });
    assert_eq!(
        converted,
        mpl_token_metadata::state::DataV2 {
            name: String::from("Ticket"),
            symbol: String::from("TKT"),
            uri: String::from("https://example.org/ticket.json"),
            seller_fee_basis_points: 10000,
            creators: Some(vec![
                mpl_token_metadata::state::Creator {
                    address: address(1),
                    verified: true,
                    share: 60,
                },
                mpl_token_metadata::state::Creator {
                    address: address(2),
                    verified: false,
                    share: 40,
                },
            ]),
            collection: Some(mpl_token_metadata::state::Collection {
                verified: false,
                key: address(7),
            }),
            uses: Some(mpl_token_metadata::state::Uses {
                use_method: mpl_token_metadata::state::UseMethod::Single,
                remaining: 1,
                total: 1,
            }),
        }
    );
}

#[test]
fn data_without_optional_parts() {
    let converted = mpl_token_metadata::state::DataV2::from(DataV2 {
        name: String::new(),
        symbol: String::new(),
        uri: String::new(),
        seller_fee_basis_points: 0,
        creators: None,
        collection: None,
        uses: None,
    });
    assert_eq!(
        converted,
        mpl_token_metadata::state::DataV2 {
            name: String::new(),
            symbol: String::new(),
            uri: String::new(),
            seller_fee_basis_points: 0,
            creators: None,
            collection: None,
            uses: None,
        }
    );
}

#[test]
fn data_with_an_empty_creator_list_is_not_data_without_creators() {
    let converted = mpl_token_metadata::state::DataV2::from(DataV2 {
        name: String::from("n"),
        symbol: String::from("s"),
        uri: String::from("u"),
        seller_fee_basis_points: 1,
        creators: Some(vec![]),
        collection: None,
        uses: None,
    });
    assert_eq!(converted.creators, Some(vec![]));
}

#[test]
fn data_converts_through_into() {
    let converted: mpl_token_metadata::state::DataV2 = DataV2 {
        name: String::from("a"),
        symbol: String::from("b"),
        uri: String::from("c"),
        seller_fee_basis_points: 250,
        creators: None,
        collection: None,
        uses: None,
    }
    .into();
    assert_eq!(converted.name, "a");
    assert_eq!(converted.symbol, "b");
    assert_eq!(converted.uri, "c");
    assert_eq!(converted.seller_fee_basis_points, 250);
}
