//! The values that callers hand to the operations: the descriptive record of
//! an asset and its parts.

use vstd::prelude::*;
use anchor_lang::prelude::Pubkey;
use crate::metadata_program::key_bytes;

verus! {

/// A party that receives part of the royalties of an asset.
#[derive(Clone, Copy, Debug)]
pub struct Creator {
    pub address: Pubkey,
    pub verified: bool,
    /// A percentage, 0 to 100; not basis points.
    pub share: u8,
}

/// A claim that an asset belongs to the collection defined by `key`.
#[derive(Clone, Copy, Debug)]
pub struct Collection {
    pub verified: bool,
    pub key: Pubkey,
}

/// How an asset's uses are consumed.
#[derive(Clone, Copy, Debug, PartialEq, Eq, Structural)]
pub enum UseMethod {
    Burn,
    Multiple,
    Single,
}

/// The uses an asset has left out of those it was given.
#[derive(Clone, Copy, Debug, PartialEq, Eq, Structural)]
pub struct Uses {
    pub use_method: UseMethod,
    pub remaining: u64,
    pub total: u64,
}

/// Marks a metadata record as a collection that counts its members.
#[derive(Clone, Copy, Debug, PartialEq, Eq, Structural)]
pub enum CollectionDetails {
    V1 { size: u64 },
}

/// The full descriptive record of one asset.
#[derive(Clone, Debug)]
pub struct DataV2 {
    /// The name of the asset.
    pub name: String,
    /// The symbol of the asset.
    pub symbol: String,
    /// Where the document that describes the asset is found.
    pub uri: String,
    /// The royalty on secondary sales, in basis points (0 to 10000).
    pub seller_fee_basis_points: u16,
    /// The creators, in payout order.
    pub creators: Option<Vec<Creator>>,
    pub collection: Option<Collection>,
    pub uses: Option<Uses>,
}

/// A creator as plain values.
pub struct CreatorView {
    pub address: Seq<u8>,
    pub verified: bool,
    pub share: u8,
}

/// A collection reference as plain values.
pub struct CollectionView {
    pub verified: bool,
    pub key: Seq<u8>,
}

/// A descriptive record as plain values.
pub struct DataV2View {
    pub name: Seq<char>,
    pub symbol: Seq<char>,
    pub uri: Seq<char>,
    pub seller_fee_basis_points: u16,
    pub creators: Option<Seq<CreatorView>>,
    pub collection: Option<CollectionView>,
    pub uses: Option<Uses>,
}

impl View for Creator {
    type V = CreatorView;

    open spec fn view(&self) -> CreatorView {
        CreatorView {
            address: key_bytes(self.address),
            verified: self.verified,
            share: self.share,
        }
    }
}

impl View for Collection {
    type V = CollectionView;

    open spec fn view(&self) -> CollectionView {
        CollectionView { verified: self.verified, key: key_bytes(self.key) }
    }
}

/// The creators of a list as plain values, in the list's order.
pub open spec fn creators_view(creators: Seq<Creator>) -> Seq<CreatorView> {
    creators.map_values(|creator: Creator| creator@)
}

pub open spec fn option_creators_view(creators: Option<Vec<Creator>>) -> Option<
    Seq<CreatorView>,
> {
    match creators {
        Some(list) => Some(creators_view(list@)),
        None => None,
    }
}

pub open spec fn option_collection_view(collection: Option<Collection>) -> Option<
    CollectionView,
> {
    match collection {
        Some(collection) => Some(collection@),
        None => None,
    }
}

impl View for DataV2 {
    type V = DataV2View;

    open spec fn view(&self) -> DataV2View {
        DataV2View {
            name: self.name@,
            symbol: self.symbol@,
            uri: self.uri@,
            seller_fee_basis_points: self.seller_fee_basis_points,
            creators: option_creators_view(self.creators),
            collection: option_collection_view(self.collection),
            uses: self.uses,
        }
    }
}

pub open spec fn option_data_view(data: Option<DataV2>) -> Option<DataV2View> {
    match data {
        Some(data) => Some(data@),
        None => None,
    }
}

} // verus!
