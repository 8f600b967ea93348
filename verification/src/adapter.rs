//! The schema adapter: each value of this library becomes the value of the
//! metadata program's own schema that holds the same fields.

use vstd::prelude::*;
use vstd::std_specs::convert::FromSpecImpl;
use mpl_token_metadata::state::Collection as MplCollection;
use mpl_token_metadata::state::CollectionDetails as MplCollectionDetails;
use mpl_token_metadata::state::Creator as MplCreator;
use mpl_token_metadata::state::DataV2 as MplDataV2;
use mpl_token_metadata::state::UseMethod as MplUseMethod;
use mpl_token_metadata::state::Uses as MplUses;
use crate::metadata_program::collection_details_model;
use crate::metadata_program::collection_model;
use crate::metadata_program::creator_model;
use crate::metadata_program::creators_model;
use crate::metadata_program::data_model;
use crate::metadata_program::option_collection_model;
use crate::metadata_program::option_details_model;
use crate::metadata_program::option_uses_model;
use crate::metadata_program::use_method_model;
use crate::metadata_program::uses_model;
use crate::state::Collection;
use crate::state::CollectionDetails;
use crate::state::Creator;
use crate::state::DataV2;
use crate::state::UseMethod;
use crate::state::Uses;
use crate::state::creators_view;
use crate::state::option_collection_view;
use crate::state::option_creators_view;

verus! {

/// The creator of the metadata program's schema with the same fields.
pub open spec fn creator_to_program(value: Creator) -> MplCreator {
    MplCreator { address: value.address, verified: value.verified, share: value.share }
}

/// The collection reference of the metadata program's schema with the same
/// fields.
pub open spec fn collection_to_program(value: Collection) -> MplCollection {
    MplCollection { verified: value.verified, key: value.key }
}

/// The use method of the metadata program's schema with the same name.
pub open spec fn use_method_to_program(value: UseMethod) -> MplUseMethod {
    match value {
        UseMethod::Burn => MplUseMethod::Burn,
        UseMethod::Multiple => MplUseMethod::Multiple,
        UseMethod::Single => MplUseMethod::Single,
    }
}

/// The usage allowance of the metadata program's schema with the same fields.
pub open spec fn uses_to_program(value: Uses) -> MplUses {
    MplUses {
        use_method: use_method_to_program(value.use_method),
        remaining: value.remaining,
        total: value.total,
    }
}

/// The collection details of the metadata program's schema with the same
/// size.
pub open spec fn collection_details_to_program(value: CollectionDetails) -> MplCollectionDetails {
    match value {
        CollectionDetails::V1 { size } => MplCollectionDetails::V1 { size },
    }
}

impl From<Creator> for MplCreator {
    fn from(value: Creator) -> (out: MplCreator) {
        MplCreator { address: value.address, verified: value.verified, share: value.share }
    }
}

impl FromSpecImpl<Creator> for MplCreator {
    open spec fn obeys_from_spec() -> bool {
        true
    }

    open spec fn from_spec(value: Creator) -> MplCreator {
        creator_to_program(value)
    }
}

impl From<Collection> for MplCollection {
    fn from(value: Collection) -> (out: MplCollection) {
        MplCollection { verified: value.verified, key: value.key }
    }
}

impl FromSpecImpl<Collection> for MplCollection {
    open spec fn obeys_from_spec() -> bool {
        true
    }

    open spec fn from_spec(value: Collection) -> MplCollection {
        collection_to_program(value)
    }
}

impl From<UseMethod> for MplUseMethod {
    fn from(value: UseMethod) -> (out: MplUseMethod) {
        match value {
            UseMethod::Burn => MplUseMethod::Burn,
            UseMethod::Multiple => MplUseMethod::Multiple,
            UseMethod::Single => MplUseMethod::Single,
        }
    }
}

impl FromSpecImpl<UseMethod> for MplUseMethod {
    open spec fn obeys_from_spec() -> bool {
        true
    }

    open spec fn from_spec(value: UseMethod) -> MplUseMethod {
        use_method_to_program(value)
    }
}

impl From<Uses> for MplUses {
    fn from(value: Uses) -> (out: MplUses) {
        MplUses {
            use_method: MplUseMethod::from(value.use_method),
            remaining: value.remaining,
            total: value.total,
        }
    }
}

impl FromSpecImpl<Uses> for MplUses {
    open spec fn obeys_from_spec() -> bool {
        true
    }

    open spec fn from_spec(value: Uses) -> MplUses {
        uses_to_program(value)
    }
}

impl From<CollectionDetails> for MplCollectionDetails {
    fn from(value: CollectionDetails) -> (out: MplCollectionDetails) {
        match value {
            CollectionDetails::V1 { size } => MplCollectionDetails::V1 { size },
        }
    }
}

impl FromSpecImpl<CollectionDetails> for MplCollectionDetails {
    open spec fn obeys_from_spec() -> bool {
        true
    }

    open spec fn from_spec(value: CollectionDetails) -> MplCollectionDetails {
        collection_details_to_program(value)
    }
}

/// A creator keeps its address, its verification and its share.
pub proof fn lemma_creator_is_kept(value: Creator)
    ensures
        creator_model(creator_to_program(value)) == value@,
{
}

/// A collection reference keeps its key and its verification.
pub proof fn lemma_collection_is_kept(value: Collection)
    ensures
        collection_model(collection_to_program(value)) == value@,
{
}

/// A use method keeps its name.
pub proof fn lemma_use_method_is_kept(value: UseMethod)
    ensures
        use_method_model(use_method_to_program(value)) == value,
{
}

/// A usage allowance keeps its method and its two counts.
pub proof fn lemma_uses_are_kept(value: Uses)
    ensures
        uses_model(uses_to_program(value)) == value,
{
}

/// Collection details keep their size.
pub proof fn lemma_collection_details_are_kept(value: CollectionDetails)
    ensures
        collection_details_model(collection_details_to_program(value)) == value,
{
}

/// Two creators that become the same creator of the metadata program are the
/// same: nothing is lost on the way.
pub proof fn lemma_creator_conversion_is_lossless(first: Creator, second: Creator)
    requires
        creator_to_program(first) == creator_to_program(second),
    ensures
        first == second,
{
}

/// Converts a list of creators, keeping their order.
pub fn creators_into(creators: Vec<Creator>) -> (out: Vec<MplCreator>)
    ensures
        out@ == creators@.map_values(|creator: Creator| creator_to_program(creator)),
        creators_model(Some(out)) == Some(creators_view(creators@)),
{
    let mut out: Vec<MplCreator> = Vec::new();
    let count = creators.len();
    let mut next: usize = 0;
    while next < count
        invariant
            next <= count,
            count == creators@.len(),
            out@.len() == next,
            forall|i: int| 0 <= i < next ==> out@[i] == creator_to_program(creators@[i]),
        decreases count - next,
    {
        out.push(MplCreator::from(creators[next]));
        next += 1;
    }
    assert(out@ =~= creators@.map_values(|creator: Creator| creator_to_program(creator)));
    assert(out@.map_values(|creator: MplCreator| creator_model(creator)) =~= creators_view(
        creators@,
    ));
    out
}

/// Converts an optional collection reference; absence stays absence.
pub fn collection_into(collection: Option<Collection>) -> (out: Option<MplCollection>)
    ensures
        out == match collection {
            Some(value) => Some(collection_to_program(value)),
            None => None,
        },
        option_collection_model(out) == option_collection_view(collection),
{
    match collection {
        Some(value) => Some(MplCollection::from(value)),
        None => None,
    }
}

/// Converts an optional usage allowance; absence stays absence.
pub fn uses_into(uses: Option<Uses>) -> (out: Option<MplUses>)
    ensures
        out == match uses {
            Some(value) => Some(uses_to_program(value)),
            None => None,
        },
        option_uses_model(out) == uses,
{
    match uses {
        Some(value) => Some(MplUses::from(value)),
        None => None,
    }
}

impl FromSpecImpl<DataV2> for MplDataV2 {
    /// The converted record holds a list that is built anew, so the
    /// conversion is stated by the `ensures` of `from`, over what the record
    /// holds, and not as an equation between records.
    open spec fn obeys_from_spec() -> bool {
        false
    }

    open spec fn from_spec(value: DataV2) -> MplDataV2 {
        choose|out: MplDataV2| data_model(out) == value@
    }
}

impl From<DataV2> for MplDataV2 {
    fn from(value: DataV2) -> (out: MplDataV2)
        ensures
            data_model(out) == value@,
    {
        let DataV2 { name, symbol, uri, seller_fee_basis_points, creators, collection, uses } =
            value;
        let creators = match creators {
            Some(list) => Some(creators_into(list)),
            None => None,
        };
        MplDataV2 {
            name,
            symbol,
            uri,
            seller_fee_basis_points,
            creators,
            collection: collection_into(collection),
            uses: uses_into(uses),
        }
    }
}

} // verus!
