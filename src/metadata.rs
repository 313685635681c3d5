use vstd::prelude::*;
use crate::key::Key;
use crate::leaderboard::or_default;

verus! {

/// A collection an NFT belongs to, and whether the membership is verified.
#[derive(Clone, Copy, Debug)]
pub struct CollectionRef {
    /// The collection's mint.
    pub key: Key,
    /// Whether the collection's authority has verified the membership.
    pub verified: bool,
}

/// The fields of an NFT's metadata that an update may replace.
#[derive(Clone, Debug)]
pub struct MetadataFields {
    /// The NFT's name.
    pub name: String,
    /// The NFT's symbol.
    pub symbol: String,
    /// The NFT's URI.
    pub uri: String,
    /// The collection the NFT belongs to, if any.
    pub collection: Option<CollectionRef>,
}

/// `current` with the given fields replaced. A new collection starts
/// unverified; without one the current collection is kept as it is.
pub fn updated_metadata(
    current: MetadataFields,
    new_name: Option<String>,
    new_symbol: Option<String>,
    new_uri: Option<String>,
    new_collection: Option<Key>,
) -> (r: MetadataFields)
    ensures
        r.name == or_default(new_name, current.name),
        r.symbol == or_default(new_symbol, current.symbol),
        r.uri == or_default(new_uri, current.uri),
        r.collection == match new_collection {
            Some(k) => Some(CollectionRef { key: k, verified: false }),
            None => current.collection,
        },
{
    let collection = match new_collection {
        Some(k) => Some(CollectionRef { key: k, verified: false }),
        None => current.collection,
    };
    MetadataFields {
        name: match new_name {
            Some(n) => n,
            None => current.name,
        },
        symbol: match new_symbol {
            Some(s) => s,
            None => current.symbol,
        },
        uri: match new_uri {
            Some(u) => u,
            None => current.uri,
        },
        collection,
    }
}

} // verus!
