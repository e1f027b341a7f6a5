//! The paginated form of the auction listing: the first hundred records,
//! read with one `getAuctionsPaginated(uint256,uint256)` call.

use vstd::prelude::*;
use crate::abi::{failure_text, lemma_word_of, selector_of, word_of};
use crate::client::registry::{
    AuctionRegistryItem, auctions_paginated_call, decode_registry_auctions, item_array_ok,
    item_array_result, items_decode, maps_item,
};
use crate::client::transaction::TransactionRequest;
use crate::primitives::{Address, u256_from_u64};
use crate::web::routes::auction_query::{AuctionListResponse, auction_list_response};

verus! {

/// The call for the listing: offset 0, limit 100.
pub fn list_auctions_call(factory_address: Address) -> (r: TransactionRequest)
    ensures
        r.from is None,
        r.to == factory_address,
        r.value is None,
        r.input@ == selector_of("getAuctionsPaginated(uint256,uint256)"@)
            + word_of(0) + word_of(100),
{
    let offset = u256_from_u64(0);
    let limit = u256_from_u64(100);
    proof {
        lemma_word_of(offset.be@, 0);
        lemma_word_of(limit.be@, 100);
    }
    auctions_paginated_call(factory_address, offset, limit)
}

/// The listing answer for the call's return data: the records in order,
/// or the refusal "Failed to load auctions: " followed by why they did not
/// decode.
pub fn list_auctions(data: &[u8]) -> (r: Result<AuctionListResponse, String>)
    ensures
        match r {
            Ok(resp) => {
                &&& item_array_ok(data@)
                &&& resp.success
                &&& resp.count == resp.auctions@.len()
                &&& exists|items: Seq<AuctionRegistryItem>|
                    items_decode(data@, items) && items.len() == resp.auctions@.len() && forall|
                        k: int,
                    |
                        0 <= k < items.len() ==> maps_item(#[trigger] items[k], resp.auctions@[k])
            },
            Err(m) => match item_array_result(data@) {
                Err(f) => m@ == "Failed to load auctions: "@ + failure_text(f),
                Ok(_) => false,
            },
        },
{
    match decode_registry_auctions(data) {
        Ok(auctions) => Ok(auction_list_response(auctions)),
        Err(e) => {
            let reason = e.message();
            Err(String::from_str("Failed to load auctions: ").concat(reason.as_str()))
        },
    }
}

} // verus!
