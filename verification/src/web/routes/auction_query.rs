//! `GET /api/auctions`: the list of registered auctions, read as the
//! factory's address list and then each auction's registry record in turn.

use vstd::prelude::*;
use crate::abi::{AbiError, DecodeFailure, address_array_return, address_word, failure_of, selector_of};
use crate::client::registry::{
    AuctionRegistryItem, RegistryAuction, auction_registry_item_call, decode_auction_addresses,
    decode_registry_auction, get_auctions_call, item_buffer, item_decodes, item_return_ok,
    item_return_read, maps_item,
};
use crate::client::transaction::TransactionRequest;
use crate::primitives::Address;

verus! {

/// The answer listing auctions, with their number.
pub struct AuctionListResponse {
    pub success: bool,
    pub auctions: Vec<RegistryAuction>,
    pub count: usize,
}

/// The listing answer for the auctions loaded, in order.
pub fn auction_list_response(auctions: Vec<RegistryAuction>) -> (r: AuctionListResponse)
    ensures
        r.success,
        r.auctions@ == auctions@,
        r.count == auctions@.len(),
{
    let count = auctions.len();
    AuctionListResponse { success: true, auctions, count }
}

/// Why a listing stopped.
pub enum ListingError {
    /// The factory's address list did not decode.
    Addresses(AbiError),
    /// The registry record of this auction did not decode.
    Record(Address, AbiError),
}

/// Where a listing stands.
pub enum ListingStage {
    /// Waiting for the factory's address list.
    AwaitAddresses,
    /// Waiting for the record of the next auction whose record is not loaded.
    AwaitRecord,
    /// Done.
    Finished,
}

/// What the caller is to do next for a listing.
pub enum ListingAction {
    /// Make this read-only call and hand its return data to `on_reply`.
    Call(TransactionRequest),
    /// The listing is over, with this outcome.
    Finish(Result<AuctionListResponse, ListingError>),
}

/// A listing of the auctions registered with `factory`: the addresses read
/// so far, and the records loaded for the first of them, in order.
pub struct AuctionListing {
    pub factory: Address,
    pub stage: ListingStage,
    pub addresses: Vec<Address>,
    pub loaded: Vec<RegistryAuction>,
}

/// Whether `r` is the registry-record call for `auction` at `factory`.
pub open spec fn is_record_call(r: TransactionRequest, factory: Address, auction: Address) -> bool {
    &&& r.from is None
    &&& r.to == factory
    &&& r.value is None
    &&& r.input@ == selector_of("getAuctionRegistryItem(address)"@) + address_word(auction@)
}

/// Whether `a` is the record that the return data `data` decodes to.
pub open spec fn record_of_reply(data: Seq<u8>, a: RegistryAuction) -> bool {
    &&& item_return_ok(data)
    &&& exists|item: AuctionRegistryItem|
        #[trigger] item_decodes(item_buffer(data)->Some_0, item) && maps_item(item, a)
}

/// What handing the return data of the pending call to a listing does,
/// from `before` to `after`: the address list is read, then the record of
/// each address in turn; the first reply that does not decode ends the
/// listing in error; once every record is loaded the answer lists them in
/// the order of the addresses.
pub open spec fn listing_step(
    before: AuctionListing,
    data: Seq<u8>,
    after: AuctionListing,
    a: ListingAction,
) -> bool {
    &&& after.factory == before.factory
    &&& after.wf()
    &&& match before.stage {
        ListingStage::AwaitAddresses => match address_array_return(data) {
            Err(f) => {
                &&& after.stage is Finished
                &&& a matches ListingAction::Finish(Err(ListingError::Addresses(e)))
                &&& failure_of(e) == f
            },
            Ok(addrs) => if addrs.len() == 0 {
                &&& after.stage is Finished
                &&& a matches ListingAction::Finish(Ok(resp))
                &&& resp.success
                &&& resp.auctions@.len() == 0
                &&& resp.count == 0
            } else {
                &&& after.stage is AwaitRecord
                &&& after.addresses@.map_values(|x: Address| x@) == addrs
                &&& after.loaded@.len() == 0
                &&& a matches ListingAction::Call(req)
                &&& is_record_call(req, before.factory, after.addresses@[0])
            },
        },
        ListingStage::AwaitRecord => {
            let k = before.loaded@.len() as int;
            if !item_return_ok(data) {
                &&& after.stage is Finished
                &&& a matches ListingAction::Finish(Err(ListingError::Record(addr, e)))
                &&& addr == before.addresses@[k]
                &&& item_return_read(data) == Err::<nat, DecodeFailure>(failure_of(e))
            } else {
                exists|rec: RegistryAuction|
                    #![trigger before.loaded@.push(rec)]
                    {
                        &&& record_of_reply(data, rec)
                        &&& if k + 1 == before.addresses@.len() {
                            &&& after.stage is Finished
                            &&& a matches ListingAction::Finish(Ok(resp))
                            &&& resp.success
                            &&& resp.auctions@ == before.loaded@.push(rec)
                            &&& resp.count == before.addresses@.len()
                        } else {
                            &&& after.stage is AwaitRecord
                            &&& after.addresses@ == before.addresses@
                            &&& after.loaded@ == before.loaded@.push(rec)
                            &&& a matches ListingAction::Call(req)
                            &&& is_record_call(req, before.factory, before.addresses@[k + 1])
                        }
                    }
            }
        },
        ListingStage::Finished => false,
    }
}

impl AuctionListing {
    /// While records are awaited, fewer are loaded than there are addresses.
    pub open spec fn wf(&self) -> bool {
        self.stage is AwaitRecord ==> self.loaded@.len() < self.addresses@.len()
    }

    /// Starts a listing: first read the factory's address list.
    pub fn start(factory: Address) -> (r: (AuctionListing, ListingAction))
        ensures
            r.0.factory == factory,
            r.0.stage is AwaitAddresses,
            r.0.wf(),
            r.1 matches ListingAction::Call(req) && req.from is None && req.to == factory
                && req.value is None && req.input@ == selector_of("getAuctions()"@),
    {
        let listing = AuctionListing {
            factory,
            stage: ListingStage::AwaitAddresses,
            addresses: Vec::new(),
            loaded: Vec::new(),
        };
        let req = get_auctions_call(factory);
        (listing, ListingAction::Call(req))
    }

    /// Takes the return data of the call the listing asked for.
    pub fn on_reply(&mut self, data: &[u8]) -> (a: ListingAction)
        requires
            old(self).wf(),
            !(old(self).stage is Finished),
        ensures
            listing_step(*old(self), data@, *final(self), a),
    {
        let mut stage = ListingStage::Finished;
        std::mem::swap(&mut stage, &mut self.stage);
        match stage {
            ListingStage::AwaitAddresses => {
                match decode_auction_addresses(data) {
                    Err(e) => ListingAction::Finish(Err(ListingError::Addresses(e))),
                    Ok(addresses) => {
                        if addresses.len() == 0 {
                            ListingAction::Finish(Ok(auction_list_response(Vec::new())))
                        } else {
                            let first = addresses[0];
                            self.addresses = addresses;
                            self.loaded = Vec::new();
                            self.stage = ListingStage::AwaitRecord;
                            ListingAction::Call(auction_registry_item_call(self.factory, first))
                        }
                    },
                }
            },
            ListingStage::AwaitRecord => {
                let k = self.loaded.len();
                assert(old(self).stage is AwaitRecord);
                assert(k < self.addresses.len());
                let ghost before_loaded = self.loaded@;
                match decode_registry_auction(data) {
                    Err(e) => ListingAction::Finish(Err(ListingError::Record(self.addresses[k], e))),
                    Ok(rec) => {
                        let ghost g = rec;
                        self.loaded.push(rec);
                        assert(self.loaded@ == before_loaded.push(g));
                        if k + 1 == self.addresses.len() {
                            let mut loaded: Vec<RegistryAuction> = Vec::new();
                            std::mem::swap(&mut loaded, &mut self.loaded);
                            ListingAction::Finish(Ok(auction_list_response(loaded)))
                        } else {
                            let next = self.addresses[k + 1];
                            self.stage = ListingStage::AwaitRecord;
                            ListingAction::Call(auction_registry_item_call(self.factory, next))
                        }
                    },
                }
            },
            ListingStage::Finished => ListingAction::Finish(Ok(auction_list_response(Vec::new()))),
        }
    }
}

/// Whether `states`, `replies` and `actions` are a run of a listing from
/// its start: each reply taken by the state before it gives the next state
/// and the action.
pub open spec fn listing_run(
    states: Seq<AuctionListing>,
    replies: Seq<Seq<u8>>,
    actions: Seq<ListingAction>,
) -> bool {
    &&& replies.len() >= 1
    &&& states.len() == replies.len() + 1
    &&& actions.len() == replies.len()
    &&& states[0].stage is AwaitAddresses
    &&& forall|i: int|
        0 <= i < replies.len() ==> listing_step(
            #[trigger] states[i],
            replies[i],
            states[i + 1],
            actions[i],
        )
}

/// What holds after the first `i` replies of a run, while records are
/// still awaited: the addresses of the first reply, the records of the
/// replies since, and a record call for each address so far.
pub open spec fn run_prefix(
    states: Seq<AuctionListing>,
    replies: Seq<Seq<u8>>,
    actions: Seq<ListingAction>,
    addrs: Seq<Seq<u8>>,
    i: int,
) -> bool {
    &&& states[i].stage is AwaitRecord
    &&& states[i].factory == states[0].factory
    &&& states[i].addresses@.map_values(|x: Address| x@) == addrs
    &&& states[i].loaded@.len() == i - 1
    &&& forall|k: int|
        0 <= k < i - 1 ==> record_of_reply(replies[k + 1], #[trigger] states[i].loaded@[k])
    &&& forall|k: int|
        0 <= k < i ==> (#[trigger] actions[k] matches ListingAction::Call(req) && is_record_call(
            req,
            states[0].factory,
            states[i].addresses@[k],
        ))
}

/// A first step that leaves records to load.
proof fn lemma_addresses_step(
    before: AuctionListing,
    data: Seq<u8>,
    after: AuctionListing,
    a: ListingAction,
)
    requires
        before.stage is AwaitAddresses,
        listing_step(before, data, after, a),
        !(after.stage is Finished),
    ensures
        address_array_return(data) matches Ok(addrs) && after.addresses@.map_values(
            |x: Address| x@,
        ) == addrs,
        after.stage is AwaitRecord,
        after.factory == before.factory,
        after.loaded@.len() == 0,
        a matches ListingAction::Call(req) && is_record_call(req, before.factory, after.addresses@[0]),
{
}

/// A record step that leaves records to load.
proof fn lemma_record_step(
    before: AuctionListing,
    data: Seq<u8>,
    after: AuctionListing,
    a: ListingAction,
)
    requires
        before.stage is AwaitRecord,
        listing_step(before, data, after, a),
        !(after.stage is Finished),
    ensures
        after.stage is AwaitRecord,
        after.factory == before.factory,
        after.addresses@ == before.addresses@,
        after.loaded@.len() == before.loaded@.len() + 1,
        forall|k: int| 0 <= k < before.loaded@.len() ==> after.loaded@[k] == before.loaded@[k],
        record_of_reply(data, after.loaded@[before.loaded@.len() as int]),
        a matches ListingAction::Call(req) && is_record_call(
            req,
            before.factory,
            before.addresses@[before.loaded@.len() as int + 1],
        ),
{
    let rec = choose|rec: RegistryAuction|
        #![trigger before.loaded@.push(rec)]
        {
            &&& record_of_reply(data, rec)
            &&& if before.loaded@.len() + 1 == before.addresses@.len() {
                &&& after.stage is Finished
                &&& a matches ListingAction::Finish(Ok(resp))
                &&& resp.success
                &&& resp.auctions@ == before.loaded@.push(rec)
                &&& resp.count == before.addresses@.len()
            } else {
                &&& after.stage is AwaitRecord
                &&& after.addresses@ == before.addresses@
                &&& after.loaded@ == before.loaded@.push(rec)
                &&& a matches ListingAction::Call(req)
                &&& is_record_call(req, before.factory, before.addresses@[before.loaded@.len() as int + 1])
            }
        };
    assert(after.loaded@[before.loaded@.len() as int] == rec);
}

/// A last record step that answers.
proof fn lemma_last_record_step(
    before: AuctionListing,
    data: Seq<u8>,
    after: AuctionListing,
    resp: AuctionListResponse,
)
    requires
        before.stage is AwaitRecord,
        listing_step(before, data, after, ListingAction::Finish(Ok(resp))),
    ensures
        before.loaded@.len() + 1 == before.addresses@.len(),
        resp.success,
        resp.count == before.addresses@.len(),
        resp.auctions@.len() == before.addresses@.len(),
        forall|k: int| 0 <= k < before.loaded@.len() ==> resp.auctions@[k] == before.loaded@[k],
        record_of_reply(data, resp.auctions@[before.loaded@.len() as int]),
{
    let a = ListingAction::Finish(Ok(resp));
    let rec = choose|rec: RegistryAuction|
        #![trigger before.loaded@.push(rec)]
        {
            &&& record_of_reply(data, rec)
            &&& if before.loaded@.len() + 1 == before.addresses@.len() {
                &&& after.stage is Finished
                &&& a matches ListingAction::Finish(Ok(r))
                &&& r.success
                &&& r.auctions@ == before.loaded@.push(rec)
                &&& r.count == before.addresses@.len()
            } else {
                &&& after.stage is AwaitRecord
                &&& after.addresses@ == before.addresses@
                &&& after.loaded@ == before.loaded@.push(rec)
                &&& a matches ListingAction::Call(req)
                &&& is_record_call(req, before.factory, before.addresses@[before.loaded@.len() as int + 1])
            }
        };
    assert(resp.auctions@[before.loaded@.len() as int] == rec);
}

#[verifier::rlimit(50)]
proof fn lemma_run_prefix(
    states: Seq<AuctionListing>,
    replies: Seq<Seq<u8>>,
    actions: Seq<ListingAction>,
    addrs: Seq<Seq<u8>>,
    i: int,
)
    requires
        listing_run(states, replies, actions),
        address_array_return(replies[0]) == Ok::<Seq<Seq<u8>>, DecodeFailure>(addrs),
        1 <= i < replies.len(),
    ensures
        run_prefix(states, replies, actions, addrs, i),
    decreases i,
{
    assert(listing_step(states[i], replies[i], states[i + 1], actions[i]));
    assert(!(states[i].stage is Finished));
    if i == 1 {
        assert(listing_step(states[0], replies[0], states[1], actions[0]));
        lemma_addresses_step(states[0], replies[0], states[1], actions[0]);
    } else {
        lemma_run_prefix(states, replies, actions, addrs, i - 1);
        let before = states[i - 1];
        let after = states[i];
        assert(listing_step(before, replies[i - 1], after, actions[i - 1]));
        lemma_record_step(before, replies[i - 1], after, actions[i - 1]);
        assert forall|k: int| 0 <= k < i - 1 implies record_of_reply(
            replies[k + 1],
            #[trigger] after.loaded@[k],
        ) by {
            if k < i - 2 {
                assert(after.loaded@[k] == before.loaded@[k]);
            }
        }
        assert forall|k: int| 0 <= k < i implies (#[trigger] actions[k] matches ListingAction::Call(
            req,
        ) && is_record_call(req, states[0].factory, after.addresses@[k])) by {
        }
    }
}

/// A listing that ends with an answer lists one record per address of the
/// factory's list, in the order of the addresses: the record of the `k`-th
/// address is the one decoded from the reply to the `k`-th record call,
/// and that call asked for the `k`-th address.
pub proof fn law_listing_answers_every_address_in_order(
    states: Seq<AuctionListing>,
    replies: Seq<Seq<u8>>,
    actions: Seq<ListingAction>,
    resp: AuctionListResponse,
)
    requires
        listing_run(states, replies, actions),
        actions.last() == ListingAction::Finish(Ok(resp)),
    ensures
        address_array_return(replies[0]) matches Ok(addrs) && {
            &&& replies.len() == addrs.len() + 1
            &&& resp.success
            &&& resp.count == addrs.len()
            &&& resp.auctions@.len() == addrs.len()
            &&& forall|k: int|
                0 <= k < addrs.len() ==> record_of_reply(replies[k + 1], #[trigger] resp.auctions@[k])
            &&& forall|k: int|
                0 <= k < addrs.len() ==> (#[trigger] actions[k] matches ListingAction::Call(req)
                    && req.input@ == selector_of("getAuctionRegistryItem(address)"@)
                    + address_word(addrs[k]))
        },
{
    let n = replies.len() as int;
    assert(listing_step(states[0], replies[0], states[1], actions[0]));
    let addrs = address_array_return(replies[0])->Ok_0;
    assert(actions[n - 1] == actions.last());
    if n > 1 {
        lemma_run_prefix(states, replies, actions, addrs, n - 1);
        let before = states[n - 1];
        assert(listing_step(before, replies[n - 1], states[n], actions[n - 1]));
        lemma_last_record_step(before, replies[n - 1], states[n], resp);
        assert(before.addresses@.len() == addrs.len());
        assert forall|k: int| 0 <= k < addrs.len() implies #[trigger] before.addresses@[k]@
            == addrs[k] by {
            assert(before.addresses@.map_values(|x: Address| x@)[k] == addrs[k]);
        }
        assert forall|k: int| 0 <= k < addrs.len() implies record_of_reply(
            replies[k + 1],
            #[trigger] resp.auctions@[k],
        ) by {
            if k < n - 2 {
                assert(resp.auctions@[k] == before.loaded@[k]);
            }
        }
        assert forall|k: int| 0 <= k < addrs.len() implies (#[trigger] actions[k] matches ListingAction::Call(
            req,
        ) && req.input@ == selector_of("getAuctionRegistryItem(address)"@) + address_word(
            addrs[k],
        )) by {
            assert(before.addresses@[k]@ == addrs[k]);
        }
    }
}

} // verus!
