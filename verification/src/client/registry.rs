//! The factory's auction registry: the calls that read it, the decoding of
//! its `AuctionRegistryItem` records, and their Rust form.

use vstd::prelude::*;
use vstd::slice::slice_subrange;
use crate::abi::{
    AbiError, DECODE_MEMORY_LIMIT, DecodeFailure, address_array_return, address_of_word,
    address_word, bool_return, decode_address_array_return, decode_bool_return,
    decode_uint256_return, dynamic_bytes_at, dynamic_bytes_read, encode_call, encode_call_address,
    encode_call_uint, encode_call_uint_uint, failure_of, offset_at, offset_read, read_dynamic_bytes,
    read_offset, read_word, selector_of, string_from_utf8_lossy, uint256_return, utf8_lossy,
    word_address, word_at, word_is_nonzero, word_nonzero, dynamic_tail, pad32, padded_len, word_of,
    law_bool_word_reads_back, lemma_tail_reads_back, lemma_word_of_usize, lemma_word_of_value,
};
use crate::client::transaction::{TransactionRequest, call_request};
use crate::primitives::{Address, U256, be_value, u256_modulus};

verus! {

/// A registry record as the contract returns it.
pub struct AuctionRegistryItem {
    pub auction_address: Address,
    pub seller: Address,
    pub bidding_time_seconds: U256,
    pub end_time: U256,
    pub starting_bid: U256,
    pub highest_bidder: Address,
    pub highest_bid: U256,
    pub bid_count: U256,
    pub admin: Address,
    pub confirmation_window: U256,
    pub created_at: U256,
    pub exists: bool,
    pub title: String,
    pub description: String,
    pub image_placeholder: String,
}

/// A registry record in the form the client hands out.
pub struct RegistryAuction {
    pub auction_address: Address,
    pub seller: Address,
    pub bidding_time_seconds: U256,
    pub end_time: U256,
    pub starting_bid_wei: U256,
    pub highest_bidder: Address,
    pub highest_bid_wei: U256,
    pub bid_count: U256,
    pub admin: Address,
    pub confirmation_window: U256,
    pub created_at: U256,
    pub exists: bool,
    pub title: String,
    pub description: String,
    pub image_placeholder: String,
}

/// Whether `r` carries exactly the fields of `item`.
pub open spec fn maps_item(item: AuctionRegistryItem, r: RegistryAuction) -> bool {
    &&& r.auction_address == item.auction_address
    &&& r.seller == item.seller
    &&& r.bidding_time_seconds == item.bidding_time_seconds
    &&& r.end_time == item.end_time
    &&& r.starting_bid_wei == item.starting_bid
    &&& r.highest_bidder == item.highest_bidder
    &&& r.highest_bid_wei == item.highest_bid
    &&& r.bid_count == item.bid_count
    &&& r.admin == item.admin
    &&& r.confirmation_window == item.confirmation_window
    &&& r.created_at == item.created_at
    &&& r.exists == item.exists
    &&& r.title@ == item.title@
    &&& r.description@ == item.description@
    &&& r.image_placeholder@ == item.image_placeholder@
}

/// Converts a contract registry record into its client form.
pub fn map_registry_item(item: AuctionRegistryItem) -> (r: RegistryAuction)
    ensures
        maps_item(item, r),
{
    RegistryAuction {
        auction_address: item.auction_address,
        seller: item.seller,
        bidding_time_seconds: item.bidding_time_seconds,
        end_time: item.end_time,
        starting_bid_wei: item.starting_bid,
        highest_bidder: item.highest_bidder,
        highest_bid_wei: item.highest_bid,
        bid_count: item.bid_count,
        admin: item.admin,
        confirmation_window: item.confirmation_window,
        created_at: item.created_at,
        exists: item.exists,
        title: item.title,
        description: item.description,
        image_placeholder: item.image_placeholder,
    }
}

// ---------------------------------------------------------------------
// Layout of an encoded record
// ---------------------------------------------------------------------

/// The bytes of the three strings of a record encoded at the start of
/// `c` (fifteen head words; the last three are offsets of the strings).
pub open spec fn item_strings(c: Seq<u8>) -> Option<(Seq<u8>, Seq<u8>, Seq<u8>)> {
    if c.len() >= 480 {
        match (dynamic_bytes_at(c, 384), dynamic_bytes_at(c, 416), dynamic_bytes_at(c, 448)) {
            (Some(t), Some(d), Some(i)) => Some((t, d, i)),
            _ => None,
        }
    } else {
        None
    }
}

/// Whether `item` is the record encoded at the start of `c`.
pub open spec fn item_decodes(c: Seq<u8>, item: AuctionRegistryItem) -> bool {
    match item_strings(c) {
        Some((t, d, i)) => {
            &&& item.auction_address@ == word_address(word_at(c, 0))
            &&& item.seller@ == word_address(word_at(c, 1))
            &&& item.bidding_time_seconds.be@ == word_at(c, 2)
            &&& item.end_time.be@ == word_at(c, 3)
            &&& item.starting_bid.be@ == word_at(c, 4)
            &&& item.highest_bidder@ == word_address(word_at(c, 5))
            &&& item.highest_bid.be@ == word_at(c, 6)
            &&& item.bid_count.be@ == word_at(c, 7)
            &&& item.admin@ == word_address(word_at(c, 8))
            &&& item.confirmation_window.be@ == word_at(c, 9)
            &&& item.created_at.be@ == word_at(c, 10)
            &&& item.exists == word_nonzero(word_at(c, 11))
            &&& item.title@ == utf8_lossy(t)
            &&& item.description@ == utf8_lossy(d)
            &&& item.image_placeholder@ == utf8_lossy(i)
        },
        None => false,
    }
}

fn word_u256(c: &[u8], k: usize) -> (v: U256)
    requires
        32 * k + 32 <= c.len(),
    ensures
        v.be@ == word_at(c@, k as nat),
{
    U256 { be: read_word(c, 32 * k) }
}

fn word_addr(c: &[u8], k: usize) -> (a: Address)
    requires
        32 * k + 32 <= c.len(),
    ensures
        a@ == word_address(word_at(c@, k as nat)),
{
    let w = read_word(c, 32 * k);
    address_of_word(&w)
}

/// Reading one string of a record whose head word is at byte `at` of `c`,
/// with `used` bytes of memory already claimed: the string's bytes are
/// claimed after it is read, and the total must stay within the limit.
/// Gives the memory claimed afterwards.
pub open spec fn string_step(c: Seq<u8>, at: nat, used: nat) -> Result<nat, DecodeFailure> {
    match dynamic_bytes_read(c, at) {
        Err(f) => Err(f),
        Ok(b) => if used + b.len() > DECODE_MEMORY_LIMIT {
            Err(DecodeFailure::MemoryLimit)
        } else {
            Ok(used + b.len())
        },
    }
}

/// Reading the record encoded at the start of `c`, as alloy's decoder does
/// it, word by word: the twelve static words, then the title, the
/// description and the image text. Gives the memory claimed afterwards,
/// or the first failure.
pub open spec fn item_read(c: Seq<u8>, used: nat) -> Result<nat, DecodeFailure> {
    if c.len() < 384 {
        Err(DecodeFailure::Overrun)
    } else {
        match string_step(c, 384, used) {
            Err(f) => Err(f),
            Ok(u1) => match string_step(c, 416, u1) {
                Err(f) => Err(f),
                Ok(u2) => string_step(c, 448, u2),
            },
        }
    }
}

/// Decodes the record encoded at the start of `c`, with `used` bytes of
/// the decoder's memory already claimed. Gives the record and the memory
/// claimed afterwards.
pub fn decode_item_at(c: &[u8], used: usize) -> (r: Result<(AuctionRegistryItem, usize), AbiError>)
    requires
        used <= DECODE_MEMORY_LIMIT,
    ensures
        match r {
            Ok((item, u)) => item_read(c@, used as nat) == Ok::<nat, DecodeFailure>(u as nat)
                && item_decodes(c@, item),
            Err(e) => item_read(c@, used as nat) == Err::<nat, DecodeFailure>(failure_of(e)),
        },
{
    if c.len() < 384 {
        return Err(AbiError::Overrun);
    }
    let t = read_dynamic_bytes(c, 384)?;
    if t.len() > DECODE_MEMORY_LIMIT - used {
        return Err(AbiError::MemoryLimitExceeded);
    }
    let u1 = used + t.len();
    let d = read_dynamic_bytes(c, 416)?;
    if d.len() > DECODE_MEMORY_LIMIT - u1 {
        return Err(AbiError::MemoryLimitExceeded);
    }
    let u2 = u1 + d.len();
    let i = read_dynamic_bytes(c, 448)?;
    if i.len() > DECODE_MEMORY_LIMIT - u2 {
        return Err(AbiError::MemoryLimitExceeded);
    }
    let u3 = u2 + i.len();
    let exists_word = read_word(c, 352);
    let item = AuctionRegistryItem {
        auction_address: word_addr(c, 0),
        seller: word_addr(c, 1),
        bidding_time_seconds: word_u256(c, 2),
        end_time: word_u256(c, 3),
        starting_bid: word_u256(c, 4),
        highest_bidder: word_addr(c, 5),
        highest_bid: word_u256(c, 6),
        bid_count: word_u256(c, 7),
        admin: word_addr(c, 8),
        confirmation_window: word_u256(c, 9),
        created_at: word_u256(c, 10),
        exists: word_is_nonzero(&exists_word),
        title: string_from_utf8_lossy(t.as_slice()),
        description: string_from_utf8_lossy(d.as_slice()),
        image_placeholder: string_from_utf8_lossy(i.as_slice()),
    };
    Ok((item, u3))
}

// ---------------------------------------------------------------------
// What the factory encodes, the decoder reads back
// ---------------------------------------------------------------------

/// The twelve head words of a registry record: addresses and numbers as
/// words, and the `exists` flag as the word of 1 or 0.
pub open spec fn record_head(
    auction_address: Seq<u8>,
    seller: Seq<u8>,
    bidding_time_seconds: nat,
    end_time: nat,
    starting_bid: nat,
    highest_bidder: Seq<u8>,
    highest_bid: nat,
    bid_count: nat,
    admin: Seq<u8>,
    confirmation_window: nat,
    created_at: nat,
    exists_flag: bool,
) -> Seq<u8> {
    address_word(auction_address) + address_word(seller) + word_of(bidding_time_seconds) + word_of(
        end_time,
    ) + word_of(starting_bid) + address_word(highest_bidder) + word_of(highest_bid) + word_of(
        bid_count,
    ) + address_word(admin) + word_of(confirmation_window) + word_of(created_at) + word_of(
        if exists_flag {
            1
        } else {
            0
        },
    )
}

/// The ABI encoding of a registry record with the given fields, as the
/// factory returns it: the twelve head words, the offsets of the title,
/// description and image text counted from the record's start, then the
/// three string tails.
pub open spec fn record_encoding(
    auction_address: Seq<u8>,
    seller: Seq<u8>,
    bidding_time_seconds: nat,
    end_time: nat,
    starting_bid: nat,
    highest_bidder: Seq<u8>,
    highest_bid: nat,
    bid_count: nat,
    admin: Seq<u8>,
    confirmation_window: nat,
    created_at: nat,
    exists_flag: bool,
    title: Seq<u8>,
    description: Seq<u8>,
    image_placeholder: Seq<u8>,
) -> Seq<u8> {
    let lt = dynamic_tail(title).len();
    let ld = dynamic_tail(description).len();
    record_head(
        auction_address,
        seller,
        bidding_time_seconds,
        end_time,
        starting_bid,
        highest_bidder,
        highest_bid,
        bid_count,
        admin,
        confirmation_window,
        created_at,
        exists_flag,
    ) + word_of(480) + word_of(480 + lt) + word_of(480 + lt + ld) + dynamic_tail(title)
        + dynamic_tail(description) + dynamic_tail(image_placeholder)
}

/// Whether the fields can be encoded: addresses of twenty bytes, numbers
/// below 2^256.
pub open spec fn record_fields_fit(
    auction_address: Seq<u8>,
    seller: Seq<u8>,
    bidding_time_seconds: nat,
    end_time: nat,
    starting_bid: nat,
    highest_bidder: Seq<u8>,
    highest_bid: nat,
    bid_count: nat,
    admin: Seq<u8>,
    confirmation_window: nat,
    created_at: nat,
) -> bool {
    &&& auction_address.len() == 20
    &&& seller.len() == 20
    &&& highest_bidder.len() == 20
    &&& admin.len() == 20
    &&& bidding_time_seconds < u256_modulus()
    &&& end_time < u256_modulus()
    &&& starting_bid < u256_modulus()
    &&& highest_bid < u256_modulus()
    &&& bid_count < u256_modulus()
    &&& confirmation_window < u256_modulus()
    &&& created_at < u256_modulus()
}

/// A registry record encoded with any fields and strings of any length
/// within the decoder's memory limit is read in full: the decoder claims
/// the bytes of all three strings, and the record decodes both on its own
/// and as the return data of `getAuctionRegistryItem` (an offset word
/// of 32, then the record).
pub proof fn law_record_encoding_reads(
    auction_address: Seq<u8>,
    seller: Seq<u8>,
    bidding_time_seconds: nat,
    end_time: nat,
    starting_bid: nat,
    highest_bidder: Seq<u8>,
    highest_bid: nat,
    bid_count: nat,
    admin: Seq<u8>,
    confirmation_window: nat,
    created_at: nat,
    exists_flag: bool,
    title: Seq<u8>,
    description: Seq<u8>,
    image_placeholder: Seq<u8>,
    used: nat,
)
    requires
        record_fields_fit(
            auction_address,
            seller,
            bidding_time_seconds,
            end_time,
            starting_bid,
            highest_bidder,
            highest_bid,
            bid_count,
            admin,
            confirmation_window,
            created_at,
        ),
        used + title.len() + description.len() + image_placeholder.len() <= DECODE_MEMORY_LIMIT,
    ensures
        ({
            let c = record_encoding(
                auction_address,
                seller,
                bidding_time_seconds,
                end_time,
                starting_bid,
                highest_bidder,
                highest_bid,
                bid_count,
                admin,
                confirmation_window,
                created_at,
                exists_flag,
                title,
                description,
                image_placeholder,
            );
            &&& item_read(c, used) == Ok::<nat, DecodeFailure>(
                used + title.len() + description.len() + image_placeholder.len(),
            )
            &&& item_strings(c) == Some((title, description, image_placeholder))
            &&& item_buffer(word_of(32) + c) == Some(c)
            &&& item_return_read(word_of(32) + c) == Ok::<nat, DecodeFailure>(
                title.len() + description.len() + image_placeholder.len(),
            )
        }),
{
    let c = record_encoding(
        auction_address,
        seller,
        bidding_time_seconds,
        end_time,
        starting_bid,
        highest_bidder,
        highest_bid,
        bid_count,
        admin,
        confirmation_window,
        created_at,
        exists_flag,
        title,
        description,
        image_placeholder,
    );
    lemma_record_layout(
        auction_address,
        seller,
        bidding_time_seconds,
        end_time,
        starting_bid,
        highest_bidder,
        highest_bid,
        bid_count,
        admin,
        confirmation_window,
        created_at,
        exists_flag,
        title,
        description,
        image_placeholder,
    );
    let d = word_of(32) + c;
    lemma_word_of_usize(32);
    assert(d.subrange(0, 32) =~= word_of(32));
    assert(offset_read(d, 0) == Ok::<nat, DecodeFailure>(32));
    assert(d.skip(32) =~= c);
}

/// The fields of a registry record read back from its encoding: each
/// address, number and the `exists` flag from its own head word, and
/// each string in full, every byte its length word announces.
pub proof fn law_record_decodes_to_fields(
    auction_address: Seq<u8>,
    seller: Seq<u8>,
    bidding_time_seconds: nat,
    end_time: nat,
    starting_bid: nat,
    highest_bidder: Seq<u8>,
    highest_bid: nat,
    bid_count: nat,
    admin: Seq<u8>,
    confirmation_window: nat,
    created_at: nat,
    exists_flag: bool,
    title: Seq<u8>,
    description: Seq<u8>,
    image_placeholder: Seq<u8>,
    item: AuctionRegistryItem,
)
    requires
        record_fields_fit(
            auction_address,
            seller,
            bidding_time_seconds,
            end_time,
            starting_bid,
            highest_bidder,
            highest_bid,
            bid_count,
            admin,
            confirmation_window,
            created_at,
        ),
        title.len() + description.len() + image_placeholder.len() <= DECODE_MEMORY_LIMIT,
        item_decodes(
            record_encoding(
                auction_address,
                seller,
                bidding_time_seconds,
                end_time,
                starting_bid,
                highest_bidder,
                highest_bid,
                bid_count,
                admin,
                confirmation_window,
                created_at,
                exists_flag,
                title,
                description,
                image_placeholder,
            ),
            item,
        ),
    ensures
        item.auction_address@ == auction_address,
        item.seller@ == seller,
        item.bidding_time_seconds@ == bidding_time_seconds,
        item.end_time@ == end_time,
        item.starting_bid@ == starting_bid,
        item.highest_bidder@ == highest_bidder,
        item.highest_bid@ == highest_bid,
        item.bid_count@ == bid_count,
        item.admin@ == admin,
        item.confirmation_window@ == confirmation_window,
        item.created_at@ == created_at,
        item.exists == exists_flag,
        item.title@ == utf8_lossy(title),
        item.description@ == utf8_lossy(description),
        item.image_placeholder@ == utf8_lossy(image_placeholder),
{
    lemma_record_layout(
        auction_address,
        seller,
        bidding_time_seconds,
        end_time,
        starting_bid,
        highest_bidder,
        highest_bid,
        bid_count,
        admin,
        confirmation_window,
        created_at,
        exists_flag,
        title,
        description,
        image_placeholder,
    );
}

/// Where each field stands in the head of an encoded record.
#[verifier::rlimit(50)]
proof fn lemma_record_head_words(
    auction_address: Seq<u8>,
    seller: Seq<u8>,
    bidding_time_seconds: nat,
    end_time: nat,
    starting_bid: nat,
    highest_bidder: Seq<u8>,
    highest_bid: nat,
    bid_count: nat,
    admin: Seq<u8>,
    confirmation_window: nat,
    created_at: nat,
    exists_flag: bool,
)
    requires
        record_fields_fit(
            auction_address,
            seller,
            bidding_time_seconds,
            end_time,
            starting_bid,
            highest_bidder,
            highest_bid,
            bid_count,
            admin,
            confirmation_window,
            created_at,
        ),
    ensures
        ({
            let h = record_head(
        auction_address,
        seller,
        bidding_time_seconds,
        end_time,
        starting_bid,
        highest_bidder,
        highest_bid,
        bid_count,
        admin,
        confirmation_window,
        created_at,
        exists_flag,
            );
            &&& h.len() == 384
            &&& word_address(word_at(h, 0)) == auction_address
            &&& word_address(word_at(h, 1)) == seller
            &&& be_value(word_at(h, 2)) == bidding_time_seconds
            &&& be_value(word_at(h, 3)) == end_time
            &&& be_value(word_at(h, 4)) == starting_bid
            &&& word_address(word_at(h, 5)) == highest_bidder
            &&& be_value(word_at(h, 6)) == highest_bid
            &&& be_value(word_at(h, 7)) == bid_count
            &&& word_address(word_at(h, 8)) == admin
            &&& be_value(word_at(h, 9)) == confirmation_window
            &&& be_value(word_at(h, 10)) == created_at
            &&& word_nonzero(word_at(h, 11)) == exists_flag
        }),
{
    lemma_word_of_value(bidding_time_seconds);
    lemma_word_of_value(end_time);
    lemma_word_of_value(starting_bid);
    lemma_word_of_value(highest_bid);
    lemma_word_of_value(bid_count);
    lemma_word_of_value(confirmation_window);
    lemma_word_of_value(created_at);
    law_bool_word_reads_back(exists_flag);
    let h = record_head(
        auction_address,
        seller,
        bidding_time_seconds,
        end_time,
        starting_bid,
        highest_bidder,
        highest_bid,
        bid_count,
        admin,
        confirmation_window,
        created_at,
        exists_flag,
    );
    assert(word_at(h, 0) =~= address_word(auction_address));
    assert(word_at(h, 1) =~= address_word(seller));
    assert(word_at(h, 2) =~= word_of(bidding_time_seconds));
    assert(word_at(h, 3) =~= word_of(end_time));
    assert(word_at(h, 4) =~= word_of(starting_bid));
    assert(word_at(h, 5) =~= address_word(highest_bidder));
    assert(word_at(h, 6) =~= word_of(highest_bid));
    assert(word_at(h, 7) =~= word_of(bid_count));
    assert(word_at(h, 8) =~= address_word(admin));
    assert(word_at(h, 9) =~= word_of(confirmation_window));
    assert(word_at(h, 10) =~= word_of(created_at));
    assert(word_at(h, 11) =~= word_of(
        if exists_flag {
            1
        } else {
            0
        },
    ));
    assert(word_address(address_word(auction_address)) =~= auction_address);
    assert(word_address(address_word(seller)) =~= seller);
    assert(word_address(address_word(highest_bidder)) =~= highest_bidder);
    assert(word_address(address_word(admin)) =~= admin);
}

/// Where each part of an encoded record stands.
proof fn lemma_record_layout(
    auction_address: Seq<u8>,
    seller: Seq<u8>,
    bidding_time_seconds: nat,
    end_time: nat,
    starting_bid: nat,
    highest_bidder: Seq<u8>,
    highest_bid: nat,
    bid_count: nat,
    admin: Seq<u8>,
    confirmation_window: nat,
    created_at: nat,
    exists_flag: bool,
    title: Seq<u8>,
    description: Seq<u8>,
    image_placeholder: Seq<u8>,
)
    requires
        record_fields_fit(
            auction_address,
            seller,
            bidding_time_seconds,
            end_time,
            starting_bid,
            highest_bidder,
            highest_bid,
            bid_count,
            admin,
            confirmation_window,
            created_at,
        ),
        title.len() + description.len() + image_placeholder.len() <= DECODE_MEMORY_LIMIT,
    ensures
        ({
            let c = record_encoding(
        auction_address,
        seller,
        bidding_time_seconds,
        end_time,
        starting_bid,
        highest_bidder,
        highest_bid,
        bid_count,
        admin,
        confirmation_window,
        created_at,
        exists_flag,
                title,
                description,
                image_placeholder,
            );
            &&& c.len() >= 480
            &&& word_address(word_at(c, 0)) == auction_address
            &&& word_address(word_at(c, 1)) == seller
            &&& be_value(word_at(c, 2)) == bidding_time_seconds
            &&& be_value(word_at(c, 3)) == end_time
            &&& be_value(word_at(c, 4)) == starting_bid
            &&& word_address(word_at(c, 5)) == highest_bidder
            &&& be_value(word_at(c, 6)) == highest_bid
            &&& be_value(word_at(c, 7)) == bid_count
            &&& word_address(word_at(c, 8)) == admin
            &&& be_value(word_at(c, 9)) == confirmation_window
            &&& be_value(word_at(c, 10)) == created_at
            &&& word_nonzero(word_at(c, 11)) == exists_flag
            &&& dynamic_bytes_at(c, 384) == Some(title)
            &&& dynamic_bytes_at(c, 416) == Some(description)
            &&& dynamic_bytes_at(c, 448) == Some(image_placeholder)
        }),
{
    lemma_record_head_words(
        auction_address,
        seller,
        bidding_time_seconds,
        end_time,
        starting_bid,
        highest_bidder,
        highest_bid,
        bid_count,
        admin,
        confirmation_window,
        created_at,
        exists_flag,
    );
    let h = record_head(
        auction_address,
        seller,
        bidding_time_seconds,
        end_time,
        starting_bid,
        highest_bidder,
        highest_bid,
        bid_count,
        admin,
        confirmation_window,
        created_at,
        exists_flag,
    );
    let lt = dynamic_tail(title).len();
    let ld = dynamic_tail(description).len();
    lemma_word_of_usize(title.len());
    lemma_word_of_usize(description.len());
    lemma_word_of_usize(image_placeholder.len());
    assert(pad32(title).len() == padded_len(title.len()));
    assert(pad32(description).len() == padded_len(description.len()));
    assert(lt == 32 + padded_len(title.len()));
    assert(ld == 32 + padded_len(description.len()));
    lemma_word_of_usize(480);
    lemma_word_of_usize(480 + lt);
    lemma_word_of_usize(480 + lt + ld);
    let pre = h + word_of(480) + word_of(480 + lt) + word_of(480 + lt + ld);
    assert(pre.len() == 480);
    let c = record_encoding(
        auction_address,
        seller,
        bidding_time_seconds,
        end_time,
        starting_bid,
        highest_bidder,
        highest_bid,
        bid_count,
        admin,
        confirmation_window,
        created_at,
        exists_flag,
        title,
        description,
        image_placeholder,
    );
    let rest = dynamic_tail(title) + dynamic_tail(description) + dynamic_tail(image_placeholder);
    assert(c =~= h + (word_of(480) + word_of(480 + lt) + word_of(480 + lt + ld) + rest));
    assert forall|k: nat| k < 12 implies #[trigger] word_at(c, k) == word_at(h, k) by {
        assert(word_at(c, k) =~= word_at(h, k));
    }
    assert(word_at(c, 0) == word_at(h, 0));
    assert(word_at(c, 1) == word_at(h, 1));
    assert(word_at(c, 2) == word_at(h, 2));
    assert(word_at(c, 3) == word_at(h, 3));
    assert(word_at(c, 4) == word_at(h, 4));
    assert(word_at(c, 5) == word_at(h, 5));
    assert(word_at(c, 6) == word_at(h, 6));
    assert(word_at(c, 7) == word_at(h, 7));
    assert(word_at(c, 8) == word_at(h, 8));
    assert(word_at(c, 9) == word_at(h, 9));
    assert(word_at(c, 10) == word_at(h, 10));
    assert(word_at(c, 11) == word_at(h, 11));
    assert(pre.subrange(384, 416) =~= word_of(480));
    assert(c =~= pre + dynamic_tail(title) + (dynamic_tail(description) + dynamic_tail(
        image_placeholder,
    )));
    lemma_tail_reads_back(
        c,
        384,
        pre,
        title,
        dynamic_tail(description) + dynamic_tail(image_placeholder),
    );
    let pre2 = pre + dynamic_tail(title);
    assert(pre2.subrange(416, 448) =~= word_of(480 + lt));
    assert(c =~= pre2 + dynamic_tail(description) + dynamic_tail(image_placeholder));
    lemma_tail_reads_back(c, 416, pre2, description, dynamic_tail(image_placeholder));
    let pre3 = pre2 + dynamic_tail(description);
    assert(pre3.subrange(448, 480) =~= word_of(480 + lt + ld));
    assert(c =~= pre3 + dynamic_tail(image_placeholder) + Seq::<u8>::empty());
    lemma_tail_reads_back(c, 448, pre3, image_placeholder, Seq::<u8>::empty());
}

/// The record that the return data of `getAuctionRegistryItem` or
/// `getAuctionByIndex` holds: the head word is the offset of the record.
pub open spec fn item_buffer(d: Seq<u8>) -> Option<Seq<u8>> {
    match offset_at(d, 0) {
        Some(o) => if o <= d.len() {
            Some(d.skip(o as int))
        } else {
            None
        },
        None => None,
    }
}

/// Reading the return data `d` of a function returning one record: the
/// head word is the offset of the record. Gives the memory claimed, or
/// the first failure.
pub open spec fn item_return_read(d: Seq<u8>) -> Result<nat, DecodeFailure> {
    match offset_read(d, 0) {
        Err(f) => Err(f),
        Ok(o) => if o <= d.len() {
            item_read(d.skip(o as int), 0)
        } else {
            Err(DecodeFailure::Overrun)
        },
    }
}

/// Whether the return data `d` of a function returning one record decodes.
pub open spec fn item_return_ok(d: Seq<u8>) -> bool {
    item_return_read(d) is Ok
}

/// Decodes the return data of a function returning one registry record.
pub fn decode_registry_item_return(data: &[u8]) -> (r: Result<AuctionRegistryItem, AbiError>)
    ensures
        match r {
            Ok(item) => item_return_ok(data@) && item_decodes(item_buffer(data@)->Some_0, item),
            Err(e) => item_return_read(data@) == Err::<nat, DecodeFailure>(failure_of(e)),
        },
{
    let o = read_offset(data, 0)?;
    if o > data.len() {
        return Err(AbiError::Overrun);
    }
    let c = slice_subrange(data, o, data.len());
    assert(c@ =~= data@.skip(o as int));
    let (item, _) = decode_item_at(c, 0)?;
    Ok(item)
}

/// The bytes in `d` at and after its `k`-th element offset; elements of an
/// array of records are located by offsets counted from just after the
/// length word.
pub open spec fn element_buffer(e: Seq<u8>, k: nat) -> Option<Seq<u8>> {
    match offset_at(e, 32 * k) {
        Some(o) => if o <= e.len() {
            Some(e.skip(o as int))
        } else {
            None
        },
        None => None,
    }
}

/// The memory that the decoder claims for each record of an array before
/// it reads them: the size of its fifteen-token tuple on 64-bit targets
/// (twelve 32-byte words and three slice references).
pub const RECORD_TOKEN_BYTES: usize = 432;

/// Reading the head of the return data of a function returning an array
/// of records: the offset of the array, its length, and that the data
/// holds one offset word per element and the elements' tokens fit within
/// the memory limit. Gives the array body and the length.
pub open spec fn item_array_read(d: Seq<u8>) -> Result<(Seq<u8>, nat), DecodeFailure> {
    match offset_read(d, 0) {
        Err(f) => Err(f),
        Ok(o) => if o <= d.len() {
            let c = d.skip(o as int);
            match offset_read(c, 0) {
                Err(f) => Err(f),
                Ok(n) => {
                    let e = c.skip(32);
                    if n > e.len() / 32 {
                        Err(DecodeFailure::Overrun)
                    } else if n * RECORD_TOKEN_BYTES > DECODE_MEMORY_LIMIT {
                        Err(DecodeFailure::MemoryLimit)
                    } else {
                        Ok((e, n))
                    }
                },
            }
        } else {
            Err(DecodeFailure::Overrun)
        },
    }
}

/// The array body and length, when the head reads.
pub open spec fn item_array(d: Seq<u8>) -> Option<(Seq<u8>, nat)> {
    match item_array_read(d) {
        Ok(x) => Some(x),
        Err(_) => None,
    }
}

/// Reading the `k`-th element of the array body `e` with `used` bytes
/// claimed: its offset word, then the record there.
pub open spec fn element_read(e: Seq<u8>, k: nat, used: nat) -> Result<nat, DecodeFailure> {
    match offset_read(e, 32 * k) {
        Err(f) => Err(f),
        Ok(o) => if o <= e.len() {
            item_read(e.skip(o as int), used)
        } else {
            Err(DecodeFailure::Overrun)
        },
    }
}

/// Reading the elements `k`, `k + 1`, ... up to `n` of the array body `e`
/// in turn, with `used` bytes claimed before them.
pub open spec fn elements_read(e: Seq<u8>, n: nat, k: nat, used: nat) -> Result<nat, DecodeFailure>
    decreases n - k,
{
    if k >= n {
        Ok(used)
    } else {
        match element_read(e, k, used) {
            Err(f) => Err(f),
            Ok(u) => elements_read(e, n, k + 1, u),
        }
    }
}

/// Reading the return data `d` of a function returning an array of records:
/// the head, then every element in turn. Gives the memory claimed, or the
/// first failure.
pub open spec fn item_array_result(d: Seq<u8>) -> Result<nat, DecodeFailure> {
    match item_array_read(d) {
        Err(f) => Err(f),
        Ok((e, n)) => elements_read(e, n, 0, (n * RECORD_TOKEN_BYTES) as nat),
    }
}

/// Whether the return data `d` of a function returning an array of records
/// decodes.
pub open spec fn item_array_ok(d: Seq<u8>) -> bool {
    item_array_result(d) is Ok
}

/// Whether `items` are the records that the array return data `d` holds.
pub open spec fn items_decode(d: Seq<u8>, items: Seq<AuctionRegistryItem>) -> bool {
    match item_array(d) {
        Some((e, n)) => items.len() == n && forall|k: int|
            0 <= k < n ==> item_decodes(element_buffer(e, k as nat)->Some_0, #[trigger] items[k]),
        None => false,
    }
}

/// Decodes the return data of a function returning an array of records.
pub fn decode_registry_items_return(data: &[u8]) -> (r: Result<Vec<AuctionRegistryItem>, AbiError>)
    ensures
        match r {
            Ok(items) => item_array_ok(data@) && items_decode(data@, items@),
            Err(e) => item_array_result(data@) == Err::<nat, DecodeFailure>(failure_of(e)),
        },
{
    let o = read_offset(data, 0)?;
    if o > data.len() {
        return Err(AbiError::Overrun);
    }
    let c = slice_subrange(data, o, data.len());
    assert(c@ =~= data@.skip(o as int));
    let n = read_offset(c, 0)?;
    let e = slice_subrange(c, 32, c.len());
    assert(e@ =~= c@.skip(32));
    if n > e.len() / 32 {
        return Err(AbiError::Overrun);
    }
    if n > DECODE_MEMORY_LIMIT / RECORD_TOKEN_BYTES {
        assert(n * RECORD_TOKEN_BYTES > DECODE_MEMORY_LIMIT) by (nonlinear_arith)
            requires
                n > DECODE_MEMORY_LIMIT / RECORD_TOKEN_BYTES,
                DECODE_MEMORY_LIMIT == 1073741824,
                RECORD_TOKEN_BYTES == 432,
        ;
        return Err(AbiError::MemoryLimitExceeded);
    }
    assert(32 * n <= e@.len()) by (nonlinear_arith)
        requires
            n <= e@.len() / 32,
    ;
    assert(n * RECORD_TOKEN_BYTES <= DECODE_MEMORY_LIMIT) by (nonlinear_arith)
        requires
            n <= DECODE_MEMORY_LIMIT / RECORD_TOKEN_BYTES,
    ;
    assert(item_array_read(data@) == Ok::<(Seq<u8>, nat), DecodeFailure>((e@, n as nat)));
    let mut used: usize = n * RECORD_TOKEN_BYTES;
    let mut items: Vec<AuctionRegistryItem> = Vec::new();
    let mut k: usize = 0;
    while k < n
        invariant
            k <= n,
            32 * n <= e.len(),
            item_array_read(data@) == Ok::<(Seq<u8>, nat), DecodeFailure>((e@, n as nat)),
            used <= DECODE_MEMORY_LIMIT,
            elements_read(e@, n as nat, k as nat, used as nat) == item_array_result(data@),
            items@.len() == k,
            forall|j: int|
                0 <= j < k ==> item_decodes(
                    element_buffer(e@, j as nat)->Some_0,
                    #[trigger] items@[j],
                ),
        decreases n - k,
    {
        assert(32 * k + 32 <= 32 * n) by (nonlinear_arith)
            requires
                k < n,
        ;
        let ok = read_offset(e, 32 * k)?;
        if ok > e.len() {
            return Err(AbiError::Overrun);
        }
        let ec = slice_subrange(e, ok, e.len());
        assert(ec@ =~= e@.skip(ok as int));
        assert(element_buffer(e@, k as nat) == Some(ec@));
        let (item, u) = decode_item_at(ec, used)?;
        items.push(item);
        used = u;
        k = k + 1;
    }
    Ok(items)
}

// ---------------------------------------------------------------------
// Registry calls
// ---------------------------------------------------------------------

/// The `auctionCount()` call.
pub fn auction_count_call(factory_address: Address) -> (r: TransactionRequest)
    ensures
        r.from is None,
        r.to == factory_address,
        r.value is None,
        r.input@ == selector_of("auctionCount()"@),
{
    call_request(factory_address, encode_call("auctionCount()"))
}

/// The number of registered auctions in the call's return data.
pub fn decode_auction_count(data: &[u8]) -> (r: Result<U256, AbiError>)
    ensures
        match r {
            Ok(v) => uint256_return(data@) == Some(v.be@),
            Err(e) => uint256_return(data@) is None && e == AbiError::Overrun,
        },
{
    decode_uint256_return(data)
}

/// The `getAuctions()` call.
pub fn get_auctions_call(factory_address: Address) -> (r: TransactionRequest)
    ensures
        r.from is None,
        r.to == factory_address,
        r.value is None,
        r.input@ == selector_of("getAuctions()"@),
{
    call_request(factory_address, encode_call("getAuctions()"))
}

/// The auction addresses in the return data of `getAuctions()` or
/// `getAuctionsBySeller(address)`.
pub fn decode_auction_addresses(data: &[u8]) -> (r: Result<Vec<Address>, AbiError>)
    ensures
        match r {
            Ok(v) => address_array_return(data@) == Ok::<Seq<Seq<u8>>, DecodeFailure>(
                v@.map_values(|a: Address| a@),
            ),
            Err(e) => address_array_return(data@) == Err::<Seq<Seq<u8>>, DecodeFailure>(
                failure_of(e),
            ),
        },
{
    decode_address_array_return(data)
}

/// The `getAuctionRegistryItem(address)` call for one auction.
pub fn auction_registry_item_call(factory_address: Address, auction_address: Address) -> (r:
    TransactionRequest)
    ensures
        r.from is None,
        r.to == factory_address,
        r.value is None,
        r.input@ == selector_of("getAuctionRegistryItem(address)"@) + address_word(
            auction_address@,
        ),
{
    call_request(
        factory_address,
        encode_call_address("getAuctionRegistryItem(address)", &auction_address),
    )
}

/// The `getAuctionByIndex(uint256)` call.
pub fn auction_by_index_call(factory_address: Address, index: U256) -> (r: TransactionRequest)
    ensures
        r.from is None,
        r.to == factory_address,
        r.value is None,
        r.input@ == selector_of("getAuctionByIndex(uint256)"@) + index.be@,
{
    call_request(factory_address, encode_call_uint("getAuctionByIndex(uint256)", &index))
}

/// The client form of the record in the return data of
/// `getAuctionRegistryItem(address)` or `getAuctionByIndex(uint256)`.
pub fn decode_registry_auction(data: &[u8]) -> (r: Result<RegistryAuction, AbiError>)
    ensures
        match r {
            Ok(a) => item_return_ok(data@) && exists|item: AuctionRegistryItem|
                #[trigger] item_decodes(item_buffer(data@)->Some_0, item) && maps_item(item, a),
            Err(e) => item_return_read(data@) == Err::<nat, DecodeFailure>(failure_of(e)),
        },
{
    let item = decode_registry_item_return(data)?;
    let ghost g = item;
    let a = map_registry_item(item);
    assert(item_decodes(item_buffer(data@)->Some_0, g) && maps_item(g, a));
    assert(exists|item: AuctionRegistryItem|
        #[trigger] item_decodes(item_buffer(data@)->Some_0, item) && maps_item(item, a));
    Ok(a)
}

/// The `getAuctionsPaginated(uint256,uint256)` call.
pub fn auctions_paginated_call(factory_address: Address, offset: U256, limit: U256) -> (r:
    TransactionRequest)
    ensures
        r.from is None,
        r.to == factory_address,
        r.value is None,
        r.input@ == selector_of("getAuctionsPaginated(uint256,uint256)"@) + offset.be@ + limit.be@,
{
    call_request(
        factory_address,
        encode_call_uint_uint("getAuctionsPaginated(uint256,uint256)", &offset, &limit),
    )
}

/// The client form of the records in the return data of
/// `getAuctionsPaginated(uint256,uint256)`, in order.
pub fn decode_registry_auctions(data: &[u8]) -> (r: Result<Vec<RegistryAuction>, AbiError>)
    ensures
        match r {
            Ok(v) => item_array_ok(data@) && exists|items: Seq<AuctionRegistryItem>|
                items_decode(data@, items) && items.len() == v@.len() && forall|k: int|
                    0 <= k < items.len() ==> maps_item(#[trigger] items[k], v@[k]),
            Err(e) => item_array_result(data@) == Err::<nat, DecodeFailure>(failure_of(e)),
        },
{
    let items = decode_registry_items_return(data)?;
    let ghost gs = items@;
    let mut out: Vec<RegistryAuction> = Vec::new();
    let mut rest = items;
    let n = rest.len();
    let mut k: usize = 0;
    while k < n
        invariant
            k <= n,
            n == gs.len(),
            rest@ == gs.subrange(k as int, n as int),
            out@.len() == k,
            forall|j: int| 0 <= j < k ==> maps_item(gs[j], #[trigger] out@[j]),
        decreases n - k,
    {
        let item = rest.remove(0);
        assert(item == gs[k as int]);
        out.push(map_registry_item(item));
        k = k + 1;
        assert(rest@ =~= gs.subrange(k as int, n as int));
    }
    assert(items_decode(data@, gs));
    Ok(out)
}

/// The `getAuctionsBySeller(address)` call.
pub fn auctions_by_seller_call(factory_address: Address, seller: Address) -> (r: TransactionRequest)
    ensures
        r.from is None,
        r.to == factory_address,
        r.value is None,
        r.input@ == selector_of("getAuctionsBySeller(address)"@) + address_word(seller@),
{
    call_request(factory_address, encode_call_address("getAuctionsBySeller(address)", &seller))
}

/// The `isRegisteredAuction(address)` call.
pub fn is_registered_auction_call(factory_address: Address, auction_address: Address) -> (r:
    TransactionRequest)
    ensures
        r.from is None,
        r.to == factory_address,
        r.value is None,
        r.input@ == selector_of("isRegisteredAuction(address)"@) + address_word(auction_address@),
{
    call_request(
        factory_address,
        encode_call_address("isRegisteredAuction(address)", &auction_address),
    )
}

/// Whether the auction is registered, read from the call's return data.
pub fn decode_is_registered(data: &[u8]) -> (r: Result<bool, AbiError>)
    ensures
        match r {
            Ok(b) => bool_return(data@) == Some(b),
            Err(e) => bool_return(data@) is None && e == AbiError::Overrun,
        },
{
    decode_bool_return(data)
}

} // verus!
