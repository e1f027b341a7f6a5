//! Configuration from environment variables: required values, numbers
//! with defaults, and the starting bid. The variables themselves are read
//! by the caller into an `EnvVars`.

use vstd::prelude::*;
use crate::primitives::{U256, decimal_error_text, parse_u256_decimal, u256_from_decimal_str};
use crate::text::chars_of;

verus! {

/// A snapshot of environment variables, as name/value pairs.
pub struct EnvVars {
    pub entries: Vec<(String, String)>,
}

/// The value of the first entry named `key`.
pub open spec fn env_lookup(entries: Seq<(String, String)>, key: Seq<char>) -> Option<Seq<char>>
    decreases entries.len(),
{
    if entries.len() == 0 {
        None
    } else if entries[0].0@ == key {
        Some(entries[0].1@)
    } else {
        env_lookup(entries.drop_first(), key)
    }
}

impl EnvVars {
    /// The value of the variable `key`, if set.
    pub fn var(&self, key: &str) -> (r: Option<String>)
        ensures
            match r {
                Some(v) => env_lookup(self.entries@, key@) == Some(v@),
                None => env_lookup(self.entries@, key@) is None,
            },
    {
        let k = String::from_str(key);
        let n = self.entries.len();
        let mut i: usize = 0;
        assert(self.entries@.skip(0) =~= self.entries@);
        while i < n
            invariant
                i <= n,
                n == self.entries@.len(),
                k@ == key@,
                env_lookup(self.entries@.skip(i as int), key@) == env_lookup(self.entries@, key@),
            decreases n - i,
        {
            assert(self.entries@.skip(i as int).drop_first() =~= self.entries@.skip(i + 1));
            if self.entries[i].0 == k {
                return Some(self.entries[i].1.clone());
            }
            i = i + 1;
        }
        None
    }
}

/// Why a text is not a `u64`, as std's `IntErrorKind` tells it.
#[derive(Clone, Copy, Debug, PartialEq, Eq)]
pub enum IntErrorKind {
    Empty,
    InvalidDigit,
    PosOverflow,
}

impl IntErrorKind {
    /// std's description of the error.
    pub open spec fn message_spec(&self) -> Seq<char> {
        match self {
            IntErrorKind::Empty => "cannot parse integer from empty string"@,
            IntErrorKind::InvalidDigit => "invalid digit found in string"@,
            IntErrorKind::PosOverflow => "number too large to fit in target type"@,
        }
    }

    /// std's description of the error.
    pub fn message(&self) -> (s: String)
        ensures
            s@ == self.message_spec(),
    {
        match self {
            IntErrorKind::Empty => String::from_str("cannot parse integer from empty string"),
            IntErrorKind::InvalidDigit => String::from_str("invalid digit found in string"),
            IntErrorKind::PosOverflow => String::from_str("number too large to fit in target type"),
        }
    }
}

/// Reading decimal digits from the left onto `acc`, as std does: a
/// non-digit is an invalid digit; a value past `u64::MAX` an overflow.
pub open spec fn scan_u64(s: Seq<char>, acc: nat) -> Result<nat, IntErrorKind>
    decreases s.len(),
{
    if s.len() == 0 {
        Ok(acc)
    } else if !('0' <= s[0] && s[0] <= '9') {
        Err(IntErrorKind::InvalidDigit)
    } else if acc * 10 + (s[0] as nat - 48) > u64::MAX {
        Err(IntErrorKind::PosOverflow)
    } else {
        scan_u64(s.drop_first(), (acc * 10 + (s[0] as nat - 48)) as nat)
    }
}

/// What `s.parse::<u64>()` gives: empty text is an error, a lone sign is
/// an invalid digit, one leading `+` is allowed, then decimal digits.
pub open spec fn parse_u64_spec(s: Seq<char>) -> Result<nat, IntErrorKind> {
    if s.len() == 0 {
        Err(IntErrorKind::Empty)
    } else if (s[0] == '+' || s[0] == '-') && s.len() == 1 {
        Err(IntErrorKind::InvalidDigit)
    } else if s[0] == '+' {
        scan_u64(s.drop_first(), 0)
    } else {
        scan_u64(s, 0)
    }
}

/// Parses a `u64` as `str::parse` does.
pub fn parse_u64(s: &str) -> (r: Result<u64, IntErrorKind>)
    ensures
        match r {
            Ok(v) => parse_u64_spec(s@) == Ok::<nat, IntErrorKind>(v as nat),
            Err(e) => parse_u64_spec(s@) == Err::<nat, IntErrorKind>(e),
        },
{
    let cs = chars_of(s);
    let n = cs.len();
    if n == 0 {
        return Err(IntErrorKind::Empty);
    }
    if (cs[0] == '+' || cs[0] == '-') && n == 1 {
        return Err(IntErrorKind::InvalidDigit);
    }
    let mut i: usize = 0;
    if cs[0] == '+' {
        i = 1;
    }
    let ghost start = cs@.skip(i as int);
    assert(parse_u64_spec(s@) == scan_u64(start, 0)) by {
        if cs@[0] == '+' {
            assert(start =~= cs@.drop_first());
        } else {
            assert(start =~= cs@);
        }
    }
    let mut acc: u64 = 0;
    while i < n
        invariant
            i <= n,
            n == cs@.len(),
            parse_u64_spec(s@) == scan_u64(start, 0),
            scan_u64(cs@.skip(i as int), acc as nat) == scan_u64(start, 0),
        decreases n - i,
    {
        let c = cs[i];
        let ghost rest = cs@.skip(i as int);
        assert(rest[0] == c);
        assert(rest.drop_first() =~= cs@.skip(i + 1));
        if !('0' <= c && c <= '9') {
            return Err(IntErrorKind::InvalidDigit);
        }
        let d = (c as u32 - 48) as u128;
        let next: u128 = (acc as u128) * 10 + d;
        if next > u64::MAX as u128 {
            return Err(IntErrorKind::PosOverflow);
        }
        acc = next as u64;
        i = i + 1;
    }
    assert(cs@.skip(n as int) =~= Seq::<char>::empty());
    Ok(acc)
}

/// Why the configuration could not be read.
pub enum ConfigError {
    /// A required variable is not set.
    Missing { key: String },
    /// A numeric variable is set to text that is not a `u64`.
    InvalidNumber { key: String, raw: String, kind: IntErrorKind },
    /// The starting bid is set to text that is not a 256-bit decimal; the
    /// reason is alloy's error text.
    InvalidStartingBid { raw: String, reason: String },
}

impl ConfigError {
    /// The text of the error.
    pub fn message(&self) -> (s: String)
        ensures
            match self {
                ConfigError::Missing { key } => s@ == "Missing required environment variable: "@
                    + key@,
                ConfigError::InvalidNumber { key, raw, kind } => s@ == "Invalid "@ + key@
                    + " value '"@ + raw@ + "': "@ + kind.message_spec(),
                ConfigError::InvalidStartingBid { raw, reason } => s@
                    == "Invalid STARTING_BID_WEI value '"@ + raw@ + "': "@ + reason@,
            },
    {
        match self {
            ConfigError::Missing { key } => String::from_str(
                "Missing required environment variable: ",
            ).concat(key.as_str()),
            ConfigError::InvalidNumber { key, raw, kind } => {
                let reason = kind.message();
                String::from_str("Invalid ").concat(key.as_str()).concat(" value '").concat(
                    raw.as_str(),
                ).concat("': ").concat(reason.as_str())
            },
            ConfigError::InvalidStartingBid { raw, reason } => String::from_str(
                "Invalid STARTING_BID_WEI value '",
            ).concat(raw.as_str()).concat("': ").concat(reason.as_str()),
        }
    }
}

/// Whether `r` is what a required variable `key` reads as: its value, or
/// the error naming it when it is not set.
pub open spec fn required_outcome(
    entries: Seq<(String, String)>,
    key: Seq<char>,
    r: Result<String, ConfigError>,
) -> bool {
    match env_lookup(entries, key) {
        Some(v) => r matches Ok(s) && s@ == v,
        None => r matches Err(ConfigError::Missing { key: k }) && k@ == key,
    }
}

/// The value of a required variable.
pub fn required_var(env: &EnvVars, key: &str) -> (r: Result<String, ConfigError>)
    ensures
        required_outcome(env.entries@, key@, r),
{
    match env.var(key) {
        Some(v) => Ok(v),
        None => Err(ConfigError::Missing { key: String::from_str(key) }),
    }
}

/// Whether `r` is what an optional `u64` variable `key` with the given
/// default reads as.
pub open spec fn optional_u64_outcome(
    entries: Seq<(String, String)>,
    key: Seq<char>,
    default_value: u64,
    r: Result<u64, ConfigError>,
) -> bool {
    match env_lookup(entries, key) {
        None => r == Ok::<u64, ConfigError>(default_value),
        Some(raw) => match parse_u64_spec(raw) {
            Ok(v) => r matches Ok(x) && x as nat == v,
            Err(kind) => r matches Err(ConfigError::InvalidNumber { key: k, raw: w, kind: e })
                && k@ == key && w@ == raw && e == kind,
        },
    }
}

/// The value of an optional `u64` variable, or `default_value` when unset.
pub fn optional_u64_var(env: &EnvVars, key: &str, default_value: u64) -> (r: Result<
    u64,
    ConfigError,
>)
    ensures
        optional_u64_outcome(env.entries@, key@, default_value, r),
{
    match env.var(key) {
        None => Ok(default_value),
        Some(raw) => match parse_u64(raw.as_str()) {
            Ok(v) => Ok(v),
            Err(kind) => Err(ConfigError::InvalidNumber { key: String::from_str(key), raw, kind }),
        },
    }
}

/// The JSON-RPC endpoint (`RPC_URL`, required).
pub fn get_rpc_url(env: &EnvVars) -> (r: Result<String, ConfigError>)
    ensures
        required_outcome(env.entries@, "RPC_URL"@, r),
{
    required_var(env, "RPC_URL")
}

/// The factory contract address (`FACTORY_ADDRESS`, required).
pub fn get_factory_address(env: &EnvVars) -> (r: Result<String, ConfigError>)
    ensures
        required_outcome(env.entries@, "FACTORY_ADDRESS"@, r),
{
    required_var(env, "FACTORY_ADDRESS")
}

/// The seller wallet address (`SELLER_ADDRESS`, required).
pub fn get_seller_address(env: &EnvVars) -> (r: Result<String, ConfigError>)
    ensures
        required_outcome(env.entries@, "SELLER_ADDRESS"@, r),
{
    required_var(env, "SELLER_ADDRESS")
}

/// The bidder wallet address (`BIDDER_ADDRESS`, required).
pub fn get_bidder_address(env: &EnvVars) -> (r: Result<String, ConfigError>)
    ensures
        required_outcome(env.entries@, "BIDDER_ADDRESS"@, r),
{
    required_var(env, "BIDDER_ADDRESS")
}

/// The deployed auction address (`AUCTION_ADDRESS`, required).
pub fn get_auction_address(env: &EnvVars) -> (r: Result<String, ConfigError>)
    ensures
        required_outcome(env.entries@, "AUCTION_ADDRESS"@, r),
{
    required_var(env, "AUCTION_ADDRESS")
}

/// The administrator wallet address (`ADMIN_ADDRESS`, required).
pub fn get_admin_address(env: &EnvVars) -> (r: Result<String, ConfigError>)
    ensures
        required_outcome(env.entries@, "ADMIN_ADDRESS"@, r),
{
    required_var(env, "ADMIN_ADDRESS")
}

/// The bidding duration in seconds (`BIDDING_TIME_SECONDS`, default 3600).
pub fn get_bidding_time_seconds(env: &EnvVars) -> (r: Result<u64, ConfigError>)
    ensures
        optional_u64_outcome(env.entries@, "BIDDING_TIME_SECONDS"@, 3600, r),
{
    optional_u64_var(env, "BIDDING_TIME_SECONDS", 3600)
}

/// The buyer-confirmation window in seconds (`CONFIRMATION_WINDOW`,
/// default 259200, 72 hours).
pub fn get_confirmation_window(env: &EnvVars) -> (r: Result<u64, ConfigError>)
    ensures
        optional_u64_outcome(env.entries@, "CONFIRMATION_WINDOW"@, 259200, r),
{
    optional_u64_var(env, "CONFIRMATION_WINDOW", 259200)
}

/// The registry page size (`REGISTRY_PAGE_LIMIT`, default 20).
pub fn get_registry_page_limit(env: &EnvVars) -> (r: Result<u64, ConfigError>)
    ensures
        optional_u64_outcome(env.entries@, "REGISTRY_PAGE_LIMIT"@, 20, r),
{
    optional_u64_var(env, "REGISTRY_PAGE_LIMIT", 20)
}

/// The starting bid in wei (`STARTING_BID_WEI`, decimal, default one
/// ether: 10^18).
pub fn get_starting_bid_wei(env: &EnvVars) -> (r: Result<U256, ConfigError>)
    ensures
        ({
            let raw = match env_lookup(env.entries@, "STARTING_BID_WEI"@) {
                Some(v) => v,
                None => "1000000000000000000"@,
            };
            match parse_u256_decimal(raw) {
                Some(v) => r matches Ok(x) && x@ == v,
                None => r matches Err(ConfigError::InvalidStartingBid { raw: w, reason: m }) && w@
                    == raw && (decimal_error_text(raw) matches Some(t) ==> m@ == t),
            }
        }),
{
    let raw = match env.var("STARTING_BID_WEI") {
        Some(v) => v,
        None => String::from_str("1000000000000000000"),
    };
    match u256_from_decimal_str(raw.as_str()) {
        Ok(v) => Ok(v),
        Err(reason) => Err(ConfigError::InvalidStartingBid { raw, reason }),
    }
}

} // verus!
