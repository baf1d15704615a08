use vstd::prelude::*;
use crate::addr::Address;
use crate::errors::ErrorCode;
use crate::math::lemma_bps_fraction_le;

verus! {

/// Maximum age of an oracle quote, in seconds.
pub const ORACLE_MAX_AGE_SECS: u64 = 60;

/// Maximum confidence interval, in basis points of the price.
pub const MAX_CONF_BPS: u64 = 200;

/// One oracle quote: price and confidence at a decimal exponent, with
/// its publish time.
#[derive(Clone, Copy, PartialEq, Eq, Structural, Debug)]
pub struct OracleReading {
    pub price: i64,
    pub conf: u64,
    pub expo: i32,
    pub publish_time: i64,
}

/// What a read of a price-feed account yields: bytes that are not a
/// valid price account, a quote older than the age bound, or a fresh
/// quote.
#[derive(Clone, Copy, PartialEq, Eq, Structural, Debug)]
pub enum FeedReadOutcome {
    Unreadable,
    Stale,
    Fresh(OracleReading),
}

/// A price-feed account as a handler receives it: its address, the
/// program owning it, and its raw data bytes.
#[derive(Clone, Debug)]
pub struct FeedAccount {
    pub addr: Address,
    pub owner: Address,
    pub data: Vec<u8>,
}

/// The outcome of decoding price-feed bytes `data` and asking for a
/// quote no older than `max_age` seconds from `now`.  The decoding is
/// the oracle provider's and takes pages to state, but it is a function
/// of these three arguments alone, so it is named here and supplied by
/// `read_price_feed`.
pub uninterp spec fn pyth_feed_read(data: Seq<u8>, now: i64, max_age: u64) -> FeedReadOutcome;

/// Relies on pyth_sdk_solana's `load_price_account` (rejecting bytes
/// without the magic, version and account-type markers) and pyth_sdk's
/// `PriceFeed::get_price_no_older_than` (returning the latest quote only
/// when its publish time is within `max_age` seconds of `now`).
#[verifier::external_body]
pub fn read_price_feed(data: &Vec<u8>, now: i64, max_age: u64) -> (r: FeedReadOutcome)
    ensures
        r == pyth_feed_read(data@, now, max_age),
{
    match pyth_sdk_solana::state::load_price_account::<32, ()>(data.as_slice()) {
        Err(_) => FeedReadOutcome::Unreadable,
        Ok(acc) => {
            let feed = acc.to_price_feed(&Default::default());
            match feed.get_price_no_older_than(now, max_age) {
                None => FeedReadOutcome::Stale,
                Some(p) => FeedReadOutcome::Fresh(
                    OracleReading { price: p.price, conf: p.conf, expo: p.expo, publish_time: p.publish_time },
                ),
            }
        },
    }
}

/// The program's own checks on a fresh quote: the price must be
/// positive, and the confidence interval at most `MAX_CONF_BPS` basis
/// points of the price.
pub open spec fn spec_validate_reading(r: OracleReading) -> Result<OracleReading, ErrorCode> {
    if r.price <= 0 {
        Err(ErrorCode::InvalidOracle)
    } else if r.conf > r.price * MAX_CONF_BPS / 10_000 {
        Err(ErrorCode::InvalidOracleConfidence)
    } else {
        Ok(r)
    }
}

/// A full oracle load, as every pricing site performs it: decode and
/// age-check through `pyth_feed_read`, then validate price and
/// confidence.  Unreadable bytes are `InvalidOracle`, an old quote is
/// `StaleOracle`.
pub open spec fn spec_load_price(data: Seq<u8>, now: i64) -> Result<OracleReading, ErrorCode> {
    match pyth_feed_read(data, now, ORACLE_MAX_AGE_SECS) {
        FeedReadOutcome::Unreadable => Err(ErrorCode::InvalidOracle),
        FeedReadOutcome::Stale => Err(ErrorCode::StaleOracle),
        FeedReadOutcome::Fresh(r) => spec_validate_reading(r),
    }
}

pub fn load_price(data: &Vec<u8>, now: i64) -> (r: Result<OracleReading, ErrorCode>)
    ensures
        r == spec_load_price(data@, now),
{
    match read_price_feed(data, now, ORACLE_MAX_AGE_SECS) {
        FeedReadOutcome::Unreadable => Err(ErrorCode::InvalidOracle),
        FeedReadOutcome::Stale => Err(ErrorCode::StaleOracle),
        FeedReadOutcome::Fresh(reading) => {
            if reading.price <= 0 {
                return Err(ErrorCode::InvalidOracle);
            }
            proof {
                lemma_bps_fraction_le(reading.price as int, MAX_CONF_BPS as int);
            }
            let max_conf: u64 = ((reading.price as u128) * (MAX_CONF_BPS as u128) / 10_000u128)
                as u64;
            if reading.conf > max_conf {
                return Err(ErrorCode::InvalidOracleConfidence);
            }
            Ok(reading)
        },
    }
}

} // verus!
