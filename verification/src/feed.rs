//! A minimal owned price feed: the record the oracle adapter serves answers
//! from, usable as a stand-in feed in test deployments.

use vstd::prelude::*;

verus! {

/// An owned SOL/USD price feed record.
pub struct PriceFeed {
    /// Identity allowed to publish new answers.
    pub owner: u64,
    /// Latest published price (8 decimals, signed).
    pub latest_answer: i128,
    /// Round counter, starting at 1.
    pub latest_round: u128,
    /// Time the feed was created.
    pub started_at: i64,
    /// Time of the latest answer.
    pub updated_at: i64,
    /// Round that produced the latest answer.
    pub answered_in_round: u128,
}

/// One read of the feed: the latest round's data.
pub struct Round {
    /// Round counter at the read.
    pub round_id: u128,
    /// The price answer (8 decimals, signed).
    pub answer: i128,
    /// Time the feed was created.
    pub started_at: i64,
    /// Time of the answer.
    pub updated_at: i64,
    /// Round that produced the answer.
    pub answered_in_round: u128,
}

/// Errors of the feed.
#[derive(Clone, Copy, Debug, PartialEq, Eq, Structural)]
pub enum FeedError {
    /// Caller does not own the feed.
    Unauthorized,
    /// Malformed feed record.
    InvalidAccountData,
}

/// Creates a feed owned by `owner` with an initial price.
pub fn initialize(owner: u64, initial_price: i128, now: i64) -> (feed: PriceFeed)
    ensures
        feed.owner == owner,
        feed.latest_answer == initial_price,
        feed.latest_round == 1,
        feed.started_at == now,
        feed.updated_at == now,
        feed.answered_in_round == 1,
{
    PriceFeed {
        owner,
        latest_answer: initial_price,
        latest_round: 1,
        started_at: now,
        updated_at: now,
        answered_in_round: 1,
    }
}

/// Owner-only: publishes a new price, advancing the round counter.
pub fn update_price(feed: &mut PriceFeed, caller: u64, price: i128, now: i64) -> (r: Result<
    (),
    FeedError,
>)
    requires
        old(feed).latest_round < u128::MAX,
    ensures
        r is Ok <==> caller == old(feed).owner,
        r matches Err(e) ==> e == FeedError::Unauthorized && *final(feed) == *old(feed),
        r is Ok ==> *final(feed) == (PriceFeed {
            latest_answer: price,
            latest_round: (old(feed).latest_round + 1) as u128,
            updated_at: now,
            answered_in_round: (old(feed).latest_round + 1) as u128,
            ..*old(feed)
        }),
{
    if feed.owner != caller {
        return Err(FeedError::Unauthorized);
    }
    feed.latest_answer = price;
    feed.latest_round = feed.latest_round + 1;
    feed.updated_at = now;
    feed.answered_in_round = feed.latest_round;
    Ok(())
}

/// Reads the latest round's data.
pub fn latest_round_data(feed: &PriceFeed) -> (r: Round)
    ensures
        r.round_id == feed.latest_round,
        r.answer == feed.latest_answer,
        r.started_at == feed.started_at,
        r.updated_at == feed.updated_at,
        r.answered_in_round == feed.answered_in_round,
{
    Round {
        round_id: feed.latest_round,
        answer: feed.latest_answer,
        started_at: feed.started_at,
        updated_at: feed.updated_at,
        answered_in_round: feed.answered_in_round,
    }
}

} // verus!
