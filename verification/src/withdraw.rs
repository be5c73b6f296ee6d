use vstd::prelude::*;

verus! {

/// Seconds after which a price round counts as abandoned: a day.
pub const ABANDONED_ROUND_SECONDS: i64 = 86400;

/// Seconds after which a price is too old to release funds on.
pub const MAX_STALENESS_SECONDS: i64 = 300;

/// Why the escrow rules refuse a withdrawal.
#[derive(Clone, Copy, Debug, PartialEq, Eq, Structural)]
pub enum EscrowErrorCode {
    /// The feed's confidence interval is wider than the caller accepts.
    ConfidenceIntervalExceeded,
    /// The price is above the unlock price but older than allowed.
    StaleFeed,
    /// No rule allows the withdrawal.
    InvalidWithdrawalRequest,
}

/// Why a withdrawal failed.
#[derive(Clone, Copy, Debug, PartialEq, Eq, Structural)]
pub enum WithdrawError {
    /// The escrow rules refuse it.
    Escrow(EscrowErrorCode),
    /// The escrow account holds less than the escrowed amount.
    InsufficientFunds,
    /// The user's balance cannot take the escrowed amount.
    InvalidArgument,
}

/// The balances that a withdrawal reads and moves: the user's account, the
/// escrow account with the amount it holds in escrow, and the feed
/// aggregator's account.
#[derive(Clone, Copy, Debug, PartialEq, Eq, Structural)]
pub struct Withdraw {
    pub user_lamports: u64,
    pub escrow_lamports: u64,
    pub escrow_amount: u64,
    pub feed_lamports: u64,
}

/// What the price feed says at the time of a withdrawal.
#[derive(Clone, Copy, Debug, PartialEq, Eq, Structural)]
pub struct FeedReading {
    /// When the latest confirmed round was opened.
    pub round_open_timestamp: i64,
    /// The latest price is above the escrow's unlock price.
    pub above_unlock_price: bool,
    /// The caller gave a highest confidence interval and the feed exceeds it.
    pub confidence_exceeded: bool,
}

/// Seconds between the opening of the feed's latest round and now.
pub open spec fn feed_age(feed: FeedReading, current_timestamp: i64) -> int {
    current_timestamp - feed.round_open_timestamp
}

/// Whether the rules release the escrow.
///
/// A feed whose latest round is more than a day old, or whose account is
/// empty, releases it whatever the price. Otherwise the price must be above
/// the unlock price, inside the accepted confidence interval and at most
/// five minutes old.
pub open spec fn release_decided(feed: FeedReading, feed_lamports: u64, current_timestamp: i64) -> Result<
    (),
    EscrowErrorCode,
> {
    if feed_age(feed, current_timestamp) > 86400 {
        Ok(())
    } else if feed_lamports == 0 {
        Ok(())
    } else if !feed.above_unlock_price {
        Err(EscrowErrorCode::InvalidWithdrawalRequest)
    } else if feed.confidence_exceeded {
        Err(EscrowErrorCode::ConfidenceIntervalExceeded)
    } else if feed_age(feed, current_timestamp) > 300 {
        Err(EscrowErrorCode::StaleFeed)
    } else {
        Ok(())
    }
}

/// The balances after the escrowed amount has moved to the user, or why it
/// cannot move.
pub open spec fn transferred(accounts: Withdraw) -> Result<Withdraw, WithdrawError> {
    if accounts.escrow_lamports < accounts.escrow_amount {
        Err(WithdrawError::InsufficientFunds)
    } else if accounts.user_lamports + accounts.escrow_amount > u64::MAX {
        Err(WithdrawError::InvalidArgument)
    } else {
        Ok(
            Withdraw {
                user_lamports: (accounts.user_lamports + accounts.escrow_amount) as u64,
                escrow_lamports: (accounts.escrow_lamports - accounts.escrow_amount) as u64,
                escrow_amount: accounts.escrow_amount,
                feed_lamports: accounts.feed_lamports,
            },
        )
    }
}

/// What a withdrawal does to the balances: the rules decide first, then the
/// escrowed amount moves.
pub open spec fn withdrawn(accounts: Withdraw, feed: FeedReading, current_timestamp: i64) -> Result<
    Withdraw,
    WithdrawError,
> {
    match release_decided(feed, accounts.feed_lamports, current_timestamp) {
        Err(code) => Err(WithdrawError::Escrow(code)),
        Ok(_) => transferred(accounts),
    }
}

/// Decides whether the escrow may be released.
pub fn release_allowed(feed: &FeedReading, feed_lamports: u64, current_timestamp: i64) -> (result:
    Result<(), EscrowErrorCode>)
    ensures
        result == release_decided(*feed, feed_lamports, current_timestamp),
{
    let age: i128 = current_timestamp as i128 - feed.round_open_timestamp as i128;
    if age > ABANDONED_ROUND_SECONDS as i128 {
        return Ok(());
    }
    if feed_lamports == 0 {
        return Ok(());
    }
    if !feed.above_unlock_price {
        return Err(EscrowErrorCode::InvalidWithdrawalRequest);
    }
    if feed.confidence_exceeded {
        return Err(EscrowErrorCode::ConfidenceIntervalExceeded);
    }
    if age > MAX_STALENESS_SECONDS as i128 {
        return Err(EscrowErrorCode::StaleFeed);
    }
    Ok(())
}

/// Moves the escrowed amount from the escrow account to the user. On an
/// error no balance changes.
pub fn transfer(accounts: &mut Withdraw) -> (result: Result<(), WithdrawError>)
    ensures
        match transferred(*old(accounts)) {
            Ok(after) => result is Ok && *final(accounts) == after,
            Err(error) => result == Err::<(), WithdrawError>(error) && *final(accounts) == *old(
                accounts,
            ),
        },
{
    let escrow_lamports: u64 = match accounts.escrow_lamports.checked_sub(accounts.escrow_amount) {
        Some(rest) => rest,
        None => {
            return Err(WithdrawError::InsufficientFunds);
        },
    };
    let user_lamports: u64 = match accounts.user_lamports.checked_add(accounts.escrow_amount) {
        Some(sum) => sum,
        None => {
            return Err(WithdrawError::InvalidArgument);
        },
    };
    accounts.escrow_lamports = escrow_lamports;
    accounts.user_lamports = user_lamports;
    Ok(())
}

/// Releases the escrow to the user where the rules allow it.
///
/// On success the escrowed amount has left the escrow account and reached
/// the user; on any error every balance is as before.
pub fn withdraw_handler(accounts: &mut Withdraw, feed: &FeedReading, current_timestamp: i64) -> (result:
    Result<(), WithdrawError>)
    ensures
        match withdrawn(*old(accounts), *feed, current_timestamp) {
            Ok(after) => result is Ok && *final(accounts) == after,
            Err(error) => result == Err::<(), WithdrawError>(error) && *final(accounts) == *old(
                accounts,
            ),
        },
{
    match release_allowed(feed, accounts.feed_lamports, current_timestamp) {
        Ok(_) => transfer(accounts),
        Err(code) => Err(WithdrawError::Escrow(code)),
    }
}

/// A withdrawal neither makes nor loses lamports: what leaves the escrow
/// account reaches the user, and the feed's account is not touched.
pub proof fn lemma_withdrawal_conserves(accounts: Withdraw, feed: FeedReading, current_timestamp: i64)
    ensures
        withdrawn(accounts, feed, current_timestamp) matches Ok(after) ==> after.user_lamports
            + after.escrow_lamports == accounts.user_lamports + accounts.escrow_lamports
            && after.feed_lamports == accounts.feed_lamports && after.escrow_amount
            == accounts.escrow_amount,
{
}

} // verus!
