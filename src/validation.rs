use vstd::prelude::*;

verus! {

/// Task identifiers have exactly this many characters.
pub const TASK_ID_LENGTH: usize = 25;

/// The longest issue URL accepted.
pub const MAX_ISSUE_URL_LENGTH: usize = 500;

/// The smallest bounty or token movement accepted, in base units.
pub const MIN_BOUNTY_AMOUNT: i128 = 100_000;

/// The largest bounty or token movement accepted, in base units.
pub const MAX_BOUNTY_AMOUNT: i128 = 10_000_000_000_000_000;

/// The shortest dispute reason accepted.
pub const MIN_DISPUTE_REASON_LENGTH: usize = 10;

/// The longest dispute reason accepted.
pub const MAX_DISPUTE_REASON_LENGTH: usize = 500;

/// The verdict on an amount of tokens.
pub open spec fn amount_check(amount: int) -> Result<(), crate::errors::Error> {
    if amount < MIN_BOUNTY_AMOUNT {
        Err(crate::errors::Error::InvalidAmount)
    } else if amount > MAX_BOUNTY_AMOUNT {
        Err(crate::errors::Error::InvalidTokenAmount)
    } else {
        Ok(())
    }
}

} // verus!

verus! {

/// The verdict on a task identifier of the given characters.
pub open spec fn task_id_check(id: Seq<char>) -> Result<(), crate::errors::Error> {
    if id.len() == 0 {
        Err(crate::errors::Error::EmptyTaskId)
    } else if id.len() != TASK_ID_LENGTH {
        Err(crate::errors::Error::InvalidTaskId)
    } else {
        Ok(())
    }
}

/// The verdict on an issue URL.
pub open spec fn issue_url_check(url: Seq<char>) -> Result<(), crate::errors::Error> {
    if url.len() == 0 || url.len() > MAX_ISSUE_URL_LENGTH {
        Err(crate::errors::Error::InvalidIssueUrl)
    } else {
        Ok(())
    }
}

/// The verdict on a dispute reason.
pub open spec fn dispute_reason_check(reason: Seq<char>) -> Result<(), crate::errors::Error> {
    if reason.len() < MIN_DISPUTE_REASON_LENGTH || reason.len() > MAX_DISPUTE_REASON_LENGTH {
        Err(crate::errors::Error::InvalidDisputeReason)
    } else {
        Ok(())
    }
}

/// One percent of a total, rounded down.
pub open spec fn one_percent(total: int) -> int {
    total / 100
}

/// The verdict on paying `partial` of `total` to one party and the rest to
/// the other: the partial amount must itself be a valid amount, may not exceed
/// the total, and neither share may fall below one percent of the total.
pub open spec fn partial_payment_check(partial: int, total: int) -> Result<(), crate::errors::Error> {
    if amount_check(partial) is Err {
        amount_check(partial)
    } else if partial > total {
        Err(crate::errors::Error::InvalidTokenAmount)
    } else if partial < one_percent(total) || total - partial < one_percent(total) {
        Err(crate::errors::Error::InvalidTokenAmount)
    } else {
        Ok(())
    }
}

impl crate::contract::TaskEscrowContract {
    /// Checks the shape of a task identifier: it must be non-empty and have
    /// exactly [`TASK_ID_LENGTH`] characters.
    pub fn validate_task_id(task_id: &String) -> (r: Result<(), crate::errors::Error>)
        ensures
            r == task_id_check(task_id@),
    {
        let len = task_id.as_str().unicode_len();
        if len == 0 {
            return Err(crate::errors::Error::EmptyTaskId);
        }
        if len != TASK_ID_LENGTH {
            return Err(crate::errors::Error::InvalidTaskId);
        }
        Ok(())
    }

    /// Checks that an issue URL is non-empty and at most
    /// [`MAX_ISSUE_URL_LENGTH`] characters long.
    pub fn validate_issue_url(url: &String) -> (r: Result<(), crate::errors::Error>)
        ensures
            r == issue_url_check(url@),
    {
        let len = url.as_str().unicode_len();
        if len == 0 || len > MAX_ISSUE_URL_LENGTH {
            return Err(crate::errors::Error::InvalidIssueUrl);
        }
        Ok(())
    }

    /// Checks an amount of tokens: below [`MIN_BOUNTY_AMOUNT`] (zero and
    /// negative amounts included) it is `InvalidAmount`, above
    /// [`MAX_BOUNTY_AMOUNT`] it is `InvalidTokenAmount`.
    pub fn validate_amount(amount: i128) -> (r: Result<(), crate::errors::Error>)
        ensures
            r == amount_check(amount as int),
    {
        if amount <= 0 {
            return Err(crate::errors::Error::InvalidAmount);
        }
        if amount < MIN_BOUNTY_AMOUNT {
            return Err(crate::errors::Error::InvalidAmount);
        }
        if amount > MAX_BOUNTY_AMOUNT {
            return Err(crate::errors::Error::InvalidTokenAmount);
        }
        Ok(())
    }

    /// Checks that a dispute reason has between [`MIN_DISPUTE_REASON_LENGTH`]
    /// and [`MAX_DISPUTE_REASON_LENGTH`] characters.
    pub fn validate_dispute_reason(reason: &String) -> (r: Result<(), crate::errors::Error>)
        ensures
            r == dispute_reason_check(reason@),
    {
        let len = reason.as_str().unicode_len();
        if len < MIN_DISPUTE_REASON_LENGTH || len > MAX_DISPUTE_REASON_LENGTH {
            return Err(crate::errors::Error::InvalidDisputeReason);
        }
        Ok(())
    }

    /// Checks a split of `total_amount` that pays `partial_amount` to the
    /// contributor and the remainder to the creator.
    pub fn validate_partial_payment(partial_amount: i128, total_amount: i128) -> (r: Result<
        (),
        crate::errors::Error,
    >)
        ensures
            r == partial_payment_check(partial_amount as int, total_amount as int),
    {
        let checked = Self::validate_amount(partial_amount);
        if checked.is_err() {
            return checked;
        }
        if partial_amount > total_amount {
            return Err(crate::errors::Error::InvalidTokenAmount);
        }
        let minimum_share = total_amount / 100;
        if partial_amount < minimum_share {
            return Err(crate::errors::Error::InvalidTokenAmount);
        }
        let remaining = total_amount - partial_amount;
        if remaining < minimum_share {
            return Err(crate::errors::Error::InvalidTokenAmount);
        }
        Ok(())
    }
}

} // verus!
