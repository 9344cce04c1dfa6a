use vstd::prelude::*;

use crate::account::INITIAL_WALLET_CREDITS;
use crate::error::AwsError;

verus! {

/// A user's credit balance. The balance is never negative.
pub struct Wallet {
    user_id: i32,
    credits: i32,
}

/// The balance after a conditional debit of `used` by `user` on a wallet owned by
/// `owner`, or `None` when the debit does not apply.
pub open spec fn debit_spec(owner: i32, credits: int, user: i32, used: int) -> Option<int> {
    if user == owner && 0 <= used <= credits {
        Some(credits - used)
    } else {
        None
    }
}

/// The balance and the total committed after attempting each debit in turn.
pub open spec fn apply_debits(owner: i32, start: int, attempts: Seq<(i32, u64)>) -> (int, int)
    decreases attempts.len(),
{
    if attempts.len() == 0 {
        (start, 0)
    } else {
        let (bal, sum) = apply_debits(owner, start, attempts.drop_last());
        let (user, used) = attempts.last();
        match debit_spec(owner, bal, user, used as int) {
            Some(b) => (b, sum + used),
            None => (bal, sum),
        }
    }
}

impl Wallet {
    pub closed spec fn owner(&self) -> i32 {
        self.user_id
    }

    pub closed spec fn balance(&self) -> int {
        self.credits as int
    }

    pub closed spec fn wf(&self) -> bool {
        self.credits >= 0
    }

    /// A wallet with this balance; `None` for a negative one.
    pub fn new(user_id: i32, credits: i32) -> (r: Option<Wallet>)
        ensures
            match r {
                Some(w) => w.wf() && w.owner() == user_id && w.balance() == credits,
                None => credits < 0,
            },
    {
        if credits < 0 {
            None
        } else {
            Some(Wallet { user_id, credits })
        }
    }

    /// The wallet a new account starts with.
    pub fn opened(user_id: i32) -> (r: Wallet)
        ensures
            r.wf(),
            r.owner() == user_id,
            r.balance() == INITIAL_WALLET_CREDITS,
    {
        Wallet { user_id, credits: INITIAL_WALLET_CREDITS }
    }

    pub fn user_id(&self) -> (r: i32)
        ensures
            r == self.owner(),
    {
        self.user_id
    }

    pub fn credits(&self) -> (r: i32)
        ensures
            r == self.balance(),
            self.wf() ==> r >= 0,
    {
        self.credits
    }

    /// Takes `used` credits, only if the wallet belongs to `user` and holds at least
    /// that much; otherwise nothing changes and the credits are reported insufficient.
    pub fn debit(&mut self, user: i32, used: u64) -> (r: Result<(), AwsError>)
        requires
            old(self).wf(),
        ensures
            final(self).wf(),
            final(self).owner() == old(self).owner(),
            match debit_spec(old(self).owner(), old(self).balance(), user, used as int) {
                Some(b) => r is Ok && final(self).balance() == b,
                None => (r matches Err(e) && e is InsufficientCredits) && *final(self) == *old(
                    self,
                ),
            },
    {
        if user == self.user_id && used <= self.credits as u64 {
            self.credits = self.credits - used as i32;
            Ok(())
        } else {
            Err(AwsError::InsufficientCredits)
        }
    }
}

/// What the storage layer's conditional update reports, as the call's outcome: one row
/// changed is a committed debit, none is a lost race for the balance, a storage fault
/// is a server error.
pub fn debit_outcome(rows_affected: Option<u64>) -> (r: Result<(), AwsError>)
    ensures
        match rows_affected {
            Some(n) => if n == 1 {
                r is Ok
            } else {
                r matches Err(e) && e is InsufficientCredits
            },
            None => r matches Err(e) && e is UnknownServerError,
        },
{
    match rows_affected {
        Some(n) => if n == 1 {
            Ok(())
        } else {
            Err(AwsError::InsufficientCredits)
        },
        None => Err(AwsError::UnknownServerError),
    }
}

/// Whatever debits are attempted against a wallet, in whatever order they reach it, the
/// committed ones sum to at most the starting balance and the balance never goes below
/// zero.
pub proof fn lemma_debits_never_overdraw(owner: i32, start: int, attempts: Seq<(i32, u64)>)
    requires
        start >= 0,
    ensures
        apply_debits(owner, start, attempts).0 >= 0,
        apply_debits(owner, start, attempts).1 <= start,
        apply_debits(owner, start, attempts).0 == start - apply_debits(owner, start, attempts).1,
    decreases attempts.len(),
{
    if attempts.len() > 0 {
        lemma_debits_never_overdraw(owner, start, attempts.drop_last());
    }
}

} // verus!
