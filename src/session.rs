//! The account side of a client: whether a session is active and which
//! trading account it works on.
use vstd::prelude::*;

use crate::error::CapitalDotComError;
use crate::request::Operation;

verus! {

/// The index of the first id equal to `id`, if any.
pub open spec fn first_index_of(ids: Seq<Seq<char>>, id: Seq<char>) -> Option<int> {
    if exists|i: int| 0 <= i < ids.len() && ids[i] == id {
        let i = choose|i: int|
            0 <= i < ids.len() && ids[i] == id && forall|j: int| 0 <= j < i ==> ids[j] != id;
        Some(i)
    } else {
        None
    }
}

/// Whether a session is active, and the id of the account it works on.
#[derive(Debug, Clone)]
pub struct AccountSession {
    current_account_id: String,
    active: bool,
}

pub struct AccountSessionView {
    pub current_account_id: Seq<char>,
    pub active: bool,
}

impl View for AccountSession {
    type V = AccountSessionView;

    closed spec fn view(&self) -> AccountSessionView {
        AccountSessionView { current_account_id: self.current_account_id@, active: self.active }
    }
}

impl AccountSession {
    /// No session and no account.
    pub fn new() -> (r: Self)
        ensures
            r@.current_account_id.len() == 0,
            !r@.active,
    {
        AccountSession { current_account_id: String::new(), active: false }
    }

    pub fn is_active(&self) -> (r: bool)
        ensures
            r == self@.active,
    {
        self.active
    }

    pub fn current_account_id(&self) -> (r: &String)
        ensures
            r@ == self@.current_account_id,
    {
        &self.current_account_id
    }

    /// A login succeeded: the session is active and works on the account
    /// that the login answer names.
    pub fn session_opened(&mut self, current_account_id: &str)
        ensures
            final(self)@.active,
            final(self)@.current_account_id == current_account_id@,
    {
        self.current_account_id = current_account_id.to_owned();
        self.active = true;
    }

    /// A logout was asked for: the session is no longer active.
    pub fn session_closed(&mut self)
        ensures
            !final(self)@.active,
            final(self)@.current_account_id == old(self)@.current_account_id,
    {
        self.active = false;
    }

    /// The operation that switches to `account_id`; fails with
    /// `NotDifferentAccountId`, and asks for no call, when that account is
    /// already the active one.
    pub fn switch_target(&self, account_id: &str) -> (r: Result<Operation, CapitalDotComError>)
        ensures
            account_id@ == self@.current_account_id ==> (r matches Err(e)
                && e is NotDifferentAccountId),
            account_id@ != self@.current_account_id ==> (r matches Ok(op)
                && op matches Operation::SwitchAccount { account_id: id } && id@ == account_id@),
    {
        let id = account_id.to_owned();
        if id == self.current_account_id {
            Err(CapitalDotComError::NotDifferentAccountId)
        } else {
            Ok(Operation::SwitchAccount { account_id: id })
        }
    }

    /// The switch to `account_id` has been answered: the account changes only
    /// where the answer was a success.
    pub fn switch_finished(&mut self, account_id: &str, succeeded: bool)
        ensures
            final(self)@.active == old(self)@.active,
            succeeded ==> final(self)@.current_account_id == account_id@,
            !succeeded ==> final(self)@ == old(self)@,
    {
        if succeeded {
            self.current_account_id = account_id.to_owned();
        }
    }

    /// The position of the active account in an accounts list, given by the
    /// ids of its accounts in order: the first with the active account's id,
    /// or `CurrentAccountNotFound` where there is none.
    pub fn select_current_account(&self, account_ids: &Vec<String>) -> (r: Result<
        usize,
        CapitalDotComError,
    >)
        ensures
            match first_index_of(account_ids.deep_view(), self@.current_account_id) {
                Some(i) => r matches Ok(k) && k == i,
                None => r matches Err(e) && e is CurrentAccountNotFound,
            },
    {
        let ghost ids = account_ids.deep_view();
        let mut i: usize = 0;
        while i < account_ids.len()
            invariant
                ids == account_ids.deep_view(),
                i <= account_ids.len(),
                forall|j: int| 0 <= j < i ==> ids[j] != self.current_account_id@,
            decreases account_ids.len() - i,
        {
            if account_ids[i] == self.current_account_id {
                proof {
                    let k = i as int;
                    assert(0 <= k < ids.len() && ids[k] == self.current_account_id@);
                    let c = choose|c: int|
                        0 <= c < ids.len() && ids[c] == self.current_account_id@ && forall|j: int|
                            0 <= j < c ==> ids[j] != self.current_account_id@;
                    assert(c == k) by {
                        if c < k {
                        } else if c > k {
                            assert(ids[k] != self.current_account_id@);
                        }
                    }
                }
                return Ok(i);
            }
            i = i + 1;
        }
        Err(CapitalDotComError::CurrentAccountNotFound)
    }
}

} // verus!
