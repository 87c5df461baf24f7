//! The stNIBI vault: users lock stNIBI in it and unlock it again.
use vstd::prelude::*;

use crate::addr_map::{AddrMap, insert_pair, lemma_insert_pair, lookup};
use crate::host::{Attr, AttrValue, Coin, MessageInfo, Msg, Response, StdError, attr_static, attr_text};

verus! {

/// The vault's settings: the denomination it holds.
#[derive(Debug)]
pub struct State {
    pub stnibi_denom: String,
}

/// What one user has locked.
#[derive(Clone, Copy, Debug, PartialEq, Eq, Structural)]
pub struct UserInfo {
    pub locked_amount: u128,
}

/// What the vault is instantiated with.
#[derive(Debug)]
pub struct InstantiateMsg {
    pub stnibi_denom: String,
}

/// The vault's messages.
#[derive(Clone, Copy, Debug, PartialEq, Eq, Structural)]
pub enum ExecuteMsg {
    Lock,
    Unlock { amount: u128 },
}

/// The vault's queries.
#[derive(Debug)]
pub enum QueryMsg {
    GetLockedAmount { user: String },
}

/// The vault's storage: its settings and each user's record.
pub struct VaultStore {
    pub state: State,
    pub user_info: AddrMap<UserInfo>,
}

/// What `user` has locked in the users' records `s`: nothing when it has no record.
pub open spec fn locked_of(s: Seq<(Seq<char>, UserInfo)>, user: Seq<char>) -> int {
    match lookup(s, user) {
        Some(u) => u.locked_amount as int,
        None => 0,
    }
}

/// The first coin among `funds` in `denom`, if any.
pub open spec fn first_in(funds: Seq<Coin>, denom: Seq<char>) -> Option<Coin>
    decreases funds.len(),
{
    if funds.len() == 0 {
        None
    } else if funds[0].denom@ == denom {
        Some(funds[0])
    } else {
        first_in(funds.drop_first(), denom)
    }
}

/// `new` is `old` after `user` locked `amount` more: its record holds what it had
/// locked plus `amount`, every other record is unchanged.
pub open spec fn locked_more(
    old: Seq<(Seq<char>, UserInfo)>,
    new: Seq<(Seq<char>, UserInfo)>,
    user: Seq<char>,
    amount: u128,
) -> bool {
    new == insert_pair(old, user, UserInfo { locked_amount: (locked_of(old, user) + amount) as u128 })
}

/// `new` is `old` after `user` unlocked `amount`: its record holds what it had locked
/// less `amount`, every other record is unchanged.
pub open spec fn locked_less(
    old: Seq<(Seq<char>, UserInfo)>,
    new: Seq<(Seq<char>, UserInfo)>,
    user: Seq<char>,
    amount: u128,
) -> bool {
    new == insert_pair(old, user, UserInfo { locked_amount: (locked_of(old, user) - amount) as u128 })
}

/// What `execute_lock` does: it locks the first coin of the vault's denomination
/// sent with the call for the sender, or fails when there is none.
pub open spec fn lock_done(old: &VaultStore, new: &VaultStore, info: &MessageInfo, r: Result<Response, StdError>) -> bool {
    &&& new.state == old.state
    &&& match first_in(info.funds@, old.state.stnibi_denom@) {
        None => r == Err::<Response, StdError>(StdError::Generic { msg: "No stNIBI token sent" })
            && new.user_info@ == old.user_info@,
        Some(c) => {
            &&& locked_more(old.user_info@, new.user_info@, info.sender@, c.amount)
            &&& r matches Ok(res) && res.messages@.len() == 0 && res.attributes@ == seq![
                Attr { key: "action", value: AttrValue::Static("lock") },
                Attr { key: "user", value: AttrValue::Text(info.sender) },
                Attr { key: "amount", value: AttrValue::Uint(c.amount) },
            ]
        },
    }
}

/// `execute_lock` does not overflow: the sender's locked amount plus the coin fits in
/// 128 bits.
pub open spec fn lock_fits(store: &VaultStore, info: &MessageInfo) -> bool {
    first_in(info.funds@, store.state.stnibi_denom@) matches Some(c) ==> locked_of(store.user_info@, info.sender@)
        + c.amount <= u128::MAX
}

/// What `execute_unlock` does: it unlocks `amount` of the sender's stNIBI and sends it
/// back, or fails when the sender has no record or too little locked.
pub open spec fn unlock_done(
    old: &VaultStore,
    new: &VaultStore,
    info: &MessageInfo,
    amount: u128,
    r: Result<Response, StdError>,
) -> bool {
    &&& new.state == old.state
    &&& match lookup(old.user_info@, info.sender@) {
        None => r == Err::<Response, StdError>(StdError::NotFound { kind: "UserInfo" })
            && new.user_info@ == old.user_info@,
        Some(u) => if u.locked_amount < amount {
            r == Err::<Response, StdError>(StdError::Generic { msg: "Insufficient locked balance" })
                && new.user_info@ == old.user_info@
        } else {
            &&& locked_less(old.user_info@, new.user_info@, info.sender@, amount)
            &&& r matches Ok(res) && res.messages@.len() == 1 && (res.messages@[0] matches Msg::BankSend {
                to_address,
                amount: coins,
            } && to_address == info.sender && coins@ == seq![Coin { denom: old.state.stnibi_denom, amount }])
                && res.attributes@ == seq![
                Attr { key: "action", value: AttrValue::Static("unlock") },
                Attr { key: "user", value: AttrValue::Text(info.sender) },
                Attr { key: "amount", value: AttrValue::Uint(amount) },
            ]
        },
    }
}

/// Creates the vault for `msg.stnibi_denom`, with no user records.
pub fn instantiate(msg: InstantiateMsg) -> (r: (VaultStore, Response))
    ensures
        r.0.state.stnibi_denom == msg.stnibi_denom,
        r.0.user_info@.len() == 0,
        r.1.messages@.len() == 0,
        r.1.attributes@ == seq![Attr { key: "method", value: AttrValue::Static("instantiate") }],
{
    let store = VaultStore { state: State { stnibi_denom: msg.stnibi_denom }, user_info: AddrMap::new() };
    let mut attributes: Vec<Attr> = Vec::new();
    attributes.push(attr_static("method", "instantiate"));
    proof {
        assert(attributes@ =~= seq![Attr { key: "method", value: AttrValue::Static("instantiate") }]);
    }
    (store, Response { messages: Vec::new(), attributes })
}

impl VaultStore {
    /// Locks the stNIBI sent with the call (the first coin of the vault's
    /// denomination) for the sender. Fails when no such coin was sent.
    pub fn execute_lock(&mut self, info: &MessageInfo) -> (r: Result<Response, StdError>)
        requires
            lock_fits(old(self), info),
        ensures
            lock_done(old(self), final(self), info, r),
    {
        let n = info.funds.len();
        let mut i: usize = 0;
        proof {
            assert(info.funds@.skip(0) =~= info.funds@);
        }
        while i < n && info.funds[i].denom != self.state.stnibi_denom
            invariant
                n == info.funds@.len(),
                0 <= i <= n,
                first_in(info.funds@.skip(i as int), self.state.stnibi_denom@) == first_in(
                    info.funds@,
                    self.state.stnibi_denom@,
                ),
            decreases n - i,
        {
            proof {
                assert(info.funds@.skip(i as int).drop_first() =~= info.funds@.skip(i + 1));
            }
            i = i + 1;
        }
        if i == n {
            proof {
                assert(info.funds@.skip(i as int).len() == 0);
            }
            return Err(StdError::Generic { msg: "No stNIBI token sent" });
        }
        let amount = info.funds[i].amount;
        proof {
            assert(info.funds@.skip(i as int)[0] == info.funds@[i as int]);
        }
        let locked: u128 = match self.user_info.get(&info.sender) {
            Some(u) => u.locked_amount,
            None => 0,
        };
        let _ = self.user_info.insert(info.sender.clone(), UserInfo { locked_amount: locked + amount });
        let mut attributes: Vec<Attr> = Vec::new();
        attributes.push(attr_static("action", "lock"));
        attributes.push(attr_text("user", info.sender.clone()));
        attributes.push(Attr { key: "amount", value: AttrValue::Uint(amount) });
        proof {
            assert(attributes@ =~= seq![
                Attr { key: "action", value: AttrValue::Static("lock") },
                Attr { key: "user", value: AttrValue::Text(info.sender) },
                Attr { key: "amount", value: AttrValue::Uint(amount) },
            ]);
        }
        Ok(Response { messages: Vec::new(), attributes })
    }

    /// Unlocks `amount` of the sender's stNIBI and sends it back. Fails when the
    /// sender has no record, or has locked less than `amount`.
    pub fn execute_unlock(&mut self, info: &MessageInfo, amount: u128) -> (r: Result<Response, StdError>)
        ensures
            unlock_done(old(self), final(self), info, amount, r),
    {
        let locked: u128 = match self.user_info.get(&info.sender) {
            Some(u) => u.locked_amount,
            None => {
                return Err(StdError::NotFound { kind: "UserInfo" });
            },
        };
        if locked < amount {
            return Err(StdError::Generic { msg: "Insufficient locked balance" });
        }
        let _ = self.user_info.insert(info.sender.clone(), UserInfo { locked_amount: locked - amount });
        let mut coins: Vec<Coin> = Vec::new();
        coins.push(Coin { denom: self.state.stnibi_denom.clone(), amount });
        proof {
            assert(coins@ =~= seq![Coin { denom: self.state.stnibi_denom, amount }]);
        }
        let mut messages: Vec<Msg> = Vec::new();
        messages.push(Msg::BankSend { to_address: info.sender.clone(), amount: coins });
        let mut attributes: Vec<Attr> = Vec::new();
        attributes.push(attr_static("action", "unlock"));
        attributes.push(attr_text("user", info.sender.clone()));
        attributes.push(Attr { key: "amount", value: AttrValue::Uint(amount) });
        proof {
            assert(attributes@ =~= seq![
                Attr { key: "action", value: AttrValue::Static("unlock") },
                Attr { key: "user", value: AttrValue::Text(info.sender) },
                Attr { key: "amount", value: AttrValue::Uint(amount) },
            ]);
        }
        Ok(Response { messages, attributes })
    }

    /// Whether the sender's locked amount plus the coin it sends fits in 128 bits, as
    /// `execute_lock` needs.
    pub fn lock_fits(&self, info: &MessageInfo) -> (r: bool)
        ensures
            r == lock_fits(self, info),
    {
        let n = info.funds.len();
        let mut i: usize = 0;
        proof {
            assert(info.funds@.skip(0) =~= info.funds@);
        }
        while i < n && info.funds[i].denom != self.state.stnibi_denom
            invariant
                n == info.funds@.len(),
                0 <= i <= n,
                first_in(info.funds@.skip(i as int), self.state.stnibi_denom@) == first_in(
                    info.funds@,
                    self.state.stnibi_denom@,
                ),
            decreases n - i,
        {
            proof {
                assert(info.funds@.skip(i as int).drop_first() =~= info.funds@.skip(i + 1));
            }
            i = i + 1;
        }
        if i == n {
            proof {
                assert(info.funds@.skip(i as int).len() == 0);
            }
            return true;
        }
        proof {
            assert(info.funds@.skip(i as int)[0] == info.funds@[i as int]);
        }
        let locked = self.query_locked_amount(&info.sender);
        locked <= u128::MAX - info.funds[i].amount
    }

    /// Handles a message: `Lock` locks, `Unlock` unlocks.
    pub fn execute(&mut self, info: &MessageInfo, msg: ExecuteMsg) -> (r: Result<Response, StdError>)
        requires
            msg is Lock ==> lock_fits(old(self), info),
        ensures
            match msg {
                ExecuteMsg::Lock => lock_done(old(self), final(self), info, r),
                ExecuteMsg::Unlock { amount } => unlock_done(old(self), final(self), info, amount, r),
            },
    {
        match msg {
            ExecuteMsg::Lock => self.execute_lock(info),
            ExecuteMsg::Unlock { amount } => self.execute_unlock(info, amount),
        }
    }

    /// What `user` has locked: nothing when it has no record.
    pub fn query_locked_amount(&self, user: &String) -> (r: u128)
        ensures
            r == locked_of(self.user_info@, user@),
    {
        match self.user_info.get(user) {
            Some(u) => u.locked_amount,
            None => 0,
        }
    }
}

/// Unlocking what was just locked undoes the lock: every user then has locked what
/// it had before.
pub proof fn lemma_unlock_undoes_lock(
    s0: Seq<(Seq<char>, UserInfo)>,
    s1: Seq<(Seq<char>, UserInfo)>,
    s2: Seq<(Seq<char>, UserInfo)>,
    user: Seq<char>,
    amount: u128,
)
    requires
        crate::addr_map::distinct_keys(s0),
        locked_of(s0, user) + amount <= u128::MAX,
        locked_more(s0, s1, user, amount),
        locked_less(s1, s2, user, amount),
    ensures
        forall|u: Seq<char>| #[trigger] locked_of(s2, u) == locked_of(s0, u),
{
    lemma_insert_pair(s0, user, UserInfo { locked_amount: (locked_of(s0, user) + amount) as u128 });
    lemma_insert_pair(s1, user, UserInfo { locked_amount: (locked_of(s1, user) - amount) as u128 });
}

/// Locking adds to what the locker has locked and to nothing else: after a lock of
/// `amount` by `user`, `user` has `amount` more locked and every other user the same.
pub proof fn lemma_lock_adds(
    s0: Seq<(Seq<char>, UserInfo)>,
    s1: Seq<(Seq<char>, UserInfo)>,
    user: Seq<char>,
    amount: u128,
)
    requires
        crate::addr_map::distinct_keys(s0),
        locked_of(s0, user) + amount <= u128::MAX,
        locked_more(s0, s1, user, amount),
    ensures
        locked_of(s1, user) == locked_of(s0, user) + amount,
        forall|u: Seq<char>| u != user ==> #[trigger] locked_of(s1, u) == locked_of(s0, u),
{
    lemma_insert_pair(s0, user, UserInfo { locked_amount: (locked_of(s0, user) + amount) as u128 });
}

} // verus!
