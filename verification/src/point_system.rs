//! The point system: an admin keeps a whitelist of addresses, whitelisted addresses
//! hold points, and points move between whitelisted addresses.
use vstd::prelude::*;

use crate::addr_map::{
    AddrMap, distinct_keys, has_key, insert_pair, key_index, lemma_insert_pair,
    lemma_key_index_unique, lookup, remove_key,
};
use crate::host::{Attr, AttrValue, MessageInfo, Response, StdError, attr_static, attr_text};

verus! {

/// The errors of the point system.
#[derive(Clone, Debug, PartialEq, Eq)]
pub enum ContractError {
    Std(StdError),
    Unauthorized,
    NotWhitelisted,
    InsufficientPoints,
    InvalidAddress,
    InvalidTokenAddress,
    PointsOverflow,
}

#[derive(Clone, Debug)]
pub struct InstantiateMsg {
    pub admin: String,
    pub st_nibi_token: String,
}

#[derive(Clone, Debug)]
pub enum ExecuteMsg {
    AddToWhitelist { address: String },
    RemoveFromWhitelist { address: String },
    AddPoints { address: String, points: u64 },
    SubtractPoints { address: String, points: u64 },
    TransferPoints { from: String, to: String, points: u64 },
    UpdateAdmin { new_admin: String },
    UpdateStNibiToken { new_token: String },
}

#[derive(Clone, Debug)]
pub enum QueryMsg {
    GetPoints { address: String },
    IsWhitelisted { address: String },
    CheckStNibiBalance { address: String },
    GetAdmin,
    GetStNibiToken,
    GetTotalPoints,
    GetWhitelistedAddresses,
}

#[derive(Clone, Debug)]
pub struct PointsResponse {
    pub address: String,
    pub points: u64,
}

#[derive(Clone, Copy, Debug)]
pub struct WhitelistResponse {
    pub is_whitelisted: bool,
}

#[derive(Clone, Debug)]
pub struct StNibiBalanceResponse {
    pub address: String,
    pub has_balance: bool,
}

#[derive(Clone, Debug)]
pub struct AdminResponse {
    pub admin: String,
}

#[derive(Clone, Debug)]
pub struct StNibiTokenResponse {
    pub token: String,
}

#[derive(Clone, Copy, Debug)]
pub struct TotalPointsResponse {
    pub total: u64,
}

#[derive(Clone, Debug)]
pub struct WhitelistedAddressesResponse {
    pub addresses: Vec<String>,
}

/// The answer to one query.
#[derive(Clone, Debug)]
pub enum QueryResponse {
    Points(PointsResponse),
    Whitelist(WhitelistResponse),
    StNibiBalance(StNibiBalanceResponse),
    Admin(AdminResponse),
    StNibiToken(StNibiTokenResponse),
    TotalPoints(TotalPointsResponse),
    WhitelistedAddresses(WhitelistedAddressesResponse),
}

#[derive(Clone, Debug)]
pub struct Config {
    pub st_nibi_token: String,
}

/// The contract's storage: the admin, the configuration, the whitelist and the
/// points of each address.
pub struct PointSystem {
    pub admin: String,
    pub config: Config,
    pub whitelist: AddrMap<bool>,
    pub points: AddrMap<u64>,
}

/// The points stored for `a`, zero when none are.
pub open spec fn points_of(s: Seq<(Seq<char>, u64)>, a: Seq<char>) -> int {
    match lookup(s, a) {
        Some(p) => p as int,
        None => 0,
    }
}

/// `a` is whitelisted: the whitelist stores `true` for it.
pub open spec fn is_whitelisted(s: Seq<(Seq<char>, bool)>, a: Seq<char>) -> bool {
    lookup(s, a) == Some(true)
}

/// The sum of all points.
pub open spec fn total_points(s: Seq<(Seq<char>, u64)>) -> int
    decreases s.len(),
{
    if s.len() == 0 {
        0
    } else {
        total_points(s.drop_last()) + s.last().1
    }
}

/// The points after `p` are added to `a`.
pub open spec fn added(s: Seq<(Seq<char>, u64)>, a: Seq<char>, p: u64) -> Seq<(Seq<char>, u64)> {
    insert_pair(s, a, (points_of(s, a) + p) as u64)
}

/// The points after `p` are taken from `a`.
pub open spec fn subtracted(s: Seq<(Seq<char>, u64)>, a: Seq<char>, p: u64) -> Seq<(Seq<char>, u64)> {
    insert_pair(s, a, (points_of(s, a) - p) as u64)
}

/// Two storages hold the same admin, configuration, whitelist and points.
pub open spec fn same_storage(a: &PointSystem, b: &PointSystem) -> bool {
    &&& a.admin@ == b.admin@
    &&& a.config.st_nibi_token@ == b.config.st_nibi_token@
    &&& a.whitelist@ == b.whitelist@
    &&& a.points@ == b.points@
}

proof fn lemma_total_update(s: Seq<(Seq<char>, u64)>, i: int, x: (Seq<char>, u64))
    requires
        0 <= i < s.len(),
    ensures
        total_points(s.update(i, x)) == total_points(s) - s[i].1 + x.1,
    decreases s.len(),
{
    let t = s.update(i, x);
    if i == s.len() - 1 {
        assert(t.drop_last() =~= s.drop_last());
    } else {
        assert(t.drop_last() =~= s.drop_last().update(i, x));
        lemma_total_update(s.drop_last(), i, x);
    }
}

/// Storing `v` under `k` changes the total by `v` minus what `k` held.
pub proof fn lemma_total_insert(s: Seq<(Seq<char>, u64)>, k: Seq<char>, v: u64)
    requires
        distinct_keys(s),
    ensures
        total_points(insert_pair(s, k, v)) == total_points(s) - points_of(s, k) + v,
{
    if has_key(s, k) {
        let i = key_index(s, k);
        lemma_key_index_unique(s, i);
        lemma_total_update(s, i, (k, v));
    } else {
        assert(insert_pair(s, k, v).drop_last() =~= s);
    }
}

/// A transfer of points keeps the total, takes `p` from `from` and gives `p`
/// to `to`, and leaves every other address as it was.
pub proof fn lemma_transfer_conserves_points(
    s: Seq<(Seq<char>, u64)>,
    from: Seq<char>,
    to: Seq<char>,
    p: u64,
)
    requires
        distinct_keys(s),
        p <= points_of(s, from),
        points_of(subtracted(s, from, p), to) + p <= u64::MAX,
    ensures
        total_points(added(subtracted(s, from, p), to, p)) == total_points(s),
        from != to ==> points_of(added(subtracted(s, from, p), to, p), from) == points_of(s, from) - p,
        from != to ==> points_of(added(subtracted(s, from, p), to, p), to) == points_of(s, to) + p,
        from == to ==> points_of(added(subtracted(s, from, p), to, p), from) == points_of(s, from),
        forall|a: Seq<char>|
            a != from && a != to ==> points_of(added(subtracted(s, from, p), to, p), a)
                == points_of(s, a),
{
    let s1 = subtracted(s, from, p);
    lemma_insert_pair(s, from, (points_of(s, from) - p) as u64);
    lemma_total_insert(s, from, (points_of(s, from) - p) as u64);
    lemma_insert_pair(s1, to, (points_of(s1, to) + p) as u64);
    lemma_total_insert(s1, to, (points_of(s1, to) + p) as u64);
}

/// Taking away points just added gives every address its points back, and
/// adding `p` raises the total by `p`.
pub proof fn lemma_subtract_undoes_add(s: Seq<(Seq<char>, u64)>, a: Seq<char>, p: u64)
    requires
        distinct_keys(s),
        points_of(s, a) + p <= u64::MAX,
    ensures
        total_points(added(s, a, p)) == total_points(s) + p,
        forall|k: Seq<char>| points_of(subtracted(added(s, a, p), a, p), k) == points_of(s, k),
{
    let s1 = added(s, a, p);
    lemma_insert_pair(s, a, (points_of(s, a) + p) as u64);
    lemma_total_insert(s, a, (points_of(s, a) + p) as u64);
    lemma_insert_pair(s1, a, (points_of(s1, a) - p) as u64);
}

/// What `execute_add_to_whitelist` and `execute_remove_from_whitelist` do: only the
/// admin may change the whitelist, and the address must pass the host's check.
pub open spec fn whitelist_change_spec(
    old: &PointSystem,
    new: &PointSystem,
    sender: Seq<char>,
    address: String,
    check: Result<(), StdError>,
    adding: bool,
    r: Result<Response, ContractError>,
) -> bool {
    if sender != old.admin@ {
        r == Err::<Response, ContractError>(ContractError::Unauthorized) && same_storage(old, new)
    } else if check is Err {
        r == Err::<Response, ContractError>(ContractError::Std(check->Err_0)) && same_storage(old, new)
    } else {
        &&& r is Ok
        &&& new.admin@ == old.admin@
        &&& new.config.st_nibi_token@ == old.config.st_nibi_token@
        &&& new.points@ == old.points@
        &&& new.whitelist@ == if adding {
            insert_pair(old.whitelist@, address@, true)
        } else {
            remove_key(old.whitelist@, address@)
        }
        &&& r->Ok_0.messages@.len() == 0
        &&& r->Ok_0.attributes@ == seq![
            attr_static_spec("action", if adding { "add_to_whitelist" } else { "remove_from_whitelist" }),
            attr_text_spec("address", address),
        ]
    }
}

/// An attribute with a static text value.
pub open spec fn attr_static_spec(key: &'static str, value: &'static str) -> Attr {
    Attr { key, value: AttrValue::Static(value) }
}

/// An attribute with a text value.
pub open spec fn attr_text_spec(key: &'static str, value: String) -> Attr {
    Attr { key, value: AttrValue::Text(value) }
}

/// An attribute with a number value.
pub open spec fn attr_u64_spec(key: &'static str, value: u64) -> Attr {
    Attr { key, value: AttrValue::U64(value) }
}

/// What `execute_add_points` and `execute_subtract_points` do: the address must pass
/// the host's check and be whitelisted; subtracting more than it holds fails.
pub open spec fn points_change_spec(
    old: &PointSystem,
    new: &PointSystem,
    address: String,
    points: u64,
    check: Result<(), StdError>,
    adding: bool,
    r: Result<Response, ContractError>,
) -> bool {
    if check is Err {
        r == Err::<Response, ContractError>(ContractError::Std(check->Err_0)) && same_storage(old, new)
    } else if !is_whitelisted(old.whitelist@, address@) {
        r == Err::<Response, ContractError>(ContractError::NotWhitelisted) && same_storage(old, new)
    } else if !adding && points_of(old.points@, address@) < points {
        r == Err::<Response, ContractError>(
            ContractError::Std(StdError::Generic { msg: "Not enough points" }),
        ) && same_storage(old, new)
    } else {
        &&& r is Ok
        &&& new.admin@ == old.admin@
        &&& new.config.st_nibi_token@ == old.config.st_nibi_token@
        &&& new.whitelist@ == old.whitelist@
        &&& new.points@ == if adding {
            added(old.points@, address@, points)
        } else {
            subtracted(old.points@, address@, points)
        }
        &&& r->Ok_0.messages@.len() == 0
        &&& r->Ok_0.attributes@ == seq![
            attr_static_spec("action", if adding { "add_points" } else { "subtract_points" }),
            attr_text_spec("address", address),
            attr_u64_spec("points", points),
        ]
    }
}

/// What `execute_transfer_points` does: both addresses must pass the host's checks,
/// the sender must be `from`, both must be whitelisted and `from` must hold enough.
pub open spec fn transfer_spec(
    old: &PointSystem,
    new: &PointSystem,
    sender: Seq<char>,
    from: String,
    to: String,
    points: u64,
    from_check: Result<(), StdError>,
    to_check: Result<(), StdError>,
    r: Result<Response, ContractError>,
) -> bool {
    if from_check is Err {
        r == Err::<Response, ContractError>(ContractError::Std(from_check->Err_0)) && same_storage(old, new)
    } else if to_check is Err {
        r == Err::<Response, ContractError>(ContractError::Std(to_check->Err_0)) && same_storage(old, new)
    } else if sender != from@ {
        r == Err::<Response, ContractError>(ContractError::Unauthorized) && same_storage(old, new)
    } else if !is_whitelisted(old.whitelist@, from@) || !is_whitelisted(old.whitelist@, to@) {
        r == Err::<Response, ContractError>(ContractError::NotWhitelisted) && same_storage(old, new)
    } else if points_of(old.points@, from@) < points {
        r == Err::<Response, ContractError>(
            ContractError::Std(StdError::Generic { msg: "Not enough points" }),
        ) && same_storage(old, new)
    } else {
        &&& r is Ok
        &&& new.admin@ == old.admin@
        &&& new.config.st_nibi_token@ == old.config.st_nibi_token@
        &&& new.whitelist@ == old.whitelist@
        &&& new.points@ == added(subtracted(old.points@, from@, points), to@, points)
        &&& r->Ok_0.messages@.len() == 0
        &&& r->Ok_0.attributes@ == seq![
            attr_static_spec("action", "transfer_points"),
            attr_text_spec("from", from),
            attr_text_spec("to", to),
            attr_u64_spec("points", points),
        ]
    }
}

/// The transfer's credit to `to` fits in 64 bits (the contract panics otherwise).
pub open spec fn transfer_fits(s: Seq<(Seq<char>, u64)>, from: Seq<char>, to: Seq<char>, points: u64) -> bool {
    points <= points_of(s, from) ==> points_of(subtracted(s, from, points), to) + points <= u64::MAX
}

/// What `execute_update_admin` and `execute_update_st_nibi_token` do: only the admin
/// may change either, to an address that passes the host's check.
pub open spec fn setting_change_spec(
    old: &PointSystem,
    new: &PointSystem,
    sender: Seq<char>,
    value: String,
    check: Result<(), StdError>,
    admin: bool,
    r: Result<Response, ContractError>,
) -> bool {
    if sender != old.admin@ {
        r == Err::<Response, ContractError>(ContractError::Unauthorized) && same_storage(old, new)
    } else if check is Err {
        r == Err::<Response, ContractError>(ContractError::Std(check->Err_0)) && same_storage(old, new)
    } else {
        &&& r is Ok
        &&& new.whitelist@ == old.whitelist@
        &&& new.points@ == old.points@
        &&& if admin {
            new.admin@ == value@ && new.config.st_nibi_token@ == old.config.st_nibi_token@
        } else {
            new.admin@ == old.admin@ && new.config.st_nibi_token@ == value@
        }
        &&& r->Ok_0.messages@.len() == 0
        &&& r->Ok_0.attributes@ == if admin {
            seq![attr_static_spec("action", "update_admin"), attr_text_spec("new_admin", value)]
        } else {
            seq![attr_static_spec("action", "update_st_nibi_token"), attr_text_spec("new_token", value)]
        }
    }
}

/// Creates the storage. Both addresses must pass the host's checks. The response
/// logs the method and the admin.
pub fn instantiate(
    msg: InstantiateMsg,
    admin_check: Result<(), StdError>,
    token_check: Result<(), StdError>,
) -> (r: Result<(PointSystem, Response), ContractError>)
    ensures
        admin_check is Err ==> r == Err::<(PointSystem, Response), ContractError>(
            ContractError::Std(admin_check->Err_0),
        ),
        admin_check is Ok && token_check is Err ==> r == Err::<(PointSystem, Response), ContractError>(
            ContractError::Std(token_check->Err_0),
        ),
        admin_check is Ok && token_check is Ok ==> {
            &&& r is Ok
            &&& r->Ok_0.0.admin@ == msg.admin@
            &&& r->Ok_0.0.config.st_nibi_token@ == msg.st_nibi_token@
            &&& r->Ok_0.0.whitelist@.len() == 0
            &&& r->Ok_0.0.points@.len() == 0
            &&& r->Ok_0.1.messages@.len() == 0
            &&& r->Ok_0.1.attributes@ == seq![
                attr_static_spec("method", "instantiate"),
                attr_text_spec("admin", msg.admin),
            ]
        },
{
    if let Err(e) = admin_check {
        return Err(ContractError::Std(e));
    }
    if let Err(e) = token_check {
        return Err(ContractError::Std(e));
    }
    let admin_attr = msg.admin.clone();
    let store = PointSystem {
        admin: msg.admin,
        config: Config { st_nibi_token: msg.st_nibi_token },
        whitelist: AddrMap::new(),
        points: AddrMap::new(),
    };
    let mut attributes: Vec<Attr> = Vec::new();
    attributes.push(attr_static("method", "instantiate"));
    attributes.push(attr_text("admin", admin_attr));
    Ok((store, Response { messages: Vec::new(), attributes }))
}

impl PointSystem {
    /// Whether `address` is whitelisted.
    fn whitelisted(&self, address: &String) -> (r: bool)
        ensures
            r == is_whitelisted(self.whitelist@, address@),
    {
        match self.whitelist.get(address) {
            Some(v) => *v,
            None => false,
        }
    }

    /// The points of `address`, zero when none are stored.
    fn points_for(&self, address: &String) -> (r: u64)
        ensures
            r == points_of(self.points@, address@),
            distinct_keys(self.points@),
    {
        match self.points.get(address) {
            Some(v) => *v,
            None => 0,
        }
    }

    pub fn execute_add_to_whitelist(
        &mut self,
        info: &MessageInfo,
        address: String,
        address_check: Result<(), StdError>,
    ) -> (r: Result<Response, ContractError>)
        ensures
            whitelist_change_spec(old(self), final(self), info.sender@, address, address_check, true, r),
    {
        if info.sender != self.admin {
            return Err(ContractError::Unauthorized);
        }
        if let Err(e) = address_check {
            return Err(ContractError::Std(e));
        }
        let logged = address.clone();
        let _ = self.whitelist.insert(address, true);
        let mut attributes: Vec<Attr> = Vec::new();
        attributes.push(attr_static("action", "add_to_whitelist"));
        attributes.push(attr_text("address", logged));
        assert(attributes@ =~= seq![attr_static_spec("action", "add_to_whitelist"), attr_text_spec("address", logged)]);
        Ok(Response { messages: Vec::new(), attributes })
    }

    pub fn execute_remove_from_whitelist(
        &mut self,
        info: &MessageInfo,
        address: String,
        address_check: Result<(), StdError>,
    ) -> (r: Result<Response, ContractError>)
        ensures
            whitelist_change_spec(old(self), final(self), info.sender@, address, address_check, false, r),
    {
        if info.sender != self.admin {
            return Err(ContractError::Unauthorized);
        }
        if let Err(e) = address_check {
            return Err(ContractError::Std(e));
        }
        self.whitelist.remove(&address);
        let mut attributes: Vec<Attr> = Vec::new();
        attributes.push(attr_static("action", "remove_from_whitelist"));
        attributes.push(attr_text("address", address));
        assert(attributes@ =~= seq![attr_static_spec("action", "remove_from_whitelist"), attr_text_spec("address", address)]);
        Ok(Response { messages: Vec::new(), attributes })
    }

    /// Adds points to a whitelisted address. The sum must fit in 64 bits: the
    /// contract panics otherwise.
    pub fn execute_add_points(
        &mut self,
        address: String,
        points: u64,
        address_check: Result<(), StdError>,
    ) -> (r: Result<Response, ContractError>)
        requires
            points_of(old(self).points@, address@) + points <= u64::MAX,
        ensures
            points_change_spec(old(self), final(self), address, points, address_check, true, r),
    {
        if let Err(e) = address_check {
            return Err(ContractError::Std(e));
        }
        if !self.whitelisted(&address) {
            return Err(ContractError::NotWhitelisted);
        }
        let current = self.points_for(&address);
        let logged = address.clone();
        let _ = self.points.insert(address, current + points);
        let mut attributes: Vec<Attr> = Vec::new();
        attributes.push(attr_static("action", "add_points"));
        attributes.push(attr_text("address", logged));
        attributes.push(Attr { key: "points", value: AttrValue::U64(points) });
        assert(attributes@ =~= seq![attr_static_spec("action", "add_points"), attr_text_spec("address", logged), attr_u64_spec("points", points)]);
        Ok(Response { messages: Vec::new(), attributes })
    }

    pub fn execute_subtract_points(
        &mut self,
        address: String,
        points: u64,
        address_check: Result<(), StdError>,
    ) -> (r: Result<Response, ContractError>)
        ensures
            points_change_spec(old(self), final(self), address, points, address_check, false, r),
    {
        if let Err(e) = address_check {
            return Err(ContractError::Std(e));
        }
        if !self.whitelisted(&address) {
            return Err(ContractError::NotWhitelisted);
        }
        let current = self.points_for(&address);
        if current < points {
            return Err(ContractError::Std(StdError::Generic { msg: "Not enough points" }));
        }
        let logged = address.clone();
        let _ = self.points.insert(address, current - points);
        let mut attributes: Vec<Attr> = Vec::new();
        attributes.push(attr_static("action", "subtract_points"));
        attributes.push(attr_text("address", logged));
        attributes.push(Attr { key: "points", value: AttrValue::U64(points) });
        assert(attributes@ =~= seq![attr_static_spec("action", "subtract_points"), attr_text_spec("address", logged), attr_u64_spec("points", points)]);
        Ok(Response { messages: Vec::new(), attributes })
    }

    /// Moves points from `from`, who must be the sender, to `to`. The credit must fit
    /// in 64 bits: the contract panics otherwise.
    pub fn execute_transfer_points(
        &mut self,
        info: &MessageInfo,
        from: String,
        to: String,
        points: u64,
        from_check: Result<(), StdError>,
        to_check: Result<(), StdError>,
    ) -> (r: Result<Response, ContractError>)
        requires
            transfer_fits(old(self).points@, from@, to@, points),
        ensures
            transfer_spec(old(self), final(self), info.sender@, from, to, points, from_check, to_check, r),
    {
        if let Err(e) = from_check {
            return Err(ContractError::Std(e));
        }
        if let Err(e) = to_check {
            return Err(ContractError::Std(e));
        }
        if info.sender != from {
            return Err(ContractError::Unauthorized);
        }
        if !self.whitelisted(&from) || !self.whitelisted(&to) {
            return Err(ContractError::NotWhitelisted);
        }
        let current = self.points_for(&from);
        if current < points {
            return Err(ContractError::Std(StdError::Generic { msg: "Not enough points" }));
        }
        let _ = self.points.insert(from.clone(), current - points);
        let current_to = self.points_for(&to);
        let _ = self.points.insert(to.clone(), current_to + points);
        let mut attributes: Vec<Attr> = Vec::new();
        attributes.push(attr_static("action", "transfer_points"));
        attributes.push(attr_text("from", from));
        attributes.push(attr_text("to", to));
        attributes.push(Attr { key: "points", value: AttrValue::U64(points) });
        assert(attributes@ =~= seq![attr_static_spec("action", "transfer_points"), attr_text_spec("from", from), attr_text_spec("to", to), attr_u64_spec("points", points)]);
        Ok(Response { messages: Vec::new(), attributes })
    }

    pub fn execute_update_admin(
        &mut self,
        info: &MessageInfo,
        new_admin: String,
        new_admin_check: Result<(), StdError>,
    ) -> (r: Result<Response, ContractError>)
        ensures
            setting_change_spec(old(self), final(self), info.sender@, new_admin, new_admin_check, true, r),
    {
        if info.sender != self.admin {
            return Err(ContractError::Unauthorized);
        }
        if let Err(e) = new_admin_check {
            return Err(ContractError::Std(e));
        }
        self.admin = new_admin.clone();
        let mut attributes: Vec<Attr> = Vec::new();
        attributes.push(attr_static("action", "update_admin"));
        attributes.push(attr_text("new_admin", new_admin));
        assert(attributes@ =~= seq![attr_static_spec("action", "update_admin"), attr_text_spec("new_admin", new_admin)]);
        Ok(Response { messages: Vec::new(), attributes })
    }

    pub fn execute_update_st_nibi_token(
        &mut self,
        info: &MessageInfo,
        new_token: String,
        new_token_check: Result<(), StdError>,
    ) -> (r: Result<Response, ContractError>)
        ensures
            setting_change_spec(old(self), final(self), info.sender@, new_token, new_token_check, false, r),
    {
        if info.sender != self.admin {
            return Err(ContractError::Unauthorized);
        }
        if let Err(e) = new_token_check {
            return Err(ContractError::Std(e));
        }
        self.config.st_nibi_token = new_token.clone();
        let mut attributes: Vec<Attr> = Vec::new();
        attributes.push(attr_static("action", "update_st_nibi_token"));
        attributes.push(attr_text("new_token", new_token));
        assert(attributes@ =~= seq![attr_static_spec("action", "update_st_nibi_token"), attr_text_spec("new_token", new_token)]);
        Ok(Response { messages: Vec::new(), attributes })
    }
}


/// The total of the first `i` entries is at most the total of all of them.
proof fn lemma_total_prefix(s: Seq<(Seq<char>, u64)>, i: int)
    requires
        0 <= i <= s.len(),
    ensures
        total_points(s.take(i)) <= total_points(s),
    decreases s.len(),
{
    if i < s.len() {
        assert(s.drop_last().take(i) =~= s.take(i));
        lemma_total_prefix(s.drop_last(), i);
    } else {
        assert(s.take(i) =~= s);
    }
}

impl PointSystem {
    /// Runs one message. `first_check` and `second_check` are the outcomes of the
    /// host's checks of the message's first and second address fields, in the order
    /// the fields are declared.
    pub fn execute(
        &mut self,
        info: &MessageInfo,
        msg: ExecuteMsg,
        first_check: Result<(), StdError>,
        second_check: Result<(), StdError>,
    ) -> (r: Result<Response, ContractError>)
        requires
            match msg {
                ExecuteMsg::AddPoints { address, points } => points_of(old(self).points@, address@)
                    + points <= u64::MAX,
                ExecuteMsg::TransferPoints { from, to, points } => transfer_fits(
                    old(self).points@,
                    from@,
                    to@,
                    points,
                ),
                _ => true,
            },
        ensures
            match msg {
                ExecuteMsg::AddToWhitelist { address } => whitelist_change_spec(
                    old(self), final(self), info.sender@, address, first_check, true, r),
                ExecuteMsg::RemoveFromWhitelist { address } => whitelist_change_spec(
                    old(self), final(self), info.sender@, address, first_check, false, r),
                ExecuteMsg::AddPoints { address, points } => points_change_spec(
                    old(self), final(self), address, points, first_check, true, r),
                ExecuteMsg::SubtractPoints { address, points } => points_change_spec(
                    old(self), final(self), address, points, first_check, false, r),
                ExecuteMsg::TransferPoints { from, to, points } => transfer_spec(
                    old(self), final(self), info.sender@, from, to, points, first_check, second_check, r),
                ExecuteMsg::UpdateAdmin { new_admin } => setting_change_spec(
                    old(self), final(self), info.sender@, new_admin, first_check, true, r),
                ExecuteMsg::UpdateStNibiToken { new_token } => setting_change_spec(
                    old(self), final(self), info.sender@, new_token, first_check, false, r),
            },
    {
        match msg {
            ExecuteMsg::AddToWhitelist { address } => self.execute_add_to_whitelist(info, address, first_check),
            ExecuteMsg::RemoveFromWhitelist { address } => self.execute_remove_from_whitelist(info, address, first_check),
            ExecuteMsg::AddPoints { address, points } => self.execute_add_points(address, points, first_check),
            ExecuteMsg::SubtractPoints { address, points } => self.execute_subtract_points(address, points, first_check),
            ExecuteMsg::TransferPoints { from, to, points } => self.execute_transfer_points(info, from, to, points, first_check, second_check),
            ExecuteMsg::UpdateAdmin { new_admin } => self.execute_update_admin(info, new_admin, first_check),
            ExecuteMsg::UpdateStNibiToken { new_token } => self.execute_update_st_nibi_token(info, new_token, first_check),
        }
    }

    /// The points of an address that passes the host's check.
    pub fn query_points(&self, address: String, address_check: Result<(), StdError>) -> (r: Result<PointsResponse, StdError>)
        ensures
            address_check is Err ==> r == Err::<PointsResponse, StdError>(address_check->Err_0),
            address_check is Ok ==> r is Ok && r->Ok_0.address == address && r->Ok_0.points == points_of(self.points@, address@),
    {
        if let Err(e) = address_check {
            return Err(e);
        }
        let points = self.points_for(&address);
        Ok(PointsResponse { address, points })
    }

    /// Whether an address that passes the host's check is whitelisted.
    pub fn query_whitelist(&self, address: String, address_check: Result<(), StdError>) -> (r: Result<WhitelistResponse, StdError>)
        ensures
            address_check is Err ==> r == Err::<WhitelistResponse, StdError>(address_check->Err_0),
            address_check is Ok ==> r == Ok::<WhitelistResponse, StdError>(WhitelistResponse { is_whitelisted: is_whitelisted(self.whitelist@, address@) }),
    {
        if let Err(e) = address_check {
            return Err(e);
        }
        Ok(WhitelistResponse { is_whitelisted: self.whitelisted(&address) })
    }

    /// Whether an address holds any stNIBI; `balance` is the outcome of the
    /// `Balance` query to the stNIBI token for it.
    pub fn query_st_nibi_balance(
        &self,
        address: String,
        address_check: Result<(), StdError>,
        balance: Result<u128, StdError>,
    ) -> (r: Result<StNibiBalanceResponse, StdError>)
        ensures
            address_check is Err ==> r == Err::<StNibiBalanceResponse, StdError>(address_check->Err_0),
            address_check is Ok && balance is Err ==> r == Err::<StNibiBalanceResponse, StdError>(balance->Err_0),
            address_check is Ok && balance is Ok ==> r is Ok && r->Ok_0.address == address
                && r->Ok_0.has_balance == (balance->Ok_0 > 0),
    {
        if let Err(e) = address_check {
            return Err(e);
        }
        match balance {
            Err(e) => Err(e),
            Ok(b) => Ok(StNibiBalanceResponse { address, has_balance: b > 0 }),
        }
    }

    pub fn query_admin(&self) -> (r: AdminResponse)
        ensures
            r.admin == self.admin,
    {
        AdminResponse { admin: self.admin.clone() }
    }

    pub fn query_st_nibi_token(&self) -> (r: StNibiTokenResponse)
        ensures
            r.token == self.config.st_nibi_token,
    {
        StNibiTokenResponse { token: self.config.st_nibi_token.clone() }
    }

    /// Whether the sum of all points fits in 64 bits, as `query_total_points` needs.
    pub fn total_points_fit(&self) -> (r: bool)
        ensures
            r == (total_points(self.points@) <= u64::MAX),
    {
        let n = self.points.len();
        let mut total: u64 = 0;
        let mut i: usize = 0;
        while i < n
            invariant
                n == self.points@.len(),
                0 <= i <= n,
                total == total_points(self.points@.take(i as int)),
            decreases n - i,
        {
            let (_, p) = self.points.entry(i);
            proof {
                assert(self.points@.take(i + 1).drop_last() =~= self.points@.take(i as int));
                lemma_total_prefix(self.points@, i + 1);
            }
            if total > u64::MAX - *p {
                return false;
            }
            total = total + *p;
            i = i + 1;
        }
        proof {
            assert(self.points@.take(n as int) =~= self.points@);
        }
        true
    }

    /// Whether `execute` can run `msg` without a credit of points overflowing 64 bits
    /// (the contract panics there).
    pub fn execute_fits(&self, msg: &ExecuteMsg) -> (r: bool)
        ensures
            r == match *msg {
                ExecuteMsg::AddPoints { address, points } => points_of(self.points@, address@) + points <= u64::MAX,
                ExecuteMsg::TransferPoints { from, to, points } => transfer_fits(self.points@, from@, to@, points),
                _ => true,
            },
    {
        match msg {
            ExecuteMsg::AddPoints { address, points } => {
                let held = self.points_for(address);
                held <= u64::MAX - *points
            },
            ExecuteMsg::TransferPoints { from, to, points } => {
                let held = self.points_for(from);
                if *points > held {
                    return true;
                }
                proof {
                    lemma_insert_pair(self.points@, from@, (held - *points) as u64);
                }
                let target: u64 = if *from == *to {
                    held - *points
                } else {
                    self.points_for(to)
                };
                target <= u64::MAX - *points
            },
            _ => true,
        }
    }

    /// The sum of all points; it must fit in 64 bits (the contract panics otherwise).
    pub fn query_total_points(&self) -> (r: TotalPointsResponse)
        requires
            total_points(self.points@) <= u64::MAX,
        ensures
            r.total == total_points(self.points@),
    {
        let n = self.points.len();
        let mut total: u64 = 0;
        let mut i: usize = 0;
        while i < n
            invariant
                n == self.points@.len(),
                0 <= i <= n,
                total == total_points(self.points@.take(i as int)),
                total_points(self.points@) <= u64::MAX,
            decreases n - i,
        {
            let (_, p) = self.points.entry(i);
            proof {
                assert(self.points@.take(i + 1).drop_last() =~= self.points@.take(i as int));
                lemma_total_prefix(self.points@, i + 1);
            }
            total = total + *p;
            i = i + 1;
        }
        proof {
            assert(self.points@.take(n as int) =~= self.points@);
        }
        TotalPointsResponse { total }
    }

    /// The whitelisted addresses, in storage order.
    pub fn query_whitelisted_addresses(&self) -> (r: WhitelistedAddressesResponse)
        ensures
            r.addresses@.len() == self.whitelist@.len(),
            forall|i: int| 0 <= i < r.addresses@.len() ==> #[trigger] r.addresses@[i]@ == self.whitelist@[i].0,
    {
        WhitelistedAddressesResponse { addresses: self.whitelist.keys() }
    }

    /// Answers one query. `address_check` is the outcome of the host's check of the
    /// query's address field, if it has one; `balance` is the outcome of the token's
    /// `Balance` query for it, consulted only by `CheckStNibiBalance`.
    pub fn query(
        &self,
        msg: QueryMsg,
        address_check: Result<(), StdError>,
        balance: Result<u128, StdError>,
    ) -> (r: Result<QueryResponse, StdError>)
        requires
            msg is GetTotalPoints ==> total_points(self.points@) <= u64::MAX,
        ensures
            match msg {
                QueryMsg::GetPoints { address } => match r {
                    Ok(QueryResponse::Points(p)) => address_check is Ok && p.address == address
                        && p.points == points_of(self.points@, address@),
                    Err(e) => address_check == Err::<(), StdError>(e),
                    _ => false,
                },
                QueryMsg::IsWhitelisted { address } => match r {
                    Ok(QueryResponse::Whitelist(w)) => address_check is Ok
                        && w.is_whitelisted == is_whitelisted(self.whitelist@, address@),
                    Err(e) => address_check == Err::<(), StdError>(e),
                    _ => false,
                },
                QueryMsg::CheckStNibiBalance { address } => match r {
                    Ok(QueryResponse::StNibiBalance(b)) => address_check is Ok && balance is Ok
                        && b.address == address && b.has_balance == (balance->Ok_0 > 0),
                    Err(e) => address_check == Err::<(), StdError>(e) || (address_check is Ok
                        && balance == Err::<u128, StdError>(e)),
                    _ => false,
                },
                QueryMsg::GetAdmin => r == Ok::<QueryResponse, StdError>(
                    QueryResponse::Admin(AdminResponse { admin: self.admin })),
                QueryMsg::GetStNibiToken => r == Ok::<QueryResponse, StdError>(
                    QueryResponse::StNibiToken(StNibiTokenResponse { token: self.config.st_nibi_token })),
                QueryMsg::GetTotalPoints => r == Ok::<QueryResponse, StdError>(
                    QueryResponse::TotalPoints(TotalPointsResponse { total: total_points(self.points@) as u64 })),
                QueryMsg::GetWhitelistedAddresses => match r {
                    Ok(QueryResponse::WhitelistedAddresses(w)) => w.addresses@.len() == self.whitelist@.len()
                        && forall|i: int| 0 <= i < w.addresses@.len() ==> #[trigger] w.addresses@[i]@ == self.whitelist@[i].0,
                    _ => false,
                },
            },
    {
        match msg {
            QueryMsg::GetPoints { address } => match self.query_points(address, address_check) {
                Ok(p) => Ok(QueryResponse::Points(p)),
                Err(e) => Err(e),
            },
            QueryMsg::IsWhitelisted { address } => match self.query_whitelist(address, address_check) {
                Ok(w) => Ok(QueryResponse::Whitelist(w)),
                Err(e) => Err(e),
            },
            QueryMsg::CheckStNibiBalance { address } => match self.query_st_nibi_balance(address, address_check, balance) {
                Ok(b) => Ok(QueryResponse::StNibiBalance(b)),
                Err(e) => Err(e),
            },
            QueryMsg::GetAdmin => Ok(QueryResponse::Admin(self.query_admin())),
            QueryMsg::GetStNibiToken => Ok(QueryResponse::StNibiToken(self.query_st_nibi_token())),
            QueryMsg::GetTotalPoints => Ok(QueryResponse::TotalPoints(self.query_total_points())),
            QueryMsg::GetWhitelistedAddresses => Ok(QueryResponse::WhitelistedAddresses(self.query_whitelisted_addresses())),
        }
    }
}

} // verus!
