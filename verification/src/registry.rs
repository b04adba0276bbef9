//! The catalogue of assets and of pairwise risk levels.

use crate::error::ErrorCode;
use crate::feed::feed_id_of_hex;
use crate::feed::parse_feed_id;
use vstd::prelude::*;
use vstd::string::StringSliceAdditionalSpecFns;

verus! {

/// The most assets that a registry holds.
pub const MAX_ASSETS: usize = 20;

/// The most risk parameters that a registry holds.
pub const MAX_RISK_PARAMS: usize = 50;

/// The risk level of a pair of assets for which none was set.
pub const DEFAULT_RISK_LEVEL: u8 = 50;

/// One asset of the registry.
#[derive(Clone, Copy, Debug, PartialEq, Eq)]
pub struct AssetInfo {
    /// The identifier, unique within the registry.
    pub id: u8,
    /// The fallback price of one unit, in minor units.
    pub price: u64,
    /// The scale of the asset's native unit, as a power of ten.
    pub decimals: u8,
    /// The feed under which a price oracle knows the asset.
    pub pyth_feed_id: [u8; 32],
}

/// The risk level of an unordered pair of assets.
#[derive(Clone, Copy, Debug, PartialEq, Eq, Structural)]
pub struct PairRiskParam {
    pub asset_id_a: u8,
    pub asset_id_b: u8,
    pub risk_level: u8,
}

/// The assets that may be held and the risk levels between them.
#[derive(Clone, Debug, PartialEq, Eq)]
pub struct AssetRegistry {
    /// The identity that alone may change the registry.
    pub authority: [u8; 32],
    pub assets: Vec<AssetInfo>,
    pub risk_params: Vec<PairRiskParam>,
}

/// What a registry holds, with its lists as sequences.
pub struct RegistryView {
    pub authority: [u8; 32],
    pub assets: Seq<AssetInfo>,
    pub risk_params: Seq<PairRiskParam>,
}

impl View for AssetRegistry {
    type V = RegistryView;

    open spec fn view(&self) -> RegistryView {
        RegistryView {
            authority: self.authority,
            assets: self.assets@,
            risk_params: self.risk_params@,
        }
    }
}

/// True when some asset of `assets` has the identifier `id`.
pub open spec fn registered(assets: Seq<AssetInfo>, id: u8) -> bool {
    exists|i: int| 0 <= i < assets.len() && (#[trigger] assets[i]).id == id
}

/// Where the asset `id` stands in `assets`, if it is registered.
pub open spec fn asset_index(assets: Seq<AssetInfo>, id: u8) -> int {
    choose|i: int| 0 <= i < assets.len() && (#[trigger] assets[i]).id == id
}

/// The asset `id` of `assets`, if it is registered.
pub open spec fn asset_of(assets: Seq<AssetInfo>, id: u8) -> AssetInfo {
    assets[asset_index(assets, id)]
}

/// True when no two assets share an identifier.
pub open spec fn distinct_ids(assets: Seq<AssetInfo>) -> bool {
    forall|i: int, j: int|
        0 <= i < j < assets.len() ==> (#[trigger] assets[i]).id != (#[trigger] assets[j]).id
}

impl PairRiskParam {
    /// True when this parameter is for the pair of `a` and `b`, in either order.
    pub open spec fn covers(self, a: u8, b: u8) -> bool {
        (self.asset_id_a == a && self.asset_id_b == b) || (self.asset_id_a == b
            && self.asset_id_b == a)
    }
}

/// True when some parameter of `params` is for the pair of `a` and `b`.
pub open spec fn has_pair(params: Seq<PairRiskParam>, a: u8, b: u8) -> bool {
    exists|i: int| 0 <= i < params.len() && (#[trigger] params[i]).covers(a, b)
}

/// Where the parameter for the pair of `a` and `b` stands, if there is one.
pub open spec fn pair_index(params: Seq<PairRiskParam>, a: u8, b: u8) -> int {
    choose|i: int| 0 <= i < params.len() && (#[trigger] params[i]).covers(a, b)
}

/// The risk level of the pair of `a` and `b`: the one that was set for it in
/// either order, else the default.
pub open spec fn risk_level(params: Seq<PairRiskParam>, a: u8, b: u8) -> u8 {
    if has_pair(params, a, b) {
        params[pair_index(params, a, b)].risk_level
    } else {
        DEFAULT_RISK_LEVEL
    }
}

/// True when no two parameters are for the same unordered pair.
pub open spec fn distinct_pairs(params: Seq<PairRiskParam>) -> bool {
    forall|i: int, j: int|
        0 <= i < j < params.len() ==> !(#[trigger] params[i]).covers(
            (#[trigger] params[j]).asset_id_a,
            params[j].asset_id_b,
        )
}

/// True when both assets of every parameter are registered.
pub open spec fn pairs_registered(assets: Seq<AssetInfo>, params: Seq<PairRiskParam>) -> bool {
    forall|i: int|
        0 <= i < params.len() ==> registered(assets, (#[trigger] params[i]).asset_id_a)
            && registered(assets, params[i].asset_id_b)
}

/// What `add_asset` answers on a registry that holds `assets`.
pub open spec fn add_asset_result(assets: Seq<AssetInfo>, id: u8, feed_text: Seq<u8>) -> Result<
    (),
    ErrorCode,
> {
    if registered(assets, id) {
        Err(ErrorCode::AssetAlreadyExists)
    } else if feed_id_of_hex(feed_text) is None {
        Err(ErrorCode::WrongOracleFeed)
    } else if assets.len() >= MAX_ASSETS {
        Err(ErrorCode::CapacityExceeded)
    } else {
        Ok(())
    }
}

/// The asset `info` with its fallback price replaced.
pub open spec fn with_price(info: AssetInfo, price: u64) -> AssetInfo {
    AssetInfo { price, ..info }
}

impl RegistryView {
    /// The invariant of a registry: both lists within their bounds, no
    /// identifier and no unordered pair twice, every pair between registered
    /// assets.
    pub open spec fn wf(self) -> bool {
        &&& self.assets.len() <= MAX_ASSETS
        &&& distinct_ids(self.assets)
        &&& self.risk_params.len() <= MAX_RISK_PARAMS
        &&& distinct_pairs(self.risk_params)
        &&& pairs_registered(self.assets, self.risk_params)
    }

    /// The registry with one more asset at the end of its list.
    pub open spec fn with_asset(self, info: AssetInfo) -> RegistryView {
        RegistryView { assets: self.assets.push(info), ..self }
    }

    /// The registry with the fallback price of the asset `id` replaced.
    pub open spec fn with_price(self, id: u8, price: u64) -> RegistryView {
        RegistryView {
            assets: self.assets.update(
                asset_index(self.assets, id),
                with_price(asset_of(self.assets, id), price),
            ),
            ..self
        }
    }

    /// The registry with one more risk parameter at the end of its list.
    pub open spec fn with_risk_param(self, param: PairRiskParam) -> RegistryView {
        RegistryView { risk_params: self.risk_params.push(param), ..self }
    }
}

impl AssetRegistry {
    /// The invariant of a registry, see [`RegistryView::wf`].
    pub open spec fn wf(&self) -> bool {
        self@.wf()
    }
}

/// What `update_asset_price` decides: the registry to commit, or the reason
/// to refuse.
pub open spec fn update_asset_price_outcome(
    registry: RegistryView,
    id: u8,
    new_price: u64,
) -> Result<RegistryView, ErrorCode> {
    if registered(registry.assets, id) {
        Ok(registry.with_price(id, new_price))
    } else {
        Err(ErrorCode::AssetNotFound)
    }
}

/// What `add_risk_param` decides: the registry to commit, or the reason to
/// refuse.
pub open spec fn add_risk_param_outcome(
    registry: RegistryView,
    asset_id_a: u8,
    asset_id_b: u8,
    risk_level: u8,
) -> Result<RegistryView, ErrorCode> {
    if !registered(registry.assets, asset_id_a) || !registered(registry.assets, asset_id_b) {
        Err(ErrorCode::AssetNotFound)
    } else if has_pair(registry.risk_params, asset_id_a, asset_id_b) {
        Err(ErrorCode::RiskParamAlreadyExists)
    } else if registry.risk_params.len() >= MAX_RISK_PARAMS {
        Err(ErrorCode::CapacityExceeded)
    } else {
        Ok(registry.with_risk_param((PairRiskParam { asset_id_a, asset_id_b, risk_level })))
    }
}

/// Among distinct identifiers, an asset found at `k` is the asset of its identifier.
pub proof fn lemma_asset_at(assets: Seq<AssetInfo>, k: int)
    requires
        distinct_ids(assets),
        0 <= k < assets.len(),
    ensures
        registered(assets, assets[k].id),
        asset_index(assets, assets[k].id) == k,
        asset_of(assets, assets[k].id) == assets[k],
{
    let id = assets[k].id;
    let i = asset_index(assets, id);
    assert(0 <= i < assets.len() && assets[i].id == id);
    if i < k {
        assert(assets[i].id != assets[k].id);
    } else if k < i {
        assert(assets[k].id != assets[i].id);
    }
}

/// Among distinct pairs, a parameter found at `k` that covers a pair is the
/// parameter of that pair.
pub proof fn lemma_pair_at(params: Seq<PairRiskParam>, k: int, a: u8, b: u8)
    requires
        distinct_pairs(params),
        0 <= k < params.len(),
        params[k].covers(a, b),
    ensures
        has_pair(params, a, b),
        pair_index(params, a, b) == k,
        risk_level(params, a, b) == params[k].risk_level,
{
    let i = pair_index(params, a, b);
    assert(0 <= i < params.len() && params[i].covers(a, b));
    if i < k {
        assert(!params[i].covers(params[k].asset_id_a, params[k].asset_id_b));
    } else if k < i {
        assert(!params[k].covers(params[i].asset_id_a, params[i].asset_id_b));
    }
}

/// Lists whose identifiers agree place by place register the same identifiers.
pub proof fn lemma_registered_by_ids(before: Seq<AssetInfo>, after: Seq<AssetInfo>, id: u8)
    requires
        before.len() == after.len(),
        forall|i: int| 0 <= i < before.len() ==> (#[trigger] before[i]).id == after[i].id,
    ensures
        registered(before, id) == registered(after, id),
{
    if registered(before, id) {
        let i = asset_index(before, id);
        assert(after[i].id == id);
    }
    if registered(after, id) {
        let i = asset_index(after, id);
        assert(before[i].id == id);
    }
}

/// An appended asset is registered, and so is whatever was before.
pub proof fn lemma_registered_push(assets: Seq<AssetInfo>, info: AssetInfo, id: u8)
    ensures
        registered(assets.push(info), id) == (registered(assets, id) || info.id == id),
{
    let after = assets.push(info);
    if registered(assets, id) {
        let i = asset_index(assets, id);
        assert(after[i].id == id);
    }
    if info.id == id {
        assert(after[assets.len() as int].id == id);
    }
    if registered(after, id) {
        let i = asset_index(after, id);
        if i < assets.len() {
            assert(assets[i].id == id);
        }
    }
}

/// Finds the first asset with the identifier `id`.
pub fn find_asset(assets: &Vec<AssetInfo>, id: u8) -> (r: Option<usize>)
    ensures
        match r {
            Some(k) => k < assets@.len() && assets@[k as int].id == id && forall|j: int|
                0 <= j < k ==> (#[trigger] assets@[j]).id != id,
            None => !registered(assets@, id),
        },
{
    let mut i: usize = 0;
    while i < assets.len()
        invariant
            i <= assets@.len(),
            forall|j: int| 0 <= j < i ==> (#[trigger] assets@[j]).id != id,
        decreases assets@.len() - i,
    {
        if assets[i].id == id {
            return Some(i);
        }
        i = i + 1;
    }
    None
}

/// Finds the first parameter for the pair of `a` and `b`, in either order.
pub fn find_pair(params: &Vec<PairRiskParam>, a: u8, b: u8) -> (r: Option<usize>)
    ensures
        match r {
            Some(k) => k < params@.len() && params@[k as int].covers(a, b) && forall|j: int|
                0 <= j < k ==> !(#[trigger] params@[j]).covers(a, b),
            None => !has_pair(params@, a, b),
        },
{
    let mut i: usize = 0;
    while i < params.len()
        invariant
            i <= params@.len(),
            forall|j: int| 0 <= j < i ==> !(#[trigger] params@[j]).covers(a, b),
        decreases params@.len() - i,
    {
        let p = &params[i];
        if (p.asset_id_a == a && p.asset_id_b == b) || (p.asset_id_a == b && p.asset_id_b == a) {
            return Some(i);
        }
        i = i + 1;
    }
    None
}

/// Creates the registry of `authority`, with no asset and no risk parameter.
pub fn initialize_asset_registry(authority: [u8; 32]) -> (registry: AssetRegistry)
    ensures
        registry.wf(),
        registry@ == (RegistryView {
            authority,
            assets: Seq::<AssetInfo>::empty(),
            risk_params: Seq::<PairRiskParam>::empty(),
        }),
{
    AssetRegistry { authority, assets: Vec::new(), risk_params: Vec::new() }
}

/// Closes a registry for good. The answer is the authority, to whom the
/// reserve that the record held goes back.
pub fn delete_asset_registry(registry: AssetRegistry) -> (authority: [u8; 32])
    ensures
        authority == registry.authority,
{
    registry.authority
}

/// Registers an asset under a new identifier. The feed is given as
/// hexadecimal text. Nothing changes unless the answer is `Ok`.
pub fn add_asset(
    registry: &mut AssetRegistry,
    id: u8,
    price: u64,
    decimals: u8,
    pyth_feed_id: &str,
) -> (r: Result<(), ErrorCode>)
    requires
        old(registry).wf(),
    ensures
        final(registry).wf(),
        r == add_asset_result(old(registry).assets@, id, pyth_feed_id.spec_bytes()),
        old(registry).assets@.len() >= MAX_ASSETS ==> r is Err,
        r is Err ==> *final(registry) == *old(registry),
        r is Ok ==> {
            let added = final(registry).assets@.last();
            &&& final(registry)@ == old(registry)@.with_asset(added)
            &&& added.id == id
            &&& added.price == price
            &&& added.decimals == decimals
            &&& Some(added.pyth_feed_id@) == feed_id_of_hex(pyth_feed_id.spec_bytes())
        },
{
    if find_asset(&registry.assets, id).is_some() {
        return Err(ErrorCode::AssetAlreadyExists);
    }
    let feed_id = match parse_feed_id(pyth_feed_id) {
        Some(feed_id) => feed_id,
        None => {
            return Err(ErrorCode::WrongOracleFeed);
        },
    };
    if registry.assets.len() >= MAX_ASSETS {
        return Err(ErrorCode::CapacityExceeded);
    }
    let info = AssetInfo { id, price, decimals, pyth_feed_id: feed_id };
    registry.assets.push(info);
    proof {
        let before = old(registry).assets@;
        let params = registry.risk_params@;
        assert forall|i: int| 0 <= i < params.len() implies registered(
            registry.assets@,
            (#[trigger] params[i]).asset_id_a,
        ) && registered(registry.assets@, params[i].asset_id_b) by {
            lemma_registered_push(before, info, params[i].asset_id_a);
            lemma_registered_push(before, info, params[i].asset_id_b);
        }
    }
    Ok(())
}

/// Replaces the fallback price of the asset at `k`.
pub(crate) fn set_price_at(registry: &mut AssetRegistry, k: usize, price: u64)
    requires
        old(registry).wf(),
        k < old(registry).assets@.len(),
    ensures
        final(registry).wf(),
        final(registry)@ == old(registry)@.with_price(old(registry).assets@[k as int].id, price),
{
    proof {
        lemma_asset_at(registry.assets@, k as int);
    }
    let mut info = registry.assets[k];
    info.price = price;
    registry.assets.set(k, info);
    proof {
        let before = old(registry).assets@;
        let after = registry.assets@;
        let params = registry.risk_params@;
        assert forall|i: int| 0 <= i < params.len() implies registered(
            after,
            (#[trigger] params[i]).asset_id_a,
        ) && registered(after, params[i].asset_id_b) by {
            lemma_registered_by_ids(before, after, params[i].asset_id_a);
            lemma_registered_by_ids(before, after, params[i].asset_id_b);
        }
    }
}

/// Overwrites the fallback price of the asset `id`. Nothing changes unless
/// the answer is `Ok`.
pub fn update_asset_price(registry: &mut AssetRegistry, id: u8, new_price: u64) -> (r: Result<
    (),
    ErrorCode,
>)
    requires
        old(registry).wf(),
    ensures
        final(registry).wf(),
        match update_asset_price_outcome(old(registry)@, id, new_price) {
            Ok(after) => r == Ok::<(), ErrorCode>(()) && final(registry)@ == after,
            Err(e) => r == Err::<(), ErrorCode>(e) && *final(registry) == *old(registry),
        },
{
    match find_asset(&registry.assets, id) {
        None => Err(ErrorCode::AssetNotFound),
        Some(k) => {
            set_price_at(registry, k, new_price);
            Ok(())
        },
    }
}

/// Sets the risk level of an unordered pair of registered assets that has
/// none yet. Nothing changes unless the answer is `Ok`.
pub fn add_risk_param(
    registry: &mut AssetRegistry,
    asset_id_a: u8,
    asset_id_b: u8,
    risk_level: u8,
) -> (r: Result<(), ErrorCode>)
    requires
        old(registry).wf(),
    ensures
        final(registry).wf(),
        match add_risk_param_outcome(old(registry)@, asset_id_a, asset_id_b, risk_level) {
            Ok(after) => r == Ok::<(), ErrorCode>(()) && final(registry)@ == after,
            Err(e) => r == Err::<(), ErrorCode>(e) && *final(registry) == *old(registry),
        },
{
    if find_asset(&registry.assets, asset_id_a).is_none() {
        return Err(ErrorCode::AssetNotFound);
    }
    if find_asset(&registry.assets, asset_id_b).is_none() {
        return Err(ErrorCode::AssetNotFound);
    }
    if find_pair(&registry.risk_params, asset_id_a, asset_id_b).is_some() {
        return Err(ErrorCode::RiskParamAlreadyExists);
    }
    if registry.risk_params.len() >= MAX_RISK_PARAMS {
        return Err(ErrorCode::CapacityExceeded);
    }
    registry.risk_params.push(PairRiskParam { asset_id_a, asset_id_b, risk_level });
    Ok(())
}

/// The risk level of the pair of `a` and `b` among `params`.
pub fn lookup_risk_level(params: &Vec<PairRiskParam>, a: u8, b: u8) -> (level: u8)
    requires
        distinct_pairs(params@),
    ensures
        level == risk_level(params@, a, b),
{
    match find_pair(params, a, b) {
        Some(k) => {
            proof {
                lemma_pair_at(params@, k as int, a, b);
            }
            params[k].risk_level
        },
        None => DEFAULT_RISK_LEVEL,
    }
}

impl AssetRegistry {
    /// Reads the asset `id`.
    pub fn asset(&self, id: u8) -> (r: Option<AssetInfo>)
        requires
            self.wf(),
        ensures
            r == (if registered(self.assets@, id) {
                Some(asset_of(self.assets@, id))
            } else {
                None
            }),
    {
        match find_asset(&self.assets, id) {
            Some(k) => {
                proof {
                    lemma_asset_at(self.assets@, k as int);
                }
                Some(self.assets[k])
            },
            None => None,
        }
    }
}

/// Tells whether no two assets share an identifier.
pub fn has_distinct_ids(assets: &Vec<AssetInfo>) -> (ok: bool)
    ensures
        ok == distinct_ids(assets@),
{
    let mut j: usize = 0;
    while j < assets.len()
        invariant
            j <= assets@.len(),
            forall|a: int, b: int|
                0 <= a < b < j ==> (#[trigger] assets@[a]).id != (#[trigger] assets@[b]).id,
        decreases assets@.len() - j,
    {
        let mut i: usize = 0;
        while i < j
            invariant
                i <= j < assets@.len(),
                forall|a: int| 0 <= a < i ==> (#[trigger] assets@[a]).id != assets@[j as int].id,
            decreases j - i,
        {
            if assets[i].id == assets[j].id {
                return false;
            }
            i = i + 1;
        }
        j = j + 1;
    }
    true
}

/// Tells whether no two parameters are for the same unordered pair.
pub fn has_distinct_pairs(params: &Vec<PairRiskParam>) -> (ok: bool)
    ensures
        ok == distinct_pairs(params@),
{
    let mut j: usize = 0;
    while j < params.len()
        invariant
            j <= params@.len(),
            forall|a: int, b: int|
                0 <= a < b < j ==> !(#[trigger] params@[a]).covers(
                    (#[trigger] params@[b]).asset_id_a,
                    params@[b].asset_id_b,
                ),
        decreases params@.len() - j,
    {
        let later = params[j];
        let mut i: usize = 0;
        while i < j
            invariant
                i <= j < params@.len(),
                later == params@[j as int],
                forall|a: int|
                    0 <= a < i ==> !(#[trigger] params@[a]).covers(
                        later.asset_id_a,
                        later.asset_id_b,
                    ),
            decreases j - i,
        {
            let earlier = params[i];
            if (earlier.asset_id_a == later.asset_id_a && earlier.asset_id_b == later.asset_id_b)
                || (earlier.asset_id_a == later.asset_id_b && earlier.asset_id_b
                == later.asset_id_a) {
                return false;
            }
            i = i + 1;
        }
        j = j + 1;
    }
    true
}

/// Tells whether both assets of every parameter are registered.
pub fn has_registered_pairs(assets: &Vec<AssetInfo>, params: &Vec<PairRiskParam>) -> (ok: bool)
    ensures
        ok == pairs_registered(assets@, params@),
{
    let mut i: usize = 0;
    while i < params.len()
        invariant
            i <= params@.len(),
            forall|a: int|
                0 <= a < i ==> registered(assets@, (#[trigger] params@[a]).asset_id_a)
                    && registered(assets@, params@[a].asset_id_b),
        decreases params@.len() - i,
    {
        let param = params[i];
        if find_asset(assets, param.asset_id_a).is_none() || find_asset(
            assets,
            param.asset_id_b,
        ).is_none() {
            return false;
        }
        i = i + 1;
    }
    true
}

impl AssetRegistry {
    /// Tells whether the registry meets its invariant.
    pub fn is_well_formed(&self) -> (ok: bool)
        ensures
            ok == self.wf(),
    {
        self.assets.len() <= MAX_ASSETS && self.risk_params.len() <= MAX_RISK_PARAMS
            && has_distinct_ids(&self.assets) && has_distinct_pairs(&self.risk_params)
            && has_registered_pairs(&self.assets, &self.risk_params)
    }
}

} // verus!
