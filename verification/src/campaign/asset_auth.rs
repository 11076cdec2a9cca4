//! Defence-in-depth asset whitelist enforcement.
//!
//! [`assert_asset_is_accepted`] is the guard every mutating entry point runs
//! before any state change; [`is_asset_accepted`] is the read-only view for
//! off-chain clients. Both decide by the same rule, [`campaign_accepts`]:
//!
//! - a Stellar asset is accepted when some whitelist entry names its issuer;
//! - native XLM is accepted when some whitelist entry has code `XLM` and an
//!   issuer.

use crate::campaign::types::{Address, AssetInfo, CampaignData, Error, StellarAsset};
use vstd::prelude::*;

verus! {

/// The whitelist entry `listing` names `issuer` as its issuer.
pub open spec fn lists_issuer(listing: StellarAsset, issuer: Seq<char>) -> bool {
    match listing.issuer {
        Some(i) => i@ == issuer,
        None => false,
    }
}

/// The whitelist entry `listing` stands for native XLM: code `XLM`, with an issuer.
pub open spec fn is_native_listing(listing: StellarAsset) -> bool {
    &&& listing.asset_code@ == "XLM"@
    &&& listing.issuer is Some
}

/// The whitelist `accepted` admits `asset`.
pub open spec fn accepts(accepted: Seq<StellarAsset>, asset: AssetInfo) -> bool {
    match asset {
        AssetInfo::Stellar(addr) => exists|i: int|
            0 <= i < accepted.len() && #[trigger] lists_issuer(accepted[i], addr@),
        AssetInfo::Native => exists|i: int|
            0 <= i < accepted.len() && #[trigger] is_native_listing(accepted[i]),
    }
}

/// The campaign's whitelist admits `asset`.
pub open spec fn campaign_accepts(campaign: CampaignData, asset: AssetInfo) -> bool {
    accepts(campaign.accepted_assets@, asset)
}

/// Some entry of `accepted` names `addr` as its issuer.
fn issuer_is_listed(accepted: &Vec<StellarAsset>, addr: &Address) -> (found: bool)
    ensures
        found == exists|i: int|
            0 <= i < accepted@.len() && #[trigger] lists_issuer(accepted@[i], addr@),
        found <==> exists|i: int|
                0 <= i < accepted@.len() && (#[trigger] accepted@[i]).issuer is Some
                    && accepted@[i].issuer->Some_0@ == addr@,
{
    proof { lemma_stellar_rule(accepted@, addr@); }
    let mut i: usize = 0;
    while i < accepted.len()
        invariant
            0 <= i <= accepted@.len(),
            forall|j: int| 0 <= j < i ==> !#[trigger] lists_issuer(accepted@[j], addr@),
        decreases accepted@.len() - i,
    {
        let listing = &accepted[i];
        match &listing.issuer {
            Some(issuer) => {
                if issuer.eq(addr) {
                    assert(lists_issuer(accepted@[i as int], addr@));
                    return true;
                }
            },
            None => {},
        }
        i += 1;
    }
    false
}

/// Some entry of `accepted` stands for native XLM.
fn native_is_listed(accepted: &Vec<StellarAsset>) -> (found: bool)
    ensures
        found == exists|i: int|
            0 <= i < accepted@.len() && #[trigger] is_native_listing(accepted@[i]),
        found <==> exists|i: int|
                0 <= i < accepted@.len() && (#[trigger] accepted@[i]).asset_code@ == "XLM"@
                    && accepted@[i].issuer is Some,
{
    proof { lemma_native_rule(accepted@); }
    let xlm_code: String = "XLM".to_owned();
    let mut i: usize = 0;
    while i < accepted.len()
        invariant
            0 <= i <= accepted@.len(),
            xlm_code@ == "XLM"@,
            forall|j: int| 0 <= j < i ==> !#[trigger] is_native_listing(accepted@[j]),
        decreases accepted@.len() - i,
    {
        let listing = &accepted[i];
        if listing.asset_code.eq(&xlm_code) && listing.issuer.is_some() {
            assert(is_native_listing(accepted@[i as int]));
            return true;
        }
        i += 1;
    }
    false
}

/// Checks `asset` against the campaign's whitelist without failing.
pub fn is_asset_in_list(asset: &AssetInfo, campaign: &CampaignData) -> (accepted: bool)
    ensures
        accepted == campaign_accepts(*campaign, *asset),
        match *asset {
            AssetInfo::Stellar(addr) => accepted <==> exists|i: int|
                0 <= i < campaign.accepted_assets@.len() && (#[trigger] campaign.accepted_assets@[i]).issuer is Some
                    && campaign.accepted_assets@[i].issuer->Some_0@ == addr@,
            AssetInfo::Native => accepted <==> exists|i: int|
                0 <= i < campaign.accepted_assets@.len() && (#[trigger] campaign.accepted_assets@[i]).asset_code@ == "XLM"@
                    && campaign.accepted_assets@[i].issuer is Some,
        },
{
    proof {
        lemma_stellar_rule(campaign.accepted_assets@, asset->Stellar_0@);
        lemma_native_rule(campaign.accepted_assets@);
    }
    match asset {
        AssetInfo::Stellar(addr) => issuer_is_listed(&campaign.accepted_assets, addr),
        AssetInfo::Native => native_is_listed(&campaign.accepted_assets),
    }
}

/// The guard run first by every mutating entry point: fails with
/// [`Error::AssetNotAccepted`] when `asset` is not on the campaign's whitelist.
/// It only reads the campaign record.
pub fn assert_asset_is_accepted(asset: &AssetInfo, campaign: &CampaignData) -> (r: Result<(), Error>)
    ensures
        r == (if campaign_accepts(*campaign, *asset) {
            Ok::<(), Error>(())
        } else {
            Err(Error::AssetNotAccepted)
        }),
        r is Err ==> r == Err::<(), Error>(Error::AssetNotAccepted),
        match *asset {
            AssetInfo::Stellar(addr) => r is Ok <==> exists|i: int|
                0 <= i < campaign.accepted_assets@.len() && (#[trigger] campaign.accepted_assets@[i]).issuer is Some
                    && campaign.accepted_assets@[i].issuer->Some_0@ == addr@,
            AssetInfo::Native => r is Ok <==> exists|i: int|
                0 <= i < campaign.accepted_assets@.len() && (#[trigger] campaign.accepted_assets@[i]).asset_code@ == "XLM"@
                    && campaign.accepted_assets@[i].issuer is Some,
        },
{
    if is_asset_in_list(asset, campaign) {
        Ok(())
    } else {
        Err(Error::AssetNotAccepted)
    }
}

/// The read-only view: whether `asset` is accepted by the stored campaign,
/// `false` when no campaign has been initialised.
pub fn is_asset_accepted(asset: &AssetInfo, campaign: &Option<CampaignData>) -> (accepted: bool)
    ensures
        accepted == match *campaign {
            Some(c) => campaign_accepts(c, *asset),
            None => false,
        },
        campaign.is_none() ==> !accepted,
        match *campaign {
            Some(c) => match *asset {
                AssetInfo::Stellar(addr) => accepted <==> exists|i: int|
                0 <= i < c.accepted_assets@.len() && (#[trigger] c.accepted_assets@[i]).issuer is Some
                    && c.accepted_assets@[i].issuer->Some_0@ == addr@,
                AssetInfo::Native => accepted <==> exists|i: int|
                0 <= i < c.accepted_assets@.len() && (#[trigger] c.accepted_assets@[i]).asset_code@ == "XLM"@
                    && c.accepted_assets@[i].issuer is Some,
            },
            None => true,
        },
{
    match campaign {
        Some(c) => is_asset_in_list(asset, c),
        None => false,
    }
}

/// An empty whitelist admits no asset: a campaign created with no accepted
/// assets rejects every donation and refund.
pub proof fn lemma_empty_whitelist_accepts_nothing(campaign: CampaignData, asset: AssetInfo)
    requires
        campaign.accepted_assets@.len() == 0,
    ensures
        !campaign_accepts(campaign, asset),
{
}

/// A whitelist none of whose entries has an issuer admits no asset, native
/// XLM included: an `XLM` entry without an issuer does not stand for XLM.
pub proof fn lemma_issuerless_whitelist_accepts_nothing(campaign: CampaignData, asset: AssetInfo)
    requires
        forall|i: int|
            0 <= i < campaign.accepted_assets@.len() ==> (#[trigger] campaign.accepted_assets@[i]).issuer is None,
    ensures
        !campaign_accepts(campaign, asset),
{
    let accepted = campaign.accepted_assets@;
    match asset {
        AssetInfo::Stellar(addr) => {
            assert forall|i: int| 0 <= i < accepted.len() implies !#[trigger] lists_issuer(accepted[i], addr@) by {
                assert(accepted[i].issuer is None);
            }
        },
        AssetInfo::Native => {
            assert forall|i: int| 0 <= i < accepted.len() implies !#[trigger] is_native_listing(accepted[i]) by {
                assert(accepted[i].issuer is None);
            }
        },
    }
}

/// The verdict depends on the whitelist alone: two campaign records with the
/// same accepted assets give the same verdict for every asset, whatever else
/// (raised amount, status, donor records) differs between them.
pub proof fn lemma_verdict_depends_only_on_whitelist(c1: CampaignData, c2: CampaignData, asset: AssetInfo)
    requires
        c1.accepted_assets@ == c2.accepted_assets@,
    ensures
        campaign_accepts(c1, asset) == campaign_accepts(c2, asset),
{
}

/// Adding an entry to a whitelist never revokes an asset it admitted, and the
/// new entry admits the asset it names: the Stellar asset of its issuer, and
/// native XLM when it is an `XLM` entry with an issuer.
pub proof fn lemma_adding_an_entry(accepted: Seq<StellarAsset>, entry: StellarAsset, asset: AssetInfo)
    ensures
        accepts(accepted, asset) ==> accepts(accepted.push(entry), asset),
        (asset matches AssetInfo::Stellar(addr) && lists_issuer(entry, addr@))
            ==> accepts(accepted.push(entry), asset),
        (asset is Native && is_native_listing(entry)) ==> accepts(accepted.push(entry), asset),
{
    let grown = accepted.push(entry);
    let n = accepted.len() as int;
    assert(grown[n] == entry);
    match asset {
        AssetInfo::Stellar(addr) => {
            if accepts(accepted, asset) {
                let i = choose|i: int| 0 <= i < accepted.len() && #[trigger] lists_issuer(accepted[i], addr@);
                assert(grown[i] == accepted[i]);
                assert(lists_issuer(grown[i], addr@));
            }
            if lists_issuer(entry, addr@) {
                assert(lists_issuer(grown[n], addr@));
            }
        },
        AssetInfo::Native => {
            if accepts(accepted, asset) {
                let i = choose|i: int| 0 <= i < accepted.len() && #[trigger] is_native_listing(accepted[i]);
                assert(grown[i] == accepted[i]);
                assert(is_native_listing(grown[i]));
            }
            if is_native_listing(entry) {
                assert(is_native_listing(grown[n]));
            }
        },
    }
}

/// The Stellar rule over a raw whitelist: some entry names `addr` as issuer
/// exactly when an entry carries `Some` issuer whose text is `addr`.
proof fn lemma_stellar_rule(w: Seq<StellarAsset>, addr: Seq<char>)
    ensures
        (exists|i: int| 0 <= i < w.len() && #[trigger] lists_issuer(w[i], addr))
            <==> (exists|i: int| 0 <= i < w.len() && (#[trigger] w[i]).issuer is Some && w[i].issuer->Some_0@ == addr),
{
    if exists|i: int| 0 <= i < w.len() && #[trigger] lists_issuer(w[i], addr) {
        let i = choose|i: int| 0 <= i < w.len() && #[trigger] lists_issuer(w[i], addr);
        assert(w[i].issuer is Some && w[i].issuer->Some_0@ == addr);
    }
    if exists|i: int| 0 <= i < w.len() && (#[trigger] w[i]).issuer is Some && w[i].issuer->Some_0@ == addr {
        let i = choose|i: int| 0 <= i < w.len() && (#[trigger] w[i]).issuer is Some && w[i].issuer->Some_0@ == addr;
        assert(lists_issuer(w[i], addr));
    }
}

/// The native rule over a raw whitelist: some entry stands for native XLM
/// exactly when an entry has code `XLM` and some issuer.
proof fn lemma_native_rule(w: Seq<StellarAsset>)
    ensures
        (exists|i: int| 0 <= i < w.len() && #[trigger] is_native_listing(w[i]))
            <==> (exists|i: int| 0 <= i < w.len() && (#[trigger] w[i]).asset_code@ == "XLM"@ && w[i].issuer is Some),
{
    if exists|i: int| 0 <= i < w.len() && #[trigger] is_native_listing(w[i]) {
        let i = choose|i: int| 0 <= i < w.len() && #[trigger] is_native_listing(w[i]);
        assert(w[i].asset_code@ == "XLM"@ && w[i].issuer is Some);
    }
    if exists|i: int| 0 <= i < w.len() && (#[trigger] w[i]).asset_code@ == "XLM"@ && w[i].issuer is Some {
        let i = choose|i: int| 0 <= i < w.len() && (#[trigger] w[i]).asset_code@ == "XLM"@ && w[i].issuer is Some;
        assert(is_native_listing(w[i]));
    }
}

/// Every whitelist entry that names an issuer admits the Stellar asset of that
/// issuer, at whatever position it stands and whatever the address text is
/// (account `G...` or contract `C...`).
pub proof fn lemma_listed_issuer_is_accepted(campaign: CampaignData, addr: Address, i: int)
    requires
        0 <= i < campaign.accepted_assets@.len(),
        campaign.accepted_assets@[i].issuer is Some,
        campaign.accepted_assets@[i].issuer->Some_0@ == addr@,
    ensures
        campaign_accepts(campaign, AssetInfo::Stellar(addr)),
{
    let asset = AssetInfo::Stellar(addr);
    assert(asset->Stellar_0 == addr);
    assert(lists_issuer(campaign.accepted_assets@[i], asset->Stellar_0@));
}

/// A Stellar asset is accepted only if some whitelist entry names its issuer.
pub proof fn lemma_accepted_stellar_asset_is_listed(campaign: CampaignData, addr: Address)
    requires
        campaign_accepts(campaign, AssetInfo::Stellar(addr)),
    ensures
        exists|i: int|
            0 <= i < campaign.accepted_assets@.len()
                && (#[trigger] campaign.accepted_assets@[i]).issuer is Some
                && campaign.accepted_assets@[i].issuer->Some_0@ == addr@,
{
    lemma_stellar_rule(campaign.accepted_assets@, addr@);
}

/// Every whitelist entry with code `XLM` and some issuer (whatever issuer)
/// admits native XLM, at whatever position it stands.
pub proof fn lemma_xlm_entry_admits_native(campaign: CampaignData, i: int)
    requires
        0 <= i < campaign.accepted_assets@.len(),
        campaign.accepted_assets@[i].asset_code@ == "XLM"@,
        campaign.accepted_assets@[i].issuer is Some,
    ensures
        campaign_accepts(campaign, AssetInfo::Native),
{
    assert(is_native_listing(campaign.accepted_assets@[i]));
}

/// Native XLM is accepted only if some whitelist entry has code exactly `XLM`
/// and an issuer.
pub proof fn lemma_accepted_native_has_xlm_entry(campaign: CampaignData)
    requires
        campaign_accepts(campaign, AssetInfo::Native),
    ensures
        exists|i: int|
            0 <= i < campaign.accepted_assets@.len()
                && (#[trigger] campaign.accepted_assets@[i]).asset_code@ == "XLM"@
                && campaign.accepted_assets@[i].issuer is Some,
{
    lemma_native_rule(campaign.accepted_assets@);
}

} // verus!
