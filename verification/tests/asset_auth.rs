use orbitchain::campaign::asset_auth::{assert_asset_is_accepted, is_asset_accepted, is_asset_in_list};
use orbitchain::campaign::types::{AssetInfo, CampaignData, CampaignStatus, Error, StellarAsset};

const CREATOR: &str = "GCREATORAAAAAAAAAAAAAAAAAAAAAAAAAAAAAAAAAAAAAAAAAAAAAAAA";
const USDC_ISSUER: &str = "GUSDCISSUERAAAAAAAAAAAAAAAAAAAAAAAAAAAAAAAAAAAAAAAAAAAAA";
const XLM_ISSUER: &str = "GXLMISSUERAAAAAAAAAAAAAAAAAAAAAAAAAAAAAAAAAAAAAAAAAAAAAA";
const UNKNOWN: &str = "GUNKNOWNAAAAAAAAAAAAAAAAAAAAAAAAAAAAAAAAAAAAAAAAAAAAAAAA";

fn make_campaign(accepted_assets: Vec<StellarAsset>) -> CampaignData {
    CampaignData {
        creator: CREATOR.to_string(),
        goal_amount: 10_000,
        raised_amount: 0,
        end_time: 86_400,
        status: CampaignStatus::Active,
        accepted_assets,
        milestone_count: 1,
        min_donation_amount: 0,
        created_at_ledger: 0,
        created_at_time: 0,
        concluded_at_ledger: None,
        max_donations_per_donor: None,
        min_donation_interval_seconds: None,
    }
}

fn usdc_asset() -> StellarAsset {
    StellarAsset { asset_code: "USDC".to_string(), issuer: Some(USDC_ISSUER.to_string()) }
}

fn native_xlm_asset() -> StellarAsset {
    StellarAsset { asset_code: "XLM".to_string(), issuer: Some(XLM_ISSUER.to_string()) }
}

// ── assert_asset_is_accepted ────────────────────────────────────────────

#[test]
fn stellar_accepted_asset_passes() {
    let campaign = make_campaign(vec![usdc_asset()]);
    let asset = AssetInfo::Stellar(USDC_ISSUER.to_string());
    assert_eq!(assert_asset_is_accepted(&asset, &campaign), Ok(()));
}

#[test]
#[should_panic(expected = "AssetNotAccepted")]
fn stellar_unaccepted_asset_panics() {
    let campaign = make_campaign(vec![usdc_asset()]);
    let asset = AssetInfo::Stellar(UNKNOWN.to_string());
    assert_asset_is_accepted(&asset, &campaign).unwrap();
}

#[test]
fn native_xlm_accepted_passes() {
    let campaign = make_campaign(vec![native_xlm_asset()]);
    assert_eq!(assert_asset_is_accepted(&AssetInfo::Native, &campaign), Ok(()));
}

#[test]
#[should_panic(expected = "AssetNotAccepted")]
fn native_xlm_not_in_list_panics() {
    let campaign = make_campaign(vec![usdc_asset()]);
    assert_asset_is_accepted(&AssetInfo::Native, &campaign).unwrap();
}

#[test]
#[should_panic(expected = "AssetNotAccepted")]
fn empty_accepted_assets_panics() {
    let campaign = make_campaign(Vec::new());
    let asset = AssetInfo::Stellar(UNKNOWN.to_string());
    assert_asset_is_accepted(&asset, &campaign).unwrap();
}

// ── is_asset_accepted (view) ────────────────────────────────────────────

#[test]
fn view_returns_true_for_accepted() {
    let stored = Some(make_campaign(vec![usdc_asset()]));
    assert!(is_asset_accepted(&AssetInfo::Stellar(USDC_ISSUER.to_string()), &stored));
}

#[test]
fn view_returns_false_for_unaccepted() {
    let stored = Some(make_campaign(vec![usdc_asset()]));
    assert!(!is_asset_accepted(&AssetInfo::Stellar(UNKNOWN.to_string()), &stored));
}

#[test]
fn view_returns_false_when_not_initialized() {
    assert!(!is_asset_accepted(&AssetInfo::Stellar(UNKNOWN.to_string()), &None));
}

#[test]
fn view_native_xlm_returns_true_when_accepted() {
    let stored = Some(make_campaign(vec![native_xlm_asset()]));
    assert!(is_asset_accepted(&AssetInfo::Native, &stored));
}

// ── Storage manipulation cannot bypass ───────────────────────────────────

#[test]
#[should_panic(expected = "AssetNotAccepted")]
fn direct_storage_write_does_not_bypass_early_guard() {
    // Whatever else is written next to the campaign (here: a raised amount
    // and donation limits that an injected donor record would imply), the
    // guard consults the whitelist alone.
    let mut campaign = make_campaign(vec![usdc_asset()]);
    campaign.raised_amount = 500;
    campaign.max_donations_per_donor = Some(10);
    assert_asset_is_accepted(&AssetInfo::Stellar(UNKNOWN.to_string()), &campaign).unwrap();
}

// ── further cases ────────────────────────────────────────────────────────

#[test]
fn guard_and_view_agree() {
    let assets = [
        AssetInfo::Native,
        AssetInfo::Stellar(USDC_ISSUER.to_string()),
        AssetInfo::Stellar(XLM_ISSUER.to_string()),
        AssetInfo::Stellar(UNKNOWN.to_string()),
    ];
    let lists = [vec![], vec![usdc_asset()], vec![native_xlm_asset()], vec![usdc_asset(), native_xlm_asset()]];
    for list in lists.iter() {
        let stored = Some(make_campaign(list.clone()));
        let campaign = stored.clone().unwrap();
        for asset in assets.iter() {
            let view = is_asset_accepted(asset, &stored);
            assert_eq!(view, is_asset_in_list(asset, &campaign));
            assert_eq!(assert_asset_is_accepted(asset, &campaign).is_ok(), view);
        }
    }
}

#[test]
fn xlm_entry_without_issuer_does_not_admit_native() {
    let campaign = make_campaign(vec![StellarAsset { asset_code: "XLM".to_string(), issuer: None }]);
    assert_eq!(assert_asset_is_accepted(&AssetInfo::Native, &campaign), Err(Error::AssetNotAccepted));
}

#[test]
fn native_needs_the_exact_code_xlm() {
    let campaign = make_campaign(vec![StellarAsset {
        asset_code: "xlm".to_string(),
        issuer: Some(XLM_ISSUER.to_string()),
    }]);
    assert_eq!(assert_asset_is_accepted(&AssetInfo::Native, &campaign), Err(Error::AssetNotAccepted));
}

#[test]
fn stellar_asset_matches_on_issuer_whatever_the_code() {
    // The XLM entry's issuer also admits the Stellar asset of that issuer.
    let campaign = make_campaign(vec![native_xlm_asset()]);
    assert_eq!(
        assert_asset_is_accepted(&AssetInfo::Stellar(XLM_ISSUER.to_string()), &campaign),
        Ok(())
    );
}

#[test]
fn later_entries_are_searched() {
    let campaign = make_campaign(vec![usdc_asset(), usdc_asset(), native_xlm_asset()]);
    assert!(is_asset_in_list(&AssetInfo::Native, &campaign));
    assert!(!is_asset_in_list(&AssetInfo::Stellar(UNKNOWN.to_string()), &campaign));
}

#[test]
fn adding_an_entry_keeps_and_extends_acceptance() {
    let mut campaign = make_campaign(vec![usdc_asset()]);
    assert!(is_asset_in_list(&AssetInfo::Stellar(USDC_ISSUER.to_string()), &campaign));
    assert!(!is_asset_in_list(&AssetInfo::Native, &campaign));
    campaign.accepted_assets.push(native_xlm_asset());
    assert!(is_asset_in_list(&AssetInfo::Stellar(USDC_ISSUER.to_string()), &campaign));
    assert!(is_asset_in_list(&AssetInfo::Native, &campaign));
}

#[test]
fn issuerless_whitelist_accepts_nothing() {
    let campaign = make_campaign(vec![
        StellarAsset { asset_code: "XLM".to_string(), issuer: None },
        StellarAsset { asset_code: "USDC".to_string(), issuer: None },
    ]);
    assert!(!is_asset_in_list(&AssetInfo::Native, &campaign));
    assert!(!is_asset_in_list(&AssetInfo::Stellar(USDC_ISSUER.to_string()), &campaign));
}
