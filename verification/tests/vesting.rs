use simple_token_vesting::calculator::compute_percent;
use simple_token_vesting::calculator::scaled_amount;
use simple_token_vesting::engine::add_beneficiary;
use simple_token_vesting::engine::claim;
use simple_token_vesting::engine::initialize_vesting;
use simple_token_vesting::engine::reconfigure_vesting;
use simple_token_vesting::engine::release;
use simple_token_vesting::engine::revoke_vesting;
use simple_token_vesting::errors::VestingError;
use simple_token_vesting::state::AccountId;
use simple_token_vesting::state::Beneficiary;
use simple_token_vesting::state::ConfigVesting;

fn id(tag: u64) -> AccountId {
    AccountId { w0: tag, w1: 0, w2: 0, w3: 0 }
}

fn admin() -> AccountId {
    id(1)
}

fn sample_config() -> ConfigVesting {
    ConfigVesting {
        authority: id(2),
        admin: admin(),
        token_mint: id(3),
        escrow_wallet: id(4),
        decimals: 6,
        percent_available: 0,
        start_time: 0,
        cliff_duration: 100,
        vesting_duration: 1000,
        revoked: false,
        auto_vesting: true,
    }
}

fn sample_record() -> Beneficiary {
    Beneficiary { beneficiary_wallet: id(5), total_tokens: 1000, claimed_tokens: 0 }
}

#[test]
fn auto_percent_mid_window() {
    // start_time=0, cliff=100, duration=1000: at now=600 the window is half
    // elapsed, so half the entitlement is authorized.
    assert_eq!(compute_percent(600, 100, 1100, 1000, true, 0), 50);
}

#[test]
fn auto_percent_truncates_down() {
    // 499 seconds elapsed of 1000: 49.9% truncates to 49, never rounds up.
    assert_eq!(compute_percent(599, 100, 1100, 1000, true, 0), 49);
}

#[test]
fn auto_percent_before_cliff_is_zero() {
    assert_eq!(compute_percent(50, 100, 1100, 1000, true, 0), 0);
}

#[test]
fn auto_percent_at_cliff_is_zero() {
    assert_eq!(compute_percent(100, 100, 1100, 1000, true, 0), 0);
}

#[test]
fn auto_percent_at_vesting_time_is_full() {
    assert_eq!(compute_percent(1100, 100, 1100, 1000, true, 7), 100);
}

#[test]
fn auto_percent_zero_duration_past_cliff_is_full() {
    // Degenerate schedule: an empty vesting window counts as fully vested
    // once the cliff has passed.
    assert_eq!(compute_percent(100, 100, 100, 0, true, 0), 100);
    assert_eq!(compute_percent(101, 100, 100, 0, true, 0), 100);
}

#[test]
fn manual_percent_is_requested_percent() {
    assert_eq!(compute_percent(600, 100, 1100, 1000, false, 37), 37);
    assert_eq!(compute_percent(0, 100, 1100, 1000, false, 100), 100);
}

#[test]
fn scaled_amount_scales_by_decimals() {
    assert_eq!(scaled_amount(5, 0), Some(5));
    assert_eq!(scaled_amount(5, 6), Some(5_000_000));
    assert_eq!(scaled_amount(0, 40), Some(0));
}

#[test]
fn scaled_amount_detects_overflow() {
    assert_eq!(scaled_amount(u64::MAX, 1), None);
    assert_eq!(scaled_amount(1, 20), None);
}

#[test]
fn initialize_creates_config_and_deposit() {
    let r = initialize_vesting(false, admin(), id(2), id(3), id(4), 250, 2, 0, 100, 1000);
    let (config, deposit) = r.expect("fresh initialization succeeds");
    assert_eq!(deposit, 25_000);
    assert_eq!(config.admin, admin());
    assert_eq!(config.authority, id(2));
    assert_eq!(config.token_mint, id(3));
    assert_eq!(config.escrow_wallet, id(4));
    assert_eq!(config.decimals, 2);
    assert_eq!(config.percent_available, 0);
    assert_eq!(config.start_time, 0);
    assert_eq!(config.cliff_duration, 100);
    assert_eq!(config.vesting_duration, 1000);
    assert!(!config.revoked);
    assert!(!config.auto_vesting);
}

#[test]
fn initialize_rejects_duplicate() {
    let r = initialize_vesting(true, admin(), id(2), id(3), id(4), 250, 2, 0, 100, 1000);
    assert_eq!(r, Err(VestingError::AlreadyInitialized));
}

#[test]
fn add_beneficiary_creates_unclaimed_record() {
    let config = sample_config();
    let record = add_beneficiary(&config, false, admin(), id(5), 1000).expect("admin enrolls");
    assert_eq!(record.beneficiary_wallet, id(5));
    assert_eq!(record.total_tokens, 1000);
    assert_eq!(record.claimed_tokens, 0);
}

#[test]
fn add_beneficiary_requires_admin() {
    let config = sample_config();
    assert_eq!(add_beneficiary(&config, false, id(9), id(5), 1000), Err(VestingError::Unauthorized));
}

#[test]
fn add_beneficiary_rejects_duplicate() {
    let config = sample_config();
    assert_eq!(
        add_beneficiary(&config, true, admin(), id(5), 1000),
        Err(VestingError::AlreadyEnrolled)
    );
}

#[test]
fn scenario_half_vested_claim() {
    // Scenario: start_time=0, cliff_duration=100, vesting_duration=1000,
    // auto_vesting=true. At now=600 the release calculator authorizes 50%;
    // a beneficiary of 1000 with nothing claimed settles 500.
    let mut config = sample_config();
    assert_eq!(release(&mut config, admin(), 0, true, false, 600), Ok(()));
    assert_eq!(config.percent_available, 50);

    let record = sample_record();
    let (updated, amount) = claim(&config, &record, 600).expect("claim succeeds");
    assert_eq!(amount, 500);
    assert_eq!(updated.claimed_tokens, 500);
    assert_eq!(updated.total_tokens, 1000);
}

#[test]
fn scenario_claim_before_cliff() {
    let mut config = sample_config();
    config.percent_available = 50;
    let record = sample_record();
    assert_eq!(claim(&config, &record, 50), Err(VestingError::EarlyClaim));
}

#[test]
fn scenario_fully_vested_claims_remainder() {
    // At now=1100 (the vesting time) the calculator authorizes 100%; with
    // 500 already claimed of 1000, exactly the remaining 500 settles.
    let mut config = sample_config();
    assert_eq!(release(&mut config, admin(), 0, true, false, 1100), Ok(()));
    assert_eq!(config.percent_available, 100);

    let record = Beneficiary { claimed_tokens: 500, ..sample_record() };
    let (updated, amount) = claim(&config, &record, 1100).expect("claim succeeds");
    assert_eq!(amount, 500);
    assert_eq!(updated.claimed_tokens, 1000);
}

#[test]
fn claim_twice_pays_once() {
    // With no time passing and no release in between, the second claim
    // finds nothing left.
    let mut config = sample_config();
    assert_eq!(release(&mut config, admin(), 0, true, false, 600), Ok(()));
    let record = sample_record();
    let (updated, _) = claim(&config, &record, 600).expect("first claim succeeds");
    assert_eq!(claim(&config, &updated, 600), Err(VestingError::NothingToClaim));
}

#[test]
fn claim_never_exceeds_entitlement() {
    let mut config = sample_config();
    config.percent_available = 100;
    let mut record = sample_record();
    let (updated, amount) = claim(&config, &record, 2000).expect("claim succeeds");
    assert!(updated.claimed_tokens <= updated.total_tokens);
    assert_eq!(amount, 1000);
    record = updated;
    assert_eq!(claim(&config, &record, 5000), Err(VestingError::NothingToClaim));
}

#[test]
fn claimed_tokens_never_decrease() {
    let mut config = sample_config();
    assert_eq!(release(&mut config, admin(), 0, true, false, 351), Ok(()));
    let record = sample_record();
    let (after_first, _) = claim(&config, &record, 351).expect("first claim");
    assert!(after_first.claimed_tokens >= record.claimed_tokens);
    assert_eq!(release(&mut config, admin(), 0, true, false, 700), Ok(()));
    let (after_second, _) = claim(&config, &after_first, 700).expect("second claim");
    assert!(after_second.claimed_tokens >= after_first.claimed_tokens);
    assert!(after_second.claimed_tokens <= after_second.total_tokens);
}

#[test]
fn release_requires_admin() {
    // Scenario: a non-admin caller asking for 50% is refused outright.
    let mut config = sample_config();
    config.auto_vesting = false;
    assert_eq!(release(&mut config, id(9), 50, false, false, 600), Err(VestingError::Unauthorized));
    assert_eq!(config.percent_available, 0);
}

#[test]
fn release_rejects_percent_over_100() {
    let mut config = sample_config();
    config.auto_vesting = false;
    assert_eq!(
        release(&mut config, admin(), 150, false, false, 600),
        Err(VestingError::InvalidPercentage)
    );
    assert_eq!(config.percent_available, 0);
}

#[test]
fn release_manual_stores_requested_percent() {
    let mut config = sample_config();
    assert_eq!(release(&mut config, admin(), 42, false, false, 600), Ok(()));
    assert_eq!(config.percent_available, 42);
}

#[test]
fn release_before_cliff_is_early() {
    let mut config = sample_config();
    assert_eq!(release(&mut config, admin(), 10, false, false, 100), Err(VestingError::EarlyClaim));
}

#[test]
fn release_after_revocation_is_refused() {
    let mut config = sample_config();
    config.revoked = true;
    assert_eq!(
        release(&mut config, admin(), 10, false, false, 600),
        Err(VestingError::VestingRevoked)
    );
    // The caller asserting revocation is likewise refused.
    let mut fresh = sample_config();
    assert_eq!(
        release(&mut fresh, admin(), 10, false, true, 600),
        Err(VestingError::VestingRevoked)
    );
}

#[test]
fn revoke_with_empty_escrow_fails() {
    // Scenario: escrow balance 0 leaves nothing to reclaim.
    let mut config = sample_config();
    assert_eq!(revoke_vesting(&mut config, admin(), 0), Err(VestingError::NothingToReclaim));
    assert!(!config.revoked);
}

#[test]
fn revoke_reclaims_escrow_and_is_recorded() {
    // Scenario: escrow balance 300 moves back to the admin's holding and
    // the configuration is revoked.
    let mut config = sample_config();
    assert_eq!(revoke_vesting(&mut config, admin(), 300), Ok(300));
    assert!(config.revoked);
}

#[test]
fn revoke_requires_admin() {
    let mut config = sample_config();
    assert_eq!(revoke_vesting(&mut config, id(9), 300), Err(VestingError::Unauthorized));
    assert!(!config.revoked);
}

#[test]
fn claim_after_revocation_fails_regardless_of_percent() {
    let mut config = sample_config();
    config.percent_available = 100;
    assert_eq!(revoke_vesting(&mut config, admin(), 300), Ok(300));
    let record = sample_record();
    assert_eq!(claim(&config, &record, 2000), Err(VestingError::VestingRevoked));
    assert_eq!(claim(&config, &record, 600), Err(VestingError::VestingRevoked));
}

#[test]
fn reconfigure_requires_admin() {
    let mut config = sample_config();
    assert_eq!(reconfigure_vesting(&mut config, id(9), false, false), Err(VestingError::Unauthorized));
}

#[test]
fn reconfigure_switches_mode() {
    let mut config = sample_config();
    assert_eq!(reconfigure_vesting(&mut config, admin(), false, false), Ok(()));
    assert!(!config.auto_vesting);
    assert_eq!(reconfigure_vesting(&mut config, admin(), true, false), Ok(()));
    assert!(config.auto_vesting);
}

#[test]
fn full_lifecycle() {
    // Initialize, enroll, release at mid-window, claim, revoke, and watch
    // every later claim bounce.
    let (mut config, deposit) =
        initialize_vesting(false, admin(), id(2), id(3), id(4), 1, 3, 0, 100, 1000)
            .expect("initialization succeeds");
    assert_eq!(deposit, 1_000);

    let record =
        add_beneficiary(&config, false, admin(), id(5), 1000).expect("enrollment succeeds");

    assert_eq!(release(&mut config, admin(), 0, true, false, 600), Ok(()));
    let (record, amount) = claim(&config, &record, 600).expect("claim succeeds");
    assert_eq!(amount, 500);

    assert_eq!(revoke_vesting(&mut config, admin(), deposit - amount), Ok(500));
    assert!(config.revoked);
    assert_eq!(claim(&config, &record, 600), Err(VestingError::VestingRevoked));
    assert_eq!(claim(&config, &record, 5000), Err(VestingError::VestingRevoked));
    assert_eq!(
        release(&mut config, admin(), 100, false, false, 5000),
        Err(VestingError::VestingRevoked)
    );
}

#[test]
fn reconfigure_cannot_unrevoke() {
    let mut config = sample_config();
    assert_eq!(reconfigure_vesting(&mut config, admin(), true, true), Ok(()));
    assert!(config.revoked);
    assert_eq!(reconfigure_vesting(&mut config, admin(), true, false), Ok(()));
    assert!(config.revoked, "revocation is terminal");
}
