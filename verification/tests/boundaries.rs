use helioq::{
    claim_rewards, claim_transfer, deposit_rewards, initialize, reclaim_stale_rewards,
    register_server, submit_metrics, AdminAccount, ClaimRewards, DepositRewards, ErrorCode,
    Initialize, Pubkey, ReclaimRewards, RegisterServer, Registry, RewardsClaimed,
    RewardsReclaimed, SubmitMetrics, CLAIM_COOLDOWN, GRACE_PERIOD, MAX_SERVER_ID_LEN, MAX_UPTIME,
    STALE_AFTER,
};

fn key(tag: u8) -> Pubkey {
    let mut bytes = [0u8; 32];
    bytes[0] = tag;
    Pubkey::new(bytes)
}

/// A ledger of authority `key(1)` holding `pool`, and "node" owned by
/// `key(2)` with `points` credited at the time `at`.
fn ledger_with_credited_server(pool: u64, points: u64, at: i64) -> (AdminAccount, Registry) {
    let a = key(1);
    let mut ledger = initialize(&Initialize { authority: a });
    deposit_rewards(&mut ledger, &DepositRewards { authority: a }, pool, Ok(())).unwrap();
    let mut registry = Registry::new();
    register_server(
        &ledger,
        &mut registry,
        &RegisterServer { owner: key(2), authority: a },
        "node".to_string(),
        0,
    )
    .unwrap();
    submit_metrics(
        &ledger,
        &mut registry,
        &SubmitMetrics { server: "node".to_string(), authority: a },
        100,
        0,
        points,
        at,
    )
    .unwrap();
    (ledger, registry)
}

#[test]
fn constants_have_their_exact_values() {
    assert_eq!(GRACE_PERIOD, 604_800);
    assert_eq!(CLAIM_COOLDOWN, 604_800);
    assert_eq!(STALE_AFTER, 31_536_000);
    assert_eq!(MAX_SERVER_ID_LEN, 32);
    assert_eq!(MAX_UPTIME, 100);
}

#[test]
fn claim_one_second_before_seven_days_is_rejected() {
    let (mut ledger, mut registry) = ledger_with_credited_server(1000, 300, 1_000);
    let claim = ClaimRewards { server: "node".to_string(), owner: key(2) };
    let at = 1_000 + 604_799;
    assert_eq!(claim_transfer(&ledger, &registry, &claim, at), Err(ErrorCode::ClaimCooldownActive));
    assert_eq!(
        claim_rewards(&mut ledger, &mut registry, &claim, at, Ok(())),
        Err(ErrorCode::ClaimCooldownActive)
    );
    assert_eq!(ledger.reward_pool, 1000);
    assert_eq!(registry.get("node").unwrap().pending_rewards, 300);
    assert_eq!(registry.total_pending(), 300);
}

#[test]
fn claim_at_exactly_seven_days_is_accepted() {
    let (mut ledger, mut registry) = ledger_with_credited_server(1000, 300, 1_000);
    let claim = ClaimRewards { server: "node".to_string(), owner: key(2) };
    assert_eq!(
        claim_rewards(&mut ledger, &mut registry, &claim, 1_000 + 604_800, Ok(())),
        Ok(RewardsClaimed { wallet_address: key(2), reward_amount: 300 })
    );
    assert_eq!(ledger.reward_pool, 700);
    assert_eq!(registry.get("node").unwrap().pending_rewards, 0);
}

#[test]
fn new_metrics_restart_the_cooldown() {
    let a = key(1);
    let (mut ledger, mut registry) = ledger_with_credited_server(1000, 300, 0);
    submit_metrics(
        &ledger,
        &mut registry,
        &SubmitMetrics { server: "node".to_string(), authority: a },
        100,
        0,
        1,
        604_000,
    )
    .unwrap();
    let claim = ClaimRewards { server: "node".to_string(), owner: key(2) };
    assert_eq!(
        claim_rewards(&mut ledger, &mut registry, &claim, 604_800, Ok(())),
        Err(ErrorCode::ClaimCooldownActive)
    );
    assert_eq!(
        claim_rewards(&mut ledger, &mut registry, &claim, 604_000 + 604_800, Ok(())),
        Ok(RewardsClaimed { wallet_address: key(2), reward_amount: 301 })
    );
}

#[test]
fn a_claim_does_not_start_a_cooldown_of_its_own() {
    let (mut ledger, mut registry) = ledger_with_credited_server(1000, 300, 0);
    let claim = ClaimRewards { server: "node".to_string(), owner: key(2) };
    claim_rewards(&mut ledger, &mut registry, &claim, 604_800, Ok(())).unwrap();
    assert_eq!(
        claim_rewards(&mut ledger, &mut registry, &claim, 604_801, Ok(())),
        Ok(RewardsClaimed { wallet_address: key(2), reward_amount: 0 })
    );
    assert_eq!(ledger.reward_pool, 700);
}

#[test]
fn claim_on_a_server_without_metrics_counts_from_time_zero() {
    let a = key(1);
    let mut ledger = initialize(&Initialize { authority: a });
    let mut registry = Registry::new();
    register_server(
        &ledger,
        &mut registry,
        &RegisterServer { owner: key(2), authority: a },
        "node".to_string(),
        5_000_000,
    )
    .unwrap();
    let claim = ClaimRewards { server: "node".to_string(), owner: key(2) };
    assert_eq!(
        claim_rewards(&mut ledger, &mut registry, &claim, 604_799, Ok(())),
        Err(ErrorCode::ClaimCooldownActive)
    );
    assert_eq!(
        claim_rewards(&mut ledger, &mut registry, &claim, 5_000_000, Ok(())),
        Ok(RewardsClaimed { wallet_address: key(2), reward_amount: 0 })
    );
}

#[test]
fn times_at_the_ends_of_the_range_do_not_overflow() {
    let a = key(1);
    let (mut ledger, mut registry) = ledger_with_credited_server(10, 5, i64::MAX);
    let claim = ClaimRewards { server: "node".to_string(), owner: key(2) };
    assert_eq!(
        claim_rewards(&mut ledger, &mut registry, &claim, i64::MIN, Ok(())),
        Err(ErrorCode::ClaimCooldownActive)
    );
    assert_eq!(
        reclaim_stale_rewards(
            &ledger,
            &mut registry,
            &ReclaimRewards { server: "node".to_string(), authority: a },
            i64::MIN
        ),
        Err(ErrorCode::RewardsNotStale)
    );
    submit_metrics(
        &ledger,
        &mut registry,
        &SubmitMetrics { server: "node".to_string(), authority: a },
        0,
        0,
        0,
        i64::MIN,
    )
    .unwrap();
    assert_eq!(
        claim_rewards(&mut ledger, &mut registry, &claim, i64::MAX, Ok(())),
        Ok(RewardsClaimed { wallet_address: key(2), reward_amount: 5 })
    );
}

#[test]
fn reclaim_one_second_before_365_days_is_rejected() {
    let (ledger, mut registry) = ledger_with_credited_server(1000, 300, 777);
    assert_eq!(
        reclaim_stale_rewards(
            &ledger,
            &mut registry,
            &ReclaimRewards { server: "node".to_string(), authority: key(1) },
            777 + 31_535_999
        ),
        Err(ErrorCode::RewardsNotStale)
    );
    assert_eq!(registry.get("node").unwrap().pending_rewards, 300);
}

#[test]
fn reclaim_at_exactly_365_days_forfeits_what_is_pending() {
    let (ledger, mut registry) = ledger_with_credited_server(1000, 300, 777);
    assert_eq!(
        reclaim_stale_rewards(
            &ledger,
            &mut registry,
            &ReclaimRewards { server: "node".to_string(), authority: key(1) },
            777 + 31_536_000
        ),
        Ok(RewardsReclaimed { server_id: "node".to_string(), amount: 300 })
    );
    let server = registry.get("node").unwrap();
    assert_eq!(server.pending_rewards, 0);
    assert_eq!(server.last_metrics_update, 777);
    assert_eq!(ledger.reward_pool, 1000);
}

#[test]
fn identifier_of_32_characters_is_accepted_and_33_rejected() {
    let a = key(1);
    let ledger = initialize(&Initialize { authority: a });
    let mut registry = Registry::new();
    let ctx = RegisterServer { owner: key(2), authority: a };
    assert!(register_server(&ledger, &mut registry, &ctx, "a".repeat(32), 0).is_ok());
    assert_eq!(
        register_server(&ledger, &mut registry, &ctx, "a".repeat(33), 0),
        Err(ErrorCode::ServerIdTooLong)
    );
    assert_eq!(registry.len(), 1);
}

#[test]
fn identifier_length_counts_characters() {
    let a = key(1);
    let ledger = initialize(&Initialize { authority: a });
    let mut registry = Registry::new();
    let ctx = RegisterServer { owner: key(2), authority: a };
    let id = "é".repeat(32);
    assert_eq!(id.len(), 64);
    assert!(register_server(&ledger, &mut registry, &ctx, id.clone(), 0).is_ok());
    assert!(registry.contains(&id));
    assert_eq!(
        register_server(&ledger, &mut registry, &ctx, "é".repeat(33), 0),
        Err(ErrorCode::ServerIdTooLong)
    );
}

#[test]
fn empty_identifier_is_an_identifier() {
    let a = key(1);
    let ledger = initialize(&Initialize { authority: a });
    let mut registry = Registry::new();
    let ctx = RegisterServer { owner: key(2), authority: a };
    assert!(register_server(&ledger, &mut registry, &ctx, String::new(), 0).is_ok());
    assert_eq!(
        register_server(&ledger, &mut registry, &ctx, String::new(), 0),
        Err(ErrorCode::DuplicateServerId)
    );
}

#[test]
fn uptime_of_100_is_accepted_and_101_rejected() {
    let (ledger, mut registry) = ledger_with_credited_server(0, 0, 0);
    let ctx = SubmitMetrics { server: "node".to_string(), authority: key(1) };
    assert!(submit_metrics(&ledger, &mut registry, &ctx, 100, 0, 1, 9).is_ok());
    assert_eq!(
        submit_metrics(&ledger, &mut registry, &ctx, 101, 0, 1, 10),
        Err(ErrorCode::InvalidUptime)
    );
    let server = registry.get("node").unwrap();
    assert_eq!(server.pending_rewards, 1);
    assert_eq!(server.last_metrics_update, 9);
}

#[test]
fn registration_at_the_latest_possible_time() {
    let a = key(1);
    let ledger = initialize(&Initialize { authority: a });
    let mut registry = Registry::new();
    let now = i64::MAX - 604_800;
    let events = register_server(
        &ledger,
        &mut registry,
        &RegisterServer { owner: key(2), authority: a },
        "late".to_string(),
        now,
    )
    .unwrap();
    assert_eq!(events.1.end_timestamp, i64::MAX);
    assert_eq!(registry.get("late").unwrap().grace_period_end, i64::MAX);
}
