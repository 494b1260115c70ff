use helioq::{
    claim_rewards, deactivate_server, deposit_rewards, initialize, reassign_server,
    reclaim_stale_rewards, register_server, submit_metrics, AdminAccount, ClaimRewards,
    DeactivateServer, DepositRewards, Initialize, Pubkey, ReassignServer, ReclaimRewards,
    RegisterServer, Registry, Server, SubmitMetrics,
};

const YEAR: i64 = 365 * 24 * 3600;

fn key(tag: u8) -> Pubkey {
    Pubkey::new([tag; 32])
}

fn books(ledger: &AdminAccount, registry: &Registry) -> u128 {
    ledger.reward_pool as u128 + registry.total_pending()
}

/// A ledger of authority `key(1)` holding 1000, and three servers "s1", "s2"
/// and "s3" of the owners `key(11)`, `key(12)` and `key(13)` with 100, 200
/// and 300 pending since the time 0.
fn three_servers() -> (AdminAccount, Registry) {
    let a = key(1);
    let mut ledger = initialize(&Initialize { authority: a });
    deposit_rewards(&mut ledger, &DepositRewards { authority: a }, 1000, Ok(())).unwrap();
    let mut registry = Registry::new();
    for n in 1u8..4 {
        let id = format!("s{}", n);
        register_server(
            &ledger,
            &mut registry,
            &RegisterServer { owner: key(10 + n), authority: a },
            id.clone(),
            0,
        )
        .unwrap();
        submit_metrics(
            &ledger,
            &mut registry,
            &SubmitMetrics { server: id, authority: a },
            90,
            n as u64,
            100 * n as u64,
            0,
        )
        .unwrap();
    }
    (ledger, registry)
}

#[test]
fn total_pending_sums_all_records() {
    let (ledger, registry) = three_servers();
    assert_eq!(registry.total_pending(), 600);
    assert_eq!(books(&ledger, &registry), 1600);
    assert_eq!(Registry::new().total_pending(), 0);
}

#[test]
fn total_pending_does_not_overflow_a_balance() {
    let a = key(1);
    let ledger = initialize(&Initialize { authority: a });
    let mut registry = Registry::new();
    for id in ["x", "y"] {
        register_server(
            &ledger,
            &mut registry,
            &RegisterServer { owner: key(2), authority: a },
            id.to_string(),
            0,
        )
        .unwrap();
        submit_metrics(
            &ledger,
            &mut registry,
            &SubmitMetrics { server: id.to_string(), authority: a },
            1,
            1,
            u64::MAX,
            0,
        )
        .unwrap();
    }
    assert_eq!(registry.total_pending(), 2 * (u64::MAX as u128));
}

#[test]
fn accrual_adds_exactly_the_points() {
    let (ledger, mut registry) = three_servers();
    let others: Vec<Server> =
        vec![registry.get("s1").unwrap().clone(), registry.get("s3").unwrap().clone()];
    submit_metrics(
        &ledger,
        &mut registry,
        &SubmitMetrics { server: "s2".to_string(), authority: key(1) },
        100,
        9,
        17,
        4242,
    )
    .unwrap();
    let s2 = registry.get("s2").unwrap();
    assert_eq!(s2.pending_rewards, 217);
    assert_eq!(s2.last_metrics_update, 4242);
    assert_eq!(s2.owner, key(12));
    assert_eq!(s2.registered_at, 0);
    assert_eq!(s2.grace_period_end, 604_800);
    assert!(s2.active);
    assert_eq!(registry.get("s1"), Some(&others[0]));
    assert_eq!(registry.get("s3"), Some(&others[1]));
    assert_eq!(books(&ledger, &registry), 1617);
}

#[test]
fn claim_takes_from_the_pool_exactly_what_was_pending() {
    let (mut ledger, mut registry) = three_servers();
    let surplus_before = ledger.reward_pool as i128 - registry.total_pending() as i128;
    claim_rewards(
        &mut ledger,
        &mut registry,
        &ClaimRewards { server: "s2".to_string(), owner: key(12) },
        YEAR,
        Ok(()),
    )
    .unwrap();
    assert_eq!(registry.get("s2").unwrap().pending_rewards, 0);
    assert_eq!(ledger.reward_pool, 800);
    assert_eq!(registry.get("s1").unwrap().pending_rewards, 100);
    assert_eq!(registry.get("s3").unwrap().pending_rewards, 300);
    assert_eq!(registry.total_pending(), 400);
    assert_eq!(books(&ledger, &registry), 1600 - 2 * 200);
    assert_eq!(ledger.reward_pool as i128 - registry.total_pending() as i128, surplus_before);
}

#[test]
fn claim_of_nothing_keeps_the_books() {
    let (mut ledger, mut registry) = three_servers();
    let claim = ClaimRewards { server: "s1".to_string(), owner: key(11) };
    claim_rewards(&mut ledger, &mut registry, &claim, YEAR, Ok(())).unwrap();
    let before = books(&ledger, &registry);
    claim_rewards(&mut ledger, &mut registry, &claim, YEAR, Ok(())).unwrap();
    assert_eq!(books(&ledger, &registry), before);
    assert_eq!(ledger.reward_pool, 900);
}

#[test]
fn deposit_raises_the_books_by_the_amount() {
    let (mut ledger, registry) = three_servers();
    deposit_rewards(&mut ledger, &DepositRewards { authority: key(1) }, 55, Ok(())).unwrap();
    assert_eq!(books(&ledger, &registry), 1655);
    assert_eq!(registry.total_pending(), 600);
}

#[test]
fn reclaim_discards_what_was_pending() {
    let (ledger, mut registry) = three_servers();
    reclaim_stale_rewards(
        &ledger,
        &mut registry,
        &ReclaimRewards { server: "s3".to_string(), authority: key(1) },
        YEAR,
    )
    .unwrap();
    assert_eq!(ledger.reward_pool, 1000);
    assert_eq!(registry.total_pending(), 300);
    assert_eq!(books(&ledger, &registry), 1300);
}

#[test]
fn registration_deactivation_and_reassignment_keep_the_books() {
    let (ledger, mut registry) = three_servers();
    let a = key(1);
    register_server(
        &ledger,
        &mut registry,
        &RegisterServer { owner: key(14), authority: a },
        "s4".to_string(),
        10,
    )
    .unwrap();
    assert_eq!(books(&ledger, &registry), 1600);
    reassign_server(
        &ledger,
        &mut registry,
        &ReassignServer { server: "s1".to_string(), new_owner: key(20), authority: a },
    )
    .unwrap();
    assert_eq!(books(&ledger, &registry), 1600);
    deactivate_server(
        &ledger,
        &mut registry,
        &DeactivateServer { server: "s1".to_string(), authority: a },
    )
    .unwrap();
    assert_eq!(books(&ledger, &registry), 1600);
    assert_eq!(registry.len(), 4);
}
