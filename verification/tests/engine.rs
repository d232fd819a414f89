use cana_engine::credit::TCane;
use cana_engine::errors::Error;
use cana_engine::ledger::{DistributionRecord, Event, TokenOp};
use cana_engine::principal::{AuthContext, Principal};
use cana_engine::revenue::RevenueSplit;
use cana_engine::settlement::CanaCeroContract;
use cana_engine::split::{split_revenue, MAX_SPLIT_TOTAL};
use cana_engine::state::{ContractState, MinterState};
use cana_engine::treasury::DaoTreasury;

fn p(id: u64) -> Principal {
    Principal::new(id)
}

const CONTRACT: u64 = 1;
const ADMIN: u64 = 2;
const TOKEN: u64 = 3;
const USER: u64 = 4;
const OTHER: u64 = 5;

fn initialized_treasury() -> DaoTreasury {
    let mut t = DaoTreasury::new(p(CONTRACT));
    let r = t.initialize(&AuthContext::single(p(ADMIN)), p(ADMIN), p(TOKEN));
    assert_eq!(r, Ok(()));
    t
}

fn initialized_settlement() -> CanaCeroContract {
    let mut c = CanaCeroContract::new(p(CONTRACT));
    let r = c.initialize(&AuthContext::single(p(ADMIN)), p(ADMIN), p(TOKEN));
    assert_eq!(r, Ok(()));
    c
}

fn initialized_credit() -> TCane {
    let mut t = TCane::new(p(CONTRACT));
    let r = t.initialize(&AuthContext::single(p(ADMIN)), p(ADMIN), p(TOKEN));
    assert_eq!(r, Ok(()));
    t
}

#[test]
fn initialize_records_admin_and_token() {
    let t = initialized_treasury();
    assert_eq!(
        t.state,
        Some(ContractState { admin: p(ADMIN), token: p(TOKEN) })
    );
}

#[test]
fn initialize_requires_self_attestation() {
    let mut t = DaoTreasury::new(p(CONTRACT));
    let r = t.initialize(&AuthContext::single(p(OTHER)), p(ADMIN), p(TOKEN));
    assert_eq!(r, Err(Error::Unauthorized));
    assert_eq!(t.state, None);
}

#[test]
fn initialize_twice_is_unauthorized_and_keeps_first_identities() {
    let mut t = initialized_treasury();
    let r = t.initialize(&AuthContext::single(p(OTHER)), p(OTHER), p(USER));
    assert_eq!(r, Err(Error::Unauthorized));
    assert_eq!(
        t.state,
        Some(ContractState { admin: p(ADMIN), token: p(TOKEN) })
    );
}

#[test]
fn initialize_twice_on_credit_controller_is_unauthorized() {
    let mut t = initialized_credit();
    assert_eq!(
        t.state,
        Some(MinterState { admin: p(ADMIN), token: p(TOKEN), minter: p(CONTRACT) })
    );
    let r = t.initialize(&AuthContext::single(p(ADMIN)), p(ADMIN), p(TOKEN));
    assert_eq!(r, Err(Error::Unauthorized));
    assert_eq!(
        t.state,
        Some(MinterState { admin: p(ADMIN), token: p(TOKEN), minter: p(CONTRACT) })
    );
}

#[test]
fn deposit_moves_funds_into_custody() {
    let t = initialized_treasury();
    let ops = t
        .deposit(&AuthContext::single(p(USER)), p(USER), 500)
        .unwrap();
    assert_eq!(
        ops,
        vec![TokenOp::Transfer { token: p(TOKEN), from: p(USER), to: p(CONTRACT), amount: 500 }]
    );
}

#[test]
fn deposit_requires_depositor_authorization() {
    let t = initialized_treasury();
    let r = t.deposit(&AuthContext::single(p(OTHER)), p(USER), 500);
    assert_eq!(r, Err(Error::Unauthorized));
}

#[test]
fn withdraw_requires_stored_admin_not_recipient() {
    let t = initialized_treasury();
    // A proof for the recipient is not a proof for the admin.
    let r = t.withdraw(&AuthContext::single(p(USER)), p(USER), 200);
    assert_eq!(r, Err(Error::Unauthorized));
    let ops = t
        .withdraw(&AuthContext::single(p(ADMIN)), p(USER), 200)
        .unwrap();
    assert_eq!(
        ops,
        vec![TokenOp::Transfer { token: p(TOKEN), from: p(CONTRACT), to: p(USER), amount: 200 }]
    );
}

#[test]
fn nonpositive_amounts_are_invalid_everywhere() {
    let t = initialized_treasury();
    let c = initialized_settlement();
    let m = initialized_credit();
    let admin = AuthContext::single(p(ADMIN));
    let user = AuthContext::single(p(USER));
    let minter = AuthContext::single(p(CONTRACT));
    for amount in [0i128, -1, -100] {
        assert_eq!(t.deposit(&user, p(USER), amount), Err(Error::InvalidAmount));
        assert_eq!(t.withdraw(&admin, p(USER), amount), Err(Error::InvalidAmount));
        assert_eq!(
            c.payout_from_contract(&admin, p(USER), amount).unwrap_err(),
            Error::InvalidAmount
        );
        assert_eq!(
            c.distribute_revenue(&admin, p(USER), p(OTHER), p(ADMIN), amount)
                .unwrap_err(),
            Error::InvalidAmount
        );
        assert_eq!(m.mint(&minter, p(USER), amount), Err(Error::InvalidAmount));
        assert_eq!(m.burn(&minter, p(USER), amount), Err(Error::InvalidAmount));
    }
}

#[test]
fn fresh_instances_refuse_every_privileged_operation() {
    let t = DaoTreasury::new(p(CONTRACT));
    let s = RevenueSplit::new(p(CONTRACT));
    let c = CanaCeroContract::new(p(CONTRACT));
    let m = TCane::new(p(CONTRACT));
    let admin = AuthContext::single(p(ADMIN));
    let user = AuthContext::single(p(USER));
    assert_eq!(t.deposit(&user, p(USER), 500), Err(Error::NotInitialized));
    assert_eq!(t.withdraw(&admin, p(USER), 200), Err(Error::NotInitialized));
    assert_eq!(
        s.distribute(&admin, p(USER), p(OTHER), p(ADMIN), 100),
        Err(Error::NotInitialized)
    );
    assert_eq!(
        c.payout_from_contract(&admin, p(USER), 200).unwrap_err(),
        Error::NotInitialized
    );
    assert_eq!(
        c.distribute_revenue(&admin, p(USER), p(OTHER), p(ADMIN), 100)
            .unwrap_err(),
        Error::NotInitialized
    );
    let mut m2 = m;
    assert_eq!(
        m2.set_minter(&admin, p(USER)),
        Err(Error::NotInitialized)
    );
    assert_eq!(m2.mint(&admin, p(USER), 10), Err(Error::NotInitialized));
    assert_eq!(m2.burn(&admin, p(USER), 10), Err(Error::NotInitialized));
}

#[test]
fn split_is_exact_on_even_totals() {
    assert_eq!(split_revenue(100), (70, 20, 10));
    assert_eq!(split_revenue(1000), (700, 200, 100));
}

#[test]
fn split_residue_goes_to_dao_share() {
    assert_eq!(split_revenue(99), (69, 19, 11));
    assert_eq!(split_revenue(1), (0, 0, 1));
    assert_eq!(split_revenue(3), (2, 0, 1));
}

#[test]
fn split_conserves_largest_supported_total() {
    let (producer, verifier, dao) = split_revenue(MAX_SPLIT_TOTAL);
    assert_eq!(producer + verifier + dao, MAX_SPLIT_TOTAL);
    assert!(producer >= 0 && verifier >= 0 && dao >= 0);
}

#[test]
fn distribute_issues_three_transfers_in_role_order() {
    let mut s = RevenueSplit::new(p(CONTRACT));
    s.initialize(&AuthContext::single(p(ADMIN)), p(ADMIN), p(TOKEN))
        .unwrap();
    let ops = s
        .distribute(&AuthContext::single(p(ADMIN)), p(USER), p(OTHER), p(ADMIN), 99)
        .unwrap();
    assert_eq!(
        ops,
        vec![
            TokenOp::Transfer { token: p(TOKEN), from: p(CONTRACT), to: p(USER), amount: 69 },
            TokenOp::Transfer { token: p(TOKEN), from: p(CONTRACT), to: p(OTHER), amount: 19 },
            TokenOp::Transfer { token: p(TOKEN), from: p(CONTRACT), to: p(ADMIN), amount: 11 },
        ]
    );
}

#[test]
fn distribute_requires_stored_admin() {
    let mut s = RevenueSplit::new(p(CONTRACT));
    s.initialize(&AuthContext::single(p(ADMIN)), p(ADMIN), p(TOKEN))
        .unwrap();
    let r = s.distribute(&AuthContext::single(p(USER)), p(USER), p(OTHER), p(ADMIN), 100);
    assert_eq!(r, Err(Error::Unauthorized));
}

#[test]
fn payout_is_audited() {
    let c = initialized_settlement();
    let receipt = c
        .payout_from_contract(&AuthContext::single(p(ADMIN)), p(USER), 200)
        .unwrap();
    assert_eq!(
        receipt.token_ops,
        vec![TokenOp::Transfer { token: p(TOKEN), from: p(CONTRACT), to: p(USER), amount: 200 }]
    );
    assert_eq!(receipt.events, vec![Event::Payout { to: p(USER), amount: 200 }]);
}

#[test]
fn distribute_revenue_audits_all_four_figures() {
    let c = initialized_settlement();
    let receipt = c
        .distribute_revenue(&AuthContext::single(p(ADMIN)), p(USER), p(OTHER), p(TOKEN), 99)
        .unwrap();
    assert_eq!(receipt.token_ops.len(), 3);
    assert_eq!(
        receipt.events,
        vec![Event::Distribution {
            producer: p(USER),
            verifier: p(OTHER),
            dao_fund: p(TOKEN),
            record: DistributionRecord {
                total: 99,
                producer_share: 69,
                verifier_share: 19,
                dao_share: 11,
            },
        }]
    );
}

#[test]
fn payout_without_admin_proof_is_unauthorized() {
    let c = initialized_settlement();
    let r = c.payout_from_contract(&AuthContext::empty(), p(USER), 200);
    assert_eq!(r.unwrap_err(), Error::Unauthorized);
}

#[test]
fn minter_defaults_to_contract_and_follows_delegation() {
    let mut m = initialized_credit();
    // The default minter is the instance itself, not the admin.
    assert_eq!(
        m.mint(&AuthContext::single(p(ADMIN)), p(USER), 10),
        Err(Error::Unauthorized)
    );
    let ops = m
        .mint(&AuthContext::single(p(CONTRACT)), p(USER), 10)
        .unwrap();
    assert_eq!(ops, vec![TokenOp::Mint { token: p(TOKEN), to: p(USER), amount: 10 }]);

    // After delegation, only the new minter's proof counts.
    m.set_minter(&AuthContext::single(p(ADMIN)), p(USER)).unwrap();
    assert_eq!(
        m.mint(&AuthContext::single(p(ADMIN)), p(USER), 10),
        Err(Error::Unauthorized)
    );
    assert_eq!(
        m.mint(&AuthContext::single(p(CONTRACT)), p(USER), 10),
        Err(Error::Unauthorized)
    );
    let ops = m.mint(&AuthContext::single(p(USER)), p(USER), 10).unwrap();
    assert_eq!(ops, vec![TokenOp::Mint { token: p(TOKEN), to: p(USER), amount: 10 }]);
    let ops = m.burn(&AuthContext::single(p(USER)), p(OTHER), 7).unwrap();
    assert_eq!(ops, vec![TokenOp::Burn { token: p(TOKEN), from: p(OTHER), amount: 7 }]);
}

#[test]
fn set_minter_requires_admin_and_last_write_wins() {
    let mut m = initialized_credit();
    assert_eq!(
        m.set_minter(&AuthContext::single(p(USER)), p(USER)),
        Err(Error::Unauthorized)
    );
    m.set_minter(&AuthContext::single(p(ADMIN)), p(USER)).unwrap();
    m.set_minter(&AuthContext::single(p(ADMIN)), p(OTHER)).unwrap();
    assert_eq!(
        m.state,
        Some(MinterState { admin: p(ADMIN), token: p(TOKEN), minter: p(OTHER) })
    );
}

#[test]
fn end_to_end_custody_scenario() {
    let mut t = DaoTreasury::new(p(CONTRACT));
    t.initialize(&AuthContext::single(p(ADMIN)), p(ADMIN), p(TOKEN))
        .unwrap();

    let deposit_ops = t
        .deposit(&AuthContext::single(p(USER)), p(USER), 500)
        .unwrap();
    assert_eq!(
        deposit_ops,
        vec![TokenOp::Transfer { token: p(TOKEN), from: p(USER), to: p(CONTRACT), amount: 500 }]
    );

    let withdraw_ops = t
        .withdraw(&AuthContext::single(p(ADMIN)), p(OTHER), 200)
        .unwrap();
    assert_eq!(
        withdraw_ops,
        vec![TokenOp::Transfer { token: p(TOKEN), from: p(CONTRACT), to: p(OTHER), amount: 200 }]
    );

    // A second withdrawal authorized by a non-admin fails with no transfer.
    let r = t.withdraw(&AuthContext::single(p(OTHER)), p(OTHER), 100);
    assert_eq!(r, Err(Error::Unauthorized));
}

#[test]
fn auth_context_collects_grants() {
    let mut auth = AuthContext::empty();
    assert!(!auth.authorizes(p(ADMIN)));
    auth.grant(p(ADMIN));
    auth.grant(p(USER));
    assert!(auth.authorizes(p(ADMIN)));
    assert!(auth.authorizes(p(USER)));
    assert!(!auth.authorizes(p(OTHER)));
}
