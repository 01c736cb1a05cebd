use swiftremit::{
    Authorization, ContractError, Event, EventBody, Ledger, Principal, Remittance,
    RemittanceStatus, SwiftRemitContract, Transfer,
};

fn admin() -> Principal {
    Principal::account(0, 1)
}

fn token() -> Principal {
    Principal::contract(0, 2)
}

fn sender() -> Principal {
    Principal::account(0, 3)
}

fn agent() -> Principal {
    Principal::account(0, 4)
}

fn by(principal: Principal) -> Authorization {
    Authorization::new(principal)
}

/// A ledger at sequence 7 and time 1000, initialized at `fee_bps`, with
/// `agent()` registered and the queues emptied.
fn ready(fee_bps: u32) -> Ledger {
    let mut env = Ledger::new(7, 1000);
    SwiftRemitContract::initialize(&mut env, admin(), token(), fee_bps).unwrap();
    SwiftRemitContract::register_agent(&mut env, &by(admin()), agent()).unwrap();
    env.take_events();
    env
}

fn stamped(body: EventBody) -> Event {
    Event { schema_version: 1, sequence: 7, timestamp: 1000, body }
}

#[test]
fn a_new_ledger_is_empty() {
    let env = Ledger::new(3, 99);
    assert_eq!(env.sequence(), 3);
    assert_eq!(env.timestamp(), 99);
    assert!(!env.has_admin());
    assert_eq!(env.get_admin(), Err(ContractError::NotFound));
    assert_eq!(env.get_usdc_token(), Err(ContractError::NotFound));
    assert_eq!(env.get_platform_fee_bps(), Err(ContractError::NotFound));
    assert_eq!(env.get_remittance_counter(), Err(ContractError::NotFound));
    assert_eq!(env.get_accumulated_fees(), Err(ContractError::NotFound));
    assert_eq!(env.get_remittance(1), Err(ContractError::NotFound));
    assert!(!env.has_settlement_hash(1));
    assert!(!env.is_agent_registered(&agent()));
    assert!(env.transfers().is_empty());
    assert!(env.events().is_empty());
}

#[test]
fn initialize_fills_the_store() {
    let mut env = Ledger::new(1, 10);
    assert_eq!(SwiftRemitContract::initialize(&mut env, admin(), token(), 250), Ok(()));
    assert!(env.has_admin());
    assert_eq!(env.get_admin(), Ok(admin()));
    assert_eq!(env.get_usdc_token(), Ok(token()));
    assert_eq!(SwiftRemitContract::get_platform_fee_bps(&env), Ok(250));
    assert_eq!(env.get_remittance_counter(), Ok(0));
    assert_eq!(SwiftRemitContract::get_accumulated_fees(&env), Ok(0));
    assert!(env.events().is_empty());
    assert!(env.transfers().is_empty());
}

#[test]
fn initialize_twice_fails() {
    let mut env = Ledger::new(1, 10);
    SwiftRemitContract::initialize(&mut env, admin(), token(), 250).unwrap();
    assert_eq!(
        SwiftRemitContract::initialize(&mut env, sender(), agent(), 300),
        Err(ContractError::AlreadyInitialized)
    );
    assert_eq!(
        SwiftRemitContract::initialize(&mut env, sender(), agent(), 10001),
        Err(ContractError::AlreadyInitialized)
    );
    assert_eq!(env.get_admin(), Ok(admin()));
    assert_eq!(env.get_usdc_token(), Ok(token()));
    assert_eq!(env.get_platform_fee_bps(), Ok(250));
}

#[test]
fn initialize_refuses_a_rate_above_all() {
    let mut env = Ledger::new(1, 10);
    assert_eq!(
        SwiftRemitContract::initialize(&mut env, admin(), token(), 10001),
        Err(ContractError::InvalidFeeBps)
    );
    assert!(!env.has_admin());
    assert_eq!(env.get_platform_fee_bps(), Err(ContractError::NotFound));
    assert_eq!(SwiftRemitContract::initialize(&mut env, admin(), token(), 10000), Ok(()));
    assert_eq!(env.get_platform_fee_bps(), Ok(10000));
}

#[test]
fn administration_needs_an_administrator() {
    let mut env = Ledger::new(1, 10);
    let auth = by(admin());
    assert_eq!(
        SwiftRemitContract::register_agent(&mut env, &auth, agent()),
        Err(ContractError::NotFound)
    );
    assert_eq!(
        SwiftRemitContract::remove_agent(&mut env, &auth, agent()),
        Err(ContractError::NotFound)
    );
    assert_eq!(SwiftRemitContract::update_fee(&mut env, &auth, 10), Err(ContractError::NotFound));
    assert_eq!(
        SwiftRemitContract::withdraw_fees(&mut env, &auth, admin()),
        Err(ContractError::NotFound)
    );
    assert!(env.events().is_empty());
    assert!(!env.is_agent_registered(&agent()));
}

#[test]
fn agents_are_registered_and_removed() {
    let mut env = Ledger::new(7, 1000);
    SwiftRemitContract::initialize(&mut env, admin(), token(), 250).unwrap();
    let auth = by(admin());
    assert!(!SwiftRemitContract::is_agent_registered(&env, agent()));
    assert_eq!(SwiftRemitContract::register_agent(&mut env, &auth, agent()), Ok(()));
    assert!(SwiftRemitContract::is_agent_registered(&env, agent()));
    assert_eq!(SwiftRemitContract::register_agent(&mut env, &auth, agent()), Ok(()));
    assert!(SwiftRemitContract::is_agent_registered(&env, agent()));
    assert_eq!(SwiftRemitContract::remove_agent(&mut env, &auth, agent()), Ok(()));
    assert!(!SwiftRemitContract::is_agent_registered(&env, agent()));
    assert_eq!(SwiftRemitContract::remove_agent(&mut env, &auth, agent()), Ok(()));
    assert!(!SwiftRemitContract::is_agent_registered(&env, agent()));
    assert_eq!(SwiftRemitContract::remove_agent(&mut env, &auth, sender()), Ok(()));
    assert!(!SwiftRemitContract::is_agent_registered(&env, sender()));
    assert_eq!(
        env.events().clone(),
        vec![
            stamped(EventBody::AgentRegistered { agent: agent(), admin: admin() }),
            stamped(EventBody::AgentRegistered { agent: agent(), admin: admin() }),
            stamped(EventBody::AgentRemoved { agent: agent(), admin: admin() }),
            stamped(EventBody::AgentRemoved { agent: agent(), admin: admin() }),
            stamped(EventBody::AgentRemoved { agent: sender(), admin: admin() }),
        ]
    );
}

#[test]
fn create_refuses_amounts_that_are_not_positive() {
    let mut env = ready(250);
    let auth = by(sender());
    for amount in [0, -1, -1000, i128::MIN] {
        assert_eq!(
            SwiftRemitContract::create_remittance(&mut env, &auth, sender(), agent(), amount, None),
            Err(ContractError::InvalidAmount)
        );
    }
    let stranger = Principal::account(9, 9);
    assert_eq!(
        SwiftRemitContract::create_remittance(&mut env, &auth, sender(), stranger, 0, None),
        Err(ContractError::InvalidAmount)
    );
    let mut bare = Ledger::new(1, 1);
    assert_eq!(
        SwiftRemitContract::create_remittance(&mut bare, &auth, sender(), agent(), -5, Some(3)),
        Err(ContractError::InvalidAmount)
    );
    assert_eq!(env.get_remittance_counter(), Ok(0));
    assert!(env.transfers().is_empty());
    assert!(env.events().is_empty());
}

#[test]
fn create_refuses_agents_that_are_not_registered() {
    let mut env = ready(250);
    let auth = by(sender());
    let stranger = Principal::account(9, 9);
    assert_eq!(
        SwiftRemitContract::create_remittance(&mut env, &auth, sender(), stranger, 1000, None),
        Err(ContractError::AgentNotRegistered)
    );
    SwiftRemitContract::remove_agent(&mut env, &by(admin()), agent()).unwrap();
    env.take_events();
    assert_eq!(
        SwiftRemitContract::create_remittance(&mut env, &auth, sender(), agent(), 1000, None),
        Err(ContractError::AgentNotRegistered)
    );
    let mut bare = Ledger::new(1, 1);
    assert_eq!(
        SwiftRemitContract::create_remittance(&mut bare, &auth, sender(), agent(), 1000, None),
        Err(ContractError::AgentNotRegistered)
    );
    assert_eq!(env.get_remittance_counter(), Ok(0));
    assert_eq!(env.get_remittance(1), Err(ContractError::NotFound));
    assert!(env.transfers().is_empty());
    assert!(env.events().is_empty());
}

#[test]
fn create_stores_a_pending_remittance() {
    let mut env = ready(250);
    let id = SwiftRemitContract::create_remittance(
        &mut env,
        &by(sender()),
        sender(),
        agent(),
        1000,
        Some(5000),
    );
    assert_eq!(id, Ok(1));
    let expected = Remittance {
        id: 1,
        sender: sender(),
        agent: agent(),
        amount: 1000,
        fee: 25,
        status: RemittanceStatus::Pending,
        expiry: Some(5000),
    };
    assert_eq!(SwiftRemitContract::get_remittance(&env, 1), Ok(expected));
    assert_eq!(env.get_remittance_counter(), Ok(1));
    assert_eq!(env.get_accumulated_fees(), Ok(0));
    assert!(!env.has_settlement_hash(1));
    assert_eq!(env.transfers().clone(), vec![Transfer::Deposit { from: sender(), amount: 1000 }]);
    assert_eq!(
        env.events().clone(),
        vec![stamped(EventBody::RemittanceCreated {
            remittance_id: 1,
            sender: sender(),
            agent: agent(),
            token: token(),
            amount: 1000,
            fee: 25,
        })]
    );
}

#[test]
fn ids_count_up_from_one() {
    let mut env = ready(100);
    let auth = by(sender());
    for expected in 1..=5u64 {
        let id =
            SwiftRemitContract::create_remittance(&mut env, &auth, sender(), agent(), 200, None);
        assert_eq!(id, Ok(expected));
        assert_eq!(env.get_remittance_counter(), Ok(expected));
        assert_eq!(env.get_remittance(expected).unwrap().id, expected);
        assert_eq!(env.get_remittance(expected).unwrap().fee, 2);
    }
    assert_eq!(env.get_remittance(6), Err(ContractError::NotFound));
    assert_eq!(env.get_remittance(0), Err(ContractError::NotFound));
    assert_eq!(env.transfers().len(), 5);
}

#[test]
fn create_reports_overflow_of_the_fee() {
    let mut env = ready(2);
    let auth = by(sender());
    assert_eq!(
        SwiftRemitContract::create_remittance(&mut env, &auth, sender(), agent(), i128::MAX, None),
        Err(ContractError::Overflow)
    );
    assert_eq!(env.get_remittance_counter(), Ok(0));
    assert!(env.transfers().is_empty());
    assert!(env.events().is_empty());
}

#[test]
fn create_reports_overflow_of_the_counter() {
    let mut env = ready(250);
    env.set_remittance_counter(u64::MAX);
    assert_eq!(
        SwiftRemitContract::create_remittance(
            &mut env,
            &by(sender()),
            sender(),
            agent(),
            1000,
            None
        ),
        Err(ContractError::Overflow)
    );
    assert_eq!(env.get_remittance_counter(), Ok(u64::MAX));
    assert!(env.transfers().is_empty());
    env.set_remittance_counter(u64::MAX - 1);
    assert_eq!(
        SwiftRemitContract::create_remittance(
            &mut env,
            &by(sender()),
            sender(),
            agent(),
            1000,
            None
        ),
        Ok(u64::MAX)
    );
}

#[test]
fn create_needs_rate_asset_and_counter() {
    let auth = by(sender());
    let mut env = Ledger::new(1, 1);
    env.set_agent_registered(&agent(), true);
    assert_eq!(
        SwiftRemitContract::create_remittance(&mut env, &auth, sender(), agent(), 10, None),
        Err(ContractError::NotFound)
    );
    env.set_platform_fee_bps(100);
    assert_eq!(
        SwiftRemitContract::create_remittance(&mut env, &auth, sender(), agent(), 10, None),
        Err(ContractError::NotFound)
    );
    env.set_usdc_token(&token());
    assert_eq!(
        SwiftRemitContract::create_remittance(&mut env, &auth, sender(), agent(), 10, None),
        Err(ContractError::NotFound)
    );
    assert!(env.transfers().is_empty());
    env.set_remittance_counter(41);
    assert_eq!(
        SwiftRemitContract::create_remittance(&mut env, &auth, sender(), agent(), 10, None),
        Ok(42)
    );
}

#[test]
fn payout_of_a_thousand_at_250_basis_points() {
    let mut env = ready(250);
    let id = SwiftRemitContract::create_remittance(
        &mut env,
        &by(sender()),
        sender(),
        agent(),
        1000,
        None,
    )
    .unwrap();
    assert_eq!(env.get_remittance(id).unwrap().fee, 25);
    env.take_transfers();
    env.take_events();

    assert_eq!(SwiftRemitContract::confirm_payout(&mut env, &by(agent()), id), Ok(()));

    assert_eq!(env.transfers().clone(), vec![Transfer::Release { to: agent(), amount: 975 }]);
    assert_eq!(SwiftRemitContract::get_accumulated_fees(&env), Ok(25));
    let settled = env.get_remittance(id).unwrap();
    assert_eq!(settled.status, RemittanceStatus::Completed);
    assert_eq!(settled.amount, 1000);
    assert_eq!(settled.fee, 25);
    assert!(env.has_settlement_hash(id));
    assert_eq!(
        env.events().clone(),
        vec![stamped(EventBody::RemittanceCompleted {
            remittance_id: id,
            sender: sender(),
            agent: agent(),
            token: token(),
            amount: 975,
        })]
    );
}

#[test]
fn confirm_after_expiry_fails_and_leaves_pending() {
    let mut env = ready(250);
    let expiry = 2000;
    let id = SwiftRemitContract::create_remittance(
        &mut env,
        &by(sender()),
        sender(),
        agent(),
        1000,
        Some(expiry),
    )
    .unwrap();
    env.take_transfers();
    env.take_events();

    env.set_time(8, expiry + 1);
    assert_eq!(
        SwiftRemitContract::confirm_payout(&mut env, &by(agent()), id),
        Err(ContractError::SettlementExpired)
    );
    assert_eq!(env.get_remittance(id).unwrap().status, RemittanceStatus::Pending);
    assert!(!env.has_settlement_hash(id));
    assert_eq!(env.get_accumulated_fees(), Ok(0));
    assert!(env.transfers().is_empty());
    assert!(env.events().is_empty());
}

#[test]
fn confirm_at_the_expiry_itself_succeeds() {
    let mut env = ready(250);
    let id = SwiftRemitContract::create_remittance(
        &mut env,
        &by(sender()),
        sender(),
        agent(),
        1000,
        Some(2000),
    )
    .unwrap();
    env.set_time(8, 2000);
    assert_eq!(SwiftRemitContract::confirm_payout(&mut env, &by(agent()), id), Ok(()));
    assert_eq!(env.get_remittance(id).unwrap().status, RemittanceStatus::Completed);
    assert_eq!(env.events()[1].sequence, 8);
    assert_eq!(env.events()[1].timestamp, 2000);
}

#[test]
fn a_remittance_is_paid_out_once() {
    let mut env = ready(250);
    let id = SwiftRemitContract::create_remittance(
        &mut env,
        &by(sender()),
        sender(),
        agent(),
        1000,
        None,
    )
    .unwrap();
    SwiftRemitContract::confirm_payout(&mut env, &by(agent()), id).unwrap();
    let transfers = env.transfers().clone();
    let events = env.events().clone();

    env.set_time(9, 5000);
    assert_eq!(
        SwiftRemitContract::confirm_payout(&mut env, &by(agent()), id),
        Err(ContractError::InvalidStatus)
    );
    assert_eq!(env.transfers().clone(), transfers);
    assert_eq!(env.events().clone(), events);
    assert_eq!(env.get_accumulated_fees(), Ok(25));
    assert_eq!(env.get_remittance(id).unwrap().status, RemittanceStatus::Completed);
}

#[test]
fn a_settlement_marker_stops_a_pending_remittance() {
    let mut env = ready(250);
    let id = SwiftRemitContract::create_remittance(
        &mut env,
        &by(sender()),
        sender(),
        agent(),
        1000,
        None,
    )
    .unwrap();
    env.take_transfers();
    env.set_settlement_hash(id);
    assert_eq!(
        SwiftRemitContract::confirm_payout(&mut env, &by(agent()), id),
        Err(ContractError::DuplicateSettlement)
    );
    assert_eq!(env.get_remittance(id).unwrap().status, RemittanceStatus::Pending);
    assert!(env.transfers().is_empty());
    assert_eq!(env.get_accumulated_fees(), Ok(0));
}

#[test]
fn confirm_of_an_unknown_remittance_fails() {
    let mut env = ready(250);
    assert_eq!(
        SwiftRemitContract::confirm_payout(&mut env, &by(agent()), 1),
        Err(ContractError::NotFound)
    );
    assert_eq!(
        SwiftRemitContract::cancel_remittance(&mut env, &by(sender()), 1),
        Err(ContractError::NotFound)
    );
    assert_eq!(SwiftRemitContract::get_remittance(&env, 1), Err(ContractError::NotFound));
}

#[test]
fn confirm_refuses_an_agent_that_cannot_receive() {
    let mut env = ready(250);
    let odd = Principal { version: 96, key_hi: 0, key_lo: 4 };
    SwiftRemitContract::register_agent(&mut env, &by(admin()), odd).unwrap();
    let id =
        SwiftRemitContract::create_remittance(&mut env, &by(sender()), sender(), odd, 1000, None)
            .unwrap();
    env.take_transfers();
    assert_eq!(
        SwiftRemitContract::confirm_payout(&mut env, &by(odd), id),
        Err(ContractError::InvalidAddress)
    );
    assert_eq!(env.get_remittance(id).unwrap().status, RemittanceStatus::Pending);
    assert!(env.transfers().is_empty());
}

#[test]
fn confirm_reports_overflow_of_the_pool() {
    let mut env = ready(250);
    let id = SwiftRemitContract::create_remittance(
        &mut env,
        &by(sender()),
        sender(),
        agent(),
        1000,
        None,
    )
    .unwrap();
    env.take_transfers();
    env.take_events();
    env.set_accumulated_fees(i128::MAX - 24);
    assert_eq!(
        SwiftRemitContract::confirm_payout(&mut env, &by(agent()), id),
        Err(ContractError::Overflow)
    );
    assert_eq!(env.get_remittance(id).unwrap().status, RemittanceStatus::Pending);
    assert!(!env.has_settlement_hash(id));
    assert_eq!(env.get_accumulated_fees(), Ok(i128::MAX - 24));
    assert!(env.transfers().is_empty());
    assert!(env.events().is_empty());

    env.set_accumulated_fees(i128::MAX - 25);
    assert_eq!(SwiftRemitContract::confirm_payout(&mut env, &by(agent()), id), Ok(()));
    assert_eq!(env.get_accumulated_fees(), Ok(i128::MAX));
}

#[test]
fn confirm_reports_overflow_of_the_payout() {
    let mut env = ready(250);
    let record = Remittance {
        id: 1,
        sender: sender(),
        agent: agent(),
        amount: i128::MAX,
        fee: -1,
        status: RemittanceStatus::Pending,
        expiry: None,
    };
    env.set_remittance(1, &record);
    assert_eq!(
        SwiftRemitContract::confirm_payout(&mut env, &by(agent()), 1),
        Err(ContractError::Overflow)
    );
    assert_eq!(env.get_remittance(1), Ok(record));
    assert!(env.transfers().is_empty());
}

#[test]
fn confirm_needs_asset_and_pool() {
    let mut env = Ledger::new(1, 1);
    let record = Remittance {
        id: 1,
        sender: sender(),
        agent: agent(),
        amount: 100,
        fee: 1,
        status: RemittanceStatus::Pending,
        expiry: None,
    };
    env.set_remittance(1, &record);
    assert_eq!(
        SwiftRemitContract::confirm_payout(&mut env, &by(agent()), 1),
        Err(ContractError::NotFound)
    );
    env.set_usdc_token(&token());
    assert_eq!(
        SwiftRemitContract::confirm_payout(&mut env, &by(agent()), 1),
        Err(ContractError::NotFound)
    );
    assert_eq!(env.get_remittance(1), Ok(record));
    env.set_accumulated_fees(5);
    assert_eq!(SwiftRemitContract::confirm_payout(&mut env, &by(agent()), 1), Ok(()));
    assert_eq!(env.get_accumulated_fees(), Ok(6));
    assert_eq!(env.transfers().clone(), vec![Transfer::Release { to: agent(), amount: 99 }]);
}

#[test]
fn cancel_refunds_the_full_amount() {
    let mut env = ready(250);
    let id = SwiftRemitContract::create_remittance(
        &mut env,
        &by(sender()),
        sender(),
        agent(),
        1000,
        Some(1),
    )
    .unwrap();
    env.take_transfers();
    env.take_events();
    assert_eq!(SwiftRemitContract::cancel_remittance(&mut env, &by(sender()), id), Ok(()));
    assert_eq!(env.transfers().clone(), vec![Transfer::Release { to: sender(), amount: 1000 }]);
    let cancelled = env.get_remittance(id).unwrap();
    assert_eq!(cancelled.status, RemittanceStatus::Cancelled);
    assert_eq!(cancelled.fee, 25);
    assert!(!env.has_settlement_hash(id));
    assert_eq!(env.get_accumulated_fees(), Ok(0));
    assert_eq!(
        env.events().clone(),
        vec![stamped(EventBody::RemittanceCancelled {
            remittance_id: id,
            sender: sender(),
            agent: agent(),
            token: token(),
            amount: 1000,
        })]
    );
}

#[test]
fn a_remittance_is_refunded_once() {
    let mut env = ready(250);
    let id = SwiftRemitContract::create_remittance(
        &mut env,
        &by(sender()),
        sender(),
        agent(),
        1000,
        None,
    )
    .unwrap();
    SwiftRemitContract::cancel_remittance(&mut env, &by(sender()), id).unwrap();
    let transfers = env.transfers().clone();
    assert_eq!(
        SwiftRemitContract::cancel_remittance(&mut env, &by(sender()), id),
        Err(ContractError::InvalidStatus)
    );
    assert_eq!(
        SwiftRemitContract::confirm_payout(&mut env, &by(agent()), id),
        Err(ContractError::InvalidStatus)
    );
    assert_eq!(env.transfers().clone(), transfers);
    assert_eq!(env.get_remittance(id).unwrap().status, RemittanceStatus::Cancelled);
}

#[test]
fn cancel_refuses_a_completed_remittance() {
    let mut env = ready(250);
    let id = SwiftRemitContract::create_remittance(
        &mut env,
        &by(sender()),
        sender(),
        agent(),
        1000,
        None,
    )
    .unwrap();
    SwiftRemitContract::confirm_payout(&mut env, &by(agent()), id).unwrap();
    let transfers = env.transfers().clone();
    assert_eq!(
        SwiftRemitContract::cancel_remittance(&mut env, &by(sender()), id),
        Err(ContractError::InvalidStatus)
    );
    assert_eq!(env.transfers().clone(), transfers);
    assert_eq!(env.get_remittance(id).unwrap().status, RemittanceStatus::Completed);
    assert_eq!(env.get_accumulated_fees(), Ok(25));
}

#[test]
fn cancel_needs_an_asset() {
    let mut env = Ledger::new(1, 1);
    let record = Remittance {
        id: 1,
        sender: sender(),
        agent: agent(),
        amount: 100,
        fee: 1,
        status: RemittanceStatus::Pending,
        expiry: None,
    };
    env.set_remittance(1, &record);
    assert_eq!(
        SwiftRemitContract::cancel_remittance(&mut env, &by(sender()), 1),
        Err(ContractError::NotFound)
    );
    assert_eq!(env.get_remittance(1), Ok(record));
}

#[test]
fn withdraw_of_an_empty_pool_fails() {
    let mut env = ready(250);
    assert_eq!(
        SwiftRemitContract::withdraw_fees(&mut env, &by(admin()), admin()),
        Err(ContractError::NoFeesToWithdraw)
    );
    env.set_accumulated_fees(-5);
    assert_eq!(
        SwiftRemitContract::withdraw_fees(&mut env, &by(admin()), admin()),
        Err(ContractError::NoFeesToWithdraw)
    );
    assert_eq!(env.get_accumulated_fees(), Ok(-5));
    assert!(env.transfers().is_empty());
    assert!(env.events().is_empty());
}

#[test]
fn withdraw_takes_the_whole_pool() {
    let mut env = ready(250);
    let auth = by(sender());
    let a = SwiftRemitContract::create_remittance(&mut env, &auth, sender(), agent(), 1000, None)
        .unwrap();
    let b = SwiftRemitContract::create_remittance(&mut env, &auth, sender(), agent(), 4000, None)
        .unwrap();
    SwiftRemitContract::confirm_payout(&mut env, &by(agent()), a).unwrap();
    SwiftRemitContract::confirm_payout(&mut env, &by(agent()), b).unwrap();
    assert_eq!(env.get_accumulated_fees(), Ok(125));
    env.take_transfers();
    env.take_events();

    let treasury = Principal::account(5, 5);
    assert_eq!(SwiftRemitContract::withdraw_fees(&mut env, &by(admin()), treasury), Ok(()));
    assert_eq!(env.get_accumulated_fees(), Ok(0));
    assert_eq!(env.transfers().clone(), vec![Transfer::Release { to: treasury, amount: 125 }]);
    assert_eq!(
        env.events().clone(),
        vec![stamped(EventBody::FeesWithdrawn {
            admin: admin(),
            recipient: treasury,
            token: token(),
            amount: 125,
        })]
    );
    assert_eq!(
        SwiftRemitContract::withdraw_fees(&mut env, &by(admin()), treasury),
        Err(ContractError::NoFeesToWithdraw)
    );
    assert_eq!(env.transfers().len(), 1);
}

#[test]
fn withdraw_refuses_a_recipient_that_cannot_receive() {
    let mut env = ready(250);
    env.set_accumulated_fees(10);
    let odd = Principal { version: 1, key_hi: 0, key_lo: 0 };
    assert_eq!(
        SwiftRemitContract::withdraw_fees(&mut env, &by(admin()), odd),
        Err(ContractError::InvalidAddress)
    );
    assert_eq!(env.get_accumulated_fees(), Ok(10));
    assert!(env.transfers().is_empty());
}

#[test]
fn update_fee_leaves_existing_remittances_alone() {
    let mut env = ready(250);
    let auth = by(sender());
    let first = SwiftRemitContract::create_remittance(&mut env, &auth, sender(), agent(), 1000, None)
        .unwrap();
    let before = env.get_remittance(first).unwrap();
    assert_eq!(before.fee, 25);

    assert_eq!(SwiftRemitContract::update_fee(&mut env, &by(admin()), 1000), Ok(()));
    assert_eq!(SwiftRemitContract::get_platform_fee_bps(&env), Ok(1000));
    assert_eq!(env.get_remittance(first), Ok(before));

    let second =
        SwiftRemitContract::create_remittance(&mut env, &auth, sender(), agent(), 1000, None)
            .unwrap();
    assert_eq!(env.get_remittance(second).unwrap().fee, 100);
    assert_eq!(env.get_remittance(first).unwrap().fee, 25);

    env.take_transfers();
    SwiftRemitContract::confirm_payout(&mut env, &by(agent()), first).unwrap();
    assert_eq!(env.transfers().clone(), vec![Transfer::Release { to: agent(), amount: 975 }]);
    assert_eq!(env.get_accumulated_fees(), Ok(25));
}

#[test]
fn update_fee_refuses_a_rate_above_all() {
    let mut env = ready(250);
    assert_eq!(
        SwiftRemitContract::update_fee(&mut env, &by(admin()), 10001),
        Err(ContractError::InvalidFeeBps)
    );
    assert_eq!(env.get_platform_fee_bps(), Ok(250));
    assert!(env.events().is_empty());
    assert_eq!(SwiftRemitContract::update_fee(&mut env, &by(admin()), 10000), Ok(()));
    assert_eq!(SwiftRemitContract::update_fee(&mut env, &by(admin()), 0), Ok(()));
    assert_eq!(env.get_platform_fee_bps(), Ok(0));
}

#[test]
fn update_fee_tells_the_sink() {
    let mut env = ready(250);
    SwiftRemitContract::update_fee(&mut env, &by(admin()), 300).unwrap();
    assert_eq!(
        env.events().clone(),
        vec![stamped(EventBody::FeeUpdated {
            admin: admin(),
            old_fee_bps: 300,
            new_fee_bps: 300
        })]
    );
}

#[test]
fn every_record_starts_with_version_sequence_and_time() {
    let mut env = ready(250);
    env.set_time(11, 1234);
    SwiftRemitContract::create_remittance(&mut env, &by(sender()), sender(), agent(), 10, None)
        .unwrap();
    env.set_time(12, 1300);
    SwiftRemitContract::cancel_remittance(&mut env, &by(sender()), 1).unwrap();
    let events = env.take_events();
    assert_eq!(events.len(), 2);
    assert_eq!((events[0].schema_version, events[0].sequence, events[0].timestamp), (1, 11, 1234));
    assert_eq!((events[1].schema_version, events[1].sequence, events[1].timestamp), (1, 12, 1300));
    assert_eq!(events[0].topic(), ("remittance", "created"));
    assert_eq!(events[1].topic(), ("remittance", "cancelled"));
    assert!(env.events().is_empty());
}

#[test]
fn topics_of_all_kinds() {
    let p = admin();
    let bodies = [
        (
            EventBody::RemittanceCreated {
                remittance_id: 1,
                sender: p,
                agent: p,
                token: p,
                amount: 1,
                fee: 0,
            },
            ("remittance", "created"),
        ),
        (
            EventBody::RemittanceCompleted {
                remittance_id: 1,
                sender: p,
                agent: p,
                token: p,
                amount: 1,
            },
            ("remittance", "completed"),
        ),
        (
            EventBody::RemittanceCancelled {
                remittance_id: 1,
                sender: p,
                agent: p,
                token: p,
                amount: 1,
            },
            ("remittance", "cancelled"),
        ),
        (EventBody::BatchSettlementStarted { batch_size: 1 }, ("batch", "started")),
        (
            EventBody::BatchSettlementCompleted { total_count: 1, success_count: 1, total_payout: 1 },
            ("batch", "completed"),
        ),
        (
            EventBody::BatchSettlementFailed { failed_at_index: 0, remittance_id: 1, reason: 6 },
            ("batch", "failed"),
        ),
        (EventBody::AgentRegistered { agent: p, admin: p }, ("agent", "registered")),
        (EventBody::AgentRemoved { agent: p, admin: p }, ("agent", "removed")),
        (EventBody::FeeUpdated { admin: p, old_fee_bps: 1, new_fee_bps: 2 }, ("fee", "updated")),
        (
            EventBody::FeesWithdrawn { admin: p, recipient: p, token: p, amount: 1 },
            ("fee", "withdrawn"),
        ),
    ];
    for (body, topic) in bodies {
        assert_eq!(stamped(body).topic(), topic);
    }
}

#[test]
fn queues_are_handed_over_and_emptied() {
    let mut env = ready(250);
    SwiftRemitContract::create_remittance(&mut env, &by(sender()), sender(), agent(), 10, None)
        .unwrap();
    let transfers = env.take_transfers();
    let events = env.take_events();
    assert_eq!(transfers, vec![Transfer::Deposit { from: sender(), amount: 10 }]);
    assert_eq!(events.len(), 1);
    assert!(env.transfers().is_empty());
    assert!(env.events().is_empty());
    assert_eq!(env.get_remittance(1).unwrap().amount, 10);
    env.transfer(Transfer::Release { to: agent(), amount: 3 });
    env.publish(EventBody::BatchSettlementStarted { batch_size: 2 });
    assert_eq!(env.transfers().clone(), vec![Transfer::Release { to: agent(), amount: 3 }]);
    assert_eq!(
        env.events().clone(),
        vec![stamped(EventBody::BatchSettlementStarted { batch_size: 2 })]
    );
}

#[test]
fn status_is_set_on_stored_remittances_only() {
    let mut env = ready(250);
    SwiftRemitContract::create_remittance(&mut env, &by(sender()), sender(), agent(), 10, Some(4))
        .unwrap();
    env.set_remittance_status(1, RemittanceStatus::Cancelled);
    let r = env.get_remittance(1).unwrap();
    assert_eq!(r.status, RemittanceStatus::Cancelled);
    assert_eq!((r.id, r.amount, r.fee, r.expiry), (1, 10, 0, Some(4)));
    env.set_remittance_status(2, RemittanceStatus::Completed);
    assert_eq!(env.get_remittance(2), Err(ContractError::NotFound));
}
