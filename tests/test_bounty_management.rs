#![allow(dead_code)]

use devasign_task_escrow::{
    DisputeInfo, DisputeResolution, Error, TaskEscrow, TaskEscrowContract, TaskStatus, Transfer,
    MAX_BOUNTY_AMOUNT, MIN_BOUNTY_AMOUNT,
};
use std::collections::HashMap;

const SMALL_AMOUNT: i128 = 100_0000000;
const MEDIUM_AMOUNT: i128 = 1000_0000000;
const LARGE_AMOUNT: i128 = 10000_0000000;
const HUGE_AMOUNT: i128 = 100000_0000000;
const MIN_VALID_AMOUNT: i128 = MIN_BOUNTY_AMOUNT;
const MAX_VALID_AMOUNT: i128 = MAX_BOUNTY_AMOUNT;
const QUALITY_DISPUTE: &str = "Work quality does not meet requirements";
const DEADLINE_DISPUTE: &str = "Deadline was missed without communication";
const SCOPE_DISPUTE: &str = "Deliverables do not match agreed scope";
const PAYMENT_DISPUTE: &str = "Payment terms were not honored";

/// The contract's state together with a stand-in for the token ledger and
/// the host: transfers that an operation returns are applied here, and
/// signatures are granted to whichever party an operation designates unless
/// `auth_denied` is set.
struct TestEnv {
    contract: TaskEscrowContract,
    balances: HashMap<String, i128>,
    timestamp: u64,
    generated: u32,
    auth_denied: bool,
    admin: String,
    usdc_address: String,
    contract_id: String,
}

fn create_test_env() -> TestEnv {
    let contract_id = "CTASKESCROWCONTRACT".to_string();
    let mut env = TestEnv {
        contract: TaskEscrowContract::new(contract_id.clone()),
        balances: HashMap::new(),
        timestamp: 0,
        generated: 0,
        auth_denied: false,
        admin: String::new(),
        usdc_address: "CUSDCTOKENCONTRACT".to_string(),
        contract_id,
    };
    env.admin = env.generate();
    env
}

fn generate_task_id(prefix: &str, index: u32) -> String {
    let base_id = format!("{}-{:06}", prefix, index);
    if base_id.len() >= 25 {
        base_id[..25].to_string()
    } else {
        format!("{:0<25}", base_id)
    }
}

fn generate_dispute_reason(scenario: &str) -> String {
    match scenario {
        "quality" => QUALITY_DISPUTE.to_string(),
        "deadline" => DEADLINE_DISPUTE.to_string(),
        "scope" => SCOPE_DISPUTE.to_string(),
        "payment" => PAYMENT_DISPUTE.to_string(),
        _ => format!("Test dispute reason for scenario: {}", scenario),
    }
}

fn dummy_issue_url() -> String {
    "https://github.com/devasign/tasks/issues/1".to_string()
}

fn standard_amounts() -> Vec<i128> {
    vec![MIN_VALID_AMOUNT, SMALL_AMOUNT, MEDIUM_AMOUNT, LARGE_AMOUNT, HUGE_AMOUNT]
}

fn boundary_amounts() -> Vec<i128> {
    vec![MIN_VALID_AMOUNT, MIN_VALID_AMOUNT + 1, MAX_VALID_AMOUNT - 1, MAX_VALID_AMOUNT]
}

fn invalid_amounts() -> Vec<i128> {
    vec![0, -1, MIN_VALID_AMOUNT - 1, MAX_VALID_AMOUNT + 1]
}

impl TestEnv {
    fn generate(&mut self) -> String {
        self.generated += 1;
        format!("GACCOUNT{:06}", self.generated)
    }

    fn mint(&mut self, who: &str, amount: i128) {
        *self.balances.entry(who.to_string()).or_insert(0) += amount;
    }

    fn balance(&self, who: &str) -> i128 {
        *self.balances.get(who).unwrap_or(&0)
    }

    fn advance_time(&mut self, seconds: u64) {
        self.timestamp += seconds;
    }

    fn apply(&mut self, t: &Transfer) {
        assert!(self.balance(&t.from) >= t.amount);
        *self.balances.entry(t.from.clone()).or_insert(0) -= t.amount;
        *self.balances.entry(t.to.clone()).or_insert(0) += t.amount;
    }

    fn signer(&self, party: &str) -> String {
        if self.auth_denied {
            "GNOSIGNATURE".to_string()
        } else {
            party.to_string()
        }
    }

    fn creator_of(&self, task_id: &str) -> String {
        self.contract
            .get_escrow(&task_id.to_string())
            .map(|e| e.creator)
            .unwrap_or_default()
    }

    fn contributor_of(&self, task_id: &str) -> String {
        self.contract
            .get_escrow(&task_id.to_string())
            .ok()
            .and_then(|e| e.contributor)
            .unwrap_or_default()
    }

    fn current_admin(&self) -> String {
        self.contract.get_admin().unwrap_or_default()
    }

    fn initialize(&mut self, admin: &str, usdc_token: &str) -> Result<(), Error> {
        self.contract.initialize(admin.to_string(), usdc_token.to_string())
    }

    fn set_admin(&mut self, new_admin: &str) -> Result<(), Error> {
        let signer = self.signer(&self.current_admin());
        self.contract.set_admin(&signer, new_admin.to_string())
    }

    fn update_usdc_token(&mut self, new_token: &str) -> Result<(), Error> {
        let signer = self.signer(&self.current_admin());
        self.contract.update_usdc_token(&signer, new_token.to_string())
    }

    fn set_paused(&mut self, paused: bool) -> Result<(), Error> {
        let signer = self.signer(&self.current_admin());
        self.contract.set_paused(&signer, paused)
    }

    fn upgrade(&mut self) -> Result<(), Error> {
        let signer = self.signer(&self.current_admin());
        self.contract.upgrade(&signer)
    }

    fn get_escrow(&self, task_id: &str) -> Result<TaskEscrow, Error> {
        self.contract.get_escrow(&task_id.to_string())
    }

    fn get_dispute_info(&self, task_id: &str) -> Result<DisputeInfo, Error> {
        self.contract.get_dispute_info(&task_id.to_string())
    }

    fn get_task_count(&self) -> u64 {
        self.contract.get_task_count()
    }

    fn get_usdc_balance(&self, who: &str) -> Result<i128, Error> {
        self.contract.get_usdc_token()?;
        Ok(self.balance(who))
    }

    fn has_sufficient_usdc_balance(&self, who: &str, amount: i128) -> Result<bool, Error> {
        self.contract.has_sufficient_usdc_balance(amount, self.balance(who))
    }

    fn get_contract_usdc_balance(&self) -> Result<i128, Error> {
        self.get_usdc_balance(&self.contract_id)
    }

    fn create_escrow(&mut self, creator: &str, task_id: &str, issue_url: &str, amount: i128) -> Result<(), Error> {
        let signer = self.signer(creator);
        let balance = self.balance(creator);
        let t = self.contract.create_escrow(
            &signer,
            creator.to_string(),
            task_id.to_string(),
            issue_url.to_string(),
            amount,
            self.timestamp,
            balance,
        )?;
        self.apply(&t);
        Ok(())
    }

    fn assign_contributor(&mut self, task_id: &str, contributor: &str) -> Result<(), Error> {
        let signer = self.signer(&self.creator_of(task_id));
        self.contract.assign_contributor(&signer, &task_id.to_string(), contributor.to_string())
    }

    fn complete_task(&mut self, task_id: &str) -> Result<(), Error> {
        let signer = self.signer(&self.contributor_of(task_id));
        self.contract.complete_task(&signer, &task_id.to_string(), self.timestamp)
    }

    fn approve_completion(&mut self, task_id: &str) -> Result<(), Error> {
        let signer = self.signer(&self.creator_of(task_id));
        let balance = self.balance(&self.contract_id);
        let t = self.contract.approve_completion(&signer, &task_id.to_string(), balance)?;
        self.apply(&t);
        Ok(())
    }

    fn dispute_task(&mut self, party: &str, task_id: &str, reason: &str) -> Result<(), Error> {
        let signer = self.signer(party);
        self.contract.dispute_task(
            &signer,
            party.to_string(),
            &task_id.to_string(),
            reason.to_string(),
            self.timestamp,
        )
    }

    fn resolve_dispute(&mut self, task_id: &str, resolution: DisputeResolution) -> Result<(), Error> {
        let signer = self.signer(&self.current_admin());
        let balance = self.balance(&self.contract_id);
        let ts = self.contract.resolve_dispute(&signer, &task_id.to_string(), resolution, balance)?;
        for t in ts.iter() {
            self.apply(t);
        }
        Ok(())
    }

    fn refund(&mut self, task_id: &str) -> Result<(), Error> {
        let signer = self.signer(&self.creator_of(task_id));
        let balance = self.balance(&self.contract_id);
        let t = self.contract.refund(&signer, &task_id.to_string(), balance)?;
        self.apply(&t);
        Ok(())
    }

    fn increase_bounty(&mut self, creator: &str, task_id: &str, amount: i128) -> Result<(), Error> {
        let signer = self.signer(creator);
        let balance = self.balance(creator);
        let t = self.contract.increase_bounty(&signer, creator.to_string(), &task_id.to_string(), amount, balance)?;
        self.apply(&t);
        Ok(())
    }

    fn decrease_bounty(&mut self, creator: &str, task_id: &str, amount: i128) -> Result<(), Error> {
        let signer = self.signer(creator);
        let balance = self.balance(&self.contract_id);
        let t = self.contract.decrease_bounty(&signer, creator.to_string(), &task_id.to_string(), amount, balance)?;
        self.apply(&t);
        Ok(())
    }
}

fn open_escrow(env: &mut TestEnv, creator: &str, initial_bounty: i128, minted: i128) -> String {
    let task_id = generate_task_id("test", 1);
    env.mint(creator, minted);
    env.create_escrow(creator, &task_id, &dummy_issue_url(), initial_bounty).unwrap();
    task_id
}

#[test]
fn test_increase_bounty_success() {
    let mut env = create_test_env();
    let (admin, usdc) = (env.admin.clone(), env.usdc_address.clone());
    env.initialize(&admin, &usdc).unwrap();
    let creator = env.generate();
    let initial_bounty = MEDIUM_AMOUNT;
    let increase_amount = 1_000_000;
    let task_id = open_escrow(&mut env, &creator, initial_bounty, initial_bounty + increase_amount);
    let result = env.increase_bounty(&creator, &task_id, increase_amount);
    assert!(result == Ok(()));
    let escrow = env.get_escrow(&task_id).unwrap();
    assert_eq!(escrow.bounty_amount, initial_bounty + increase_amount);
    assert_eq!(env.balance(&env.contract_id.clone()), initial_bounty + increase_amount);
    assert_eq!(env.balance(&creator), 0);
}

#[test]
fn test_decrease_bounty_success() {
    let mut env = create_test_env();
    let (admin, usdc) = (env.admin.clone(), env.usdc_address.clone());
    env.initialize(&admin, &usdc).unwrap();
    let creator = env.generate();
    let initial_bounty = MEDIUM_AMOUNT;
    let decrease_amount = 1_000_000;
    let task_id = open_escrow(&mut env, &creator, initial_bounty, initial_bounty);
    let result = env.decrease_bounty(&creator, &task_id, decrease_amount);
    assert!(result == Ok(()));
    let escrow = env.get_escrow(&task_id).unwrap();
    assert_eq!(escrow.bounty_amount, initial_bounty - decrease_amount);
    assert_eq!(env.balance(&env.contract_id.clone()), initial_bounty - decrease_amount);
    assert_eq!(env.balance(&creator), decrease_amount);
}

#[test]
fn test_increase_bounty_invalid_amount() {
    let mut env = create_test_env();
    let (admin, usdc) = (env.admin.clone(), env.usdc_address.clone());
    env.initialize(&admin, &usdc).unwrap();
    let creator = env.generate();
    let task_id = open_escrow(&mut env, &creator, MEDIUM_AMOUNT, MEDIUM_AMOUNT);
    let result = env.increase_bounty(&creator, &task_id, 0);
    assert!(result.is_err());
    assert_eq!(result.unwrap_err(), Error::InvalidAmount);
    let result = env.increase_bounty(&creator, &task_id, -100);
    assert!(result.is_err());
    assert_eq!(result.unwrap_err(), Error::InvalidAmount);
}

#[test]
fn test_decrease_bounty_invalid_amount() {
    let mut env = create_test_env();
    let (admin, usdc) = (env.admin.clone(), env.usdc_address.clone());
    env.initialize(&admin, &usdc).unwrap();
    let creator = env.generate();
    let task_id = open_escrow(&mut env, &creator, MEDIUM_AMOUNT, MEDIUM_AMOUNT);
    let result = env.decrease_bounty(&creator, &task_id, 0);
    assert!(result.is_err());
    assert_eq!(result.unwrap_err(), Error::InvalidAmount);
    let result = env.decrease_bounty(&creator, &task_id, -100);
    assert!(result.is_err());
    assert_eq!(result.unwrap_err(), Error::InvalidAmount);
}

#[test]
fn test_decrease_bounty_insufficient() {
    let mut env = create_test_env();
    let (admin, usdc) = (env.admin.clone(), env.usdc_address.clone());
    env.initialize(&admin, &usdc).unwrap();
    let creator = env.generate();
    let initial_bounty = 1_000_000;
    let task_id = open_escrow(&mut env, &creator, initial_bounty, initial_bounty);
    let result = env.decrease_bounty(&creator, &task_id, initial_bounty + 1);
    assert!(result.is_err());
    assert_eq!(result.unwrap_err(), Error::InvalidAmount);
    let result = env.decrease_bounty(&creator, &task_id, initial_bounty);
    assert!(result.is_err());
    assert_eq!(result.unwrap_err(), Error::InvalidAmount);
}

#[test]
fn test_increase_bounty_not_creator() {
    let mut env = create_test_env();
    let (admin, usdc) = (env.admin.clone(), env.usdc_address.clone());
    env.initialize(&admin, &usdc).unwrap();
    let creator = env.generate();
    let other = env.generate();
    let task_id = open_escrow(&mut env, &creator, MEDIUM_AMOUNT, MEDIUM_AMOUNT);
    env.mint(&other, MEDIUM_AMOUNT);
    let result = env.increase_bounty(&other, &task_id, 1_000_000);
    assert!(result.is_err());
    assert_eq!(result.unwrap_err(), Error::NotTaskCreator);
}

#[test]
fn test_decrease_bounty_not_creator() {
    let mut env = create_test_env();
    let (admin, usdc) = (env.admin.clone(), env.usdc_address.clone());
    env.initialize(&admin, &usdc).unwrap();
    let creator = env.generate();
    let other = env.generate();
    let task_id = open_escrow(&mut env, &creator, MEDIUM_AMOUNT, MEDIUM_AMOUNT);
    let result = env.decrease_bounty(&other, &task_id, 1_000_000);
    assert!(result.is_err());
    assert_eq!(result.unwrap_err(), Error::NotTaskCreator);
}

#[test]
fn test_increase_bounty_task_not_found() {
    let mut env = create_test_env();
    let (admin, usdc) = (env.admin.clone(), env.usdc_address.clone());
    env.initialize(&admin, &usdc).unwrap();
    let creator = env.generate();
    let task_id = generate_task_id("notfound", 1);
    let result = env.increase_bounty(&creator, &task_id, 1_000_000);
    assert!(result.is_err());
    assert_eq!(result.unwrap_err(), Error::TaskNotFound);
}

#[test]
fn test_decrease_bounty_task_not_found() {
    let mut env = create_test_env();
    let (admin, usdc) = (env.admin.clone(), env.usdc_address.clone());
    env.initialize(&admin, &usdc).unwrap();
    let creator = env.generate();
    let task_id = generate_task_id("notfound", 1);
    let result = env.decrease_bounty(&creator, &task_id, 1_000_000);
    assert!(result.is_err());
    assert_eq!(result.unwrap_err(), Error::TaskNotFound);
}

#[test]
fn test_decrease_bounty_invalid_status() {
    let mut env = create_test_env();
    let (admin, usdc) = (env.admin.clone(), env.usdc_address.clone());
    env.initialize(&admin, &usdc).unwrap();
    let creator = env.generate();
    let contributor = env.generate();
    let task_id = open_escrow(&mut env, &creator, MEDIUM_AMOUNT, MEDIUM_AMOUNT);
    env.assign_contributor(&task_id, &contributor).unwrap();
    let result = env.decrease_bounty(&creator, &task_id, 1_000_000);
    assert!(result.is_err());
    assert_eq!(result.unwrap_err(), Error::InvalidTaskStatus);
}

#[test]
fn test_increase_bounty_invalid_status() {
    let mut env = create_test_env();
    let (admin, usdc) = (env.admin.clone(), env.usdc_address.clone());
    env.initialize(&admin, &usdc).unwrap();
    let creator = env.generate();
    let contributor = env.generate();
    let increase_amount = 1_000_000;
    let task_id = open_escrow(&mut env, &creator, MEDIUM_AMOUNT, MEDIUM_AMOUNT + increase_amount);
    env.assign_contributor(&task_id, &contributor).unwrap();
    let result = env.increase_bounty(&creator, &task_id, increase_amount);
    assert!(result.is_err());
    assert_eq!(result.unwrap_err(), Error::InvalidTaskStatus);
}

#[test]
fn increase_bounty_needs_creator_funds() {
    let mut env = create_test_env();
    let (admin, usdc) = (env.admin.clone(), env.usdc_address.clone());
    env.initialize(&admin, &usdc).unwrap();
    let creator = env.generate();
    let task_id = open_escrow(&mut env, &creator, MEDIUM_AMOUNT, MEDIUM_AMOUNT);
    assert_eq!(env.increase_bounty(&creator, &task_id, 1_000_000), Err(Error::InsufficientBalance));
    assert_eq!(env.get_escrow(&task_id).unwrap().bounty_amount, MEDIUM_AMOUNT);
}

#[test]
fn increase_bounty_caps_total() {
    let mut env = create_test_env();
    let (admin, usdc) = (env.admin.clone(), env.usdc_address.clone());
    env.initialize(&admin, &usdc).unwrap();
    let creator = env.generate();
    let task_id = open_escrow(&mut env, &creator, MAX_VALID_AMOUNT, MAX_VALID_AMOUNT + MIN_VALID_AMOUNT);
    assert_eq!(env.increase_bounty(&creator, &task_id, MIN_VALID_AMOUNT), Err(Error::InvalidTokenAmount));
}

#[test]
fn refund_after_changes_returns_current_bounty() {
    let mut env = create_test_env();
    let (admin, usdc) = (env.admin.clone(), env.usdc_address.clone());
    env.initialize(&admin, &usdc).unwrap();
    let creator = env.generate();
    let task_id = open_escrow(&mut env, &creator, MEDIUM_AMOUNT, MEDIUM_AMOUNT + SMALL_AMOUNT);
    env.increase_bounty(&creator, &task_id, SMALL_AMOUNT).unwrap();
    env.decrease_bounty(&creator, &task_id, 3 * MIN_VALID_AMOUNT).unwrap();
    env.refund(&task_id).unwrap();
    assert_eq!(env.balance(&creator), MEDIUM_AMOUNT + SMALL_AMOUNT);
    assert_eq!(env.balance(&env.contract_id.clone()), 0);
}
