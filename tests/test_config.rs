use devasign_task_escrow::{TaskEscrowContract, MAX_BOUNTY_AMOUNT, MIN_BOUNTY_AMOUNT};

const SMALL_AMOUNT: i128 = 100_0000000;
const MEDIUM_AMOUNT: i128 = 1000_0000000;
const LARGE_AMOUNT: i128 = 10000_0000000;
const HUGE_AMOUNT: i128 = 100000_0000000;
const MIN_VALID_AMOUNT: i128 = MIN_BOUNTY_AMOUNT;
const MAX_VALID_AMOUNT: i128 = MAX_BOUNTY_AMOUNT;
const ONE_HOUR: u64 = 3600;
const ONE_DAY: u64 = 86400;
const ONE_WEEK: u64 = 604800;

fn is_valid_usdc_amount(amount: i128) -> bool {
    TaskEscrowContract::validate_amount(amount).is_ok()
}

fn is_valid_task_id(task_id: &str) -> bool {
    TaskEscrowContract::validate_task_id(&task_id.to_string()).is_ok()
}

fn is_valid_dispute_reason(reason: &str) -> bool {
    TaskEscrowContract::validate_dispute_reason(&reason.to_string()).is_ok()
}

fn standard_amounts() -> Vec<i128> {
    vec![MIN_VALID_AMOUNT, SMALL_AMOUNT, MEDIUM_AMOUNT, LARGE_AMOUNT, HUGE_AMOUNT]
}

fn boundary_amounts() -> Vec<i128> {
    vec![MIN_VALID_AMOUNT, MIN_VALID_AMOUNT + 1, MAX_VALID_AMOUNT - 1, MAX_VALID_AMOUNT]
}

fn invalid_amounts() -> Vec<i128> {
    vec![0, -1, MIN_VALID_AMOUNT - 1, MAX_VALID_AMOUNT + 1]
}

#[test]
fn test_config_constants() {
    assert!(MIN_VALID_AMOUNT > 0);
    assert!(SMALL_AMOUNT > MIN_VALID_AMOUNT);
    assert!(MEDIUM_AMOUNT > SMALL_AMOUNT);
    assert!(LARGE_AMOUNT > MEDIUM_AMOUNT);
    assert!(MAX_VALID_AMOUNT > LARGE_AMOUNT);

    assert_eq!(ONE_HOUR, 3600);
    assert_eq!(ONE_DAY, 24 * ONE_HOUR);
    assert_eq!(ONE_WEEK, 7 * ONE_DAY);
}

#[test]
fn test_scenarios() {
    let standard = standard_amounts();
    assert!(!standard.is_empty());
    assert!(standard.iter().all(|&amount| is_valid_usdc_amount(amount)));

    let boundary = boundary_amounts();
    assert!(!boundary.is_empty());

    let invalid = invalid_amounts();
    assert!(!invalid.is_empty());
    assert!(invalid.iter().all(|&amount| !is_valid_usdc_amount(amount)));
}

#[test]
fn test_validation_helpers() {
    assert!(is_valid_usdc_amount(MIN_VALID_AMOUNT));
    assert!(is_valid_usdc_amount(MAX_VALID_AMOUNT));
    assert!(!is_valid_usdc_amount(0));
    assert!(!is_valid_usdc_amount(-1));

    assert!(is_valid_task_id("cmdkipba20002yl0v8pro56h9"));
    assert!(is_valid_task_id("cmdkrs3w200010p0wqo0rm6j3"));
    assert!(!is_valid_task_id("ab"));
    assert!(!is_valid_task_id(""));

    assert!(is_valid_dispute_reason("This is a valid dispute reason"));
    assert!(!is_valid_dispute_reason("Too short"));
    assert!(!is_valid_dispute_reason(""));
}
