use alloy_primitives::{B256, U256};
use inspector_stack::{Hook, InspectorStack, InspectorStackConfig};
use revm::primitives::Env;

fn env_at(block: U256) -> Env {
    let mut env = Env::default();
    env.block.number = block;
    env
}

fn stack_with(hook: Hook) -> InspectorStack {
    InspectorStack::new(InspectorStackConfig { use_printer_tracer: false, hook })
}

#[test]
fn default_hook_is_inactive() {
    assert_eq!(Hook::default(), Hook::Inactive);
}

#[test]
fn inactive_hook_never_inspects() {
    let stack = stack_with(Hook::Inactive);
    assert!(!stack.should_inspect(&env_at(U256::from(0u64)), B256::ZERO));
    assert!(!stack.should_inspect(&env_at(U256::from(100u64)), B256::repeat_byte(0xAB)));
    assert!(!stack.should_inspect(&env_at(U256::MAX), B256::repeat_byte(0xFF)));
}

#[test]
fn all_hook_always_inspects() {
    let stack = stack_with(Hook::All);
    assert!(stack.should_inspect(&env_at(U256::from(0u64)), B256::ZERO));
    assert!(stack.should_inspect(&env_at(U256::from(100u64)), B256::repeat_byte(0xAB)));
    assert!(stack.should_inspect(&env_at(U256::MAX), B256::repeat_byte(0xFF)));
}

#[test]
fn block_hook_inspects_its_block_only() {
    let stack = stack_with(Hook::Block(100));
    assert!(stack.should_inspect(&env_at(U256::from(100u64)), B256::ZERO));
    assert!(!stack.should_inspect(&env_at(U256::from(101u64)), B256::ZERO));
    assert!(!stack.should_inspect(&env_at(U256::from(99u64)), B256::ZERO));
    assert!(!stack.should_inspect(&env_at(U256::from(0u64)), B256::ZERO));
}

#[test]
fn block_hook_ignores_the_transaction() {
    let stack = stack_with(Hook::Block(7));
    assert!(stack.should_inspect(&env_at(U256::from(7u64)), B256::repeat_byte(0x01)));
    assert!(stack.should_inspect(&env_at(U256::from(7u64)), B256::repeat_byte(0x02)));
}

#[test]
fn block_hook_at_the_ends_of_the_range() {
    let first = stack_with(Hook::Block(0));
    assert!(first.should_inspect(&env_at(U256::ZERO), B256::ZERO));
    assert!(!first.should_inspect(&env_at(U256::from(1u64)), B256::ZERO));

    let last = stack_with(Hook::Block(u64::MAX));
    assert!(last.should_inspect(&env_at(U256::from(u64::MAX)), B256::ZERO));
    assert!(!last.should_inspect(&env_at(U256::from(u64::MAX - 1)), B256::ZERO));
}

#[test]
fn block_hook_rejects_heights_beyond_u64() {
    // 2^64 has the same low 64 bits as 0, and 2^64 + 5 the same as 5.
    let beyond = U256::from(u64::MAX) + U256::from(1u64);
    assert!(!stack_with(Hook::Block(0)).should_inspect(&env_at(beyond), B256::ZERO));
    let beyond_five = beyond + U256::from(5u64);
    assert!(!stack_with(Hook::Block(5)).should_inspect(&env_at(beyond_five), B256::ZERO));
    assert!(!stack_with(Hook::Block(u64::MAX)).should_inspect(&env_at(U256::MAX), B256::ZERO));
}

#[test]
fn transaction_hook_inspects_its_transaction_only() {
    let id = B256::with_last_byte(0xAB);
    let stack = stack_with(Hook::Transaction(id));
    assert!(stack.should_inspect(&env_at(U256::from(1u64)), B256::with_last_byte(0xAB)));
    assert!(!stack.should_inspect(&env_at(U256::from(1u64)), B256::with_last_byte(0xAC)));
    assert!(!stack.should_inspect(&env_at(U256::from(1u64)), B256::repeat_byte(0xAB)));
    assert!(!stack.should_inspect(&env_at(U256::from(1u64)), B256::ZERO));
}

#[test]
fn transaction_hook_ignores_the_block() {
    let id = B256::repeat_byte(0x11);
    let stack = stack_with(Hook::Transaction(id));
    assert!(stack.should_inspect(&env_at(U256::ZERO), id));
    assert!(stack.should_inspect(&env_at(U256::MAX), id));
}

#[test]
fn transaction_hook_compares_every_byte() {
    let mut bytes = [0x5Au8; 32];
    let id = B256::new(bytes);
    let stack = stack_with(Hook::Transaction(id));
    assert!(stack.should_inspect(&Env::default(), B256::new(bytes)));
    bytes[0] = 0x5B;
    assert!(!stack.should_inspect(&Env::default(), B256::new(bytes)));
    bytes[0] = 0x5A;
    bytes[31] = 0x00;
    assert!(!stack.should_inspect(&Env::default(), B256::new(bytes)));
}

#[test]
fn selects_follows_the_truth_table() {
    let a = B256::repeat_byte(0xA0);
    let b = B256::repeat_byte(0xB0);

    assert!(!Hook::Inactive.selects(Some(3), &a));
    assert!(!Hook::Inactive.selects(None, &a));

    assert!(Hook::All.selects(Some(3), &a));
    assert!(Hook::All.selects(None, &b));

    assert!(Hook::Block(3).selects(Some(3), &a));
    assert!(!Hook::Block(3).selects(Some(4), &a));
    assert!(!Hook::Block(3).selects(None, &a));

    assert!(Hook::Transaction(a).selects(Some(3), &a));
    assert!(Hook::Transaction(a).selects(None, &a));
    assert!(!Hook::Transaction(a).selects(Some(3), &b));
}

#[test]
fn block_scenario() {
    let stack = stack_with(Hook::Block(100));
    assert!(stack.should_inspect(&env_at(U256::from(100u64)), B256::ZERO));
    assert!(!stack.should_inspect(&env_at(U256::from(101u64)), B256::ZERO));
}
