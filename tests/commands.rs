use crates_io_ops_bot::commands::{
    config_var_editable, current_blocked_ip_addresses, plan_block_ip, plan_unblock_ip, BlockPlan,
    UnblockPlan, BLOCKED_IPS_ENV_VAR,
};
use crates_io_ops_bot::utilities::parse_config_value_string;

#[test]
fn only_listed_config_vars_are_editable() {
    assert!(config_var_editable("FOO"));
    assert!(!config_var_editable("DATABASE_URL"));
    assert_eq!(BLOCKED_IPS_ENV_VAR, "BLOCKED_IPS");
}

#[test]
fn blocking_a_new_address() {
    let plan = plan_block_ip(Some(Some("1.1.1.1".to_string())), "2.2.2.2".to_string());
    assert!(!plan.create_variable());
    match plan {
        BlockPlan::Block { blocked, .. } => {
            assert_eq!(parse_config_value_string(blocked), "1.1.1.1,2.2.2.2")
        }
        BlockPlan::AlreadyBlocked { .. } => panic!("the address was not blocked"),
    }
}

#[test]
fn blocking_creates_the_variable() {
    let plan = plan_block_ip(None, "2.2.2.2".to_string());
    assert!(plan.create_variable());
    match plan {
        BlockPlan::Block { blocked, .. } => assert_eq!(parse_config_value_string(blocked), "2.2.2.2"),
        BlockPlan::AlreadyBlocked { .. } => panic!("the address was not blocked"),
    }
}

#[test]
fn blocking_twice_changes_nothing() {
    let plan = plan_block_ip(Some(Some("1.1.1.1,2.2.2.2".to_string())), "2.2.2.2".to_string());
    assert!(matches!(plan, BlockPlan::AlreadyBlocked { create_variable: false }));
}

#[test]
fn unblocking() {
    assert!(matches!(plan_unblock_ip(None, "1.1.1.1"), UnblockPlan::NothingBlocked));
    assert!(matches!(
        plan_unblock_ip(Some(Some("1.1.1.1".to_string())), "2.2.2.2"),
        UnblockPlan::NotBlocked
    ));
    assert!(matches!(
        plan_unblock_ip(Some(Some("1.1.1.1".to_string())), "1.1.1.1"),
        UnblockPlan::DeleteVariable
    ));
    match plan_unblock_ip(Some(Some("1.1.1.1,2.2.2.2".to_string())), "1.1.1.1") {
        UnblockPlan::Update { blocked } => assert_eq!(parse_config_value_string(blocked), "2.2.2.2"),
        _ => panic!("the list should be updated"),
    }
}

#[test]
fn blocked_addresses_of_an_absent_variable() {
    assert!(current_blocked_ip_addresses(None).is_empty());
    assert!(current_blocked_ip_addresses(Some(None)).is_empty());
    assert_eq!(current_blocked_ip_addresses(Some(Some("a,b".to_string()))).len(), 2);
}
