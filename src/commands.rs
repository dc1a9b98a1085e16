//! The decisions behind the chat commands that edit an app's configuration:
//! which variables may be edited, and how the IP block list changes. The
//! platform calls and the replies are left to the caller.

use crate::utilities::{parse_config_value_set, split_on, ConfigValueSet};
use vstd::prelude::*;

verus! {

/// The config variable that holds the blocked IP addresses, comma-separated.
pub const BLOCKED_IPS_ENV_VAR: &'static str = "BLOCKED_IPS";

/// Config variables that may be edited from the chat.
pub open spec fn editable_var(key: Seq<char>) -> bool {
    key == "FOO"@
}

pub fn config_var_editable(key: &str) -> (r: bool)
    ensures
        r == editable_var(key@),
{
    String::from_str(key) == String::from_str("FOO")
}

/// The addresses a block-list variable holds: none when the variable is
/// absent or has no value.
pub open spec fn listed(current: Option<Option<Seq<char>>>) -> Seq<Seq<char>> {
    match current {
        Some(Some(value)) => split_on(value, ','),
        _ => Seq::empty(),
    }
}

/// The blocked addresses, from the block-list variable as the app's config
/// holds it: `None` when the variable is absent.
pub fn current_blocked_ip_addresses(current: Option<Option<String>>) -> (r: ConfigValueSet)
    ensures
        r.wf(),
        forall|x: Seq<char>| #[trigger] r@.contains(x) <==> listed(current.deep_view()).contains(x),
{
    match current {
        Some(Some(value)) => parse_config_value_set(value),
        _ => ConfigValueSet::new(),
    }
}

/// What blocking an address comes to.
pub enum BlockPlan {
    /// The address is blocked already.
    AlreadyBlocked { create_variable: bool },
    /// Write this block list.
    Block { create_variable: bool, blocked: ConfigValueSet },
}

impl BlockPlan {
    /// Whether the block-list variable has to be created first.
    pub fn create_variable(&self) -> (r: bool)
        ensures
            r == match self {
                BlockPlan::AlreadyBlocked { create_variable } => *create_variable,
                BlockPlan::Block { create_variable, .. } => *create_variable,
            },
    {
        match self {
            BlockPlan::AlreadyBlocked { create_variable } => *create_variable,
            BlockPlan::Block { create_variable, .. } => *create_variable,
        }
    }
}

/// Blocks `ip_addr`: the variable is created when absent, and the address is
/// added unless it is listed already.
pub fn plan_block_ip(current: Option<Option<String>>, ip_addr: String) -> (r: BlockPlan)
    ensures
        match r {
            BlockPlan::AlreadyBlocked { create_variable } => {
                &&& create_variable == (current is None)
                &&& listed(current.deep_view()).contains(ip_addr@)
            },
            BlockPlan::Block { create_variable, blocked } => {
                &&& create_variable == (current is None)
                &&& !listed(current.deep_view()).contains(ip_addr@)
                &&& blocked.wf()
                &&& forall|x: Seq<char>| #[trigger]
                    blocked@.contains(x) <==> listed(current.deep_view()).contains(x) || x
                        == ip_addr@
            },
        },
{
    let create_variable = current.is_none();
    let mut blocked = current_blocked_ip_addresses(current);
    if blocked.contains(ip_addr.as_str()) {
        BlockPlan::AlreadyBlocked { create_variable }
    } else {
        let ghost before = blocked@;
        let ghost ip = ip_addr@;
        blocked.insert(ip_addr);
        assert forall|x: Seq<char>| #[trigger] blocked@.contains(x) <==> before.contains(x) || x == ip by {
            if x == ip {
                assert(blocked@[blocked@.len() - 1] == x);
            }
            if before.contains(x) {
                let k = choose|k: int| 0 <= k < before.len() && before[k] == x;
                assert(blocked@[k] == x);
            }
            if blocked@.contains(x) && x != ip {
                let k = choose|k: int| 0 <= k < blocked@.len() && blocked@[k] == x;
                assert(before[k] == x);
            }
        }
        BlockPlan::Block { create_variable, blocked }
    }
}

/// What unblocking an address comes to.
pub enum UnblockPlan {
    /// The block-list variable does not exist.
    NothingBlocked,
    /// The address is not in the list.
    NotBlocked,
    /// The address was the last one: remove the variable.
    DeleteVariable,
    /// Write this block list.
    Update { blocked: ConfigValueSet },
}

/// Unblocks `ip_addr`: the variable is removed once nothing is left in it.
pub fn plan_unblock_ip(current: Option<Option<String>>, ip_addr: &str) -> (r: UnblockPlan)
    ensures
        current is None <==> r is NothingBlocked,
        current is Some ==> (r is NotBlocked <==> !listed(current.deep_view()).contains(ip_addr@)),
        r is DeleteVariable ==> forall|x: Seq<char>|
            listed(current.deep_view()).contains(x) ==> x == ip_addr@,
        match r {
            UnblockPlan::Update { blocked } => {
                &&& current is Some
                &&& listed(current.deep_view()).contains(ip_addr@)
                &&& blocked.wf()
                &&& blocked@.len() > 0
                &&& forall|x: Seq<char>| #[trigger]
                    blocked@.contains(x) <==> listed(current.deep_view()).contains(x) && x
                        != ip_addr@
            },
            _ => true,
        },
        r is DeleteVariable ==> current is Some && listed(current.deep_view()).contains(ip_addr@),
{
    if current.is_none() {
        return UnblockPlan::NothingBlocked;
    }
    let ghost cur = current.deep_view();
    let mut blocked = current_blocked_ip_addresses(current);
    if !blocked.contains(ip_addr) {
        return UnblockPlan::NotBlocked;
    }
    blocked.remove(ip_addr);
    if blocked.is_empty() {
        assert forall|x: Seq<char>| listed(cur).contains(x) implies x == ip_addr@ by {
            assert(!blocked@.contains(x));
        }
        UnblockPlan::DeleteVariable
    } else {
        UnblockPlan::Update { blocked }
    }
}

} // verus!
