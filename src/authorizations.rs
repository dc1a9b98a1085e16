//! Who may run which command. The list of operators' chat ids comes from a
//! permissions service; reading it is left to the caller.

use crate::decimal::{decimal_value, is_unsigned_decimal, parse_usize};
use vstd::prelude::*;

verus! {

/// The permissions service's answer: the chat ids of the operators.
#[derive(Debug, Clone)]
pub struct TeamResponse {
    pub discord_ids: Vec<usize>,
}

/// Why an authorization question could not be answered.
#[derive(PartialEq, Eq, Structural, Clone, Copy, Debug)]
pub enum AuthorizationError {
    /// The user id is not a decimal number.
    UnreadableId,
}

/// Commands that anyone may run.
pub open spec fn open_command(name: Seq<char>) -> bool {
    name == "ping"@ || name == "multiply"@ || name == "myid"@
}

/// Whether the user with this id is among the operators.
pub fn discord_id_in_list(id: &str, team_response: TeamResponse) -> (r: bool)
    requires
        is_unsigned_decimal(id@, usize::MAX as nat),
    ensures
        r == team_response.discord_ids@.contains(decimal_value(id@) as usize),
{
    let user = parse_usize(id).unwrap();
    let mut i: usize = 0;
    while i < team_response.discord_ids.len()
        invariant
            0 <= i <= team_response.discord_ids@.len(),
            user == decimal_value(id@),
            forall|k: int| 0 <= k < i ==> team_response.discord_ids@[k] != user,
        decreases team_response.discord_ids@.len() - i,
    {
        if team_response.discord_ids[i] == user {
            assert(team_response.discord_ids@[i as int] == user);
            return true;
        }
        i = i + 1;
    }
    false
}

/// Whether the user with this id may run the operators' commands; an id that
/// is not a number is an error.
pub fn is_authorized(id: &str, team_response: TeamResponse) -> (r: Result<bool, AuthorizationError>)
    ensures
        r is Err <==> !is_unsigned_decimal(id@, usize::MAX as nat),
        r is Ok ==> r->Ok_0 == team_response.discord_ids@.contains(decimal_value(id@) as usize),
{
    match parse_usize(id) {
        None => Err(AuthorizationError::UnreadableId),
        Some(_) => Ok(discord_id_in_list(id, team_response)),
    }
}

/// Whether a command may run: operators may run any command, others only
/// the open ones.
pub fn command_allowed(authorized: bool, command_name: &str) -> (r: bool)
    ensures
        r == (authorized || open_command(command_name@)),
{
    if authorized {
        return true;
    }
    let name = String::from_str(command_name);
    name == String::from_str("ping") || name == String::from_str("multiply") || name
        == String::from_str("myid")
}

} // verus!
