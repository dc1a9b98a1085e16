//! The bot's configuration.

use crate::decimal::{decimal_value, is_unsigned_decimal, parse_u64};
use vstd::prelude::*;

verus! {

#[derive(Debug, Clone)]
pub struct Config {
    pub discord_token: String,
    pub heroku_api_key: String,
    /// Seconds between two status checks of a build in flight.
    pub build_check_interval: u64,
    /// Seconds between two "still pending" notices.
    pub build_message_display_interval: u64,
    pub github_org: String,
    pub github_repo: String,
    pub github_token: String,
}

impl Config {
    /// Builds the configuration; the two intervals are read as decimal
    /// numbers of whole seconds, each at least one.
    /// numbers of seconds.
    pub fn new(
        discord_token: String,
        heroku_api_key: String,
        build_check_interval: String,
        build_message_display_interval: String,
        github_org: String,
        github_repo: String,
        github_token: String,
    ) -> (r: Config)
        requires
            is_unsigned_decimal(build_check_interval@, u64::MAX as nat),
            is_unsigned_decimal(build_message_display_interval@, u64::MAX as nat),
            decimal_value(build_check_interval@) >= 1,
            decimal_value(build_message_display_interval@) >= 1,
        ensures
            r.build_check_interval >= 1,
            r.build_message_display_interval >= 1,
            r.discord_token@ == discord_token@,
            r.heroku_api_key@ == heroku_api_key@,
            r.build_check_interval == decimal_value(build_check_interval@),
            r.build_message_display_interval == decimal_value(build_message_display_interval@),
            r.github_org@ == github_org@,
            r.github_repo@ == github_repo@,
            r.github_token@ == github_token@,
    {
        let check = parse_u64(build_check_interval.as_str());
        let display = parse_u64(build_message_display_interval.as_str());
        Config {
            discord_token,
            heroku_api_key,
            build_check_interval: check.unwrap(),
            build_message_display_interval: display.unwrap(),
            github_org,
            github_repo,
            github_token,
        }
    }
}

} // verus!
