use crates_io_ops_bot::config::Config;

#[test]
fn config_reads_intervals() {
    let config = Config::new(
        "token".to_string(),
        "key".to_string(),
        "5".to_string(),
        "+30".to_string(),
        "rust-lang".to_string(),
        "crates.io".to_string(),
        "gh".to_string(),
    );
    assert_eq!(config.build_check_interval, 5);
    assert_eq!(config.build_message_display_interval, 30);
    assert_eq!(config.github_org, "rust-lang");
    assert_eq!(config.github_repo, "crates.io");
    assert_eq!(config.discord_token, "token");
    assert_eq!(config.heroku_api_key, "key");
    assert_eq!(config.github_token, "gh");
}
