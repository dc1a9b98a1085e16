use crates_io_ops_bot::authorizations::{
    command_allowed, discord_id_in_list, is_authorized, AuthorizationError, TeamResponse,
};

fn test_team_info() -> TeamResponse {
    let fake_id: usize = 12345;
    let fake_id_vec = vec![fake_id];

    TeamResponse {
        discord_ids: fake_id_vec,
    }
}

#[test]
fn check_whether_user_is_authorized() {
    let team_info = test_team_info();

    assert!(discord_id_in_list("12345", team_info.clone()));
    assert!(!discord_id_in_list("67890", team_info));
}

#[test]
fn authorized_user_is_found() {
    assert_eq!(is_authorized("12345", test_team_info()), Ok(true));
    assert_eq!(is_authorized("+12345", test_team_info()), Ok(true));
    assert_eq!(is_authorized("67890", test_team_info()), Ok(false));
}

#[test]
fn unreadable_user_id_is_an_error() {
    assert_eq!(
        is_authorized("12a45", test_team_info()),
        Err(AuthorizationError::UnreadableId)
    );
    assert_eq!(
        is_authorized("", test_team_info()),
        Err(AuthorizationError::UnreadableId)
    );
}

#[test]
fn open_commands_need_no_authorization() {
    assert!(command_allowed(false, "ping"));
    assert!(command_allowed(false, "multiply"));
    assert!(command_allowed(false, "myid"));
    assert!(!command_allowed(false, "deploy_app"));
    assert!(command_allowed(true, "deploy_app"));
}

#[test]
fn user_ids_are_read_as_whole_decimal_numbers() {
    let team = TeamResponse {
        discord_ids: vec![0, 7, usize::MAX],
    };
    assert_eq!(is_authorized("0007", team.clone()), Ok(true));
    assert_eq!(is_authorized(&usize::MAX.to_string(), team.clone()), Ok(true));
    for bad in ["+", "-7", " 7", "7 ", "7e0", "٣", "184467440737095516160000000"] {
        assert_eq!(
            is_authorized(bad, team.clone()),
            Err(AuthorizationError::UnreadableId),
            "{:?}",
            bad
        );
    }
}
