use mrmm::startup::{choose_token, Fatal, EXIT_COMPLETED, EXIT_FATAL};
use mrmm::target::validate_repos;

#[test]
fn the_explicit_token_is_preferred() {
    assert_eq!(
        choose_token(Some("explicit".to_string()), Some("fallback".to_string())),
        Ok("explicit".to_string())
    );
    assert_eq!(choose_token(Some("explicit".to_string()), None), Ok("explicit".to_string()));
    assert_eq!(choose_token(None, Some("fallback".to_string())), Ok("fallback".to_string()));
    assert_eq!(choose_token(Some("".to_string()), Some("fallback".to_string())), Ok("".to_string()));
}

#[test]
fn no_token_at_all_is_fatal() {
    assert_eq!(choose_token(None, None), Err(Fatal::MissingToken));
}

#[test]
fn every_fatal_error_exits_with_one() {
    let refused = validate_repos(&vec!["org/repo".to_string(), "nothing".to_string()]).err().unwrap();
    let fatals = [
        Fatal::MissingToken,
        Fatal::UnreadableList { path: "repos.txt".to_string(), reason: "No such file".to_string() },
        Fatal::MalformedEntry(refused),
        Fatal::NoCommand,
    ];
    for fatal in fatals {
        assert_eq!(fatal.exit_code(), 1);
    }
    assert_eq!(EXIT_FATAL, 1);
    assert_eq!(EXIT_COMPLETED, 0);
}

#[test]
fn fatal_errors_tell_why() {
    assert_eq!(
        Fatal::MissingToken.message(),
        "please make sure the GITHUB_TOKEN environment variable is set to a valid token value"
    );
    assert_eq!(
        Fatal::UnreadableList { path: "repos.txt".to_string(), reason: "No such file".to_string() }
            .message(),
        "Aborting. Couldn't open repos.txt: No such file"
    );
    let refused = validate_repos(&vec!["org/repo".to_string(), "nothing".to_string()]).err().unwrap();
    assert_eq!(
        Fatal::MalformedEntry(refused).message(),
        "Aborting. Some repositories are not in the org/repo format, e.g. nothing"
    );
    assert_eq!(Fatal::NoCommand.message(), "No command specified.");
}
