use secure_browser::auth::AuthClient;
use secure_browser::authority::{Authority, STATUS_UNAUTHORIZED};
use secure_browser::credentials::Credentials;
use secure_browser::policy::SessionPolicy;

fn pair(username: &str, password: &str) -> Credentials {
    Credentials::new(username.to_string(), password.to_string())
}

#[test]
fn the_reference_authority_accepts_its_pair() {
    let authority = Authority::reference();
    let submitted = pair("admin_user", "secure_password");
    assert!(authority.accepts(&submitted));
    assert_eq!(authority.authenticate(&submitted), 200);
    assert_eq!(AuthClient::verify(Some(authority.authenticate(&submitted))), Ok(true));
}

#[test]
fn the_reference_authority_turns_every_other_pair_down() {
    let authority = Authority::reference();
    let others = [
        pair("wrong", "wrong"),
        pair("admin_user", "wrong"),
        pair("wrong", "secure_password"),
        pair("secure_password", "admin_user"),
        pair("", ""),
        pair("admin_user", ""),
        pair("admin_user ", "secure_password"),
        pair("Admin_user", "secure_password"),
        pair("admin_user", "secure_password\n"),
    ];
    assert_eq!(STATUS_UNAUTHORIZED, 401);
    for submitted in others.iter() {
        assert!(!authority.accepts(submitted));
        assert_eq!(authority.authenticate(submitted), 401);
        assert_eq!(AuthClient::verify(Some(authority.authenticate(submitted))), Ok(false));
    }
}

#[test]
fn the_reference_policy_is_the_configured_one() {
    let authority = Authority::reference();
    let policy = authority.browser_settings();
    assert_eq!(policy.start_url(), "https://www.google.com");
    assert!(!policy.incognito());
    assert_eq!(policy.max_navigation_timeout_ms(), 30000);
    assert_eq!(
        policy.allowed_domains(),
        &vec!["google.com".to_string(), "github.com".to_string()]
    );
}

#[test]
fn an_authority_accepts_what_it_was_configured_with() {
    let policy =
        SessionPolicy::new("https://intranet.example".to_string(), true, 10, vec![]).expect("valid");
    let authority = Authority::new(pair("alice", "s3cret"), policy);
    assert_eq!(authority.authenticate(&pair("alice", "s3cret")), 200);
    assert_eq!(authority.authenticate(&pair("admin_user", "secure_password")), 401);
    assert_eq!(authority.authenticate(&pair("alice", "S3cret")), 401);
    assert_eq!(authority.browser_settings().start_url(), "https://intranet.example");
    assert!(authority.browser_settings().incognito());
}
