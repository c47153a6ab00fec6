use plim::auth::{GenPasswordHash, LoginRequest, auth_skipped, bearer_token, login_claims};
use plim::config::{Config, GitlabConfig, PlimConfig, PlimUser, default_etcd_configs, default_etcd_map};
use plim::errors::PlimErrorKind;

fn user(password: Option<&str>, disabled: bool) -> PlimUser {
    PlimUser {
        full_name: "Ann Example".to_string(),
        email: "ann@example.org".to_string(),
        groups: vec!["ops".to_string(), "dev".to_string()],
        hashed_password: password.map(|p| bcrypt::hash(p, 4).unwrap()).unwrap_or_default(),
        disabled,
    }
}

fn config(users: Vec<(String, PlimUser)>) -> Config {
    Config {
        plim: PlimConfig { listen_address: String::new(), jwt_token_duration_hours: 1, webhook_token_length: 8 },
        gitlab: GitlabConfig { api_endpoint: String::new() },
        admins: vec![],
        users,
        etcd_data_map: default_etcd_map(),
        etcd_configs: default_etcd_configs(),
        plans: vec![],
    }
}

fn login(c: &Config, u: &str, p: &str) -> Result<plim::auth::Claims, PlimErrorKind> {
    login_claims(c, LoginRequest { username: u.to_string(), password: p.to_string() })
}

#[test]
fn login_with_right_password() {
    let c = config(vec![("ann".to_string(), user(Some("pw1"), false))]);
    match login(&c, "ann", "pw1") {
        Ok(claims) => {
            assert_eq!(claims.username, "ann");
            assert_eq!(claims.email, Some("ann@example.org".to_string()));
            assert_eq!(claims.full_name, Some("Ann Example".to_string()));
            assert_eq!(claims.roles, vec!["ops".to_string(), "dev".to_string()]);
            assert!(!claims.disabled);
            assert_eq!(claims.exp, None);
        }
        Err(_) => panic!("expected claims"),
    }
}

#[test]
fn login_refusals() {
    let c = config(vec![
        ("ann".to_string(), user(Some("pw1"), false)),
        ("bob".to_string(), user(Some("pw2"), true)),
        ("cid".to_string(), user(None, false)),
    ]);
    assert!(matches!(login(&c, "ann", "wrong"), Err(PlimErrorKind::Unauthorized(_))));
    assert!(matches!(login(&c, "", "pw1"), Err(PlimErrorKind::Unauthorized(_))));
    assert!(matches!(login(&c, "ann", ""), Err(PlimErrorKind::Unauthorized(_))));
    assert!(matches!(login(&c, "bob", "pw2"), Err(PlimErrorKind::Unauthorized(_))));
    assert!(matches!(login(&c, "cid", "x"), Err(PlimErrorKind::Unauthorized(_))));
    assert!(matches!(login(&c, "dan", "pw1"), Err(PlimErrorKind::Unauthorized(_))));
    assert!(!c.check_user_password_is_valid("ann", "wrong"));
    assert!(c.check_user_password_is_valid("ann", "pw1"));
}

#[test]
fn unreadable_hash_never_validates() {
    let mut u = user(None, false);
    u.hashed_password = "not-a-hash".to_string();
    assert!(!u.validate_password("not-a-hash"));
    assert!(!u.password_matches(None));
    assert!(u.password_matches(Some(true)));
}

#[test]
fn unknown_user_is_not_found() {
    let c = config(vec![]);
    assert!(matches!(c.get_user("ghost"), Err(PlimErrorKind::NotFound(_))));
}

#[test]
fn generated_hash_verifies() {
    let h = GenPasswordHash::new("secret".to_string());
    assert!(bcrypt::verify("secret", &h.password_hash).unwrap());
    assert_eq!(GenPasswordHash::from_outcome(None).password_hash, "");
}

#[test]
fn paths_that_skip_login() {
    assert!(auth_skipped("/api/v1/healthz"));
    assert!(auth_skipped("/api/v1/login"));
    assert!(auth_skipped("/api/v1/webhook/plan/hook"));
    assert!(!auth_skipped("/api/v1/plans"));
    assert!(!auth_skipped("/webhook"));
}

#[test]
fn bearer_header() {
    assert_eq!(bearer_token("Bearer abc.def"), Some("abc.def".to_string()));
    assert_eq!(bearer_token("Basic abc"), None);
    assert_eq!(bearer_token("Bearer "), Some(String::new()));
}
