use gitlab_middleware::auth::{authenticate, AuthFailure, GitlabEvent};
use gitlab_middleware::net::{is_ip_same, Domain, IpAddr};
use gitlab_middleware::token::{calc_token, TokenSalt};

const PATH_TOKEN: &str = "39623662386432653965386234656535666636636439383164343066373530386233663631373830653239306165633465383366623862613637323137393236336637656661363139636566613932393662346637636637623961626139346334333831643530316330303935353261626361323639326462363439663431664341464544454144";

fn headers(values: &[&str]) -> Vec<String> {
    values.iter().map(|v| v.to_string()).collect()
}

#[test]
fn token_matches_known_value() {
    assert_eq!(calc_token("/hooks/abc/def", "CAFEDEAD"), PATH_TOKEN);
}

#[test]
fn token_is_deterministic() {
    assert_eq!(calc_token("/hooks/x/y", "salt"), calc_token("/hooks/x/y", "salt"));
}

#[test]
fn token_changes_with_salt_and_path() {
    let base = calc_token("/hooks/x/y", "salt");
    assert_ne!(base, calc_token("/hooks/x/y", "salt2"));
    assert_ne!(base, calc_token("/hooks/x/z", "salt"));
    assert_eq!(base.len(), 2 * (128 + 4));
}

#[test]
fn ipv4_and_mapped_ipv6_differ() {
    let v4 = IpAddr::V4([127, 0, 0, 1]);
    let mapped = IpAddr::V6([0, 0, 0, 0, 0, 0, 0, 0, 0, 0, 0xff, 0xff, 127, 0, 0, 1]);
    assert!(!is_ip_same(&v4, &mapped));
    assert!(!is_ip_same(&mapped, &v4));
    assert!(is_ip_same(&v4, &IpAddr::V4([127, 0, 0, 1])));
    assert!(!is_ip_same(&v4, &IpAddr::V4([127, 0, 0, 2])));
    assert!(is_ip_same(&mapped, &mapped.clone()));
}

#[test]
fn domain_none_and_empty_differ() {
    let ip = IpAddr::V4([10, 0, 0, 1]);
    assert!(Domain::new(None).allows(Some(ip)));
    assert!(Domain::new(None).allows(None));
    assert!(!Domain::new(Some(vec![])).allows(Some(ip)));
    assert!(Domain::new(Some(vec![IpAddr::V4([10, 0, 0, 2]), ip])).allows(Some(ip)));
    assert!(!Domain::new(Some(vec![ip])).allows(None));
}

#[test]
fn auth_accepts_valid_call() {
    let salt = TokenSalt("CAFEDEAD".to_string());
    let domain = Domain::new(Some(vec![IpAddr::V4([10, 0, 0, 1])]));
    let r = authenticate(
        GitlabEvent::Push,
        &domain,
        Some(&salt),
        Some(IpAddr::V4([10, 0, 0, 1])),
        "/hooks/abc/def",
        &headers(&["wrong", PATH_TOKEN]),
        &headers(&["Push Hook"]),
    );
    assert!(r.is_ok());
}

#[test]
fn auth_rejects_unlisted_ip() {
    let domain = Domain::new(Some(vec![IpAddr::V4([10, 0, 0, 1])]));
    let r = authenticate(
        GitlabEvent::Push,
        &domain,
        None,
        Some(IpAddr::V4([10, 0, 0, 9])),
        "/hooks/abc/def",
        &headers(&[]),
        &headers(&["Push Hook"]),
    );
    assert!(matches!(r, Err(AuthFailure::Forbidden("IP not whitelisted"))));
}

#[test]
fn auth_rejects_bad_token() {
    let salt = TokenSalt("CAFEDEAD".to_string());
    let r = authenticate(
        GitlabEvent::Push,
        &Domain::new(None),
        Some(&salt),
        None,
        "/hooks/abc/def",
        &headers(&["nope"]),
        &headers(&["Push Hook"]),
    );
    assert!(matches!(r, Err(AuthFailure::Forbidden("Require valid token"))));
}

#[test]
fn auth_requires_one_event_header() {
    let d = Domain::new(None);
    let none = authenticate(GitlabEvent::Push, &d, None, None, "/p", &headers(&[]), &headers(&[]));
    assert!(matches!(none, Err(AuthFailure::BadRequest("No gitlab \"Push Hook\""))));
    let two = authenticate(
        GitlabEvent::Push,
        &d,
        None,
        None,
        "/p",
        &headers(&[]),
        &headers(&["Push Hook", "Push Hook"]),
    );
    assert!(matches!(two, Err(AuthFailure::BadRequest("No gitlab \"Push Hook\""))));
    let other = authenticate(GitlabEvent::Push, &d, None, None, "/p", &headers(&[]), &headers(&["Tag Push Hook"]));
    assert!(matches!(other, Err(AuthFailure::BadRequest("Not gitlab \"Push Hook\""))));
    assert_eq!(GitlabEvent::Push.name(), "Push Hook");
}
