use gitlab_middleware::error::Error;
use gitlab_middleware::requests::{
    str_from_param, AddKeyGitlab, AddUserToGroupGitlab, AddUserToProjectGitlab, CreateGroup,
    CreateGroupGitlab, CreateRepoGitlab, CreateUser, CreateUserGitLab, CreateWebhookGitlab, Uuid,
    Visibility,
};

#[test]
fn uuid_param_parses() {
    let u = Uuid::from_param("c0a80101-0000-0000-0000-00000000000a").unwrap();
    assert_eq!(u.parsed, 0xc0a80101_0000_0000_0000_00000000000a);
    assert_eq!(u.original, "c0a80101-0000-0000-0000-00000000000a");
    let simple = Uuid::from_param("c0a8010100000000000000000000000a").unwrap();
    assert_eq!(simple.parsed, u.parsed);
    let encoded = Uuid::from_param("c0a80101%2D0000-0000-0000-00000000000a").unwrap();
    assert_eq!(encoded.parsed, u.parsed);
    assert_eq!(encoded.original, "c0a80101-0000-0000-0000-00000000000a");
}

#[test]
fn uuid_param_rejects() {
    assert!(matches!(Uuid::from_param("not-a-uuid"), Err(Error::NotFound)));
    assert!(matches!(Uuid::from_param("%FF"), Err(Error::NotFound)));
}

#[test]
fn string_param_decodes() {
    assert_eq!(str_from_param("my%20repo").unwrap(), "my repo");
    assert_eq!(str_from_param("100%").unwrap(), "100%");
    assert!(str_from_param("%C3").is_none());
}

#[test]
fn user_from_email() {
    let u = CreateUserGitLab::from(&CreateUser { email: "jdoe@uni.edu".to_string(), password: "longpassword".to_string() })
        .unwrap();
    assert_eq!(u.username, "jdoe");
    assert_eq!(u.name, "jdoe");
    assert_eq!(u.email, "jdoe@uni.edu");
    assert_eq!(u.password, "longpassword");
    assert_eq!(u.path(), "users");
    assert!(CreateUserGitLab::from(&CreateUser { email: "admin@uni.edu".to_string(), password: "x".to_string() }).is_err());
    assert!(CreateUserGitLab::from(&CreateUser { email: "nobody".to_string(), password: "x".to_string() }).is_err());
    let first_at = CreateUserGitLab::from(&CreateUser { email: "a@b@c".to_string(), password: "x".to_string() }).unwrap();
    assert_eq!(first_at.username, "a");
}

#[test]
fn request_paths() {
    assert_eq!(AddKeyGitlab::new(5, "ssh-rsa A".to_string()).path(), "users/5/keys");
    assert_eq!(AddKeyGitlab::new(5, "ssh-rsa A".to_string()).title, "key");
    let g = AddUserToGroupGitlab::new(3, 10, 50);
    assert_eq!(g.path(), "groups/10/members");
    assert_eq!((g.user_id, g.group_id, g.access_level), (3, 10, 50));
    let r = CreateRepoGitlab::new("hw1".to_string(), 55);
    assert_eq!(r.path(), "projects/");
    assert_eq!(r.visibility, Visibility::Private);
    assert_eq!(r.visibility.as_str(), "private");
    assert_eq!(CreateWebhookGitlab::new(77, "u".to_string(), "t".to_string()).path(), "projects/77/hooks");
    assert!(CreateWebhookGitlab::new(77, "u".to_string(), "t".to_string()).push_events);
    let m = AddUserToProjectGitlab::new(77, 3, "2030-01-01".to_string());
    assert_eq!(m.path(), "projects/77/members");
    assert_eq!(m.access_level, 40);
    assert_eq!(AddUserToProjectGitlab::new(1234567890123, 1, String::new()).path(), "projects/1234567890123/members");
}

#[test]
fn group_bodies() {
    let req = CreateGroup { name: "os-2024".to_string(), uuid: 1 };
    let course = CreateGroupGitlab::from(&req);
    assert_eq!((course.name.as_str(), course.path.as_str(), course.visibility), ("os-2024", "os-2024", "private"));
    assert!(course.parent_id.is_none());
    assert_eq!(CreateGroupGitlab::assignment(&req, 10).parent_id, Some(10));
    assert_eq!(course.path(), "groups");
}
