use gitlab_middleware::error::Error;
use gitlab_middleware::flows::{
    perform_store_op, Action, AddInstructorFlow, Answer, Body, CreateGroupFlow, CreateRepo,
    CreateRepoFlow, CreateUserFlow, DeleteCourseFlow, DeleteFlow, Event, Method, Reply, StoreOp,
    UpdateKeyFlow, UpstreamCall,
};
use gitlab_middleware::requests::{CreateGroup, CreateUser, Uuid};
use gitlab_middleware::store::{IdentityStore, StoreKey};
use gitlab_middleware::token::calc_token;

const C: &str = "c0a80101-0000-0000-0000-000000000001";
const A: &str = "c0a80101-0000-0000-0000-000000000002";

fn uuid(s: &str) -> Uuid {
    Uuid::from_param(s).unwrap()
}

fn reply_id(id: u64) -> Event {
    Event::Replied(Reply { id: Some(id), ssh_url: None, ids: None })
}

fn reply_ids(ids: Vec<u64>) -> Event {
    Event::Replied(Reply { id: None, ssh_url: None, ids: Some(ids) })
}

fn reply_empty() -> Event {
    Event::Replied(Reply { id: None, ssh_url: None, ids: None })
}

fn describe(a: &Action) -> String {
    match a {
        Action::Store(op) => format!("{:?}", op),
        Action::Call(c) => format!("{:?} {}", c.method, c.path),
        Action::Finish(r) => format!("{:?}", r),
    }
}

/// Runs a workflow against an in-memory store and a scripted upstream;
/// returns how it ended and every action it took.
fn drive(
    first: Action,
    step: &mut dyn FnMut(Event) -> Action,
    store: &mut IdentityStore,
    upstream: &mut dyn FnMut(&UpstreamCall) -> Event,
) -> (Result<Answer, Error>, Vec<String>) {
    let mut log = Vec::new();
    let mut action = first;
    loop {
        log.push(describe(&action));
        let event = match action {
            Action::Finish(r) => return (r, log),
            Action::Store(op) => perform_store_op(store, op),
            Action::Call(c) => upstream(&c),
        };
        action = step(event);
    }
}

fn no_upstream(c: &UpstreamCall) -> Event {
    panic!("unexpected upstream call {:?} {}", c.method, c.path)
}

#[test]
fn create_assignment_under_course() {
    let mut store = IdentityStore::new();
    store.insert(StoreKey::Group(uuid(C).parsed), 10).unwrap();
    let a = uuid(A);
    let mut flow = CreateGroupFlow::assignment(uuid(C), CreateGroup { name: "hw1".to_string(), uuid: a.parsed });
    let first = flow.first();
    let mut parent_seen = None;
    let (r, _) = drive(first, &mut |e| flow.step(e), &mut store, &mut |c| {
        assert_eq!(c.method, Method::Post);
        assert_eq!(c.path, "groups");
        if let Body::CreateGroup(g) = &c.body {
            parent_seen = g.parent_id;
            assert_eq!(g.name, "hw1");
        } else {
            panic!("wrong body");
        }
        reply_id(55)
    });
    assert!(matches!(r, Ok(Answer::Created)));
    assert_eq!(parent_seen, Some(10));
    assert_eq!(store.lookup(&StoreKey::Group(a.parsed)).unwrap(), 55);
}

#[test]
fn create_assignment_without_course_calls_nothing() {
    let mut store = IdentityStore::new();
    let mut flow = CreateGroupFlow::assignment(uuid(C), CreateGroup { name: "hw1".to_string(), uuid: 2 });
    let first = flow.first();
    let (r, log) = drive(first, &mut |e| flow.step(e), &mut store, &mut no_upstream);
    assert!(matches!(r, Err(Error::NotFound)));
    assert_eq!(log.len(), 2);
}

#[test]
fn create_course_maps_group() {
    let mut store = IdentityStore::new();
    let c = uuid(C);
    let mut flow = CreateGroupFlow::course(CreateGroup { name: "os".to_string(), uuid: c.parsed });
    let first = flow.first();
    let (r, log) = drive(first, &mut |e| flow.step(e), &mut store, &mut |c| {
        if let Body::CreateGroup(g) = &c.body {
            assert!(g.parent_id.is_none());
        }
        reply_id(10)
    });
    assert!(matches!(r, Ok(Answer::Created)));
    assert_eq!(log[0], "Post groups");
    assert_eq!(store.lookup(&StoreKey::Group(c.parsed)).unwrap(), 10);
}

#[test]
fn delete_course_forgets_subgroups_then_course() {
    let mut store = IdentityStore::new();
    let c = uuid(C);
    store.insert(StoreKey::Group(c.parsed), 10).unwrap();
    store.insert(StoreKey::Group(2), 55).unwrap();
    store.insert(StoreKey::Group(3), 56).unwrap();
    store.insert(StoreKey::Group(4), 57).unwrap();
    let mut flow = DeleteCourseFlow::new(uuid(C));
    let first = flow.first();
    let (r, log) = drive(first, &mut |e| flow.step(e), &mut store, &mut |c| match c.method {
        Method::Get => {
            assert_eq!(c.path, "groups/10/subgroups");
            reply_ids(vec![55, 56])
        }
        _ => reply_empty(),
    });
    assert!(matches!(r, Ok(Answer::Done)));
    assert_eq!(
        log,
        vec![
            "Lookup(Group(256084101424575464805058840497930371073))".to_string(),
            "Get groups/10/subgroups".to_string(),
            "Forget(Groups, 55)".to_string(),
            "Forget(Groups, 56)".to_string(),
            "Delete groups/10".to_string(),
            "Forget(Groups, 10)".to_string(),
            "Ok(Done)".to_string(),
        ]
    );
    assert!(store.lookup(&StoreKey::Group(c.parsed)).is_err());
    assert!(store.lookup(&StoreKey::Group(2)).is_err());
    assert!(store.lookup(&StoreKey::Group(3)).is_err());
    assert_eq!(store.lookup(&StoreKey::Group(4)).unwrap(), 57);
}

#[test]
fn update_key_replaces_all_keys() {
    let mut store = IdentityStore::new();
    store.insert(StoreKey::User("u@x.org".to_string()), 9).unwrap();
    let mut keys: Vec<(u64, String)> = vec![(1, "k1".to_string()), (2, "k2".to_string())];
    let mut flow = UpdateKeyFlow::new("u@x.org".to_string(), "k3".to_string());
    let first = flow.first();
    let (r, _) = drive(first, &mut |e| flow.step(e), &mut store, &mut |c| match (c.method, &c.body) {
        (Method::Get, _) => {
            assert_eq!(c.path, "users/9/keys");
            reply_ids(keys.iter().map(|k| k.0).collect())
        }
        (Method::Delete, _) => {
            let id: u64 = c.path.rsplit('/').next().unwrap().parse().unwrap();
            assert_eq!(c.path, format!("users/9/keys/{}", id));
            keys.retain(|k| k.0 != id);
            reply_empty()
        }
        (Method::Post, Body::AddKey(k)) => {
            assert_eq!(c.path, "users/9/keys");
            keys.push((3, k.key.clone()));
            reply_id(3)
        }
        _ => panic!("unexpected call"),
    });
    assert!(matches!(r, Ok(Answer::Done)));
    assert_eq!(keys, vec![(3, "k3".to_string())]);
}

#[test]
fn update_key_for_unknown_user() {
    let mut store = IdentityStore::new();
    let mut flow = UpdateKeyFlow::new("ghost@x.org".to_string(), "k".to_string());
    let first = flow.first();
    let (r, _) = drive(first, &mut |e| flow.step(e), &mut store, &mut no_upstream);
    assert!(matches!(r, Err(Error::NotFound)));
}

fn repo_request(owners: Vec<&str>, data: Option<&str>) -> CreateRepo {
    CreateRepo {
        owners: owners.into_iter().map(|o| o.to_string()).collect(),
        repo_name: "team1".to_string(),
        ddl: "2030-06-01".to_string(),
        additional_data: data.map(|d| d.to_string()),
    }
}

#[test]
fn create_repo_runs_every_step() {
    let mut store = IdentityStore::new();
    store.insert(StoreKey::Group(uuid(A).parsed), 55).unwrap();
    store.insert(StoreKey::User("s1@x.org".to_string()), 101).unwrap();
    store.insert(StoreKey::User("s2@x.org".to_string()), 102).unwrap();
    let mut flow = CreateRepoFlow::new(
        uuid(C),
        uuid(A),
        repo_request(vec!["s1@x.org", "s2@x.org"], Some("a/b c")),
        "salt".to_string(),
        "https://mw.example".to_string(),
    );
    let first = flow.first();
    let mut hook: Option<(String, String)> = None;
    let mut members = Vec::new();
    let (r, log) = drive(first, &mut |e| flow.step(e), &mut store, &mut |c| {
        match &c.body {
            Body::CreateRepo(b) => {
                assert_eq!(b.namespace_id, 55);
                return Event::Replied(Reply {
                    id: Some(700),
                    ssh_url: Some("git@h:g/team1.git".to_string()),
                    ids: None,
                });
            }
            Body::CreateWebhook(h) => hook = Some((h.url.clone(), h.token.clone())),
            Body::AddUserToProject(m) => members.push((m.user_id, m.access_level, m.expires_at.clone())),
            _ => {}
        }
        reply_empty()
    });
    match r {
        Ok(Answer::Json(j)) => assert_eq!(j, "{\"ssh_url_to_repo\":\"git@h:g/team1.git\"}"),
        other => panic!("{:?}", other),
    }
    let path = format!("/hooks/{}/{}", C, A);
    let (url, token) = hook.unwrap();
    assert_eq!(url, format!("https://mw.example{}?data=a%2Fb%20c", path));
    assert_eq!(token, calc_token(&path, "salt"));
    assert_eq!(
        token,
        "346531653664333163313737613662333835323362616166356632613764653839343561376130356132613832653636363966373233643265306163336334376332623766383038633836663936633735336138383361663362343331363330316461326236373364643334316563336664636332386430313364363531383173616c74"
    );
    assert_eq!(
        members,
        vec![(101, 40, "2030-06-01".to_string()), (102, 40, "2030-06-01".to_string())]
    );
    assert!(log.contains(&"Post projects/700/protected_branches?name=*".to_string()));
    let key = StoreKey::Repo(uuid(C).parsed, uuid(A).parsed, "team1".to_string());
    assert_eq!(store.lookup(&key).unwrap(), 700);
}

#[test]
fn create_repo_twice_is_rejected_without_calls() {
    let mut store = IdentityStore::new();
    store.insert(StoreKey::Group(uuid(A).parsed), 55).unwrap();
    let mut calls = 0;
    let mut flow = CreateRepoFlow::new(uuid(C), uuid(A), repo_request(vec![], None), "s".to_string(), "b".to_string());
    let first = flow.first();
    let (r, _) = drive(first, &mut |e| flow.step(e), &mut store, &mut |c| {
        calls += 1;
        if let Body::CreateRepo(_) = c.body {
            Event::Replied(Reply { id: Some(1), ssh_url: Some("u".to_string()), ids: None })
        } else {
            reply_empty()
        }
    });
    assert!(r.is_ok());
    let before = calls;
    let mut again = CreateRepoFlow::new(uuid(C), uuid(A), repo_request(vec![], None), "s".to_string(), "b".to_string());
    let first = again.first();
    let (r2, log) = drive(first, &mut |e| again.step(e), &mut store, &mut no_upstream);
    assert!(matches!(r2, Err(Error::AlreadyExists)));
    assert_eq!(calls, before);
    assert_eq!(log.len(), 2);
}

#[test]
fn create_repo_with_unknown_owner_calls_nothing() {
    let mut store = IdentityStore::new();
    store.insert(StoreKey::Group(uuid(A).parsed), 55).unwrap();
    store.insert(StoreKey::User("s1@x.org".to_string()), 101).unwrap();
    let mut flow = CreateRepoFlow::new(
        uuid(C),
        uuid(A),
        repo_request(vec!["s1@x.org", "ghost@x.org"], None),
        "s".to_string(),
        "b".to_string(),
    );
    let first = flow.first();
    let (r, _) = drive(first, &mut |e| flow.step(e), &mut store, &mut no_upstream);
    assert!(matches!(r, Err(Error::NotFound)));
}

#[test]
fn create_repo_keeps_project_when_hook_fails() {
    let mut store = IdentityStore::new();
    store.insert(StoreKey::Group(uuid(A).parsed), 55).unwrap();
    let mut flow = CreateRepoFlow::new(uuid(C), uuid(A), repo_request(vec![], None), "s".to_string(), "b".to_string());
    let first = flow.first();
    let (r, _) = drive(first, &mut |e| flow.step(e), &mut store, &mut |c| match c.body {
        Body::CreateRepo(_) => Event::Replied(Reply { id: Some(8), ssh_url: Some("u".to_string()), ids: None }),
        _ => Event::Failed(Error::upstream(500, "boom".to_string())),
    });
    assert!(matches!(r, Err(Error::UpstreamError(500, _))));
    let key = StoreKey::Repo(uuid(C).parsed, uuid(A).parsed, "team1".to_string());
    assert_eq!(store.lookup(&key).unwrap(), 8);
}

#[test]
fn delete_repo_and_assignment() {
    let mut store = IdentityStore::new();
    let key = StoreKey::Repo(uuid(C).parsed, uuid(A).parsed, "team1".to_string());
    store.insert(key.duplicate(), 700).unwrap();
    store.insert(StoreKey::Group(uuid(A).parsed), 55).unwrap();
    let mut flow = DeleteFlow::repo(&uuid(C), &uuid(A), "team1".to_string());
    let first = flow.first();
    let (r, log) = drive(first, &mut |e| flow.step(e), &mut store, &mut |_| reply_empty());
    assert!(matches!(r, Ok(Answer::Done)));
    assert_eq!(log[1], "Delete projects/700");
    assert!(store.lookup(&key).is_err());
    let mut flow = DeleteFlow::assignment(&uuid(A));
    let first = flow.first();
    let (r, log) = drive(first, &mut |e| flow.step(e), &mut store, &mut |_| reply_empty());
    assert!(matches!(r, Ok(Answer::Done)));
    assert_eq!(log[1], "Delete groups/55");
    assert!(store.lookup(&StoreKey::Group(uuid(A).parsed)).is_err());
}

#[test]
fn add_instructor_grants_owner() {
    let mut store = IdentityStore::new();
    store.insert(StoreKey::Group(uuid(C).parsed), 10).unwrap();
    store.insert(StoreKey::User("prof@x.org".to_string()), 3).unwrap();
    let mut flow = AddInstructorFlow::new(uuid(C), "prof@x.org".to_string());
    let first = flow.first();
    let mut seen = None;
    let (r, _) = drive(first, &mut |e| flow.step(e), &mut store, &mut |c| {
        assert_eq!(c.path, "groups/10/members");
        if let Body::AddUserToGroup(m) = &c.body {
            seen = Some((m.user_id, m.access_level));
        }
        reply_empty()
    });
    assert!(matches!(r, Ok(Answer::Done)));
    assert_eq!(seen, Some((3, 50)));
}

#[test]
fn create_user_validates_then_maps() {
    let mut store = IdentityStore::new();
    let mut short = CreateUserFlow::new(CreateUser { email: "a@b".to_string(), password: "short".to_string() });
    assert!(matches!(short.first(), Action::Finish(Ok(Answer::BadRequest("Password too short (len<8)")))));
    let mut bad = CreateUserFlow::new(CreateUser { email: "admin@b".to_string(), password: "longenough".to_string() });
    assert!(matches!(bad.first(), Action::Finish(Ok(Answer::BadRequest("Invalid email")))));
    let mut flow = CreateUserFlow::new(CreateUser { email: "jdoe@b.org".to_string(), password: "longenough".to_string() });
    let first = flow.first();
    let (r, _) = drive(first, &mut |e| flow.step(e), &mut store, &mut |c| {
        if let Body::CreateUser(u) = &c.body {
            assert_eq!(u.username, "jdoe");
        }
        reply_id(31)
    });
    assert!(matches!(r, Ok(Answer::Created)));
    assert_eq!(store.lookup(&StoreKey::User("jdoe@b.org".to_string())).unwrap(), 31);
}

#[test]
fn finished_workflow_stays_finished() {
    let mut flow = DeleteCourseFlow::new(uuid(C));
    assert!(matches!(flow.step(Event::Failed(Error::NotFound)), Action::Finish(Err(Error::NotFound))));
    assert!(matches!(flow.step(Event::Stored), Action::Finish(Err(Error::SomeError("workflow finished")))));
    let op = StoreOp::Lookup(StoreKey::Group(1));
    assert!(matches!(op, StoreOp::Lookup(_)));
}

#[test]
fn concurrent_repo_creation_loser_gets_already_exists() {
    let mut store = IdentityStore::new();
    store.insert(StoreKey::Group(uuid(A).parsed), 55).unwrap();
    let mut first_flow = CreateRepoFlow::new(uuid(C), uuid(A), repo_request(vec![], None), "s".to_string(), "b".to_string());
    let mut second_flow = CreateRepoFlow::new(uuid(C), uuid(A), repo_request(vec![], None), "s".to_string(), "b".to_string());
    let created = || Event::Replied(Reply { id: Some(1), ssh_url: Some("u".to_string()), ids: None });
    // both existence checks miss, both resolve the assignment and create a project
    let mut a1 = first_flow.first();
    let mut a2 = second_flow.first();
    for _ in 0..2 {
        let e1 = match a1 { Action::Store(op) => perform_store_op(&mut store, op), _ => panic!() };
        let e2 = match a2 { Action::Store(op) => perform_store_op(&mut store, op), _ => panic!() };
        a1 = first_flow.step(e1);
        a2 = second_flow.step(e2);
    }
    assert!(matches!(a1, Action::Call(_)));
    assert!(matches!(a2, Action::Call(_)));
    let a1 = first_flow.step(created());
    let a2 = second_flow.step(Event::Replied(Reply { id: Some(2), ssh_url: Some("v".to_string()), ids: None }));
    let e1 = match a1 { Action::Store(op) => perform_store_op(&mut store, op), _ => panic!() };
    let e2 = match a2 { Action::Store(op) => perform_store_op(&mut store, op), _ => panic!() };
    assert!(matches!(first_flow.step(e1), Action::Call(_)));
    assert!(matches!(second_flow.step(e2), Action::Finish(Err(Error::AlreadyExists))));
    let key = StoreKey::Repo(uuid(C).parsed, uuid(A).parsed, "team1".to_string());
    assert_eq!(store.lookup(&key).unwrap(), 1);
}
