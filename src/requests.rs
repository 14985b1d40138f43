use vstd::prelude::*;
use crate::encoding::{decimal, decimal_chars, percent_decode, percent_decoded};
use crate::error::{Error, GMResult};
use crate::proxy::first_from;
use vstd::utf8::{decode_utf8, encode_utf8, valid_utf8};

verus! {

/// The value of a UUID in any of its textual forms.
pub uninterp spec fn uuid_value(s: Seq<char>) -> Option<u128>;

/// Relies on uuid's `Uuid::parse_str`; the 16 bytes are read as one
/// big-endian number.
#[verifier::external_body]
fn parse_uuid(s: &str) -> (r: Option<u128>)
    ensures
        r == uuid_value(s@),
{
    uuid::Uuid::parse_str(s).ok().map(|u| u128::from_be_bytes(*u.as_bytes()))
}

/// A UUID taken from a request path: its value, and the decoded text it was
/// written as.
#[derive(Debug)]
pub struct Uuid {
    pub parsed: u128,
    pub original: String,
}

/// The text a percent-encoded path parameter stands for, if it is UTF-8.
pub open spec fn decoded_param(param: Seq<char>) -> Option<Seq<char>> {
    let b = percent_decoded(encode_utf8(param));
    if valid_utf8(b) {
        Some(decode_utf8(b))
    } else {
        None
    }
}

impl Uuid {
    /// Reads a path parameter: percent-decoded, then parsed; a parameter that
    /// is not a UUID is `NotFound`.
    pub fn from_param(param: &str) -> (r: GMResult<Uuid>)
        ensures
            match decoded_param(param@) {
                None => r == Err::<Uuid, Error>(Error::NotFound),
                Some(d) => match uuid_value(d) {
                    None => r == Err::<Uuid, Error>(Error::NotFound),
                    Some(v) => r matches Ok(u) && u.parsed == v && u.original@ == d,
                },
            },
    {
        let decoded = match percent_decode(param) {
            Some(d) => d,
            None => return Err(Error::NotFound),
        };
        match parse_uuid(decoded.as_str()) {
            Some(parsed) => Ok(Uuid { parsed, original: decoded }),
            None => Err(Error::NotFound),
        }
    }
}

/// A path parameter that is a plain string, percent-decoded.
pub fn str_from_param(param: &str) -> (r: Option<String>)
    ensures
        match decoded_param(param@) {
            None => r is None,
            Some(d) => r matches Some(s) && s@ == d,
        },
{
    percent_decode(param)
}

/// A user to create, as the backend sends it.
pub struct CreateUser {
    pub email: String,
    pub password: String,
}

/// A user as GitLab creates it: name and username are the part of the
/// e-mail address before its first `@`.
#[derive(Debug)]
pub struct CreateUserGitLab {
    pub email: String,
    pub username: String,
    pub password: String,
    pub name: String,
}

/// Whether an e-mail address can name a new user: it has an `@`, and the
/// part before the first one is not `admin`.
pub open spec fn user_name_of(email: Seq<char>) -> Option<Seq<char>> {
    let at = first_from(email, '@', 0);
    if at >= email.len() || email.subrange(0, at) == "admin"@ {
        None
    } else {
        Some(email.subrange(0, at))
    }
}

impl CreateUserGitLab {
    pub fn from(inbound: &CreateUser) -> (r: Result<CreateUserGitLab, ()>)
        ensures
            match user_name_of(inbound.email@) {
                None => r is Err,
                Some(n) => r matches Ok(u) && u.email@ == inbound.email@ && u.username@ == n
                    && u.name@ == n && u.password@ == inbound.password@,
            },
    {
        let email = inbound.email.as_str();
        let n = email.unicode_len();
        let mut at: usize = 0;
        while at < n && email.get_char(at) != '@'
            invariant
                n == email@.len(),
                at <= n,
                forall|k: int| 0 <= k < at ==> email@[k] != '@',
            decreases n - at,
        {
            at = at + 1;
        }
        proof {
            lemma_first_from_prefix(email@, '@', at as int);
        }
        if at >= n {
            return Err(());
        }
        let local = String::from_str(email.substring_char(0, at));
        let admin = String::from_str("admin");
        if local.eq(&admin) {
            return Err(());
        }
        Ok(CreateUserGitLab {
            email: inbound.email.clone(),
            username: local.clone(),
            password: inbound.password.clone(),
            name: local,
        })
    }

    pub fn path(&self) -> (r: &'static str)
        ensures
            r@ == "users"@,
    {
        "users"
    }
}

proof fn lemma_first_from_prefix(s: Seq<char>, c: char, at: int)
    requires
        0 <= at <= s.len(),
        forall|k: int| 0 <= k < at ==> s[k] != c,
        at < s.len() ==> s[at] == c,
    ensures
        first_from(s, c, 0) == at,
    decreases at,
{
    lemma_first_from_tail(s, c, 0, at);
}

proof fn lemma_first_from_tail(s: Seq<char>, c: char, i: int, at: int)
    requires
        0 <= i <= at <= s.len(),
        forall|k: int| i <= k < at ==> s[k] != c,
        at < s.len() ==> s[at] == c,
    ensures
        first_from(s, c, i) == at,
    decreases at - i,
{
    if i < at {
        lemma_first_from_tail(s, c, i + 1, at);
    }
}

/// `prefix`, the decimal id, then `suffix`.
pub open spec fn id_path(prefix: Seq<char>, id: u64, suffix: Seq<char>) -> Seq<char> {
    prefix + decimal_chars(id as nat) + suffix
}

fn build_id_path(prefix: &str, id: u64, suffix: &str) -> (r: String)
    ensures
        r@ == id_path(prefix@, id, suffix@),
{
    let mut out = String::from_str(prefix);
    out.append(decimal(id).as_str());
    out.append(suffix);
    out
}

/// The single SSH key a user is left with.
#[derive(Debug)]
pub struct AddKeyGitlab {
    pub id: u64,
    pub title: &'static str,
    pub key: String,
}

impl AddKeyGitlab {
    pub fn new(id: u64, key: String) -> (r: AddKeyGitlab)
        ensures
            r.id == id,
            r.title@ == "key"@,
            r.key == key,
    {
        AddKeyGitlab { id, title: "key", key }
    }

    pub fn path(&self) -> (r: String)
        ensures
            r@ == id_path("users/"@, self.id, "/keys"@),
    {
        build_id_path("users/", self.id, "/keys")
    }
}

/// A course or an assignment to create, as the backend sends it.
pub struct CreateGroup {
    pub name: String,
    pub uuid: u128,
}

/// A private GitLab group; an assignment is a sub-group of its course.
#[derive(Debug)]
pub struct CreateGroupGitlab {
    pub name: String,
    pub path: String,
    pub visibility: &'static str,
    pub parent_id: Option<u64>,
}

impl CreateGroupGitlab {
    /// The top-level group of a course.
    pub fn from(inbound: &CreateGroup) -> (r: CreateGroupGitlab)
        ensures
            r.name@ == inbound.name@,
            r.path@ == inbound.name@,
            r.visibility@ == "private"@,
            r.parent_id is None,
    {
        CreateGroupGitlab {
            name: inbound.name.clone(),
            path: inbound.name.clone(),
            visibility: "private",
            parent_id: None,
        }
    }

    /// The sub-group of an assignment under the course's group.
    pub fn assignment(inbound: &CreateGroup, parent: u64) -> (r: CreateGroupGitlab)
        ensures
            r.name@ == inbound.name@,
            r.path@ == inbound.name@,
            r.visibility@ == "private"@,
            r.parent_id == Some(parent),
    {
        CreateGroupGitlab {
            name: inbound.name.clone(),
            path: inbound.name.clone(),
            visibility: "private",
            parent_id: Some(parent),
        }
    }

    pub fn path(&self) -> (r: &'static str)
        ensures
            r@ == "groups"@,
    {
        "groups"
    }
}

/// Access for an instructor in a course's group.
#[derive(Debug)]
pub struct AddUserToGroupGitlab {
    pub group_id: u64,
    pub user_id: u64,
    pub access_level: u8,
}

impl AddUserToGroupGitlab {
    pub fn new(user_id: u64, course: u64, access_level: u8) -> (r: AddUserToGroupGitlab)
        ensures
            r.group_id == course,
            r.user_id == user_id,
            r.access_level == access_level,
    {
        AddUserToGroupGitlab { group_id: course, user_id, access_level }
    }

    pub fn path(&self) -> (r: String)
        ensures
            r@ == id_path("groups/"@, self.group_id, "/members"@),
    {
        build_id_path("groups/", self.group_id, "/members")
    }
}

#[derive(Debug, Clone, Copy, PartialEq, Eq, Structural)]
pub enum Visibility {
    Public,
    Internal,
    Private,
}

impl Visibility {
    /// The name GitLab gives the level.
    pub fn as_str(&self) -> (r: &'static str)
        ensures
            *self == Visibility::Public ==> r@ == "public"@,
            *self == Visibility::Internal ==> r@ == "internal"@,
            *self == Visibility::Private ==> r@ == "private"@,
    {
        match self {
            Visibility::Public => "public",
            Visibility::Internal => "internal",
            Visibility::Private => "private",
        }
    }
}

/// A private project in an assignment's group.
#[derive(Debug)]
pub struct CreateRepoGitlab {
    pub name: String,
    pub namespace_id: u64,
    pub visibility: Visibility,
}

impl CreateRepoGitlab {
    pub fn new(name: String, assignment_id: u64) -> (r: CreateRepoGitlab)
        ensures
            r.name == name,
            r.namespace_id == assignment_id,
            r.visibility == Visibility::Private,
    {
        CreateRepoGitlab { name, namespace_id: assignment_id, visibility: Visibility::Private }
    }

    pub fn path(&self) -> (r: &'static str)
        ensures
            r@ == "projects/"@,
    {
        "projects/"
    }
}

/// A push-event webhook on a project.
#[derive(Debug)]
pub struct CreateWebhookGitlab {
    pub project_id: u64,
    pub url: String,
    pub push_events: bool,
    pub token: String,
}

impl CreateWebhookGitlab {
    pub fn new(project_id: u64, url: String, token: String) -> (r: CreateWebhookGitlab)
        ensures
            r.project_id == project_id,
            r.url == url,
            r.push_events,
            r.token == token,
    {
        CreateWebhookGitlab { project_id, url, push_events: true, token }
    }

    pub fn path(&self) -> (r: String)
        ensures
            r@ == id_path("projects/"@, self.project_id, "/hooks"@),
    {
        build_id_path("projects/", self.project_id, "/hooks")
    }
}

/// The access level that lets a project member push.
pub const MAINTAINER: u8 = 40;

/// An owner's maintainer access to a project, until `expires_at`.
#[derive(Debug)]
pub struct AddUserToProjectGitlab {
    pub project_id: u64,
    pub user_id: u64,
    pub access_level: u8,
    pub expires_at: String,
}

impl AddUserToProjectGitlab {
    pub fn new(project_id: u64, user_id: u64, expires_at: String) -> (r: AddUserToProjectGitlab)
        ensures
            r.project_id == project_id,
            r.user_id == user_id,
            r.access_level == MAINTAINER,
            r.expires_at == expires_at,
    {
        AddUserToProjectGitlab { project_id, user_id, access_level: MAINTAINER, expires_at }
    }

    pub fn path(&self) -> (r: String)
        ensures
            r@ == id_path("projects/"@, self.project_id, "/members"@),
    {
        build_id_path("projects/", self.project_id, "/members")
    }
}

} // verus!
