use vstd::prelude::*;
use crate::net::{Domain, IpAddr};
use crate::token::{calc_token, webhook_token, TokenSalt};

verus! {

/// The GitLab events a webhook endpoint accepts; each names the literal
/// that GitLab sends in its event header.
#[derive(Debug, Clone, Copy)]
pub enum GitlabEvent {
    Push,
}

impl GitlabEvent {
    pub open spec fn spec_name(self) -> &'static str {
        match self {
            GitlabEvent::Push => "Push Hook",
        }
    }

    pub open spec fn spec_missing(self) -> &'static str {
        match self {
            GitlabEvent::Push => "No gitlab \"Push Hook\"",
        }
    }

    pub open spec fn spec_mismatch(self) -> &'static str {
        match self {
            GitlabEvent::Push => "Not gitlab \"Push Hook\"",
        }
    }

    pub fn name(&self) -> (r: &'static str)
        ensures
            r == self.spec_name(),
    {
        match self {
            GitlabEvent::Push => "Push Hook",
        }
    }

    fn missing(&self) -> (r: &'static str)
        ensures
            r == self.spec_missing(),
    {
        match self {
            GitlabEvent::Push => "No gitlab \"Push Hook\"",
        }
    }

    fn mismatch(&self) -> (r: &'static str)
        ensures
            r == self.spec_mismatch(),
    {
        match self {
            GitlabEvent::Push => "Not gitlab \"Push Hook\"",
        }
    }
}

/// Why an inbound webhook call was turned away.
#[derive(Debug, Clone, Copy)]
pub enum AuthFailure {
    Forbidden(&'static str),
    BadRequest(&'static str),
}

/// Whether one of the presented token headers equals the expected token.
pub open spec fn token_presented(tokens: Seq<String>, expected: Seq<char>) -> bool {
    exists|i: int| 0 <= i < tokens.len() && tokens[i]@ == expected
}

fn any_equal(tokens: &Vec<String>, expected: &String) -> (r: bool)
    ensures
        r == token_presented(tokens@, expected@),
{
    let mut i: usize = 0;
    while i < tokens.len()
        invariant
            0 <= i <= tokens@.len(),
            forall|j: int| 0 <= j < i ==> tokens@[j]@ != expected@,
        decreases tokens@.len() - i,
    {
        if tokens[i].eq(expected) {
            assert(tokens@[i as int]@ == expected@);
            return true;
        }
        i = i + 1;
    }
    false
}

/// The verdict on an inbound webhook call for `event`: the source address
/// must be allowed when a list is configured, then the token header must
/// match the token of the path when a salt is configured, then exactly one
/// event header must carry the event's name.
pub open spec fn verdict(
    event: GitlabEvent,
    domain: Domain,
    salt: Option<Seq<char>>,
    client_ip: Option<IpAddr>,
    path: Seq<char>,
    tokens: Seq<String>,
    events: Seq<String>,
) -> Result<(), AuthFailure> {
    if !domain.admits(client_ip) {
        Err(AuthFailure::Forbidden("IP not whitelisted"))
    } else if salt is Some && !token_presented(tokens, webhook_token(path, salt->0)) {
        Err(AuthFailure::Forbidden("Require valid token"))
    } else if events.len() != 1 {
        Err(AuthFailure::BadRequest(event.spec_missing()))
    } else if events[0]@ != event.spec_name()@ {
        Err(AuthFailure::BadRequest(event.spec_mismatch()))
    } else {
        Ok(())
    }
}

pub open spec fn salt_view(salt: Option<&TokenSalt>) -> Option<Seq<char>> {
    match salt {
        Some(s) => Some(s.0@),
        None => None,
    }
}

/// Checks an inbound webhook call: `path` is the request path without its
/// query, `tokens` and `events` the values of the token and event headers.
pub fn authenticate(
    event: GitlabEvent,
    domain: &Domain,
    salt: Option<&TokenSalt>,
    client_ip: Option<IpAddr>,
    path: &str,
    tokens: &Vec<String>,
    events: &Vec<String>,
) -> (r: Result<(), AuthFailure>)
    ensures
        r == verdict(event, *domain, salt_view(salt), client_ip, path@, tokens@, events@),
{
    if !domain.allows(client_ip) {
        return Err(AuthFailure::Forbidden("IP not whitelisted"));
    }
    if let Some(s) = salt {
        let token = calc_token(path, s.as_str());
        if !any_equal(tokens, &token) {
            return Err(AuthFailure::Forbidden("Require valid token"));
        }
    }
    if events.len() != 1 {
        return Err(AuthFailure::BadRequest(event.missing()));
    }
    let name = String::from_str(event.name());
    if !events[0].eq(&name) {
        return Err(AuthFailure::BadRequest(event.mismatch()));
    }
    Ok(())
}

} // verus!
