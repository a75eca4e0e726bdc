use crate::service::{ci_text, is_detected_service, CiService, Environment, Service};
use crate::text::opt_text;
use vstd::prelude::*;

verus! {

/// How a report identifies its repository to coveralls: a secret repo token,
/// or a CI service (with a token that may be empty).
#[derive(Clone, PartialEq, Eq, PartialOrd, Ord, Hash, Debug)]
pub enum Identity {
    RepoToken(String),
    ServiceToken(String, Service),
}

/// The identity a repo token gives: `COVERALLS_REPO_TOKEN`, when it is set.
pub open spec fn is_token_identity(r: Option<Identity>, env: Environment) -> bool {
    match env.coveralls_repo_token {
        Some(t) => r matches Some(Identity::RepoToken(u)) && u@ == t@,
        None => r is None,
    }
}

/// The token that goes with a detected service: `COVERALLS_REPO_TOKEN`, or
/// the empty text.
pub open spec fn env_token_text(env: Environment) -> Seq<char> {
    match env.coveralls_repo_token {
        Some(t) => t@,
        None => Seq::empty(),
    }
}

/// The identity of a detected CI service, when one is detected.
pub open spec fn is_service_identity(r: Option<Identity>, env: Environment) -> bool {
    match r {
        Some(Identity::ServiceToken(t, s)) => t@ == env_token_text(env) && is_detected_service(
            Some(s),
            env,
        ),
        Some(Identity::RepoToken(_)) => false,
        None => is_detected_service(None, env),
    }
}

/// The field that a present value gives, none for an absent one.
pub open spec fn opt_field(key: Seq<char>, v: Option<String>) -> Seq<(Seq<char>, Seq<char>)> {
    match v {
        Some(x) => seq![(key, x@)],
        None => Seq::empty(),
    }
}

/// The identity fields of the wire format, in order: the token (a service's
/// only when it is not empty), then the service's name and what is known of
/// its build.
pub open spec fn identity_fields(id: Identity) -> Seq<(Seq<char>, Seq<char>)> {
    match id {
        Identity::RepoToken(t) => seq![("repo_token"@, t@)],
        Identity::ServiceToken(t, s) => (if t@.len() > 0 {
            seq![("repo_token"@, t@)]
        } else {
            Seq::empty()
        }) + seq![("service_name"@, ci_text(s.name))] + opt_field("service_job_id"@, s.job_id)
            + opt_field("service_number"@, s.number) + opt_field(
            "service_build_url"@,
            s.build_url,
        ) + opt_field("service_branch"@, s.branch) + opt_field(
            "service_pull_request"@,
            s.pull_request,
        ),
    }
}

/// The texts of a list of key and value pairs.
pub open spec fn fields_text(v: Seq<(String, String)>) -> Seq<(Seq<char>, Seq<char>)> {
    v.map_values(|p: (String, String)| (p.0@, p.1@))
}

/// Appends a key and value pair.
fn push_field(out: &mut Vec<(String, String)>, key: &str, value: &str)
    ensures
        fields_text(final(out)@) == fields_text(old(out)@) + seq![(key@, value@)],
{
    out.push((key.to_owned(), value.to_owned()));
    assert(fields_text(final(out)@) =~= fields_text(old(out)@) + seq![(key@, value@)]);
}

/// Appends a key and value pair when the value is present.
fn push_opt_field(out: &mut Vec<(String, String)>, key: &str, value: &Option<String>)
    ensures
        fields_text(final(out)@) == fields_text(old(out)@) + opt_field(key@, *value),
{
    match value {
        Some(v) => push_field(out, key, v.as_str()),
        None => {
            assert(fields_text(old(out)@) + opt_field(key@, *value) =~= fields_text(old(out)@));
        },
    }
}

impl Identity {
    /// The identity of a repo token, when `COVERALLS_REPO_TOKEN` is set.
    pub fn from_token(env: &Environment) -> (r: Option<Identity>)
        ensures
            is_token_identity(r, *env),
    {
        match &env.coveralls_repo_token {
            Some(token) => Some(Identity::RepoToken(token.clone())),
            None => None,
        }
    }

    /// The identity of the CI service detected from the environment, with
    /// `COVERALLS_REPO_TOKEN` (or an empty token) beside it.
    pub fn from_env(env: &Environment) -> (r: Option<Identity>)
        ensures
            is_service_identity(r, *env),
    {
        let token = match &env.coveralls_repo_token {
            Some(t) => t.clone(),
            None => String::new(),
        };
        match Service::from_env(env) {
            Some(s) => Some(Identity::ServiceToken(token, s)),
            None => None,
        }
    }

    /// A detected CI service first; else a repo token; else no identity.
    pub fn best_match(env: &Environment) -> (r: Option<Identity>)
        ensures
            is_detected_service(None, *env) ==> is_token_identity(r, *env),
            !is_detected_service(None, *env) ==> is_service_identity(r, *env),
    {
        if let Some(s) = Identity::from_env(env) {
            Some(s)
        } else {
            Identity::from_token(env)
        }
    }

    /// The detected CI service with the given token, or, when no service is
    /// detected, the token alone.
    pub fn best_match_with_token(token: String, env: &Environment) -> (r: Identity)
        ensures
            match r {
                Identity::ServiceToken(t, s) => t@ == token@ && is_detected_service(Some(s), *env),
                Identity::RepoToken(t) => t@ == token@ && is_detected_service(None, *env),
            },
    {
        if let Some(Identity::ServiceToken(_, s)) = Identity::from_env(env) {
            Identity::ServiceToken(token, s)
        } else {
            Identity::RepoToken(token)
        }
    }

    /// The identity's fields of the wire format, as key and value pairs in
    /// the order they are written.
    pub fn wire_fields(&self) -> (r: Vec<(String, String)>)
        ensures
            fields_text(r@) == identity_fields(*self),
    {
        let mut out: Vec<(String, String)> = Vec::new();
        match self {
            Identity::RepoToken(t) => {
                push_field(&mut out, "repo_token", t.as_str());
            },
            Identity::ServiceToken(t, s) => {
                if !t.as_str().is_empty() {
                    push_field(&mut out, "repo_token", t.as_str());
                }
                push_field(&mut out, "service_name", s.name.value());
                push_opt_field(&mut out, "service_job_id", &s.job_id);
                push_opt_field(&mut out, "service_number", &s.number);
                push_opt_field(&mut out, "service_build_url", &s.build_url);
                push_opt_field(&mut out, "service_branch", &s.branch);
                push_opt_field(&mut out, "service_pull_request", &s.pull_request);
            },
        }
        assert(fields_text(out@) =~= identity_fields(*self));
        out
    }
}

} // verus!
