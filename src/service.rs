use crate::text::{copy_opt, opt_text, same_text};
use vstd::prelude::*;

verus! {

/// Continuous integration services and the names coveralls.io gives them.
#[derive(Clone, PartialEq, Eq, PartialOrd, Ord, Hash, Debug)]
pub enum CiService {
    Travis,
    TravisPro,
    Circle,
    Semaphore,
    Jenkins,
    Codeship,
    /// Any other service, under the name it was given.
    Other(String),
}

/// The name coveralls.io knows a service by.
pub open spec fn ci_text(c: CiService) -> Seq<char> {
    match c {
        CiService::Travis => "travis-ci"@,
        CiService::TravisPro => "travis-pro"@,
        CiService::Circle => "circle-ci"@,
        CiService::Semaphore => "semaphore"@,
        CiService::Jenkins => "jenkins"@,
        CiService::Codeship => "codeship"@,
        CiService::Other(s) => s@,
    }
}

/// The service that a name stands for: a known one by its name, any other
/// as `Other` with that name.
pub open spec fn names_ci(c: CiService, s: Seq<char>) -> bool {
    if s == "travis-ci"@ {
        c is Travis
    } else if s == "travis-pro"@ {
        c is TravisPro
    } else if s == "circle-ci"@ {
        c is Circle
    } else if s == "semaphore"@ {
        c is Semaphore
    } else if s == "jenkins"@ {
        c is Jenkins
    } else if s == "codeship"@ {
        c is Codeship
    } else {
        c matches CiService::Other(x) && x@ == s
    }
}

impl CiService {
    /// The service a name stands for; an unknown name gives `Other`.
    pub fn from_name(s: &str) -> (r: CiService)
        ensures
            names_ci(r, s@),
    {
        if same_text(s, "travis-ci") {
            CiService::Travis
        } else if same_text(s, "travis-pro") {
            CiService::TravisPro
        } else if same_text(s, "circle-ci") {
            CiService::Circle
        } else if same_text(s, "semaphore") {
            CiService::Semaphore
        } else if same_text(s, "jenkins") {
            CiService::Jenkins
        } else if same_text(s, "codeship") {
            CiService::Codeship
        } else {
            CiService::Other(s.to_owned())
        }
    }

    /// The name coveralls.io knows this service by.
    pub fn value(&self) -> (r: &str)
        ensures
            r@ == ci_text(*self),
    {
        match self {
            CiService::Travis => "travis-ci",
            CiService::TravisPro => "travis-pro",
            CiService::Other(x) => x.as_str(),
            CiService::Circle => "circle-ci",
            CiService::Semaphore => "semaphore",
            CiService::Jenkins => "jenkins",
            CiService::Codeship => "codeship",
        }
    }
}

impl std::str::FromStr for CiService {
    type Err = ();

    /// Parsing is total: a known name gives its service, any other `Other`.
    fn from_str(s: &str) -> (r: Result<CiService, ()>)
        ensures
            r matches Ok(c) && names_ci(c, s@),
    {
        Ok(CiService::from_name(s))
    }
}

/// The values of the environment variables that CI detection reads, each
/// `None` when the variable is not set.
#[derive(Clone, PartialEq, Eq, Hash, Debug, Default)]
pub struct Environment {
    pub travis: Option<String>,
    pub travis_job_id: Option<String>,
    pub travis_pull_request: Option<String>,
    pub travis_branch: Option<String>,
    pub circleci: Option<String>,
    pub circle_build_num: Option<String>,
    pub circle_branch: Option<String>,
    pub jenkins_url: Option<String>,
    pub build_num: Option<String>,
    pub build_url: Option<String>,
    pub git_branch: Option<String>,
    pub semaphore: Option<String>,
    pub semaphore_build_number: Option<String>,
    pub pull_request_number: Option<String>,
    pub ci_name: Option<String>,
    pub ci_build_number: Option<String>,
    pub ci_job_id: Option<String>,
    pub ci_build_url: Option<String>,
    pub ci_branch: Option<String>,
    pub ci_pull_request: Option<String>,
    pub coveralls_repo_token: Option<String>,
}

/// A CI service and what it tells about the build.
#[derive(Clone, PartialEq, Eq, PartialOrd, Ord, Hash, Debug)]
pub struct Service {
    pub name: CiService,
    pub job_id: Option<String>,
    /// The build number (`service_number`).
    pub number: Option<String>,
    pub build_url: Option<String>,
    pub branch: Option<String>,
    pub pull_request: Option<String>,
}

/// Travis reports a build that is no pull request as the literal `false`.
pub open spec fn travis_pull_request(v: Option<Seq<char>>) -> Option<Seq<char>> {
    match v {
        Some(s) => if s == "false"@ {
            None
        } else {
            Some(s)
        },
        None => None,
    }
}

/// What Travis's variables give, under the service name `name`.
pub open spec fn is_travis_service(s: Service, env: Environment, name: CiService) -> bool {
    &&& s.name == name
    &&& opt_text(s.job_id) == opt_text(env.travis_job_id)
    &&& opt_text(s.pull_request) == travis_pull_request(opt_text(env.travis_pull_request))
    &&& opt_text(s.branch) == opt_text(env.travis_branch)
    &&& s.number is None
    &&& s.build_url is None
}

/// What CircleCI's variables give.
pub open spec fn is_circle_service(s: Service, env: Environment) -> bool {
    &&& s.name is Circle
    &&& s.job_id is None
    &&& opt_text(s.number) == opt_text(env.circle_build_num)
    &&& opt_text(s.branch) == opt_text(env.circle_branch)
    &&& s.build_url is None
    &&& s.pull_request is None
}

/// What Jenkins's variables give.
pub open spec fn is_jenkins_service(s: Service, env: Environment) -> bool {
    &&& s.name is Jenkins
    &&& s.job_id is None
    &&& opt_text(s.number) == opt_text(env.build_num)
    &&& opt_text(s.build_url) == opt_text(env.build_url)
    &&& opt_text(s.branch) == opt_text(env.git_branch)
    &&& s.pull_request is None
}

/// What Semaphore's variables give.
pub open spec fn is_semaphore_service(s: Service, env: Environment) -> bool {
    &&& s.name is Semaphore
    &&& s.job_id is None
    &&& opt_text(s.number) == opt_text(env.semaphore_build_number)
    &&& opt_text(s.pull_request) == opt_text(env.pull_request_number)
    &&& s.branch is None
    &&& s.build_url is None
}

/// Whether any of the generic `CI_*` variables is set.
pub open spec fn has_generic_ci(env: Environment) -> bool {
    env.ci_name is Some || env.ci_build_number is Some || env.ci_job_id is Some
        || env.ci_build_url is Some || env.ci_branch is Some || env.ci_pull_request is Some
}

/// The service name the generic variables give: `CI_NAME`, or `unknown`.
pub open spec fn generic_ci_text(env: Environment) -> Seq<char> {
    match env.ci_name {
        Some(n) => n@,
        None => "unknown"@,
    }
}

/// What the generic `CI_*` variables give.
pub open spec fn is_generic_service(s: Service, env: Environment) -> bool {
    &&& names_ci(s.name, generic_ci_text(env))
    &&& opt_text(s.job_id) == opt_text(env.ci_job_id)
    &&& opt_text(s.number) == opt_text(env.ci_build_number)
    &&& opt_text(s.build_url) == opt_text(env.ci_build_url)
    &&& opt_text(s.branch) == opt_text(env.ci_branch)
    &&& opt_text(s.pull_request) == opt_text(env.ci_pull_request)
}

/// The generic detection: a service when any `CI_*` variable is set.
pub open spec fn is_generic_detection(r: Option<Service>, env: Environment) -> bool {
    if has_generic_ci(env) {
        r matches Some(s) && is_generic_service(s, env)
    } else {
        r is None
    }
}

/// The service detected from the environment: the first of Travis, CircleCI,
/// Jenkins and Semaphore whose marker variable is set, else the generic one.
pub open spec fn is_detected_service(r: Option<Service>, env: Environment) -> bool {
    if env.travis is Some {
        r matches Some(s) && is_travis_service(s, env, CiService::Travis)
    } else if env.circleci is Some {
        r matches Some(s) && is_circle_service(s, env)
    } else if env.jenkins_url is Some {
        r matches Some(s) && is_jenkins_service(s, env)
    } else if env.semaphore is Some {
        r matches Some(s) && is_semaphore_service(s, env)
    } else {
        is_generic_detection(r, env)
    }
}

impl Service {
    /// Detects the CI service from the environment, in a fixed order of
    /// precedence.
    pub fn from_env(env: &Environment) -> (r: Option<Service>)
        ensures
            is_detected_service(r, *env),
    {
        if env.travis.is_some() {
            Some(Service::get_travis_env(env))
        } else if env.circleci.is_some() {
            Some(Service::get_circle_env(env))
        } else if env.jenkins_url.is_some() {
            Some(Service::get_jenkins_env(env))
        } else if env.semaphore.is_some() {
            Some(Service::get_semaphore_env(env))
        } else {
            Service::get_generic_env(env)
        }
    }

    /// Reads the variables of a service that is named rather than detected.
    /// Travis cannot tell free from pro, so the name given is kept.
    pub fn from_ci(ci: CiService, env: &Environment) -> (r: Option<Service>)
        ensures
            match ci {
                CiService::Travis | CiService::TravisPro => r matches Some(s)
                    && is_travis_service(s, *env, ci),
                CiService::Circle => r matches Some(s) && is_circle_service(s, *env),
                CiService::Semaphore => r matches Some(s) && is_semaphore_service(s, *env),
                CiService::Jenkins => r matches Some(s) && is_jenkins_service(s, *env),
                _ => is_generic_detection(r, *env),
            },
    {
        match ci {
            CiService::Travis | CiService::TravisPro => {
                let mut temp = Service::get_travis_env(env);
                temp.name = ci;
                Some(temp)
            },
            CiService::Circle => Some(Service::get_circle_env(env)),
            CiService::Semaphore => Some(Service::get_semaphore_env(env)),
            CiService::Jenkins => Some(Service::get_jenkins_env(env)),
            _ => Service::get_generic_env(env),
        }
    }

    /// Travis's variables. Travis free and pro look the same here, so the
    /// service is taken to be the free one.
    pub fn get_travis_env(env: &Environment) -> (r: Service)
        ensures
            is_travis_service(r, *env, CiService::Travis),
    {
        let pr = match &env.travis_pull_request {
            Some(s) => if same_text(s.as_str(), "false") {
                None
            } else {
                Some(s.clone())
            },
            None => None,
        };
        Service {
            name: CiService::Travis,
            job_id: copy_opt(&env.travis_job_id),
            number: None,
            build_url: None,
            pull_request: pr,
            branch: copy_opt(&env.travis_branch),
        }
    }

    /// CircleCI's variables; CircleCI has no job id.
    pub fn get_circle_env(env: &Environment) -> (r: Service)
        ensures
            is_circle_service(r, *env),
    {
        Service {
            name: CiService::Circle,
            job_id: None,
            number: copy_opt(&env.circle_build_num),
            build_url: None,
            pull_request: None,
            branch: copy_opt(&env.circle_branch),
        }
    }

    /// Jenkins's variables.
    pub fn get_jenkins_env(env: &Environment) -> (r: Service)
        ensures
            is_jenkins_service(r, *env),
    {
        Service {
            name: CiService::Jenkins,
            job_id: None,
            number: copy_opt(&env.build_num),
            build_url: copy_opt(&env.build_url),
            pull_request: None,
            branch: copy_opt(&env.git_branch),
        }
    }

    /// Semaphore's variables.
    pub fn get_semaphore_env(env: &Environment) -> (r: Service)
        ensures
            is_semaphore_service(r, *env),
    {
        Service {
            name: CiService::Semaphore,
            job_id: None,
            number: copy_opt(&env.semaphore_build_number),
            pull_request: copy_opt(&env.pull_request_number),
            branch: None,
            build_url: None,
        }
    }

    /// The generic `CI_*` variables: a service when any of them is set.
    pub fn get_generic_env(env: &Environment) -> (r: Option<Service>)
        ensures
            is_generic_detection(r, *env),
    {
        if env.ci_name.is_some() || env.ci_build_number.is_some() || env.ci_job_id.is_some()
            || env.ci_build_url.is_some() || env.ci_branch.is_some()
            || env.ci_pull_request.is_some() {
            let name = match &env.ci_name {
                Some(n) => CiService::from_name(n.as_str()),
                None => CiService::from_name("unknown"),
            };
            Some(
                Service {
                    name,
                    job_id: copy_opt(&env.ci_job_id),
                    number: copy_opt(&env.ci_build_number),
                    pull_request: copy_opt(&env.ci_pull_request),
                    branch: copy_opt(&env.ci_branch),
                    build_url: copy_opt(&env.ci_build_url),
                },
            )
        } else {
            None
        }
    }
}

/// Whether a name is one that a known service goes by.
pub open spec fn is_known_ci_text(s: Seq<char>) -> bool {
    s == "travis-ci"@ || s == "travis-pro"@ || s == "circle-ci"@ || s == "semaphore"@ || s
        == "jenkins"@ || s == "codeship"@
}

/// Parsing a service's own name gives the service back; an `Other` service
/// whose name no known service goes by comes back as `Other` with that name.
pub proof fn parse_of_own_name(c: CiService, parsed: CiService)
    requires
        !(c matches CiService::Other(x) && is_known_ci_text(x@)),
        names_ci(parsed, ci_text(c)),
    ensures
        !(c is Other) ==> parsed == c,
        c matches CiService::Other(x) ==> parsed matches CiService::Other(y) && y@ == x@,
{
    reveal_strlit("travis-ci");
    reveal_strlit("travis-pro");
    reveal_strlit("circle-ci");
    reveal_strlit("semaphore");
    reveal_strlit("jenkins");
    reveal_strlit("codeship");
    assert("travis-ci"@.len() != "travis-pro"@.len());
    assert("travis-ci"@[0] != "circle-ci"@[0]);
    assert("travis-ci"@[0] != "semaphore"@[0]);
    assert("travis-ci"@.len() != "jenkins"@.len());
    assert("travis-ci"@[0] != "codeship"@[0]);
    assert("travis-pro"@[0] != "circle-ci"@[0]);
    assert("travis-pro"@[0] != "semaphore"@[0]);
    assert("travis-pro"@.len() != "jenkins"@.len());
    assert("travis-pro"@[0] != "codeship"@[0]);
    assert("circle-ci"@[0] != "semaphore"@[0]);
    assert("circle-ci"@.len() != "jenkins"@.len());
    assert("circle-ci"@[1] != "codeship"@[1]);
    assert("semaphore"@.len() != "jenkins"@.len());
    assert("semaphore"@[0] != "codeship"@[0]);
    assert("jenkins"@.len() != "codeship"@.len());
}

/// With both Travis's and CircleCI's marker variables set, detection gives
/// the Travis service and what Travis's variables say, nothing of CircleCI's.
pub proof fn travis_takes_precedence_over_circle(env: Environment, r: Option<Service>)
    requires
        env.travis is Some,
        env.circleci is Some,
        is_detected_service(r, env),
    ensures
        r matches Some(s) && is_travis_service(s, env, CiService::Travis),
{
}

} // verus!
