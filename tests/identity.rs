use coveralls_api::{
    CiService, CommitRef, CoverallsReport, Environment, GitInfo, Head, Identity, Remote, Service,
    Source, UploadStatus,
};
use std::collections::HashMap;

fn s(v: &str) -> Option<String> {
    Some(v.to_string())
}

fn pairs(v: &[(&str, &str)]) -> Vec<(String, String)> {
    v.iter().map(|(k, x)| (k.to_string(), x.to_string())).collect()
}

#[test]
fn ci_names_round_trip() {
    assert_eq!(CiService::from_name("travis-ci"), CiService::Travis);
    assert_eq!(CiService::from_name("travis-pro"), CiService::TravisPro);
    assert_eq!(CiService::from_name("circle-ci"), CiService::Circle);
    assert_eq!(CiService::from_name("semaphore"), CiService::Semaphore);
    assert_eq!(CiService::from_name("jenkins"), CiService::Jenkins);
    assert_eq!(CiService::from_name("codeship"), CiService::Codeship);
    assert_eq!(
        CiService::from_name("coveralls-ruby"),
        CiService::Other("coveralls-ruby".to_string())
    );
    assert_eq!(CiService::Circle.value(), "circle-ci");
    assert_eq!(CiService::Other("x".to_string()).value(), "x");
    assert_eq!("jenkins".parse::<CiService>(), Ok(CiService::Jenkins));
}

#[test]
fn travis_wins_over_circle() {
    let env = Environment {
        travis: s("1"),
        circleci: s("1"),
        travis_job_id: s("77"),
        travis_pull_request: s("false"),
        travis_branch: s("main"),
        circle_build_num: s("5"),
        circle_branch: s("dev"),
        ..Environment::default()
    };
    let serv = Service::from_env(&env).unwrap();
    assert_eq!(
        serv,
        Service {
            name: CiService::Travis,
            job_id: s("77"),
            number: None,
            build_url: None,
            branch: s("main"),
            pull_request: None,
        }
    );
}

#[test]
fn travis_pull_request_kept_when_not_false() {
    let env = Environment {
        travis: s("1"),
        travis_pull_request: s("12"),
        ..Environment::default()
    };
    assert_eq!(Service::get_travis_env(&env).pull_request, s("12"));
}

#[test]
fn jenkins_and_semaphore_detection() {
    let env = Environment {
        jenkins_url: s("http://ci"),
        build_num: s("3"),
        build_url: s("http://ci/3"),
        git_branch: s("b"),
        semaphore: s("1"),
        ..Environment::default()
    };
    assert_eq!(
        Service::from_env(&env),
        Some(Service {
            name: CiService::Jenkins,
            job_id: None,
            number: s("3"),
            build_url: s("http://ci/3"),
            branch: s("b"),
            pull_request: None,
        })
    );
    let env = Environment {
        semaphore: s("1"),
        semaphore_build_number: s("8"),
        pull_request_number: s("4"),
        ..Environment::default()
    };
    assert_eq!(
        Service::from_env(&env),
        Some(Service {
            name: CiService::Semaphore,
            job_id: None,
            number: s("8"),
            build_url: None,
            branch: None,
            pull_request: s("4"),
        })
    );
}

#[test]
fn generic_detection() {
    assert_eq!(Service::from_env(&Environment::default()), None);
    let env = Environment {
        ci_build_number: s("9"),
        ..Environment::default()
    };
    let serv = Service::from_env(&env).unwrap();
    assert_eq!(serv.name, CiService::Other("unknown".to_string()));
    assert_eq!(serv.number, s("9"));
    let env = Environment {
        ci_name: s("codeship"),
        ci_job_id: s("j"),
        ..Environment::default()
    };
    let serv = Service::from_env(&env).unwrap();
    assert_eq!(serv.name, CiService::Codeship);
    assert_eq!(serv.job_id, s("j"));
}

#[test]
fn from_ci_keeps_travis_pro() {
    let env = Environment {
        travis_job_id: s("1"),
        ..Environment::default()
    };
    let serv = Service::from_ci(CiService::TravisPro, &env).unwrap();
    assert_eq!(serv.name, CiService::TravisPro);
    assert_eq!(serv.job_id, s("1"));
    assert_eq!(Service::from_ci(CiService::Codeship, &env), None);
    assert_eq!(
        Service::from_ci(CiService::Circle, &env).unwrap().name,
        CiService::Circle
    );
}

#[test]
fn identity_precedence() {
    let none = Environment::default();
    assert_eq!(Identity::best_match(&none), None);
    let token_only = Environment {
        coveralls_repo_token: s("SECRET-REDACTED"),
        ..Environment::default()
    };
    assert_eq!(
        Identity::best_match(&token_only),
        Some(Identity::RepoToken("SECRET-REDACTED".to_string()))
    );
    let circle = Environment {
        circleci: s("1"),
        ..Environment::default()
    };
    match Identity::best_match(&circle) {
        Some(Identity::ServiceToken(t, serv)) => {
            assert_eq!(t, "");
            assert_eq!(serv.name, CiService::Circle);
        }
        other => panic!("unexpected {:?}", other),
    }
    match Identity::best_match_with_token("tok".to_string(), &circle) {
        Identity::ServiceToken(t, serv) => {
            assert_eq!(t, "tok");
            assert_eq!(serv.name, CiService::Circle);
        }
        other => panic!("unexpected {:?}", other),
    }
    assert_eq!(
        Identity::best_match_with_token("tok".to_string(), &none),
        Identity::RepoToken("tok".to_string())
    );
    assert_eq!(Identity::from_token(&none), None);
}

#[test]
fn circle_service_token_fields() {
    let serv = Service {
        name: CiService::Circle,
        job_id: None,
        number: s("42"),
        build_url: None,
        branch: None,
        pull_request: None,
    };
    let id = Identity::ServiceToken(String::new(), serv);
    assert_eq!(
        id.wire_fields(),
        pairs(&[("service_name", "circle-ci"), ("service_number", "42")])
    );
}

#[test]
fn service_token_with_all_fields() {
    let serv = Service {
        name: CiService::Travis,
        job_id: s("1"),
        number: s("2"),
        build_url: s("u"),
        branch: s("b"),
        pull_request: s("p"),
    };
    let id = Identity::ServiceToken("t".to_string(), serv);
    assert_eq!(
        id.wire_fields(),
        pairs(&[
            ("repo_token", "t"),
            ("service_name", "travis-ci"),
            ("service_job_id", "1"),
            ("service_number", "2"),
            ("service_build_url", "u"),
            ("service_branch", "b"),
            ("service_pull_request", "p"),
        ])
    );
    assert_eq!(
        Identity::RepoToken("r".to_string()).wire_fields(),
        pairs(&[("repo_token", "r")])
    );
}

fn git() -> GitInfo {
    GitInfo {
        head: Head {
            id: "abc".to_string(),
            ..Head::default()
        },
        branch: "main".to_string(),
        remotes: vec![Remote {
            name: "origin".to_string(),
            url: "u".to_string(),
        }],
    }
}

#[test]
fn commit_and_git_info_exclusive() {
    let mut r = CoverallsReport::new(Identity::RepoToken("t".to_string()));
    r.set_commit("deadbeef");
    assert_eq!(r.commit, CommitRef::Sha("deadbeef".to_string()));
    r.set_detailed_git_info(git());
    assert_eq!(r.commit, CommitRef::Detailed(git()));
    assert_eq!(r.header_fields(), pairs(&[("repo_token", "t")]));
    r.set_commit("cafe");
    assert_eq!(r.commit, CommitRef::Sha("cafe".to_string()));
    assert_eq!(
        r.header_fields(),
        pairs(&[("repo_token", "t"), ("commit_sha", "cafe")])
    );
}

#[test]
fn report_keeps_sources_in_order() {
    let hits: HashMap<usize, usize> = HashMap::new();
    let mut r = CoverallsReport::new(Identity::RepoToken("t".to_string()));
    assert!(r.source_files.is_empty());
    r.add_source(Source::new("a", "1", &hits, &None, false));
    r.add_source(Source::new("b", "2", &hits, &None, false));
    assert_eq!(r.source_files.len(), 2);
    assert_eq!(r.source_files[0].name, "a");
    assert_eq!(r.source_files[1].name, "b");
    assert_eq!(r.commit, CommitRef::Unset);
}

#[test]
fn classify_status_codes() {
    assert_eq!(UploadStatus::classify::<()>(Ok(200)), UploadStatus::Succeeded);
    assert_eq!(UploadStatus::classify::<()>(Ok(0)), UploadStatus::Pending);
    assert_eq!(UploadStatus::classify::<()>(Ok(404)), UploadStatus::Failed(404));
    assert_eq!(UploadStatus::classify::<()>(Err(())), UploadStatus::Unknown);
}

#[test]
fn parse_gives_named_service_back() {
    let all = vec![
        CiService::Travis,
        CiService::TravisPro,
        CiService::Circle,
        CiService::Semaphore,
        CiService::Jenkins,
        CiService::Codeship,
        CiService::Other("coveralls-ruby".to_string()),
    ];
    for c in all {
        assert_eq!(c.value().parse::<CiService>(), Ok(c.clone()));
    }
    assert_eq!(
        "".parse::<CiService>(),
        Ok(CiService::Other(String::new()))
    );
}
