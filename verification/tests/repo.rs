use skootrs_repo::event::RepositoryCreatedEventContextVersion;
use skootrs_repo::event::build_event;
use skootrs_repo::model::GithubRepoParams;
use skootrs_repo::model::GithubUser;
use skootrs_repo::model::InitializedGithubRepo;
use skootrs_repo::model::InitializedRepo;
use skootrs_repo::model::RepoParams;
use skootrs_repo::model::SkootError;
use skootrs_repo::service::GithubRepoHandler;
use skootrs_repo::service::LocalRepoService;

fn github_params() -> RepoParams {
    RepoParams::Github(GithubRepoParams {
        name: "skootrs".to_string(),
        description: "d".to_string(),
        organization: GithubUser::Organization("kusaridev".to_string()),
    })
}

#[test]
fn test_clone_local_github_repo() {
    let initialized_github_repo = InitializedGithubRepo {
        name: "skootrs".to_string(),
        organization: GithubUser::Organization("kusaridev".to_string()),
    };

    let path = "test";
    let result = GithubRepoHandler::clone_local(&initialized_github_repo, path, Ok(()));
    assert!(result.is_ok());

    let initialized_source = result.unwrap();
    assert_eq!(
        initialized_source.path,
        format!("{}/{}", path, initialized_github_repo.name)
    );
}

#[test]
fn organization_params_target_org_endpoint() {
    let svc = LocalRepoService {};
    let req = svc
        .initialize_request(&github_params(), Some("some-token"))
        .unwrap();
    assert_eq!(req.endpoint, "/orgs/kusaridev/repos");
}

#[test]
fn user_params_target_personal_endpoint_regardless_of_name() {
    let svc = LocalRepoService {};
    // The name string never steers the endpoint; only the tag does.
    let params = RepoParams::Github(GithubRepoParams {
        name: "skootrs".to_string(),
        description: "d".to_string(),
        organization: GithubUser::User("kusaridev".to_string()),
    });
    let req = svc.initialize_request(&params, Some("some-token")).unwrap();
    assert_eq!(req.endpoint, "/user/repos");
}

#[test]
fn scenario_create_organization_repo() {
    let svc = LocalRepoService {};
    let params = github_params();

    let req = svc.initialize_request(&params, Some("some-token")).unwrap();
    assert_eq!(req.endpoint, "/orgs/kusaridev/repos");
    assert_eq!(req.body.name, "skootrs");
    assert_eq!(req.body.description, "d");
    assert!(!req.body.private);
    assert!(req.body.has_issues);
    assert!(req.body.has_projects);
    assert!(req.body.has_wiki);

    let (event, repo) = svc.initialize_finish(&params, Ok(())).unwrap();
    assert_eq!(event.context.id.as_str(), "kusaridev/skootrs");
    assert_eq!(event.subject.id.as_str(), "kusaridev/skootrs");
    let InitializedRepo::Github(g) = repo;
    assert_eq!(g.name, "skootrs");
    assert!(matches!(g.organization, GithubUser::Organization(ref o) if o == "kusaridev"));
}

#[test]
fn scenario_clone_created_repo() {
    let svc = LocalRepoService {};
    let repo = InitializedRepo::Github(InitializedGithubRepo {
        name: "skootrs".to_string(),
        organization: GithubUser::Organization("kusaridev".to_string()),
    });
    let InitializedRepo::Github(ref g) = repo;
    assert_eq!(g.full_url(), "https://github.com/kusaridev/skootrs");

    let source = svc.clone_local(&repo, "/tmp/x", Ok(())).unwrap();
    assert_eq!(source.path, "/tmp/x/skootrs");
}

#[test]
fn missing_credential_fails_before_any_request() {
    let svc = LocalRepoService {};
    // No request value exists on this path, so nothing can reach the
    // network.
    let r = svc.initialize_request(&github_params(), None);
    assert!(matches!(r, Err(SkootError::MissingCredential)));
}

#[test]
fn api_failure_is_surfaced_and_no_event_is_built() {
    let svc = LocalRepoService {};
    let r = svc.initialize_finish(
        &github_params(),
        Err("422 name already exists on this account".to_string()),
    );
    match r {
        Err(SkootError::ApiFailure(m)) => {
            assert_eq!(m, "422 name already exists on this account");
        }
        _ => panic!("expected an api failure"),
    }
}

#[test]
fn clone_failure_is_surfaced() {
    let svc = LocalRepoService {};
    let repo = InitializedRepo::Github(InitializedGithubRepo {
        name: "skootrs".to_string(),
        organization: GithubUser::Organization("kusaridev".to_string()),
    });
    let r = svc.clone_local(&repo, "/tmp/x", Err("exit status 128".to_string()));
    match r {
        Err(SkootError::CloneFailure(m)) => assert_eq!(m, "exit status 128"),
        _ => panic!("expected a clone failure"),
    }
}

#[test]
fn empty_repo_name_fails_event_validation() {
    let svc = LocalRepoService {};
    let params = RepoParams::Github(GithubRepoParams {
        name: String::new(),
        description: "d".to_string(),
        organization: GithubUser::Organization("kusaridev".to_string()),
    });
    let r = svc.initialize_finish(&params, Ok(()));
    assert!(matches!(r, Err(SkootError::InvalidEventField(_))));
}

#[test]
fn version_string_round_trips() {
    let v = RepositoryCreatedEventContextVersion::from_str("0.3.0").unwrap();
    assert_eq!(v.as_str(), "0.3.0");
}

#[test]
fn malformed_version_strings_are_rejected() {
    assert!(RepositoryCreatedEventContextVersion::from_str("").is_err());
    assert!(RepositoryCreatedEventContextVersion::from_str("0.3").is_err());
    assert!(RepositoryCreatedEventContextVersion::from_str("0.3.0.1").is_err());
    assert!(RepositoryCreatedEventContextVersion::from_str("a.b.c").is_err());
    assert!(RepositoryCreatedEventContextVersion::from_str("01.2.3").is_err());
    assert!(RepositoryCreatedEventContextVersion::from_str("1..2").is_err());
    assert!(RepositoryCreatedEventContextVersion::from_str("1.2.").is_err());
    assert!(RepositoryCreatedEventContextVersion::from_str(".1.2").is_err());
}

#[test]
fn well_formed_version_strings_are_accepted() {
    let v = RepositoryCreatedEventContextVersion::from_str("10.20.30").unwrap();
    assert_eq!(v.as_str(), "10.20.30");
    assert!(RepositoryCreatedEventContextVersion::from_str("0.0.0").is_ok());
}

#[test]
fn event_fields_record_the_creation() {
    let RepoParams::Github(g) = github_params();
    let ev = build_event(&g, "2024-02-12T00:00:00+00:00".to_string()).unwrap();
    assert_eq!(ev.context.id.as_str(), "kusaridev/skootrs");
    assert_eq!(ev.context.source, "skootrs.github.creator");
    assert_eq!(ev.context.timestamp, "2024-02-12T00:00:00+00:00");
    assert_eq!(ev.context.type_.as_str(), "dev.cdevents.repository.created.0.1.1");
    assert_eq!(ev.context.version.as_str(), "0.3.0");
    assert_eq!(ev.subject.id.as_str(), "kusaridev/skootrs");
    assert_eq!(ev.subject.content.name.as_str(), "skootrs");
    assert_eq!(ev.subject.content.owner, Some("kusaridev".to_string()));
    assert_eq!(
        ev.subject.content.url.as_str(),
        "https://github.com/kusaridev/skootrs"
    );
    assert_eq!(
        ev.subject.content.view_url,
        Some("https://github.com/kusaridev/skootrs".to_string())
    );
    assert_eq!(ev.subject.source, Some("skootrs.github.creator".to_string()));
    assert_eq!(ev.subject.type_.as_str(), "repository");
}

#[test]
fn event_serializes_to_schema_shaped_json() {
    let RepoParams::Github(g) = github_params();
    let ev = build_event(&g, "2024-02-12T00:00:00+00:00".to_string()).unwrap();
    let expected = "{\"context\":{\"id\":\"kusaridev/skootrs\",\"source\":\"skootrs.github.creator\",\"timestamp\":\"2024-02-12T00:00:00+00:00\",\"type\":\"dev.cdevents.repository.created.0.1.1\",\"version\":\"0.3.0\"},\"subject\":{\"content\":{\"name\":\"skootrs\",\"owner\":\"kusaridev\",\"url\":\"https://github.com/kusaridev/skootrs\",\"view_url\":\"https://github.com/kusaridev/skootrs\"},\"id\":\"kusaridev/skootrs\",\"source\":\"skootrs.github.creator\",\"type\":\"repository\"}}";

    assert_eq!(ev.to_json(), expected);
}

#[test]
fn json_rendering_escapes_quotes_and_backslashes() {
    let g = GithubRepoParams {
        name: "a\"b\\c".to_string(),
        description: "d".to_string(),
        organization: GithubUser::Organization("kusaridev".to_string()),
    };
    let ev = build_event(&g, "t".to_string()).unwrap();
    let json = ev.to_json();
    assert!(json.contains("\"name\":\"a\\\"b\\\\c\""));
}
