//! The provider-facing services. The decisions of the provisioning flow
//! live here: which endpoint a creation request targets, what its body
//! holds, how a confirmed creation turns into a lifecycle event and a
//! capability value, and where a clone ends up. The embedding program
//! performs the network call and the clone subprocess and hands their
//! outcomes back in as plain `Result` values.

use vstd::prelude::*;

verus! {

use vstd::string::StringExecFns;
use crate::event::RepositoryCreatedEvent;
use crate::event::build_event;
use crate::event::event_describes;
use crate::model::GithubRepoParams;
use crate::model::GithubUser;
use crate::model::InitializedGithubRepo;
use crate::model::InitializedRepo;
use crate::model::InitializedSource;
use crate::model::RepoParams;
use crate::model::SkootError;

/// The fixed endpoint that creates a repository under the calling
/// personal account.
pub open spec fn user_repos_endpoint() -> Seq<char> {
    "/user/repos"@
}

/// The endpoint that creates a repository under the organization `org`.
pub open spec fn org_repos_endpoint(org: Seq<char>) -> Seq<char> {
    "/orgs/"@ + org + "/repos"@
}

/// The path of the working copy that cloning into `path` produces: the
/// directory named after the repository, inside `path`.
pub open spec fn clone_path_spec(path: Seq<char>, name: Seq<char>) -> Seq<char> {
    path + "/"@ + name
}

/// The body of a repository-creation request: the caller's name and
/// description, a fixed public visibility, and the three capability
/// flags all enabled.
pub struct NewGithubRepoParams {
    pub name: String,
    pub description: String,
    pub private: bool,
    pub has_issues: bool,
    pub has_projects: bool,
    pub has_wiki: bool,
}

/// A planned creation call: where to send it and what to send.
pub struct CreateRepoRequest {
    pub endpoint: String,
    pub body: NewGithubRepoParams,
}

/// Relies on chrono::Utc::now, formatted by chrono::DateTime::to_rfc3339:
/// the current UTC time as an RFC 3339 string. Nothing is promised of
/// the value: it depends on the clock.
#[verifier::external_body]
fn now_utc_rfc3339() -> String {
    chrono::Utc::now().to_rfc3339()
}

/// Creates and clones repositories hosted on Github.
pub struct GithubRepoHandler {}

impl GithubRepoHandler {
    /// The creation request for `github_params`: the endpoint is chosen
    /// from the owner tag alone — the fixed personal endpoint for a
    /// user, the organization-scoped endpoint for an organization — and
    /// the body carries the name and description with public visibility
    /// and all capability flags enabled.
    pub fn create_request(github_params: &GithubRepoParams) -> (r: CreateRepoRequest)
        ensures
            r.body.name@ == github_params.name@,
            r.body.description@ == github_params.description@,
            !r.body.private,
            r.body.has_issues,
            r.body.has_projects,
            r.body.has_wiki,
            github_params.organization is User ==> r.endpoint@ == user_repos_endpoint(),
            (github_params.organization matches GithubUser::Organization(org) ==> r.endpoint@
                == org_repos_endpoint(org@)),
    {
        let endpoint = match &github_params.organization {
            GithubUser::User(_) => "/user/repos".to_owned(),
            GithubUser::Organization(org) => {
                let mut e = "/orgs/".to_owned();
                e.append(org.as_str());
                e.append("/repos");
                e
            },
        };
        CreateRepoRequest {
            endpoint,
            body: NewGithubRepoParams {
                name: github_params.name.clone(),
                description: github_params.description.clone(),
                private: false,
                has_issues: true,
                has_projects: true,
                has_wiki: true,
            },
        }
    }

    /// Completes a creation call once the provider has answered. A
    /// failure answer is surfaced unchanged as a creation failure and
    /// nothing else happens. On a success answer the lifecycle event is
    /// built — timestamped with the current clock — and the capability
    /// value for the now-existing repository is returned beside it; a
    /// failed event validation aborts the call even though the remote
    /// repository already exists.
    pub fn create_finish(github_params: &GithubRepoParams, api_result: Result<(), String>) -> (r:
        Result<(RepositoryCreatedEvent, InitializedGithubRepo), SkootError>)
        ensures
            (api_result matches Err(m) ==> (r matches Err(e) && e matches SkootError::ApiFailure(
                mm,
            ) && mm@ == m@)),
            api_result is Ok && github_params.name@.len() == 0 ==> (r matches Err(e)
                && e is InvalidEventField),
            api_result is Ok && github_params.name@.len() > 0 ==> (r matches Ok(p)
                && event_describes(
                p.0,
                github_params.organization.spec_name(),
                github_params.name@,
            ) && p.1.name@ == github_params.name@ && p.1.organization
                == github_params.organization),
    {
        match api_result {
            Err(m) => Err(SkootError::ApiFailure(m)),
            Ok(_) => {
                let timestamp = now_utc_rfc3339();
                match build_event(github_params, timestamp) {
                    Err(e) => Err(e),
                    Ok(ev) => Ok(
                        (
                            ev,
                            InitializedGithubRepo {
                                name: github_params.name.clone(),
                                organization: github_params.organization.clone(),
                            },
                        ),
                    ),
                }
            },
        }
    }

    /// The result of cloning `initialized_github_repo` into `path`. The
    /// subprocess's outcome decides: on success the working copy sits in
    /// `{path}/{name}`, the directory a flat clone creates — the path is
    /// computed, never read back from the filesystem; a failure is
    /// surfaced unchanged as a clone failure.
    pub fn clone_local(
        initialized_github_repo: &InitializedGithubRepo,
        path: &str,
        clone_result: Result<(), String>,
    ) -> (r: Result<InitializedSource, SkootError>)
        ensures
            clone_result is Ok ==> (r matches Ok(s) && s.path@ == clone_path_spec(
                path@,
                initialized_github_repo.name@,
            )),
            (clone_result matches Err(m) ==> (r matches Err(e) && e
                matches SkootError::CloneFailure(mm) && mm@ == m@)),
    {
        match clone_result {
            Err(m) => Err(SkootError::CloneFailure(m)),
            Ok(_) => {
                let mut p = path.to_owned();
                p.append("/");
                p.append(initialized_github_repo.name.as_str());
                Ok(InitializedSource { path: p })
            },
        }
    }
}

/// Initializes and manages a project's source-code repository from the
/// local machine: the repository itself is remote, but the API calls
/// and the clone run here. A pure dispatcher over the provider tag of
/// its inputs, holding no state of its own.
pub struct LocalRepoService {}

impl LocalRepoService {
    /// Plans a creation call. An absent credential is a fatal
    /// configuration error: the call fails before anything could reach
    /// the network, and no request is produced. With a credential
    /// present, the request for the provider matching the parameters'
    /// tag is returned, its endpoint chosen from the owner tag alone.
    pub fn initialize_request(&self, params: &RepoParams, token: Option<&str>) -> (r: Result<
        CreateRepoRequest,
        SkootError,
    >)
        ensures
            token is None ==> (r matches Err(e) && e is MissingCredential),
            token is Some ==> (r matches Ok(req) && (params matches RepoParams::Github(g) && {
                &&& req.body.name@ == g.name@
                &&& req.body.description@ == g.description@
                &&& !req.body.private
                &&& req.body.has_issues
                &&& req.body.has_projects
                &&& req.body.has_wiki
                &&& g.organization is User ==> req.endpoint@ == user_repos_endpoint()
                &&& (g.organization matches GithubUser::Organization(org) ==> req.endpoint@
                    == org_repos_endpoint(org@))
            })),
    {
        if token.is_none() {
            return Err(SkootError::MissingCredential);
        }
        match params {
            RepoParams::Github(g) => Ok(GithubRepoHandler::create_request(g)),
        }
    }

    /// Completes a creation call for the provider matching the
    /// parameters' tag, handing back the lifecycle event to emit and the
    /// tagged capability value for the created repository; failures pass
    /// through from the handler unchanged.
    pub fn initialize_finish(&self, params: &RepoParams, api_result: Result<(), String>) -> (r:
        Result<(RepositoryCreatedEvent, InitializedRepo), SkootError>)
        ensures
            (api_result matches Err(m) ==> (r matches Err(e) && e matches SkootError::ApiFailure(
                mm,
            ) && mm@ == m@)),
            (params matches RepoParams::Github(g) ==> {
                &&& api_result is Ok && g.name@.len() == 0 ==> (r matches Err(e)
                    && e is InvalidEventField)
                &&& api_result is Ok && g.name@.len() > 0 ==> (r matches Ok(p) && event_describes(
                    p.0,
                    g.organization.spec_name(),
                    g.name@,
                ) && (p.1 matches InitializedRepo::Github(ig) && ig.name@ == g.name@
                    && ig.organization == g.organization))
            }),
    {
        match params {
            RepoParams::Github(g) => {
                match GithubRepoHandler::create_finish(g, api_result) {
                    Ok(p) => Ok((p.0, InitializedRepo::Github(p.1))),
                    Err(e) => Err(e),
                }
            },
        }
    }

    /// The result of cloning the repository matching `initialized_repo`'s
    /// tag into `path`: on a successful subprocess the working copy sits
    /// in `{path}/{name}`; a failure is surfaced as a clone failure.
    pub fn clone_local(
        &self,
        initialized_repo: &InitializedRepo,
        path: &str,
        clone_result: Result<(), String>,
    ) -> (r: Result<InitializedSource, SkootError>)
        ensures
            (initialized_repo matches InitializedRepo::Github(g) ==> (clone_result is Ok ==> (r
                matches Ok(s) && s.path@ == clone_path_spec(path@, g.name@)))),
            (clone_result matches Err(m) ==> (r matches Err(e) && e
                matches SkootError::CloneFailure(mm) && mm@ == m@)),
    {
        match initialized_repo {
            InitializedRepo::Github(g) => GithubRepoHandler::clone_local(g, path, clone_result),
        }
    }
}

} // verus!
