//! Data model of the repository-provisioning flow: creation parameters,
//! the owner tag that steers endpoint selection, and the results that
//! certify a created remote repository and a local working copy.

use vstd::prelude::*;

verus! {

use vstd::string::StringExecFns;

/// The account that is to own a Github repository: a personal account or
/// an organization. The variant alone decides which API endpoint a
/// creation request targets; the name string is never inspected for that.
#[derive(Debug)]
pub enum GithubUser {
    User(String),
    Organization(String),
}

impl GithubUser {
    /// The account name carried by either variant.
    pub open spec fn spec_name(&self) -> Seq<char> {
        match self {
            GithubUser::User(name) => name@,
            GithubUser::Organization(name) => name@,
        }
    }

    /// The account name, regardless of which kind of account it is.
    pub fn get_name(&self) -> (r: String)
        ensures
            r@ == self.spec_name(),
    {
        match self {
            GithubUser::User(name) => name.clone(),
            GithubUser::Organization(name) => name.clone(),
        }
    }
}

impl Clone for GithubUser {
    fn clone(&self) -> (r: Self)
        ensures
            r == *self,
    {
        match self {
            GithubUser::User(name) => GithubUser::User(name.clone()),
            GithubUser::Organization(name) => GithubUser::Organization(name.clone()),
        }
    }
}

/// The canonical HTTPS URL of a repository, from its owner and name.
pub open spec fn full_url_spec(owner: Seq<char>, name: Seq<char>) -> Seq<char> {
    "https://github.com/"@ + owner + "/"@ + name
}

/// Parameters for creating a Github repository.
#[derive(Debug)]
pub struct GithubRepoParams {
    pub name: String,
    pub description: String,
    pub organization: GithubUser,
}

impl GithubRepoParams {
    /// The canonical HTTPS URL the repository will have once created.
    pub fn full_url(&self) -> (r: String)
        ensures
            r@ == full_url_spec(self.organization.spec_name(), self.name@),
    {
        let owner = self.organization.get_name();
        let mut url = "https://github.com/".to_owned();
        url.append(owner.as_str());
        url.append("/");
        url.append(self.name.as_str());
        url
    }
}

impl Clone for GithubRepoParams {
    fn clone(&self) -> (r: Self)
        ensures
            r == *self,
    {
        GithubRepoParams {
            name: self.name.clone(),
            description: self.description.clone(),
            organization: self.organization.clone(),
        }
    }
}

/// Creation parameters, tagged by the provider that is to host the
/// repository.
#[derive(Debug)]
pub enum RepoParams {
    Github(GithubRepoParams),
}

/// A Github repository that the provider has confirmed to exist. Values
/// are only constructed after a successful creation call; holding one
/// certifies that the remote repository exists.
#[derive(Debug)]
pub struct InitializedGithubRepo {
    pub name: String,
    pub organization: GithubUser,
}

impl InitializedGithubRepo {
    /// The canonical HTTPS URL of the created repository; cloning uses it.
    pub fn full_url(&self) -> (r: String)
        ensures
            r@ == full_url_spec(self.organization.spec_name(), self.name@),
    {
        let owner = self.organization.get_name();
        let mut url = "https://github.com/".to_owned();
        url.append(owner.as_str());
        url.append("/");
        url.append(self.name.as_str());
        url
    }
}

impl Clone for InitializedGithubRepo {
    fn clone(&self) -> (r: Self)
        ensures
            r == *self,
    {
        InitializedGithubRepo {
            name: self.name.clone(),
            organization: self.organization.clone(),
        }
    }
}

/// A created repository, tagged by the provider that hosts it.
#[derive(Debug)]
pub enum InitializedRepo {
    Github(InitializedGithubRepo),
}

/// The local working copy produced by a clone: its filesystem path,
/// computed as `{target directory}/{repository name}`, the directory a
/// flat clone creates.
#[derive(Debug)]
pub struct InitializedSource {
    pub path: String,
}

/// Every way a provisioning step can fail, each failure path its own
/// variant.
#[derive(Debug)]
pub enum SkootError {
    /// The credential needed for the provider API is absent; nothing was
    /// attempted against the network.
    MissingCredential,
    /// The provider API answered with a failure, or could not be reached;
    /// the payload describes it.
    ApiFailure(String),
    /// The local clone subprocess failed; the payload describes it.
    CloneFailure(String),
    /// A field of the lifecycle event did not meet its declared format;
    /// the payload names the field.
    InvalidEventField(String),
}

} // verus!
