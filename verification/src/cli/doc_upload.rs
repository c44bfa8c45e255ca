//! The options of the front end that publishes documentation, and what
//! they ask for in a given environment.

use vstd::prelude::*;
use vstd::string::*;
use crate::error::{result_view, CliError, CliErrorView, ValidationError, ValidationErrorView};
use crate::path::{join, joined};
use crate::publish::{PublishRequest, PublishRequestView};
use crate::text::glue;

verus! {

/// What the command line of `cargo doc-upload` asked for.
#[derive(Debug, PartialEq, Eq)]
pub struct Options {
    pub flag_version: bool,
    pub flag_branch: Vec<String>,
    pub flag_token: Option<String>,
    pub flag_message: Option<String>,
    pub flag_deploy: Option<String>,
    pub flag_path: Option<String>,
    pub flag_clobber_index: bool,
    pub flag_target: Option<String>,
}

/// What the environment of the build service holds.
#[derive(Debug, PartialEq, Eq)]
pub struct Environment {
    /// The branch that is being built (`TRAVIS_BRANCH`).
    pub branch: Option<String>,
    /// `false`, or the number of the pull request that is being built
    /// (`TRAVIS_PULL_REQUEST`).
    pub pull_request: Option<String>,
    /// The access token (`GH_TOKEN`).
    pub token: Option<String>,
    /// The repository, as owner and name (`TRAVIS_REPO_SLUG`).
    pub repo_slug: Option<String>,
}

/// What the front end is to do.
#[derive(Debug, PartialEq, Eq)]
pub enum Plan {
    /// Print the version.
    Version,
    /// Publish nothing, and say why.
    Skip { notice: String },
    /// Publish; `token` says whether the remote is reached with an
    /// access token, and not over SSH.
    Publish { request: PublishRequest, token: bool },
}

pub enum PlanView {
    Version,
    Skip { notice: Seq<char> },
    Publish { request: PublishRequestView, token: bool },
}

impl View for Plan {
    type V = PlanView;

    open spec fn view(&self) -> PlanView {
        match self {
            Plan::Version => PlanView::Version,
            Plan::Skip { notice } => PlanView::Skip { notice: notice@ },
            Plan::Publish { request, token } => PlanView::Publish {
                request: request@,
                token: *token,
            },
        }
    }
}

impl DeepView for Plan {
    type V = PlanView;

    open spec fn deep_view(&self) -> PlanView {
        self@
    }
}

/// The failure for a variable that the environment lacks.
pub open spec fn missing(name: Seq<char>) -> CliErrorView {
    CliErrorView::Validation(ValidationErrorView::MissingVariable { name })
}

/// Whether documentation is published for `branch`: for the branches
/// named, for `master` where none is named.
pub open spec fn publishes(branches: Seq<Seq<char>>, branch: Seq<char>) -> bool {
    if branches.len() == 0 {
        branch == "master"@
    } else {
        branches.contains(branch)
    }
}

/// The first of two values that is there.
pub open spec fn or_else(first: Option<Seq<char>>, second: Option<Seq<char>>) -> Option<Seq<char>> {
    match first {
        Some(_) => first,
        None => second,
    }
}

/// The value, or `default` where there is none.
pub open spec fn or_default(value: Option<Seq<char>>, default: Seq<char>) -> Seq<char> {
    match value {
        Some(text) => text,
        None => default,
    }
}

/// The remote of the repository `slug`: over HTTPS with the token where
/// there is one, over SSH otherwise.
pub open spec fn origin_of(token: Option<Seq<char>>, slug: Seq<char>) -> Seq<char> {
    match token {
        Some(secret) => "https://"@ + secret + "@github.com/"@ + slug + ".git"@,
        None => "git@github.com:"@ + slug + ".git"@,
    }
}

/// Where the generated documentation is: below the directory of the
/// target platform where one is named.
pub open spec fn local_docs(target: Option<Seq<char>>) -> Seq<char> {
    match target {
        Some(triple) => joined(joined("target"@, triple), "doc"@),
        None => "target/doc"@,
    }
}

impl Options {
    /// What the options ask for in the environment `env`.
    ///
    /// The version goes before all else. Then the branch decides, then
    /// the pull request: documentation is published only for a chosen
    /// branch, and never for a pull request. A variable that is needed
    /// and not set is a failed validation; the token and the variable
    /// behind it are not needed.
    pub open spec fn planned(&self, env: Environment) -> Result<PlanView, CliErrorView> {
        if self.flag_version {
            Ok(PlanView::Version)
        } else if env.branch is None {
            Err(missing("TRAVIS_BRANCH"@))
        } else if !publishes(self.flag_branch.deep_view(), env.branch->0@) {
            Ok(PlanView::Skip { notice: "Skipping branch "@ + env.branch->0@ })
        } else if env.pull_request is None {
            Err(missing("TRAVIS_PULL_REQUEST"@))
        } else if env.pull_request->0@ != "false"@ {
            Ok(PlanView::Skip { notice: "Skipping PR"@ })
        } else if env.repo_slug is None {
            Err(missing("TRAVIS_REPO_SLUG"@))
        } else {
            let token = or_else(self.flag_token.deep_view(), env.token.deep_view());
            Ok(
                PlanView::Publish {
                    request: PublishRequestView {
                        message: or_default(
                            self.flag_message.deep_view(),
                            "Automatic Travis documentation build"@,
                        ),
                        origin: origin_of(token, env.repo_slug->0@),
                        gh_pages: or_default(self.flag_deploy.deep_view(), "gh-pages"@),
                        doc_path: or_default(self.flag_path.deep_view(), env.branch->0@),
                        local_doc_path: local_docs(self.flag_target.deep_view()),
                        clobber_index: self.flag_clobber_index,
                    },
                    token: token is Some,
                },
            )
        }
    }

    /// Works out what the options ask for in the environment `env`.
    pub fn plan(&self, env: &Environment) -> (plan: Result<Plan, CliError>)
        ensures
            result_view(plan) == self.planned(*env),
    {
        if self.flag_version {
            return Ok(Plan::Version);
        }
        let branch = match &env.branch {
            Some(branch) => branch,
            None => {
                return Err(lacks("TRAVIS_BRANCH"));
            },
        };
        if !chosen(&self.flag_branch, branch) {
            return Ok(Plan::Skip { notice: glue("Skipping branch ", branch.as_str()) });
        }
        let pull_request = match &env.pull_request {
            Some(text) => text,
            None => {
                return Err(lacks("TRAVIS_PULL_REQUEST"));
            },
        };
        let no = "false".to_owned();
        if *pull_request != no {
            return Ok(Plan::Skip { notice: "Skipping PR".to_owned() });
        }
        let slug = match &env.repo_slug {
            Some(slug) => slug,
            None => {
                return Err(lacks("TRAVIS_REPO_SLUG"));
            },
        };
        let token = match &self.flag_token {
            Some(_) => &self.flag_token,
            None => &env.token,
        };
        let origin = match token {
            Some(secret) => {
                let mut origin = glue("https://", secret.as_str());
                origin.append("@github.com/");
                origin.append(slug.as_str());
                origin.append(".git");
                origin
            },
            None => {
                let mut origin = glue("git@github.com:", slug.as_str());
                origin.append(".git");
                origin
            },
        };
        let local_doc_path = match &self.flag_target {
            Some(triple) => {
                let below = join("target", triple.as_str());
                join(below.as_str(), "doc")
            },
            None => "target/doc".to_owned(),
        };
        let request = PublishRequest {
            message: value_or(&self.flag_message, "Automatic Travis documentation build"),
            origin,
            gh_pages: value_or(&self.flag_deploy, "gh-pages"),
            doc_path: value_or(&self.flag_path, branch.as_str()),
            local_doc_path,
            clobber_index: self.flag_clobber_index,
        };
        Ok(Plan::Publish { request, token: token.is_some() })
    }
}

fn lacks(name: &str) -> (error: CliError)
    ensures
        error@ == missing(name@),
{
    CliError::Validation(ValidationError::MissingVariable { name: name.to_owned() })
}

fn value_or(value: &Option<String>, default: &str) -> (text: String)
    ensures
        text@ == or_default(value.deep_view(), default@),
{
    match value {
        Some(text) => text.clone(),
        None => default.to_owned(),
    }
}

/// Decides `publishes`.
pub fn chosen(branches: &Vec<String>, branch: &String) -> (yes: bool)
    ensures
        yes == publishes(branches.deep_view(), branch@),
{
    if branches.len() == 0 {
        let master = "master".to_owned();
        return *branch == master;
    }
    let mut i: usize = 0;
    while i < branches.len()
        invariant
            i <= branches.len(),
            forall|k: int| 0 <= k < i ==> branches.deep_view()[k] != branch@,
        decreases branches.len() - i,
    {
        if branches[i] == *branch {
            proof {
                assert(branches.deep_view()[i as int] == branch@);
            }
            return true;
        }
        i = i + 1;
    }
    false
}

} // verus!
