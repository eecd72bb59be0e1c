//! Version-control data, the Gitolite access-control commands and how their
//! replies are read.
//!
//! Running a command (over SSH or HTTP) and touching a repository on disk are
//! left to the caller; this module builds what is sent and reads what comes back.
use vstd::prelude::*;
use vstd::string::StringExecFns;

use crate::text::{
    lines, split_lines, starts_with, str_starts_with, trim, trim_str,
};

verus! {

/// The identifier of a commit: its hexadecimal object name.
#[derive(Debug, Clone)]
pub struct CommitId(pub String);

impl CommitId {
    pub fn new(s: &str) -> (r: Self)
        ensures
            r.0@ == s@,
    {
        CommitId(s.to_string())
    }

    pub fn as_str(&self) -> (r: &str)
        ensures
            r@ == self.0@,
    {
        self.0.as_str()
    }
}

/// A branch of a repository.
#[derive(Debug, Clone)]
pub struct Branch {
    pub name: String,
    pub is_head: bool,
    pub target: CommitId,
}

/// A tag of a repository.
#[derive(Debug, Clone)]
pub struct Tag {
    pub name: String,
    pub target: CommitId,
    pub message: Option<String>,
}

/// A Gitolite user.
#[derive(Debug, Clone)]
pub struct User {
    pub name: String,
    pub pub_key: Option<String>,
}

/// The identifier of an organization.
#[derive(Debug, Clone, Copy, PartialEq, Eq, Structural)]
pub struct OrgId(pub i64);

/// The identifier of a project.
#[derive(Debug, Clone, Copy, PartialEq, Eq, Structural)]
pub struct ProjectId(pub i64);

/// A user's Git settings.
#[derive(Debug, Clone)]
pub struct GitUserConfig {
    pub user_name: String,
    pub user_email: String,
    pub ssh_key_path: String,
    pub default_branch: String,
    pub commit_template: Option<String>,
    pub signing_key: Option<String>,
}

/// The identity that commits and tags are made with.
#[derive(Debug, Clone)]
pub struct Git2VersionControl {
    user_name: String,
    user_email: String,
}

impl Git2VersionControl {
    pub closed spec fn name(&self) -> Seq<char> {
        self.user_name@
    }

    pub closed spec fn email(&self) -> Seq<char> {
        self.user_email@
    }

    /// The default identity.
    pub fn new() -> (r: Self)
        ensures
            r.name() == "Git VCS User"@,
            r.email() == "git-vcs@localhost"@,
    {
        Git2VersionControl {
            user_name: String::from_str("Git VCS User"),
            user_email: String::from_str("git-vcs@localhost"),
        }
    }

    /// The identity with the given name and email address.
    pub fn with_config(user_name: &str, user_email: &str) -> (r: Self)
        ensures
            r.name() == user_name@,
            r.email() == user_email@,
    {
        Git2VersionControl { user_name: user_name.to_string(), user_email: user_email.to_string() }
    }

    pub fn user_name(&self) -> (r: &str)
        ensures
            r@ == self.name(),
    {
        self.user_name.as_str()
    }

    pub fn user_email(&self) -> (r: &str)
        ensures
            r@ == self.email(),
    {
        self.user_email.as_str()
    }
}

impl Default for Git2VersionControl {
    fn default() -> (r: Self)
        ensures
            r.name() == "Git VCS User"@,
            r.email() == "git-vcs@localhost"@,
    {
        Self::new()
    }
}

/// How a Gitolite server is reached.
#[derive(Debug, Clone)]
pub enum GitoliteConfig {
    Ssh { host: String, user: String, key_path: String },
    Http { base_url: String, token: Option<String> },
}

impl GitoliteConfig {
    pub fn ssh(host: &str, user: &str, key_path: &str) -> (r: Self)
        ensures
            r matches GitoliteConfig::Ssh { host: h, user: u, key_path: k } && h@ == host@ && u@
                == user@ && k@ == key_path@,
    {
        GitoliteConfig::Ssh {
            host: host.to_string(),
            user: user.to_string(),
            key_path: key_path.to_string(),
        }
    }

    pub fn http(base_url: &str) -> (r: Self)
        ensures
            r matches GitoliteConfig::Http { base_url: b, token: None } && b@ == base_url@,
    {
        GitoliteConfig::Http { base_url: base_url.to_string(), token: None }
    }
}

/// An access-control operation.
#[derive(Debug, Clone)]
pub enum RbacOp {
    CreateUser { name: String, pub_key: String },
    DeleteUser { name: String },
    ListUsers,
    GrantRead { user: String, repo: String },
    GrantWrite { user: String, repo: String },
    GrantAdmin { user: String, repo: String },
    RevokeAccess { user: String, repo: String },
    CreateGroup { name: String },
    DeleteGroup { name: String },
    AddToGroup { user: String, group: String },
    RemoveFromGroup { user: String, group: String },
    CreateRepo { name: String, group: Option<String> },
    DeleteRepo { name: String },
    RenameRepo { old_name: String, new_name: String },
}

/// The Gitolite command an operation sends, or `None` for an operation that
/// Gitolite has no command for and that therefore succeeds at once.
pub open spec fn command_of(op: RbacOp) -> Option<Seq<char>> {
    match op {
        RbacOp::CreateUser { name, pub_key } => Some(
            "gitolite create-user "@ + name@ + " "@ + pub_key@,
        ),
        RbacOp::DeleteUser { name } => Some("gitolite delete-user "@ + name@),
        RbacOp::ListUsers => Some("gitolite list-users"@),
        RbacOp::GrantRead { user, repo } => Some("gitolite set "@ + user@ + " = R "@ + repo@),
        RbacOp::GrantWrite { user, repo } => Some("gitolite set "@ + user@ + " = RW "@ + repo@),
        RbacOp::GrantAdmin { user, repo } => Some("gitolite set "@ + user@ + " = RW+ "@ + repo@),
        RbacOp::RevokeAccess { user, repo } => Some(
            "gitolite set "@ + user@ + " = \"\" "@ + repo@,
        ),
        RbacOp::CreateGroup { name } => Some("gitolite group "@ + name@),
        RbacOp::DeleteGroup { .. } => None,
        RbacOp::AddToGroup { user, group } => Some(
            "gitolite set "@ + user@ + " @"@ + group@ + " = RW "@ + user@,
        ),
        RbacOp::RemoveFromGroup { .. } => None,
        RbacOp::CreateRepo { name, .. } => Some("gitolite create "@ + name@),
        RbacOp::DeleteRepo { name } => Some("gitolite delete "@ + name@),
        RbacOp::RenameRepo { old_name, new_name } => Some(
            "gitolite rename "@ + old_name@ + " "@ + new_name@,
        ),
    }
}

/// `a` followed by `b`.
fn concat2(a: &str, b: &str) -> (r: String)
    ensures
        r@ == a@ + b@,
{
    let mut r = a.to_string();
    r.append(b);
    r
}

/// `a`, `b`, `c` and `d` one after the other.
fn concat4(a: &str, b: &str, c: &str, d: &str) -> (r: String)
    ensures
        r@ == a@ + b@ + c@ + d@,
{
    let mut r = a.to_string();
    r.append(b);
    r.append(c);
    r.append(d);
    r
}

/// The Gitolite command for an operation, `None` where there is none.
pub fn rbac_command(op: &RbacOp) -> (r: Option<String>)
    ensures
        match r {
            Some(c) => command_of(*op) == Some(c@),
            None => command_of(*op) is None,
        },
{
    match op {
        RbacOp::CreateUser { name, pub_key } => Some(
            concat4("gitolite create-user ", name.as_str(), " ", pub_key.as_str()),
        ),
        RbacOp::DeleteUser { name } => Some(concat2("gitolite delete-user ", name.as_str())),
        RbacOp::ListUsers => Some(String::from_str("gitolite list-users")),
        RbacOp::GrantRead { user, repo } => Some(
            concat4("gitolite set ", user.as_str(), " = R ", repo.as_str()),
        ),
        RbacOp::GrantWrite { user, repo } => Some(
            concat4("gitolite set ", user.as_str(), " = RW ", repo.as_str()),
        ),
        RbacOp::GrantAdmin { user, repo } => Some(
            concat4("gitolite set ", user.as_str(), " = RW+ ", repo.as_str()),
        ),
        RbacOp::RevokeAccess { user, repo } => Some(
            concat4("gitolite set ", user.as_str(), " = \"\" ", repo.as_str()),
        ),
        RbacOp::CreateGroup { name } => Some(concat2("gitolite group ", name.as_str())),
        RbacOp::DeleteGroup { .. } => None,
        RbacOp::AddToGroup { user, group } => {
            let mut r = concat4("gitolite set ", user.as_str(), " @", group.as_str());
            r.append(" = RW ");
            r.append(user.as_str());
            Some(r)
        },
        RbacOp::RemoveFromGroup { .. } => None,
        RbacOp::CreateRepo { name, .. } => Some(concat2("gitolite create ", name.as_str())),
        RbacOp::DeleteRepo { name } => Some(concat2("gitolite delete ", name.as_str())),
        RbacOp::RenameRepo { old_name, new_name } => Some(
            concat4("gitolite rename ", old_name.as_str(), " ", new_name.as_str()),
        ),
    }
}

/// An error of an access-control operation, by its message.
#[derive(Debug, Clone)]
pub struct RbacError {
    pub message: String,
}

/// Access control over users, groups and repositories.
pub trait Rbac {
    fn create_user(&self, name: &str, pub_key: &str) -> Result<(), RbacError>;

    fn delete_user(&self, name: &str) -> Result<(), RbacError>;

    fn list_users(&self) -> Result<Vec<User>, RbacError>;

    fn grant_read(&self, user: &str, repo: &str) -> Result<(), RbacError>;

    fn grant_write(&self, user: &str, repo: &str) -> Result<(), RbacError>;

    fn grant_admin(&self, user: &str, repo: &str) -> Result<(), RbacError>;

    fn revoke_access(&self, user: &str, repo: &str) -> Result<(), RbacError>;

    fn create_group(&self, name: &str) -> Result<(), RbacError>;

    fn delete_group(&self, name: &str) -> Result<(), RbacError>;

    fn add_to_group(&self, user: &str, group: &str) -> Result<(), RbacError>;

    fn remove_from_group(&self, user: &str, group: &str) -> Result<(), RbacError>;

    fn create_repo(&self, name: &str, group: Option<&str>) -> Result<(), RbacError>;

    fn delete_repo(&self, name: &str) -> Result<(), RbacError>;

    fn rename_repo(&self, old_name: &str, new_name: &str) -> Result<(), RbacError>;
}

/// How one command reaches the server.
#[derive(Debug, Clone)]
pub enum GitoliteRequest {
    /// Run `program` with `args`.
    Process { program: String, args: Vec<String> },
    /// A GET of `url`, with an `Authorization` header if one is given.
    Get { url: String, authorization: Option<String> },
}

pub enum GitoliteRequestView {
    Process { program: Seq<char>, args: Seq<Seq<char>> },
    Get { url: Seq<char>, authorization: Option<Seq<char>> },
}

impl View for GitoliteRequest {
    type V = GitoliteRequestView;

    open spec fn view(&self) -> GitoliteRequestView {
        match self {
            GitoliteRequest::Process { program, args } => GitoliteRequestView::Process {
                program: program@,
                args: args@.map_values(|a: String| a@),
            },
            GitoliteRequest::Get { url, authorization } => GitoliteRequestView::Get {
                url: url@,
                authorization: match authorization {
                    Some(a) => Some(a@),
                    None => None,
                },
            },
        }
    }
}

/// The request that sends `command` to the server `config` names: over SSH, with
/// the key, no host key check, as `user@host`; over HTTP, a GET of
/// `base_url/command`, with the token as a bearer token if there is one.
pub open spec fn request_of(config: GitoliteConfig, command: Seq<char>) -> GitoliteRequestView {
    match config {
        GitoliteConfig::Ssh { host, user, key_path } => GitoliteRequestView::Process {
            program: "ssh"@,
            args: seq![
                "-i"@,
                key_path@,
                "-o"@,
                "StrictHostKeyChecking=no"@,
                user@ + "@"@ + host@,
                command,
            ],
        },
        GitoliteConfig::Http { base_url, token } => GitoliteRequestView::Get {
            url: base_url@ + "/"@ + command,
            authorization: match token {
                Some(t) => Some("Bearer "@ + t@),
                None => None,
            },
        },
    }
}

/// The users named by the reply to `gitolite list-users`: each line that does not
/// begin with `gitolite`, trimmed, in order.
pub open spec fn listed_users(ls: Seq<Seq<char>>) -> Seq<Seq<char>>
    decreases ls.len(),
{
    if ls.len() == 0 {
        seq![]
    } else {
        let rest = listed_users(ls.drop_last());
        if starts_with(ls.last(), "gitolite"@) {
            rest
        } else {
            rest.push(trim(ls.last()))
        }
    }
}

/// Reads the reply to `gitolite list-users`.
pub fn parse_users(output: &str) -> (r: Vec<User>)
    ensures
        r@.map_values(|u: User| u.name@) == listed_users(lines(output@)),
        forall|i: int| 0 <= i < r@.len() ==> (#[trigger] r@[i]).pub_key is None,
{
    let ls = split_lines(output);
    let ghost lv = ls@.map_values(|l: String| l@);
    let mut users: Vec<User> = Vec::new();
    let mut i: usize = 0;
    while i < ls.len()
        invariant
            i <= ls.len(),
            lv == ls@.map_values(|l: String| l@),
            lv == lines(output@),
            users@.map_values(|u: User| u.name@) =~= listed_users(lv.take(i as int)),
            forall|k: int| 0 <= k < users@.len() ==> (#[trigger] users@[k]).pub_key is None,
        decreases ls.len() - i,
    {
        proof {
            reveal_strlit("gitolite");
            assert(lv.take(i + 1).drop_last() =~= lv.take(i as int));
            assert(lv.take(i + 1).last() == ls@[i as int]@);
        }
        if !str_starts_with(ls[i].as_str(), "gitolite") {
            let ghost before = users@;
            let name = trim_str(ls[i].as_str());
            users.push(User { name, pub_key: None });
            assert(users@.map_values(|u: User| u.name@) =~= before.map_values(|u: User| u.name@).push(
                trim(ls@[i as int]@),
            ));
        }
        i = i + 1;
    }
    assert(lv.take(i as int) =~= lv);
    users
}

/// A Gitolite server, reached as its configuration says.
#[derive(Debug, Clone)]
pub struct GitoliteClient {
    config: GitoliteConfig,
}

impl GitoliteClient {
    pub closed spec fn spec_config(&self) -> GitoliteConfig {
        self.config
    }

    pub fn new(config: GitoliteConfig) -> (r: Self)
        ensures
            r.spec_config() == config,
    {
        GitoliteClient { config }
    }

    pub fn config(&self) -> (r: &GitoliteConfig)
        ensures
            *r == self.spec_config(),
    {
        &self.config
    }

    /// The request that sends `command` to this client's server.
    pub fn request(&self, command: &str) -> (r: GitoliteRequest)
        ensures
            r@ == request_of(self.spec_config(), command@),
    {
        match &self.config {
            GitoliteConfig::Ssh { host, user, key_path } => {
                let mut args: Vec<String> = Vec::new();
                args.push(String::from_str("-i"));
                args.push(key_path.clone());
                args.push(String::from_str("-o"));
                args.push(String::from_str("StrictHostKeyChecking=no"));
                args.push(concat4(user.as_str(), "@", host.as_str(), ""));
                args.push(command.to_string());
                proof {
                    reveal_strlit("");
                    assert(user@ + "@"@ + host@ + ""@ =~= user@ + "@"@ + host@);
                }
                assert(args@.map_values(|a: String| a@) =~= seq![
                    "-i"@,
                    key_path@,
                    "-o"@,
                    "StrictHostKeyChecking=no"@,
                    user@ + "@"@ + host@,
                    command@,
                ]);
                GitoliteRequest::Process { program: String::from_str("ssh"), args }
            },
            GitoliteConfig::Http { base_url, token } => {
                let url = concat4(base_url.as_str(), "/", command, "");
                proof {
                    reveal_strlit("");
                    assert(base_url@ + "/"@ + command@ + ""@ =~= base_url@ + "/"@ + command@);
                }
                let authorization = match token {
                    Some(t) => Some(concat2("Bearer ", t.as_str())),
                    None => None,
                };
                GitoliteRequest::Get { url, authorization }
            },
        }
    }
}

/// What a finished SSH command amounts to: its standard output on success, else
/// an error that quotes its standard error.
pub fn ssh_outcome(success: bool, stdout: String, stderr: &str) -> (r: Result<String, RbacError>)
    ensures
        success ==> (r matches Ok(o) && o@ == stdout@),
        !success ==> (r matches Err(e) && e.message@ == "Command failed: "@ + stderr@),
{
    if success {
        Ok(stdout)
    } else {
        Err(RbacError { message: concat2("Command failed: ", stderr) })
    }
}

/// What a finished HTTP request amounts to: its body on success (empty where it
/// could not be read), else an error that quotes the status.
pub fn http_outcome(success: bool, body: Option<String>, status: &str) -> (r: Result<
    String,
    RbacError,
>)
    ensures
        success ==> (r matches Ok(o) && o@ == (match body {
            Some(b) => b@,
            None => Seq::<char>::empty(),
        })),
        !success ==> (r matches Err(e) && e.message@ == "HTTP error: "@ + status@),
{
    if success {
        match body {
            Some(b) => Ok(b),
            None => Ok(String::new()),
        }
    } else {
        Err(RbacError { message: concat2("HTTP error: ", status) })
    }
}

} // verus!
