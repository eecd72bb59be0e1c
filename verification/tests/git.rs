use argusx::git::{
    http_outcome, parse_users, rbac_command, ssh_outcome, Branch, CommitId, Git2VersionControl,
    GitoliteClient, GitoliteConfig, GitoliteRequest, Rbac, RbacOp, User,
};

#[test]
fn test_commit_id_new_and_access() {
    let id = CommitId::new("abc123");
    assert_eq!(id.as_str(), "abc123");
}

#[test]
fn test_branch_creation() {
    let branch = Branch { name: "main".to_string(), is_head: true, target: CommitId::new("def456") };
    assert_eq!(branch.name, "main");
    assert!(branch.is_head);
}

#[test]
fn test_user_creation() {
    let user = User { name: "alice".to_string(), pub_key: Some("ssh-rsa AAAA...".to_string()) };
    assert_eq!(user.name, "alice");
    assert!(user.pub_key.is_some());
}

#[test]
fn test_gitolite_client_creation() {
    let config = GitoliteConfig::ssh("gitolite.example.com", "git", "/path/to/key");
    let _client = GitoliteClient::new(config);
}

#[test]
fn test_rbac_trait_exists() {
    fn _check_rbac<R: Rbac>(_rbac: &R) {}
}

#[test]
fn ssh_request_runs_the_command_as_user_at_host() {
    let client = GitoliteClient::new(GitoliteConfig::ssh("gitolite.example.com", "git", "/path/to/key"));
    match client.request("gitolite list-users") {
        GitoliteRequest::Process { program, args } => {
            assert_eq!(program, "ssh");
            assert_eq!(
                args,
                vec![
                    "-i",
                    "/path/to/key",
                    "-o",
                    "StrictHostKeyChecking=no",
                    "git@gitolite.example.com",
                    "gitolite list-users"
                ]
            );
        }
        _ => panic!("expected an ssh process"),
    }
}

#[test]
fn http_request_gets_base_url_slash_command() {
    let client = GitoliteClient::new(GitoliteConfig::http("https://git.example.com"));
    match client.request("gitolite create repo1") {
        GitoliteRequest::Get { url, authorization } => {
            assert_eq!(url, "https://git.example.com/gitolite create repo1");
            assert!(authorization.is_none());
        }
        _ => panic!("expected a GET"),
    }
    let with_token = GitoliteClient::new(GitoliteConfig::Http {
        base_url: "https://g".to_string(),
        token: Some("tok".to_string()),
    });
    match with_token.request("x") {
        GitoliteRequest::Get { authorization, .. } => assert_eq!(authorization.as_deref(), Some("Bearer tok")),
        _ => panic!("expected a GET"),
    }
}

#[test]
fn rbac_commands() {
    let s = |x: &str| x.to_string();
    assert_eq!(
        rbac_command(&RbacOp::CreateUser { name: s("bob"), pub_key: s("ssh-ed25519 K") }).as_deref(),
        Some("gitolite create-user bob ssh-ed25519 K")
    );
    assert_eq!(rbac_command(&RbacOp::DeleteUser { name: s("bob") }).as_deref(), Some("gitolite delete-user bob"));
    assert_eq!(rbac_command(&RbacOp::ListUsers).as_deref(), Some("gitolite list-users"));
    assert_eq!(
        rbac_command(&RbacOp::GrantRead { user: s("bob"), repo: s("r") }).as_deref(),
        Some("gitolite set bob = R r")
    );
    assert_eq!(
        rbac_command(&RbacOp::GrantWrite { user: s("bob"), repo: s("r") }).as_deref(),
        Some("gitolite set bob = RW r")
    );
    assert_eq!(
        rbac_command(&RbacOp::GrantAdmin { user: s("bob"), repo: s("r") }).as_deref(),
        Some("gitolite set bob = RW+ r")
    );
    assert_eq!(
        rbac_command(&RbacOp::RevokeAccess { user: s("bob"), repo: s("r") }).as_deref(),
        Some("gitolite set bob = \"\" r")
    );
    assert_eq!(rbac_command(&RbacOp::CreateGroup { name: s("devs") }).as_deref(), Some("gitolite group devs"));
    assert_eq!(rbac_command(&RbacOp::DeleteGroup { name: s("devs") }), None);
    assert_eq!(
        rbac_command(&RbacOp::AddToGroup { user: s("bob"), group: s("devs") }).as_deref(),
        Some("gitolite set bob @devs = RW bob")
    );
    assert_eq!(rbac_command(&RbacOp::RemoveFromGroup { user: s("bob"), group: s("devs") }), None);
    assert_eq!(
        rbac_command(&RbacOp::CreateRepo { name: s("r"), group: Some(s("g")) }).as_deref(),
        Some("gitolite create r")
    );
    assert_eq!(rbac_command(&RbacOp::DeleteRepo { name: s("r") }).as_deref(), Some("gitolite delete r"));
    assert_eq!(
        rbac_command(&RbacOp::RenameRepo { old_name: s("a"), new_name: s("b") }).as_deref(),
        Some("gitolite rename a b")
    );
}

#[test]
fn list_users_skips_banner_lines_and_trims() {
    let users = parse_users("gitolite v3.6\n  alice \r\nbob\n\ngitolite-admin\n");
    let names: Vec<&str> = users.iter().map(|u| u.name.as_str()).collect();
    assert_eq!(names, vec!["alice", "bob", ""]);
    assert!(users.iter().all(|u| u.pub_key.is_none()));
    assert!(parse_users("").is_empty());
}

#[test]
fn command_outcomes() {
    assert_eq!(ssh_outcome(true, "out".to_string(), "err").unwrap(), "out");
    assert_eq!(ssh_outcome(false, "out".to_string(), "denied").unwrap_err().message, "Command failed: denied");
    assert_eq!(http_outcome(true, None, "200 OK").unwrap(), "");
    assert_eq!(http_outcome(true, Some("b".to_string()), "200 OK").unwrap(), "b");
    assert_eq!(
        http_outcome(false, Some("b".to_string()), "404 Not Found").unwrap_err().message,
        "HTTP error: 404 Not Found"
    );
}

#[test]
fn version_control_identity() {
    let vcs = Git2VersionControl::new();
    assert_eq!(vcs.user_name(), "Git VCS User");
    assert_eq!(vcs.user_email(), "git-vcs@localhost");
    let custom = Git2VersionControl::with_config("Ann", "ann@example.com");
    assert_eq!(custom.user_name(), "Ann");
    assert_eq!(custom.user_email(), "ann@example.com");
    let d = Git2VersionControl::default();
    assert_eq!(d.user_name(), "Git VCS User");
}
