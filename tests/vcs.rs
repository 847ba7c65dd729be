use ec2_cli::vcs::{
    git_pull_args, git_push_args, jj_fetch_args, jj_push_args, parse_git_branch, parse_jj_bookmark,
    parse_remote_names, PullOptions, PushOptions,
};

#[test]
fn git_push_uses_explicit_refspec() {
    let opts = PushOptions { branch: Some("main".to_string()), set_upstream: true, ssh_command: None };
    assert_eq!(git_push_args("ec2-web", &opts), vec!["push", "-u", "ec2-web", "main:main"]);
    assert_eq!(git_push_args("ec2-web", &PushOptions::default()), vec!["push", "ec2-web"]);
}

#[test]
fn git_pull_and_jj_arguments() {
    let opts = PullOptions { branch: Some("dev".to_string()), ssh_command: None };
    assert_eq!(git_pull_args("r", &opts), vec!["pull", "r", "dev"]);
    let push = PushOptions { branch: Some("feat".to_string()), ..PushOptions::default() };
    assert_eq!(
        jj_push_args("r", &push),
        vec!["git", "push", "--ignore-working-copy", "--allow-new", "--remote", "r", "--bookmark", "feat"]
    );
    assert_eq!(jj_fetch_args("r"), vec!["git", "fetch", "--ignore-working-copy", "--remote", "r"]);
}

#[test]
fn branch_output_parsing() {
    assert_eq!(parse_git_branch("main\n"), Some("main".to_string()));
    assert_eq!(parse_git_branch("HEAD\n"), None);
    assert_eq!(parse_git_branch("  \n"), None);
    assert_eq!(parse_jj_bookmark("main@origin feature\n"), Some("main".to_string()));
    assert_eq!(parse_jj_bookmark("  topic "), Some("topic".to_string()));
    assert_eq!(parse_jj_bookmark("@origin"), None);
    assert_eq!(parse_jj_bookmark(""), None);
}

#[test]
fn remote_listing_parsing() {
    assert_eq!(parse_remote_names("origin\nec2-web\n"), vec!["origin", "ec2-web"]);
    assert_eq!(
        parse_remote_names("origin git@github.com:a/b.git\n\n  ec2-x ubuntu@i-1:/r.git\r\n"),
        vec!["origin", "ec2-x"]
    );
    assert_eq!(parse_remote_names(""), Vec::<String>::new());
    assert_eq!(parse_remote_names("last"), vec!["last"]);
}
