use shurl::commit::CommitPlan;
use shurl::config::{Identity, ShurlConfig};
use shurl::link::ShortLink;
use shurl::run::{Action, Failure, Reply, Run, Stage};
use shurl::target::UrlError;

fn me() -> Identity {
    Identity { name: "shurl".to_string(), email: "example@example.com".to_string() }
}

fn settings(repo_path: &str) -> ShurlConfig {
    ShurlConfig {
        repo_path: repo_path.to_string(),
        name: "shurl".to_string(),
        email: "example@example.com".to_string(),
    }
}

fn link(name: &str, target: &str) -> ShortLink {
    ShortLink { name: name.to_string(), target: target.to_string() }
}

fn page(target: &str) -> String {
    format!(
        "<html>\n    <head>\n        <meta http-equiv=\"refresh\" content=\"0; URL={target}\" />\n    </head>\n    <body>\n        <p>Redirecting...</p>\n        <p>If you are not redirected automatically, follow the <a href=\"{target}\">{target}</a></p>\n    </body>\n</html>"
    )
}

fn entry(name: &str, target: &str) -> String {
    format!("\n{target}: <a href=\"./{name}.html\">./{name}.html</a><br/>")
}

#[test]
fn supplied_name_goes_straight_to_writing() {
    let (run, action) = Run::open(me(), "/repo".to_string(), link("docs", "https://example.com/"), false);
    assert_eq!(run.stage, Stage::OpeningRepository);
    assert_eq!(run.link, link("docs", "https://example.com/"));
    assert!(!run.generated);
    assert_eq!(run.failure, None);
    assert_eq!(action, Action::OpenRepository { path: "/repo".to_string() });

    let (run, action) = run.advance(Reply::Done, "zzzzz");
    assert_eq!(run.stage, Stage::WritingPage);
    assert_eq!(run.link.name, "docs");
    assert_eq!(
        action,
        Action::WriteFile {
            file_name: "docs.html".to_string(),
            content: page("https://example.com/"),
        }
    );
}

#[test]
fn whole_cycle_asks_for_each_stage_in_turn() {
    let (run, _) = Run::open(me(), "/repo".to_string(), link("docs", "https://example.com/"), false);
    let (run, _) = run.advance(Reply::Done, "zzzzz");
    let (run, action) = run.advance(Reply::Done, "zzzzz");
    assert_eq!(run.stage, Stage::AppendingEntry);
    assert_eq!(
        action,
        Action::AppendFile {
            file_name: "index.html".to_string(),
            content: entry("docs", "https://example.com/"),
        }
    );
    let (run, action) = run.advance(Reply::Done, "zzzzz");
    assert_eq!(run.stage, Stage::Staging);
    assert_eq!(action, Action::StageAll);
    let (run, action) = run.advance(Reply::Staged("t1".to_string()), "zzzzz");
    assert_eq!(run.stage, Stage::ResolvingHead);
    assert_eq!(run.tree, "t1");
    assert_eq!(action, Action::ResolveHead);
    let (run, action) = run.advance(Reply::Head(Some("c0".to_string())), "zzzzz");
    assert_eq!(run.stage, Stage::Committing);
    assert_eq!(
        action,
        Action::Commit(CommitPlan {
            reference: "HEAD".to_string(),
            author: me(),
            committer: me(),
            message: "Add redirect to https://example.com/".to_string(),
            tree: "t1".to_string(),
            parent: Some("c0".to_string()),
        })
    );
    let (run, action) = run.advance(
        Reply::Committed { commit: "c1".to_string(), branch: "master".to_string() },
        "zzzzz",
    );
    assert_eq!(run.stage, Stage::Publishing);
    assert_eq!(run.commit, "c1");
    assert_eq!(
        action,
        Action::Publish {
            commit: "c1".to_string(),
            remote: "origin".to_string(),
            branch: "master".to_string(),
        }
    );
    let (run, action) = run.advance(Reply::Done, "zzzzz");
    assert_eq!(run.stage, Stage::Finished);
    assert!(run.published);
    assert_eq!(run.failure, None);
    assert_eq!(run.commit, "c1");
    assert_eq!(run.link, link("docs", "https://example.com/"));
    assert_eq!(action, Action::Stop);
}

#[test]
fn drawn_name_is_probed_until_free() {
    let (run, _) = Run::open(me(), "/repo".to_string(), link("aaaaa", "https://example.com/"), true);
    let (run, action) = run.advance(Reply::Done, "zzzzz");
    assert_eq!(run.stage, Stage::ProbingName);
    assert_eq!(run.link.name, "aaaaa");
    assert_eq!(action, Action::CheckExists { file_name: "aaaaa.html".to_string() });

    assert!(run.retries(&Reply::Exists(true)));
    assert!(!run.retries(&Reply::Exists(false)));
    assert!(!run.retries(&Reply::Done));
    let (run, action) = run.advance(Reply::Exists(true), "bbbbb");
    assert_eq!(run.stage, Stage::ProbingName);
    assert_eq!(run.link, link("bbbbb", "https://example.com/"));
    assert_eq!(action, Action::CheckExists { file_name: "bbbbb.html".to_string() });

    let (run, action) = run.advance(Reply::Exists(true), "ccccc");
    assert_eq!(run.stage, Stage::ProbingName);
    assert_eq!(action, Action::CheckExists { file_name: "ccccc.html".to_string() });

    let (run, action) = run.advance(Reply::Exists(false), "ddddd");
    assert_eq!(run.stage, Stage::WritingPage);
    assert_eq!(run.link.name, "ccccc");
    assert_eq!(
        action,
        Action::WriteFile {
            file_name: "ccccc.html".to_string(),
            content: page("https://example.com/"),
        }
    );
    let (run, action) = run.advance(Reply::Done, "eeeee");
    assert_eq!(run.link.name, "ccccc");
    assert_eq!(
        action,
        Action::AppendFile {
            file_name: "index.html".to_string(),
            content: entry("ccccc", "https://example.com/"),
        }
    );
}

#[test]
fn step_draws_a_new_name_only_when_taken() {
    let (run, _) = Run::open(me(), "/repo".to_string(), link("aaaaa", "https://example.com/"), true);
    let (run, action) = run.step(Reply::Done);
    assert_eq!(run.link.name, "aaaaa");
    assert_eq!(action, Action::CheckExists { file_name: "aaaaa.html".to_string() });
    let mut run = run;
    let mut renamed = false;
    for _ in 0..20 {
        let (next, action) = run.step(Reply::Exists(true));
        assert_eq!(next.stage, Stage::ProbingName);
        assert_eq!(next.link.name.len(), 5);
        assert!(next.link.name.chars().all(|c| c.is_ascii_lowercase()));
        assert_eq!(next.link.target, "https://example.com/");
        assert_eq!(action, Action::CheckExists { file_name: format!("{}.html", next.link.name) });
        renamed = renamed || next.link.name != "aaaaa";
        run = next;
    }
    assert!(renamed);
    let settled = run.link.name.clone();
    let (run, action) = run.step(Reply::Exists(false));
    assert_eq!(run.stage, Stage::WritingPage);
    assert_eq!(run.link.name, settled);
    assert_eq!(
        action,
        Action::WriteFile { file_name: format!("{settled}.html"), content: page("https://example.com/") }
    );
}

#[test]
fn unopened_repository_fails_before_any_write() {
    let (run, _) = Run::open(me(), "/nowhere".to_string(), link("docs", "https://example.com/"), false);
    let (run, action) = run.step(Reply::Failed);
    assert_eq!(run.stage, Stage::Failed);
    assert_eq!(run.failure, Some(Failure::RepositoryUnavailable));
    assert_eq!(action, Action::Stop);
    let (run, action) = run.step(Reply::Done);
    assert_eq!(run.stage, Stage::Failed);
    assert_eq!(run.failure, Some(Failure::RepositoryUnavailable));
    assert_eq!(action, Action::Stop);

    let (run, _) = Run::open(me(), "/nowhere".to_string(), link("aaaaa", "https://example.com/"), true);
    let (run, action) = run.step(Reply::Exists(false));
    assert_eq!(run.failure, Some(Failure::RepositoryUnavailable));
    assert_eq!(action, Action::Stop);
}

fn until(stage: Stage, generated: bool) -> Run {
    let (mut run, _) = Run::open(me(), "/repo".to_string(), link("aaaaa", "https://example.com/"), generated);
    let replies = vec![
        Reply::Done,
        Reply::Exists(false),
        Reply::Done,
        Reply::Done,
        Reply::Staged("t".to_string()),
        Reply::Head(None),
        Reply::Committed { commit: "c".to_string(), branch: "main".to_string() },
        Reply::Done,
    ];
    for reply in replies {
        if run.stage == stage {
            break;
        }
        if reply == Reply::Exists(false) && run.stage != Stage::ProbingName {
            continue;
        }
        run = run.step(reply).0;
    }
    assert_eq!(run.stage, stage);
    run
}

#[test]
fn failed_probe_is_a_filesystem_failure() {
    let (run, action) = until(Stage::ProbingName, true).step(Reply::Failed);
    assert_eq!(run.stage, Stage::Failed);
    assert_eq!(run.failure, Some(Failure::Filesystem));
    assert_eq!(action, Action::Stop);
}

#[test]
fn failed_write_is_a_filesystem_failure() {
    let (run, action) = until(Stage::WritingPage, false).step(Reply::Failed);
    assert_eq!(run.stage, Stage::Failed);
    assert_eq!(run.failure, Some(Failure::Filesystem));
    assert_eq!(action, Action::Stop);
}

#[test]
fn failed_append_is_a_filesystem_failure() {
    let (run, action) = until(Stage::AppendingEntry, false).step(Reply::Failed);
    assert_eq!(run.stage, Stage::Failed);
    assert_eq!(run.failure, Some(Failure::Filesystem));
    assert_eq!(action, Action::Stop);
}

#[test]
fn failed_staging_is_a_version_control_failure() {
    let (run, action) = until(Stage::Staging, false).step(Reply::Failed);
    assert_eq!(run.failure, Some(Failure::VersionControl));
    assert_eq!(action, Action::Stop);
}

#[test]
fn failed_head_is_a_version_control_failure() {
    let (run, action) = until(Stage::ResolvingHead, false).step(Reply::Failed);
    assert_eq!(run.failure, Some(Failure::VersionControl));
    assert_eq!(action, Action::Stop);
}

#[test]
fn failed_commit_is_a_version_control_failure() {
    let (run, action) = until(Stage::Committing, false).step(Reply::Failed);
    assert_eq!(run.stage, Stage::Failed);
    assert_eq!(run.failure, Some(Failure::VersionControl));
    assert_eq!(run.commit, "");
    assert_eq!(action, Action::Stop);
}

#[test]
fn failed_publication_keeps_the_commit() {
    let (run, action) = until(Stage::Publishing, false).step(Reply::Failed);
    assert_eq!(run.stage, Stage::Finished);
    assert!(!run.published);
    assert_eq!(run.failure, None);
    assert_eq!(run.commit, "c");
    assert_eq!(action, Action::Stop);
}

#[test]
fn unexpected_reply_counts_as_failure() {
    let (run, action) = until(Stage::WritingPage, false).step(Reply::Exists(false));
    assert_eq!(run.failure, Some(Failure::Filesystem));
    assert_eq!(action, Action::Stop);
    let (run, _) = until(Stage::Staging, false).step(Reply::Done);
    assert_eq!(run.failure, Some(Failure::VersionControl));
    let (run, _) = until(Stage::Committing, false).step(Reply::Head(None));
    assert_eq!(run.failure, Some(Failure::VersionControl));
}

#[test]
fn ended_cycle_stays_ended() {
    let (run, action) = until(Stage::Finished, false).step(Reply::Failed);
    assert_eq!(run.stage, Stage::Finished);
    assert!(run.published);
    assert_eq!(action, Action::Stop);
    let (run, action) = run.advance(Reply::Exists(true), "zzzzz");
    assert_eq!(run.stage, Stage::Finished);
    assert_eq!(run.link.name, "aaaaa");
    assert_eq!(action, Action::Stop);
}

#[test]
fn start_validates_then_opens() {
    let (run, action) = Run::start(&settings("/srv/links"), "https://example.com", Some("docs".to_string()));
    assert_eq!(run.stage, Stage::OpeningRepository);
    assert_eq!(run.identity, me());
    assert_eq!(run.link, link("docs", "https://example.com/"));
    assert!(!run.generated);
    assert_eq!(action, Action::OpenRepository { path: "/srv/links".to_string() });
}

#[test]
fn start_without_name_draws_one() {
    let (run, action) = Run::start(&settings("/srv/links"), "https://example.com/x", None);
    assert_eq!(run.stage, Stage::OpeningRepository);
    assert!(run.generated);
    assert_eq!(run.link.target, "https://example.com/x");
    assert_eq!(run.link.name.len(), 5);
    assert!(run.link.name.chars().all(|c| c.is_ascii_lowercase()));
    assert_eq!(action, Action::OpenRepository { path: "/srv/links".to_string() });
}

#[test]
fn start_refuses_what_is_no_url() {
    let (run, action) = Run::start(&settings("/srv/links"), "example.com", Some("docs".to_string()));
    assert_eq!(run.stage, Stage::Failed);
    assert_eq!(run.failure, Some(Failure::InvalidUrl(UrlError::RelativeUrlWithoutBase)));
    assert_eq!(run.link.name, "docs");
    assert_eq!(run.link.target, "");
    assert_eq!(action, Action::Stop);
    let (run, action) = run.step(Reply::Done);
    assert_eq!(run.stage, Stage::Failed);
    assert_eq!(action, Action::Stop);

    let (run, action) = Run::start(&settings("/srv/links"), "https://", None);
    assert_eq!(run.failure, Some(Failure::InvalidUrl(UrlError::EmptyHost)));
    assert_eq!(run.link.name, "");
    assert!(run.generated);
    assert_eq!(action, Action::Stop);
}

#[test]
fn refuse_ends_at_once() {
    let (run, action) = Run::refuse(me(), None, UrlError::InvalidPort);
    assert_eq!(run.stage, Stage::Failed);
    assert_eq!(run.failure, Some(Failure::InvalidUrl(UrlError::InvalidPort)));
    assert!(run.generated);
    assert_eq!(action, Action::Stop);
}
