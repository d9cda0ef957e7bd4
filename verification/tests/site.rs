use shurl::config::ShurlConfig;
use shurl::run::{Action, Failure, Reply, Run, Stage};
use std::collections::BTreeMap;

struct Repository {
    exists: bool,
    files: BTreeMap<String, String>,
    head: Option<String>,
    parents: BTreeMap<String, Vec<String>>,
    messages: BTreeMap<String, String>,
    pushed: Vec<(String, String)>,
}

fn empty_repository() -> Repository {
    Repository {
        exists: true,
        files: BTreeMap::new(),
        head: None,
        parents: BTreeMap::new(),
        messages: BTreeMap::new(),
        pushed: Vec::new(),
    }
}

fn carry_out(repo: &mut Repository, action: &Action) -> Reply {
    match action {
        Action::OpenRepository { .. } => {
            if repo.exists {
                Reply::Done
            } else {
                Reply::Failed
            }
        }
        Action::CheckExists { file_name } => Reply::Exists(repo.files.contains_key(file_name)),
        Action::WriteFile { file_name, content } => {
            repo.files.insert(file_name.clone(), content.clone());
            Reply::Done
        }
        Action::AppendFile { file_name, content } => {
            repo.files.entry(file_name.clone()).or_default().push_str(content);
            Reply::Done
        }
        Action::StageAll => Reply::Staged(format!("tree{}", repo.files.len())),
        Action::ResolveHead => Reply::Head(repo.head.clone()),
        Action::Commit(plan) => {
            let id = format!("commit{}", repo.parents.len() + 1);
            repo.parents.insert(id.clone(), plan.parent.iter().cloned().collect());
            repo.messages.insert(id.clone(), plan.message.clone());
            repo.head = Some(id.clone());
            Reply::Committed { commit: id, branch: "master".to_string() }
        }
        Action::Publish { remote, branch, .. } => {
            repo.pushed.push((remote.clone(), branch.clone()));
            Reply::Done
        }
        Action::Stop => Reply::Done,
    }
}

fn cycle(repo: &mut Repository, url: &str, name: Option<&str>) -> Run {
    let cfg = ShurlConfig {
        repo_path: "/srv/links".to_string(),
        name: "shurl".to_string(),
        email: "example@example.com".to_string(),
    };
    let (mut run, mut action) = Run::start(&cfg, url, name.map(|n| n.to_string()));
    let mut steps = 0;
    while action != Action::Stop {
        let reply = carry_out(repo, &action);
        let (next_run, next_action) = run.step(reply);
        run = next_run;
        action = next_action;
        steps += 1;
        assert!(steps < 1000);
    }
    run
}

#[test]
fn second_commit_has_the_first_as_its_only_parent() {
    let mut repo = empty_repository();
    let first = cycle(&mut repo, "https://example.com/", None);
    let second = cycle(&mut repo, "https://example.org/", None);
    assert_eq!(first.stage, Stage::Finished);
    assert_eq!(second.stage, Stage::Finished);
    assert_ne!(first.commit, second.commit);
    assert_eq!(repo.parents[&first.commit], Vec::<String>::new());
    assert_eq!(repo.parents[&second.commit], vec![first.commit.clone()]);
    assert_eq!(repo.head, Some(second.commit.clone()));
    assert_eq!(repo.messages[&first.commit], "Add redirect to https://example.com/");
    assert_eq!(repo.messages[&second.commit], "Add redirect to https://example.org/");
    assert_eq!(
        repo.pushed,
        vec![
            ("origin".to_string(), "master".to_string()),
            ("origin".to_string(), "master".to_string())
        ]
    );
}

#[test]
fn ledger_holds_one_entry_per_cycle_in_order() {
    let mut repo = empty_repository();
    let targets = ["https://a.example/", "https://b.example/", "https://c.example/", "https://a.example/"];
    let mut expected = String::new();
    for (done, target) in targets.iter().enumerate() {
        let run = cycle(&mut repo, target, None);
        assert_eq!(run.stage, Stage::Finished);
        expected.push_str(&format!(
            "\n{target}: <a href=\"./{0}.html\">./{0}.html</a><br/>",
            run.link.name
        ));
        assert_eq!(repo.files["index.html"], expected);
        assert_eq!(repo.files["index.html"].matches("<br/>").count(), done + 1);
        assert!(repo.files[&format!("{}.html", run.link.name)].contains(target));
    }
    assert_eq!(repo.files["index.html"].lines().count(), targets.len() + 1);
    assert_eq!(repo.files.len(), targets.len() + 1);
}

#[test]
fn drawn_name_avoids_existing_pages() {
    let mut repo = empty_repository();
    for _ in 0..30 {
        let before: Vec<String> = repo.files.keys().cloned().collect();
        let run = cycle(&mut repo, "https://example.com/", None);
        assert_eq!(run.stage, Stage::Finished);
        assert_eq!(run.link.name.len(), 5);
        assert!(run.link.name.chars().all(|c| c.is_ascii_lowercase()));
        assert!(!before.contains(&format!("{}.html", run.link.name)));
    }
}

#[test]
fn supplied_name_overwrites_and_still_appends() {
    let mut repo = empty_repository();
    let first = cycle(&mut repo, "https://old.example/", Some("docs"));
    assert_eq!(first.stage, Stage::Finished);
    assert!(repo.files["docs.html"].contains("URL=https://old.example/\""));
    let second = cycle(&mut repo, "https://new.example/", Some("docs"));
    assert_eq!(second.stage, Stage::Finished);
    assert_eq!(second.failure, None);
    assert!(repo.files["docs.html"].contains("URL=https://new.example/\""));
    assert!(!repo.files["docs.html"].contains("old.example"));
    assert_eq!(
        repo.files["index.html"],
        "\nhttps://old.example/: <a href=\"./docs.html\">./docs.html</a><br/>\
         \nhttps://new.example/: <a href=\"./docs.html\">./docs.html</a><br/>"
    );
    assert_eq!(repo.files.len(), 2);
    assert_eq!(repo.parents[&second.commit], vec![first.commit.clone()]);
}

#[test]
fn missing_repository_leaves_everything_untouched() {
    let mut repo = empty_repository();
    repo.exists = false;
    let run = cycle(&mut repo, "https://example.com/", Some("docs"));
    assert_eq!(run.stage, Stage::Failed);
    assert_eq!(run.failure, Some(Failure::RepositoryUnavailable));
    assert!(repo.files.is_empty());
    assert!(repo.parents.is_empty());
    assert_eq!(repo.head, None);
    assert!(repo.pushed.is_empty());
    let run = cycle(&mut repo, "https://example.com/", None);
    assert_eq!(run.failure, Some(Failure::RepositoryUnavailable));
    assert!(repo.files.is_empty());
}

#[test]
fn refused_target_leaves_everything_untouched() {
    let mut repo = empty_repository();
    let run = cycle(&mut repo, "no url at all", Some("docs"));
    assert_eq!(run.stage, Stage::Failed);
    assert!(matches!(run.failure, Some(Failure::InvalidUrl(_))));
    assert!(repo.files.is_empty());
    assert_eq!(repo.head, None);
}

#[test]
fn page_named_index_shares_the_ledger_file() {
    let mut repo = empty_repository();
    let run = cycle(&mut repo, "https://example.com/", Some("index"));
    assert_eq!(run.stage, Stage::Finished);
    assert_eq!(repo.files.len(), 1);
    assert!(repo.files["index.html"].starts_with("<html>"));
    assert!(repo.files["index.html"]
        .ends_with("</html>\nhttps://example.com/: <a href=\"./index.html\">./index.html</a><br/>"));
}
