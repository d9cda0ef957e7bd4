//! One allocation cycle as a state machine.
//!
//! The machine decides; its caller acts. Every step hands out one `Action`
//! for the caller to carry out against the file system and the repository,
//! and takes the caller's `Reply` to that action as the input of the next
//! step. The stages follow one another strictly: open the repository, find a
//! free name, write the redirect page, append the index entry, stage, resolve
//! the head, commit, publish. A failure ends the cycle at once and undoes
//! nothing; only a failed publication is tolerated.

use crate::artifact::{redirect_page, redirect_page_text};
use crate::commit::{commit_plan_text, optional_text, plan_commit, CommitPlan, CommitPlanView, REMOTE};
use crate::config::{is_tilde_expansion, Identity, IdentityView, ShurlConfig, ShurlConfigView};
use crate::ledger::{ledger_entry, ledger_entry_text, LEDGER_FILE};
use crate::link::{page_file, page_file_text, ShortLink, ShortLinkView};
use crate::name::{create_name, is_generated_name, lemma_generated_name_is_path_segment};
use crate::target::{parse_target, url_serialization, UrlError};
use vstd::prelude::*;
use vstd::string::*;

verus! {

/// Where a cycle stands: what it is waiting for, or how it ended.
#[derive(Clone, Copy, Debug, PartialEq, Eq, Structural)]
pub enum Stage {
    /// Waiting for the repository to be opened.
    OpeningRepository,
    /// Waiting to learn whether the candidate name is taken.
    ProbingName,
    /// Waiting for the redirect page to be written.
    WritingPage,
    /// Waiting for the index entry to be appended.
    AppendingEntry,
    /// Waiting for the working tree to be staged and written as a tree.
    Staging,
    /// Waiting for the current head commit, if any.
    ResolvingHead,
    /// Waiting for the commit to be created.
    Committing,
    /// Waiting for the commit to be published.
    Publishing,
    /// Ended with a commit.
    Finished,
    /// Ended without a commit.
    Failed,
}

/// Why a cycle ended without a commit.
#[derive(Clone, Copy, Debug, PartialEq, Eq, Structural)]
pub enum Failure {
    /// The target is not an absolute URL.
    InvalidUrl(UrlError),
    /// The repository could not be opened.
    RepositoryUnavailable,
    /// Probing a name, writing the page or appending the entry failed.
    Filesystem,
    /// Staging, resolving the head or creating the commit failed.
    VersionControl,
}

/// What the caller reports back after carrying out an action.
#[derive(Debug, PartialEq, Eq)]
pub enum Reply {
    /// The action succeeded and has nothing to tell.
    Done,
    /// The action failed.
    Failed,
    /// Whether the probed file exists.
    Exists(bool),
    /// The working tree was staged and written as the tree with this identifier.
    Staged(String),
    /// The commit that the head points to, if the repository has any commit.
    Head(Option<String>),
    /// The commit was created and the head advanced to it on this branch.
    Committed { commit: String, branch: String },
}

/// Mathematical view of a `Reply`.
pub enum ReplyView {
    Done,
    Failed,
    Exists(bool),
    Staged(Seq<char>),
    Head(Option<Seq<char>>),
    Committed { commit: Seq<char>, branch: Seq<char> },
}

impl View for Reply {
    type V = ReplyView;

    open spec fn view(&self) -> ReplyView {
        match *self {
            Reply::Done => ReplyView::Done,
            Reply::Failed => ReplyView::Failed,
            Reply::Exists(taken) => ReplyView::Exists(taken),
            Reply::Staged(tree) => ReplyView::Staged(tree@),
            Reply::Head(head) => ReplyView::Head(optional_text(head)),
            Reply::Committed { commit, branch } => ReplyView::Committed {
                commit: commit@,
                branch: branch@,
            },
        }
    }
}

/// What the caller is asked to do next. File names are relative to the
/// repository's root.
#[derive(Debug, PartialEq, Eq)]
pub enum Action {
    /// Open the existing repository at `path`.
    OpenRepository { path: String },
    /// Tell whether `file_name` exists.
    CheckExists { file_name: String },
    /// Create or truncate `file_name` and write `content` to it.
    WriteFile { file_name: String, content: String },
    /// Append `content` to `file_name`, creating the file if it is absent.
    AppendFile { file_name: String, content: String },
    /// Stage every path of the working tree and write the result as a tree.
    StageAll,
    /// Resolve the commit that the head points to, if any.
    ResolveHead,
    /// Create the planned commit and advance the head to it.
    Commit(CommitPlan),
    /// Report `commit`, then push `branch` to `remote`.
    Publish { commit: String, remote: String, branch: String },
    /// Nothing is left to do.
    Stop,
}

/// Mathematical view of an `Action`.
pub enum ActionView {
    OpenRepository { path: Seq<char> },
    CheckExists { file_name: Seq<char> },
    WriteFile { file_name: Seq<char>, content: Seq<char> },
    AppendFile { file_name: Seq<char>, content: Seq<char> },
    StageAll,
    ResolveHead,
    Commit(CommitPlanView),
    Publish { commit: Seq<char>, remote: Seq<char>, branch: Seq<char> },
    Stop,
}

impl View for Action {
    type V = ActionView;

    open spec fn view(&self) -> ActionView {
        match *self {
            Action::OpenRepository { path } => ActionView::OpenRepository { path: path@ },
            Action::CheckExists { file_name } => ActionView::CheckExists { file_name: file_name@ },
            Action::WriteFile { file_name, content } => ActionView::WriteFile {
                file_name: file_name@,
                content: content@,
            },
            Action::AppendFile { file_name, content } => ActionView::AppendFile {
                file_name: file_name@,
                content: content@,
            },
            Action::StageAll => ActionView::StageAll,
            Action::ResolveHead => ActionView::ResolveHead,
            Action::Commit(plan) => ActionView::Commit(plan@),
            Action::Publish { commit, remote, branch } => ActionView::Publish {
                commit: commit@,
                remote: remote@,
                branch: branch@,
            },
            Action::Stop => ActionView::Stop,
        }
    }
}

/// The state of one allocation cycle.
#[derive(Debug, PartialEq, Eq)]
pub struct Run {
    pub stage: Stage,
    /// Who signs the commit.
    pub identity: Identity,
    /// The link being allocated; its name is a candidate until the page is written.
    pub link: ShortLink,
    /// Whether the name is drawn by the machine rather than supplied.
    pub generated: bool,
    /// Identifier of the staged tree, once staged.
    pub tree: String,
    /// Identifier of the new commit, once created.
    pub commit: String,
    /// Whether the commit reached the remote.
    pub published: bool,
    /// Why the cycle failed, once it has.
    pub failure: Option<Failure>,
}

/// Mathematical view of a `Run`.
pub struct RunView {
    pub stage: Stage,
    pub identity: IdentityView,
    pub link: ShortLinkView,
    pub generated: bool,
    pub tree: Seq<char>,
    pub commit: Seq<char>,
    pub published: bool,
    pub failure: Option<Failure>,
}

impl View for Run {
    type V = RunView;

    open spec fn view(&self) -> RunView {
        RunView {
            stage: self.stage,
            identity: self.identity@,
            link: self.link@,
            generated: self.generated,
            tree: self.tree@,
            commit: self.commit@,
            published: self.published,
            failure: self.failure,
        }
    }
}

impl RunView {
    /// The same cycle at another stage.
    pub open spec fn at(self, stage: Stage) -> RunView {
        RunView { stage, ..self }
    }

    /// The same cycle with another candidate name.
    pub open spec fn renamed(self, name: Seq<char>) -> RunView {
        RunView { link: ShortLinkView { name, target: self.link.target }, ..self }
    }

    /// Ask whether the candidate name's page exists.
    pub open spec fn probing(self) -> (RunView, ActionView) {
        (
            self.at(Stage::ProbingName),
            ActionView::CheckExists { file_name: page_file_text(self.link.name) },
        )
    }

    /// Settle on the name and write its page.
    pub open spec fn writing(self) -> (RunView, ActionView) {
        (
            self.at(Stage::WritingPage),
            ActionView::WriteFile {
                file_name: page_file_text(self.link.name),
                content: redirect_page_text(self.link.target),
            },
        )
    }

    /// Append the link's entry to the index.
    pub open spec fn appending(self) -> (RunView, ActionView) {
        (
            self.at(Stage::AppendingEntry),
            ActionView::AppendFile {
                file_name: LEDGER_FILE@,
                content: ledger_entry_text(self.link),
            },
        )
    }

    /// Stage the working tree.
    pub open spec fn staging(self) -> (RunView, ActionView) {
        (self.at(Stage::Staging), ActionView::StageAll)
    }

    /// Remember the staged tree and ask for the head.
    pub open spec fn resolving(self, tree: Seq<char>) -> (RunView, ActionView) {
        (RunView { stage: Stage::ResolvingHead, tree, ..self }, ActionView::ResolveHead)
    }

    /// Commit on top of `head`, if there is one.
    pub open spec fn committing(self, head: Option<Seq<char>>) -> (RunView, ActionView) {
        (
            self.at(Stage::Committing),
            ActionView::Commit(
                commit_plan_text(self.identity, self.link.target, self.tree, head),
            ),
        )
    }

    /// Remember the new commit and publish its branch.
    pub open spec fn publishing(self, commit: Seq<char>, branch: Seq<char>) -> (
        RunView,
        ActionView,
    ) {
        (
            RunView { stage: Stage::Publishing, commit, ..self },
            ActionView::Publish { commit, remote: REMOTE@, branch },
        )
    }

    /// End with the commit made, published or not.
    pub open spec fn finishing(self, published: bool) -> (RunView, ActionView) {
        (RunView { stage: Stage::Finished, published, ..self }, ActionView::Stop)
    }

    /// End without a commit.
    pub open spec fn failing(self, failure: Failure) -> (RunView, ActionView) {
        (RunView { stage: Stage::Failed, failure: Some(failure), ..self }, ActionView::Stop)
    }

    /// The cycle has ended.
    pub open spec fn ended(self) -> bool {
        self.stage == Stage::Finished || self.stage == Stage::Failed
    }

    /// The cycle has settled on its name and goes on: it is writing the page
    /// or has come further, and has not failed.
    pub open spec fn settled(self) -> bool {
        self.stage != Stage::OpeningRepository && self.stage != Stage::ProbingName && self.stage
            != Stage::Failed
    }

    /// What holds of every cycle however far it has come: a failed cycle
    /// names its failure, only a finished one may count as published, and,
    /// unless the target was refused, the name is a legal path segment and a
    /// drawn name has the shape of a generated one.
    pub open spec fn wf(self) -> bool {
        &&& self.stage == Stage::Failed <==> self.failure is Some
        &&& self.published ==> self.stage == Stage::Finished
        &&& self.refused() || {
            &&& self.link.wf()
            &&& self.generated ==> is_generated_name(self.link.name)
        }
    }

    /// The cycle ended on a refused target.
    pub open spec fn refused(self) -> bool {
        self.failure matches Some(Failure::InvalidUrl(_))
    }
}

/// The first step of a cycle whose target was accepted: ask for the
/// repository at `root` to be opened.
pub open spec fn opening(
    identity: IdentityView,
    root: Seq<char>,
    link: ShortLinkView,
    generated: bool,
) -> (RunView, ActionView) {
    (
        RunView {
            stage: Stage::OpeningRepository,
            identity,
            link,
            generated,
            tree: Seq::empty(),
            commit: Seq::empty(),
            published: false,
            failure: None,
        },
        ActionView::OpenRepository { path: root },
    )
}

/// The only step of a cycle whose target was refused.
pub open spec fn refusing(identity: IdentityView, short_name: Option<Seq<char>>, error: UrlError) -> (
    RunView,
    ActionView,
) {
    (
        RunView {
            stage: Stage::Failed,
            identity,
            link: ShortLinkView {
                name: match short_name {
                    Some(name) => name,
                    None => Seq::empty(),
                },
                target: Seq::empty(),
            },
            generated: short_name is None,
            tree: Seq::empty(),
            commit: Seq::empty(),
            published: false,
            failure: Some(Failure::InvalidUrl(error)),
        },
        ActionView::Stop,
    )
}

/// The transition function: the state and action that follow state `s` when
/// the caller answers `reply` to the pending action. `fresh` is the candidate
/// that replaces a name found taken; no other transition looks at it.
///
/// A reply that the stage does not wait for counts as a failure of the
/// pending action. A failed publication still finishes the cycle.
pub open spec fn next(s: RunView, reply: ReplyView, fresh: Seq<char>) -> (RunView, ActionView) {
    match s.stage {
        Stage::OpeningRepository => match reply {
            ReplyView::Done => if s.generated {
                s.probing()
            } else {
                s.writing()
            },
            _ => s.failing(Failure::RepositoryUnavailable),
        },
        Stage::ProbingName => match reply {
            ReplyView::Exists(taken) => if taken {
                s.renamed(fresh).probing()
            } else {
                s.writing()
            },
            _ => s.failing(Failure::Filesystem),
        },
        Stage::WritingPage => match reply {
            ReplyView::Done => s.appending(),
            _ => s.failing(Failure::Filesystem),
        },
        Stage::AppendingEntry => match reply {
            ReplyView::Done => s.staging(),
            _ => s.failing(Failure::Filesystem),
        },
        Stage::Staging => match reply {
            ReplyView::Staged(tree) => s.resolving(tree),
            _ => s.failing(Failure::VersionControl),
        },
        Stage::ResolvingHead => match reply {
            ReplyView::Head(head) => s.committing(head),
            _ => s.failing(Failure::VersionControl),
        },
        Stage::Committing => match reply {
            ReplyView::Committed { commit, branch } => s.publishing(commit, branch),
            _ => s.failing(Failure::VersionControl),
        },
        Stage::Publishing => match reply {
            ReplyView::Done => s.finishing(true),
            _ => s.finishing(false),
        },
        Stage::Finished => (s, ActionView::Stop),
        Stage::Failed => (s, ActionView::Stop),
    }
}

/// The reply reports the candidate name as taken, so that another is drawn.
pub open spec fn retries(s: RunView, reply: ReplyView) -> bool {
    s.stage == Stage::ProbingName && reply == ReplyView::Exists(true)
}

/// What `Run::start` may give for a configuration, a target text and an
/// optional supplied name.
///
/// A target that is no absolute URL ends the cycle before anything is asked
/// of the caller. Otherwise the cycle opens the repository at a tilde
/// expansion of the configured path, for a link to the target's
/// serialization; its name is the supplied one, taken as it is, or else one
/// of the shape of a generated name.
pub open spec fn starts(
    cfg: ShurlConfigView,
    url: Seq<char>,
    short_name: Option<Seq<char>>,
    run: RunView,
    action: ActionView,
) -> bool {
    match url_serialization(url) {
        Some(target) => {
            &&& action matches ActionView::OpenRepository { path }
            &&& is_tilde_expansion(cfg.repo_path, path)
            &&& (run, action) == opening(
                cfg.identity(),
                path,
                ShortLinkView { name: run.link.name, target },
                short_name is None,
            )
            &&& match short_name {
                Some(name) => run.link.name == name,
                None => is_generated_name(run.link.name),
            }
        },
        None => {
            &&& run.failure matches Some(Failure::InvalidUrl(error))
            &&& (run, action) == refusing(cfg.identity(), short_name, error)
        },
    }
}

impl Run {
    fn at(self, stage: Stage) -> (r: Run)
        ensures
            r@ == self@.at(stage),
    {
        Run { stage, ..self }
    }

    fn probing(self) -> (r: (Run, Action))
        ensures
            (r.0@, r.1@) == self@.probing(),
    {
        let file_name = page_file(self.link.name.as_str());
        (self.at(Stage::ProbingName), Action::CheckExists { file_name })
    }

    fn writing(self) -> (r: (Run, Action))
        ensures
            (r.0@, r.1@) == self@.writing(),
    {
        let file_name = page_file(self.link.name.as_str());
        let content = redirect_page(self.link.target.as_str());
        (self.at(Stage::WritingPage), Action::WriteFile { file_name, content })
    }

    fn appending(self) -> (r: (Run, Action))
        ensures
            (r.0@, r.1@) == self@.appending(),
    {
        let content = ledger_entry(&self.link);
        let file_name = String::from_str(LEDGER_FILE);
        (self.at(Stage::AppendingEntry), Action::AppendFile { file_name, content })
    }

    fn resolving(self, tree: String) -> (r: (Run, Action))
        ensures
            (r.0@, r.1@) == self@.resolving(tree@),
    {
        (Run { stage: Stage::ResolvingHead, tree, ..self }, Action::ResolveHead)
    }

    fn committing(self, head: Option<String>) -> (r: (Run, Action))
        ensures
            (r.0@, r.1@) == self@.committing(optional_text(head)),
    {
        let plan = plan_commit(
            &self.identity,
            self.link.target.as_str(),
            self.tree.clone(),
            head,
        );
        (self.at(Stage::Committing), Action::Commit(plan))
    }

    fn publishing(self, commit: String, branch: String) -> (r: (Run, Action))
        ensures
            (r.0@, r.1@) == self@.publishing(commit@, branch@),
    {
        let action = Action::Publish {
            commit: commit.clone(),
            remote: String::from_str(REMOTE),
            branch,
        };
        (Run { stage: Stage::Publishing, commit, ..self }, action)
    }

    fn finishing(self, published: bool) -> (r: (Run, Action))
        ensures
            (r.0@, r.1@) == self@.finishing(published),
    {
        (Run { stage: Stage::Finished, published, ..self }, Action::Stop)
    }

    fn failing(self, failure: Failure) -> (r: (Run, Action))
        ensures
            (r.0@, r.1@) == self@.failing(failure),
    {
        (Run { stage: Stage::Failed, failure: Some(failure), ..self }, Action::Stop)
    }

    /// Begins a cycle for a validated link: the first action asks for the
    /// repository at `root`. `generated` tells whether the link's name is a
    /// drawn candidate, to be probed, or a supplied one, to be used as it is.
    pub fn open(identity: Identity, root: String, link: ShortLink, generated: bool) -> (r: (
        Run,
        Action,
    ))
        ensures
            (r.0@, r.1@) == opening(identity@, root@, link@, generated),
            link@.wf() && (generated ==> is_generated_name(link@.name)) ==> r.0@.wf(),
    {
        let run = Run {
            stage: Stage::OpeningRepository,
            identity,
            link,
            generated,
            tree: String::new(),
            commit: String::new(),
            published: false,
            failure: None,
        };
        (run, Action::OpenRepository { path: root })
    }

    /// Ends a cycle before it began, for a target refused with `error`.
    pub fn refuse(identity: Identity, short_name: Option<String>, error: UrlError) -> (r: (
        Run,
        Action,
    ))
        ensures
            (r.0@, r.1@) == refusing(identity@, optional_text(short_name), error),
            r.0@.wf(),
    {
        let generated = short_name.is_none();
        let name = match short_name {
            Some(name) => name,
            None => String::new(),
        };
        let run = Run {
            stage: Stage::Failed,
            identity,
            link: ShortLink { name, target: String::new() },
            generated,
            tree: String::new(),
            commit: String::new(),
            published: false,
            failure: Some(Failure::InvalidUrl(error)),
        };
        (run, Action::Stop)
    }

    /// Starts a cycle: validates the target, expands the repository path and,
    /// where no name is supplied, draws a first candidate.
    pub fn start(cfg: &ShurlConfig, url: &str, short_name: Option<String>) -> (r: (Run, Action))
        ensures
            starts(cfg@, url@, optional_text(short_name), r.0@, r.1@),
    {
        match parse_target(url) {
            Err(error) => Run::refuse(cfg.identity(), short_name, error),
            Ok(target) => {
                let root = cfg.repository_root();
                match short_name {
                    Some(name) => Run::open(cfg.identity(), root, ShortLink { name, target }, false),
                    None => {
                        let name = create_name();
                        Run::open(cfg.identity(), root, ShortLink { name, target }, true)
                    },
                }
            },
        }
    }

    /// Whether answering `reply` makes the machine draw another name.
    pub fn retries(&self, reply: &Reply) -> (retry: bool)
        ensures
            retry == retries(self@, reply@),
    {
        match self.stage {
            Stage::ProbingName => match reply {
                Reply::Exists(taken) => *taken,
                _ => false,
            },
            _ => false,
        }
    }

    /// Takes one step with a given replacement candidate: exactly the
    /// transition `next`.
    pub fn advance(self, reply: Reply, fresh: &str) -> (r: (Run, Action))
        ensures
            (r.0@, r.1@) == next(self@, reply@, fresh@),
            self@.wf() && is_generated_name(fresh@) ==> r.0@.wf(),
    {
        proof {
            if is_generated_name(fresh@) {
                lemma_generated_name_is_path_segment(fresh@);
            }
        }
        match self.stage {
            Stage::OpeningRepository => match reply {
                Reply::Done => if self.generated {
                    self.probing()
                } else {
                    self.writing()
                },
                _ => self.failing(Failure::RepositoryUnavailable),
            },
            Stage::ProbingName => match reply {
                Reply::Exists(taken) => if taken {
                    let target = self.link.target.clone();
                    let renamed = Run {
                        link: ShortLink { name: String::from_str(fresh), target },
                        ..self
                    };
                    renamed.probing()
                } else {
                    self.writing()
                },
                _ => self.failing(Failure::Filesystem),
            },
            Stage::WritingPage => match reply {
                Reply::Done => self.appending(),
                _ => self.failing(Failure::Filesystem),
            },
            Stage::AppendingEntry => match reply {
                Reply::Done => (self.at(Stage::Staging), Action::StageAll),
                _ => self.failing(Failure::Filesystem),
            },
            Stage::Staging => match reply {
                Reply::Staged(tree) => self.resolving(tree),
                _ => self.failing(Failure::VersionControl),
            },
            Stage::ResolvingHead => match reply {
                Reply::Head(head) => self.committing(head),
                _ => self.failing(Failure::VersionControl),
            },
            Stage::Committing => match reply {
                Reply::Committed { commit, branch } => self.publishing(commit, branch),
                _ => self.failing(Failure::VersionControl),
            },
            Stage::Publishing => match reply {
                Reply::Done => self.finishing(true),
                _ => self.finishing(false),
            },
            Stage::Finished => (self, Action::Stop),
            Stage::Failed => (self, Action::Stop),
        }
    }

    /// Takes one step, drawing a new candidate where the last one is taken.
    /// Whatever name is drawn, the step is the transition `next` for it.
    pub fn step(self, reply: Reply) -> (r: (Run, Action))
        ensures
            (r.0@, r.1@) == next(self@, reply@, r.0@.link.name),
            retries(self@, reply@) ==> is_generated_name(r.0@.link.name),
            self@.wf() ==> r.0@.wf(),
    {
        if self.retries(&reply) {
            let fresh = create_name();
            self.advance(reply, fresh.as_str())
        } else {
            proof {
                lemma_fresh_name_is_read_on_retry_only(self@, reply@, Seq::empty(), self@.link.name);
            }
            let r = self.advance(reply, "");
            proof {
                lemma_fresh_name_is_read_on_retry_only(self@, reply@, ""@, r.0@.link.name);
            }
            r
        }
    }
}

/// Only a retry reads the replacement candidate: any other step is the same
/// whatever candidate is offered, and keeps the name.
pub proof fn lemma_fresh_name_is_read_on_retry_only(
    s: RunView,
    reply: ReplyView,
    one: Seq<char>,
    other: Seq<char>,
)
    requires
        !retries(s, reply),
    ensures
        next(s, reply, one) == next(s, reply, other),
        next(s, reply, one).0.link == s.link,
{
}

/// A step keeps a well-formed cycle well-formed, provided that the
/// replacement candidate has the shape of a generated name.
pub proof fn lemma_next_preserves_wf(s: RunView, reply: ReplyView, fresh: Seq<char>)
    requires
        s.wf(),
        is_generated_name(fresh),
    ensures
        next(s, reply, fresh).0.wf(),
{
    lemma_generated_name_is_path_segment(fresh);
}

} // verus!
