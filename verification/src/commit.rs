//! Planning the commit that records one allocation cycle.

use crate::config::{Identity, IdentityView};
use vstd::prelude::*;
use vstd::string::*;

verus! {

/// Reference that every commit advances.
pub const HEAD_REFERENCE: &'static str = "HEAD";

/// Remote that commits are published to.
pub const REMOTE: &'static str = "origin";

/// What every commit message starts with.
pub const MESSAGE_OPENING: &'static str = "Add redirect to ";

/// Everything that creating a commit takes.
#[derive(Debug, PartialEq, Eq)]
pub struct CommitPlan {
    /// Reference to advance to the new commit.
    pub reference: String,
    pub author: Identity,
    pub committer: Identity,
    pub message: String,
    /// Identifier of the tree that the commit snapshots.
    pub tree: String,
    /// Identifier of the commit's only parent; `None` for a root commit.
    pub parent: Option<String>,
}

/// Mathematical view of a `CommitPlan`.
pub struct CommitPlanView {
    pub reference: Seq<char>,
    pub author: IdentityView,
    pub committer: IdentityView,
    pub message: Seq<char>,
    pub tree: Seq<char>,
    pub parent: Option<Seq<char>>,
}

/// View of an optional string.
pub open spec fn optional_text(text: Option<String>) -> Option<Seq<char>> {
    match text {
        Some(t) => Some(t@),
        None => None,
    }
}

impl View for CommitPlan {
    type V = CommitPlanView;

    open spec fn view(&self) -> CommitPlanView {
        CommitPlanView {
            reference: self.reference@,
            author: self.author@,
            committer: self.committer@,
            message: self.message@,
            tree: self.tree@,
            parent: optional_text(self.parent),
        }
    }
}

/// The parents of a commit made on top of `head`: the head alone, or none
/// where there is no head.
pub open spec fn parents_on(head: Option<Seq<char>>) -> Seq<Seq<char>> {
    match head {
        Some(commit) => seq![commit],
        None => Seq::empty(),
    }
}

impl CommitPlanView {
    /// The parents of the planned commit.
    pub open spec fn parents(self) -> Seq<Seq<char>> {
        parents_on(self.parent)
    }
}

/// Message of the commit that adds a redirect to `target`.
pub open spec fn commit_message_text(target: Seq<char>) -> Seq<char> {
    MESSAGE_OPENING@ + target
}

/// The commit that records a new redirect to `target`: it advances `HEAD`,
/// is authored and committed by `identity`, snapshots `tree`, and has the
/// current head as its only parent, or no parent where there is no head.
pub open spec fn commit_plan_text(
    identity: IdentityView,
    target: Seq<char>,
    tree: Seq<char>,
    head: Option<Seq<char>>,
) -> CommitPlanView {
    CommitPlanView {
        reference: HEAD_REFERENCE@,
        author: identity,
        committer: identity,
        message: commit_message_text(target),
        tree,
        parent: head,
    }
}

/// Renders the message of the commit that adds a redirect to `target`.
pub fn commit_message(target: &str) -> (message: String)
    ensures
        message@ == commit_message_text(target@),
{
    let mut message = String::from_str(MESSAGE_OPENING);
    message.append(target);
    message
}

/// Plans the commit that records a new redirect to `target`, on top of `head`
/// if the repository has one.
pub fn plan_commit(identity: &Identity, target: &str, tree: String, head: Option<String>) -> (plan:
    CommitPlan)
    ensures
        plan@ == commit_plan_text(identity@, target@, tree@, optional_text(head)),
        plan@.parents().len() == (if head is Some { 1nat } else { 0nat }),
{
    CommitPlan {
        reference: String::from_str(HEAD_REFERENCE),
        author: identity.duplicate(),
        committer: identity.duplicate(),
        message: commit_message(target),
        tree,
        parent: head,
    }
}

} // verus!
