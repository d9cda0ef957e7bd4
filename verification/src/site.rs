//! What a cycle does to the site it works on.
//!
//! The machine only hands out actions. This module says what carrying them
//! out means for the files and the history of a repository, and proves what
//! one cycle, and any number of cycles in a row, leave behind.

use crate::artifact::redirect_page_text;
use crate::commit::{commit_plan_text, parents_on};
use crate::config::IdentityView;
use crate::ledger::{ledger_entry_text, LEDGER_FILE};
use crate::link::{page_file_text, ShortLinkView};
use crate::name::{is_generated_name, lemma_generated_name_is_path_segment};
use crate::run::{
    lemma_next_preserves_wf, next, opening, ActionView, Failure, ReplyView, RunView, Stage,
};
use vstd::prelude::*;

verus! {

/// A repository as the machine's caller sees it: the files under its root,
/// the commit its head points to, and the parents of every commit.
pub struct Site {
    pub files: Map<Seq<char>, Seq<char>>,
    pub head: Option<Seq<char>>,
    pub parents: Map<Seq<char>, Seq<Seq<char>>>,
}

impl Site {
    /// A file exists.
    pub open spec fn holds(self, file: Seq<char>) -> bool {
        self.files.dom().contains(file)
    }

    /// What a file holds; nothing where it does not exist.
    pub open spec fn content(self, file: Seq<char>) -> Seq<char> {
        if self.holds(file) {
            self.files[file]
        } else {
            Seq::empty()
        }
    }

    /// What the index holds.
    pub open spec fn ledger(self) -> Seq<char> {
        self.content(LEDGER_FILE@)
    }

    /// The site after a file was created or truncated and written.
    pub open spec fn written(self, file: Seq<char>, content: Seq<char>) -> Site {
        Site { files: self.files.insert(file, content), ..self }
    }

    /// The site after text was appended to a file.
    pub open spec fn appended(self, file: Seq<char>, content: Seq<char>) -> Site {
        Site { files: self.files.insert(file, self.content(file) + content), ..self }
    }

    /// The site after a commit was created and the head advanced to it.
    pub open spec fn committed(self, commit: Seq<char>, parents: Seq<Seq<char>>) -> Site {
        Site { head: Some(commit), parents: self.parents.insert(commit, parents), ..self }
    }

    /// The site after one whole cycle for `link` ended in `commit`: the page
    /// written, the entry appended, and the commit made on top of the head
    /// that the cycle found.
    pub open spec fn recorded(self, link: ShortLinkView, commit: Seq<char>) -> Site {
        self.written(page_file_text(link.name), redirect_page_text(link.target)).appended(
            LEDGER_FILE@,
            ledger_entry_text(link),
        ).committed(commit, parents_on(self.head))
    }
}

/// `reply` is a truthful report that `action` was carried out on `site`.
/// A commit gets an identifier that no earlier commit has. A publication may
/// be reported either way.
pub open spec fn answers(site: Site, action: ActionView, reply: ReplyView) -> bool {
    match action {
        ActionView::OpenRepository { .. } => reply == ReplyView::Done,
        ActionView::CheckExists { file_name } => reply == ReplyView::Exists(site.holds(file_name)),
        ActionView::WriteFile { .. } => reply == ReplyView::Done,
        ActionView::AppendFile { .. } => reply == ReplyView::Done,
        ActionView::StageAll => reply is Staged,
        ActionView::ResolveHead => reply == ReplyView::Head(site.head),
        ActionView::Commit(_) => reply matches ReplyView::Committed { commit, .. }
            && !site.parents.dom().contains(commit),
        ActionView::Publish { .. } => reply == ReplyView::Done || reply == ReplyView::Failed,
        ActionView::Stop => false,
    }
}

/// The site after `action` was answered with `reply`. Only a confirmed write,
/// append or commit changes the site; the model does not follow what a write
/// that was reported as failed may have left behind.
pub open spec fn effect(site: Site, action: ActionView, reply: ReplyView) -> Site {
    match action {
        ActionView::WriteFile { file_name, content } => if reply == ReplyView::Done {
            site.written(file_name, content)
        } else {
            site
        },
        ActionView::AppendFile { file_name, content } => if reply == ReplyView::Done {
            site.appended(file_name, content)
        } else {
            site
        },
        ActionView::Commit(plan) => match reply {
            ReplyView::Committed { commit, .. } => site.committed(commit, plan.parents()),
            _ => site,
        },
        _ => site,
    }
}

/// Site, state and pending action after the caller answered `replies` one
/// after the other, `names[i]` being the candidate on offer at step `i`.
pub open spec fn carried_out(
    site: Site,
    run: RunView,
    pending: ActionView,
    replies: Seq<ReplyView>,
    names: Seq<Seq<char>>,
) -> (Site, RunView, ActionView)
    decreases replies.len(),
{
    if replies.len() == 0 {
        (site, run, pending)
    } else {
        let step = next(run, replies[0], names[0]);
        carried_out(
            effect(site, pending, replies[0]),
            step.0,
            step.1,
            replies.skip(1),
            names.skip(1),
        )
    }
}

/// Every reply in `replies` truthfully answers the action pending when it is
/// given.
pub open spec fn truthful(
    site: Site,
    run: RunView,
    pending: ActionView,
    replies: Seq<ReplyView>,
    names: Seq<Seq<char>>,
) -> bool
    decreases replies.len(),
{
    if replies.len() == 0 {
        true
    } else {
        let step = next(run, replies[0], names[0]);
        &&& answers(site, pending, replies[0])
        &&& truthful(
            effect(site, pending, replies[0]),
            step.0,
            step.1,
            replies.skip(1),
            names.skip(1),
        )
    }
}

/// One candidate on offer for every reply, each of the shape of a generated
/// name.
pub open spec fn candidates(names: Seq<Seq<char>>, replies: Seq<ReplyView>) -> bool {
    &&& names.len() == replies.len()
    &&& forall|i: int| 0 <= i < names.len() ==> is_generated_name(#[trigger] names[i])
}

/// How far a cycle that began in state `origin` on site `before` has come,
/// when it stands in state `run` on site `site` with `pending` asked.
///
/// Target, identity and a supplied name never change. Up to the writing of
/// the page the site is untouched, and a drawn name is settled on only when
/// its page is absent. From then on the site holds exactly what the stages
/// passed so far have added.
pub open spec fn tracks(
    before: Site,
    origin: RunView,
    site: Site,
    run: RunView,
    pending: ActionView,
) -> bool {
    let page = page_file_text(run.link.name);
    let paged = before.written(page, redirect_page_text(run.link.target));
    let filed = paged.appended(LEDGER_FILE@, ledger_entry_text(run.link));
    &&& run.identity == origin.identity
    &&& run.link.target == origin.link.target
    &&& run.generated == origin.generated
    &&& !run.generated ==> run.link.name == origin.link.name
    &&& match run.stage {
        Stage::OpeningRepository => site == before && pending is OpenRepository,
        Stage::ProbingName => {
            &&& site == before
            &&& run.generated
            &&& pending == run.probing().1
        },
        Stage::WritingPage => {
            &&& site == before
            &&& run.generated ==> !before.holds(page)
            &&& pending == run.writing().1
        },
        Stage::AppendingEntry => {
            &&& site == paged
            &&& run.generated ==> !before.holds(page)
            &&& pending == run.appending().1
        },
        Stage::Staging => {
            &&& site == filed
            &&& run.generated ==> !before.holds(page)
            &&& pending == ActionView::StageAll
        },
        Stage::ResolvingHead => {
            &&& site == filed
            &&& run.generated ==> !before.holds(page)
            &&& pending == ActionView::ResolveHead
        },
        Stage::Committing => {
            &&& site == filed
            &&& run.generated ==> !before.holds(page)
            &&& pending == ActionView::Commit(
                commit_plan_text(run.identity, run.link.target, run.tree, before.head),
            )
        },
        Stage::Publishing => {
            &&& site == before.recorded(run.link, run.commit)
            &&& run.generated ==> !before.holds(page)
            &&& !before.parents.dom().contains(run.commit)
            &&& pending is Publish
        },
        Stage::Finished => {
            &&& site == before.recorded(run.link, run.commit)
            &&& run.generated ==> !before.holds(page)
            &&& !before.parents.dom().contains(run.commit)
            &&& pending == ActionView::Stop
        },
        Stage::Failed => pending == ActionView::Stop,
    }
}

/// One truthfully answered step keeps the cycle on track.
pub proof fn lemma_step_tracks(
    before: Site,
    origin: RunView,
    site: Site,
    run: RunView,
    pending: ActionView,
    reply: ReplyView,
    fresh: Seq<char>,
)
    requires
        tracks(before, origin, site, run, pending),
        answers(site, pending, reply),
    ensures
        tracks(
            before,
            origin,
            effect(site, pending, reply),
            next(run, reply, fresh).0,
            next(run, reply, fresh).1,
        ),
{
}

/// Truthfully answered steps keep the cycle on track, however many.
pub proof fn lemma_carried_out_tracks(
    before: Site,
    origin: RunView,
    site: Site,
    run: RunView,
    pending: ActionView,
    replies: Seq<ReplyView>,
    names: Seq<Seq<char>>,
)
    requires
        tracks(before, origin, site, run, pending),
        truthful(site, run, pending, replies, names),
    ensures
        ({
            let end = carried_out(site, run, pending, replies, names);
            tracks(before, origin, end.0, end.1, end.2)
        }),
    decreases replies.len(),
{
    if replies.len() > 0 {
        let step = next(run, replies[0], names[0]);
        lemma_step_tracks(before, origin, site, run, pending, replies[0], names[0]);
        lemma_carried_out_tracks(
            before,
            origin,
            effect(site, pending, replies[0]),
            step.0,
            step.1,
            replies.skip(1),
            names.skip(1),
        );
    }
}

/// Steps keep a well-formed cycle well-formed, whatever the replies, as long
/// as every candidate on offer has the shape of a generated name.
pub proof fn lemma_carried_out_preserves_wf(
    site: Site,
    run: RunView,
    pending: ActionView,
    replies: Seq<ReplyView>,
    names: Seq<Seq<char>>,
)
    requires
        run.wf(),
        candidates(names, replies),
    ensures
        carried_out(site, run, pending, replies, names).1.wf(),
    decreases replies.len(),
{
    if replies.len() > 0 {
        let step = next(run, replies[0], names[0]);
        lemma_next_preserves_wf(run, replies[0], names[0]);
        assert forall|i: int| 0 <= i < names.skip(1).len() implies is_generated_name(
            #[trigger] names.skip(1)[i],
        ) by {
            assert(names.skip(1)[i] == names[i + 1]);
        }
        lemma_carried_out_preserves_wf(
            effect(site, pending, replies[0]),
            step.0,
            step.1,
            replies.skip(1),
            names.skip(1),
        );
    }
}

/// A cycle that has ended asks for nothing more and changes nothing more,
/// whatever it is told.
pub proof fn lemma_ended_cycle_stays(
    site: Site,
    run: RunView,
    replies: Seq<ReplyView>,
    names: Seq<Seq<char>>,
)
    requires
        run.ended(),
    ensures
        carried_out(site, run, ActionView::Stop, replies, names) == (site, run, ActionView::Stop),
    decreases replies.len(),
{
    if replies.len() > 0 {
        lemma_ended_cycle_stays(site, run, replies.skip(1), names.skip(1));
    }
}

/// A repository that cannot be opened is left as it was: the cycle fails on
/// the spot, before any page or index entry is written, and no later reply
/// brings it to write anything.
pub proof fn lemma_unopened_repository_is_untouched(
    site: Site,
    run: RunView,
    pending: ActionView,
    replies: Seq<ReplyView>,
    names: Seq<Seq<char>>,
)
    requires
        run.stage == Stage::OpeningRepository,
        pending is OpenRepository,
        replies.len() > 0,
        replies[0] != ReplyView::Done,
    ensures
        carried_out(site, run, pending, replies, names) == (
            site,
            run.failing(Failure::RepositoryUnavailable).0,
            ActionView::Stop,
        ),
{
    lemma_ended_cycle_stays(
        site,
        run.failing(Failure::RepositoryUnavailable).0,
        replies.skip(1),
        names.skip(1),
    );
}

/// One cycle from its first action on: who signs, where the repository is,
/// the link as first proposed, the replies the caller gives and the
/// candidates on offer.
pub struct Cycle {
    pub identity: IdentityView,
    pub root: Seq<char>,
    /// The target with the supplied name, or with the first candidate.
    pub link: ShortLinkView,
    pub generated: bool,
    pub replies: Seq<ReplyView>,
    pub names: Seq<Seq<char>>,
}

impl Cycle {
    /// State and first action of the cycle.
    pub open spec fn start(self) -> (RunView, ActionView) {
        opening(self.identity, self.root, self.link, self.generated)
    }

    /// Site, state and pending action once all replies were given.
    pub open spec fn outcome(self, site: Site) -> (Site, RunView, ActionView) {
        carried_out(site, self.start().0, self.start().1, self.replies, self.names)
    }

    /// The cycle is fed well-formed input and truthful replies.
    pub open spec fn runs_on(self, site: Site) -> bool {
        &&& self.link.wf()
        &&& self.generated ==> is_generated_name(self.link.name)
        &&& candidates(self.names, self.replies)
        &&& truthful(site, self.start().0, self.start().1, self.replies, self.names)
    }

    /// The cycle runs on `site` and ends with a commit.
    pub open spec fn completes(self, site: Site) -> bool {
        &&& self.runs_on(site)
        &&& self.outcome(site).1.stage == Stage::Finished
    }

    /// The link that the cycle ends with.
    pub open spec fn link_made(self, site: Site) -> ShortLinkView {
        self.outcome(site).1.link
    }

    /// The commit that the cycle ends with.
    pub open spec fn commit_made(self, site: Site) -> Seq<char> {
        self.outcome(site).1.commit
    }
}

/// A name that the machine settles on by itself has the shape of a generated
/// name, and no page of that name existed when the cycle began.
pub proof fn lemma_drawn_name_is_free(cycle: Cycle, before: Site)
    requires
        cycle.generated,
        cycle.runs_on(before),
        cycle.outcome(before).1.settled(),
    ensures
        is_generated_name(cycle.link_made(before).name),
        !before.holds(page_file_text(cycle.link_made(before).name)),
{
    let start = cycle.start();
    lemma_carried_out_preserves_wf(before, start.0, start.1, cycle.replies, cycle.names);
    lemma_carried_out_tracks(before, start.0, before, start.0, start.1, cycle.replies, cycle.names);
}

/// A cycle that ends with a commit leaves the site with exactly three
/// additions: the page of its link, written anew; the link's entry, appended
/// to the index; and its commit, made on top of the head it found. The
/// target is the one it began with, and so is a supplied name. The commit is
/// a new one.
pub proof fn lemma_finished_cycle(cycle: Cycle, before: Site)
    requires
        cycle.completes(before),
    ensures
        cycle.outcome(before).0 == before.recorded(
            cycle.link_made(before),
            cycle.commit_made(before),
        ),
        cycle.outcome(before).2 == ActionView::Stop,
        cycle.link_made(before).target == cycle.link.target,
        !cycle.generated ==> cycle.link_made(before).name == cycle.link.name,
        cycle.link_made(before).wf(),
        !before.parents.dom().contains(cycle.commit_made(before)),
{
    let start = cycle.start();
    lemma_carried_out_preserves_wf(before, start.0, start.1, cycle.replies, cycle.names);
    lemma_carried_out_tracks(before, start.0, before, start.0, start.1, cycle.replies, cycle.names);
}

/// What one recorded cycle leaves in the files, for a link whose page is not
/// the index itself: the page holds the redirect to the link's target,
/// whether or not a page of that name existed before, and the index holds
/// what it held, followed by the link's entry.
pub proof fn lemma_recorded_files(site: Site, link: ShortLinkView, commit: Seq<char>)
    requires
        page_file_text(link.name) != LEDGER_FILE@,
    ensures
        site.recorded(link, commit).content(page_file_text(link.name)) == redirect_page_text(
            link.target,
        ),
        site.recorded(link, commit).ledger() == site.ledger() + ledger_entry_text(link),
{
}

/// What one recorded cycle leaves in the history: the new commit is the
/// head, its parents are the former head alone, or none where there was no
/// head, and every other commit keeps its parents.
pub proof fn lemma_recorded_history(site: Site, link: ShortLinkView, commit: Seq<char>)
    ensures
        site.recorded(link, commit).head == Some(commit),
        site.recorded(link, commit).parents[commit] == parents_on(site.head),
        site.recorded(link, commit).parents.dom() == site.parents.dom().insert(commit),
        forall|other: Seq<char>|
            other != commit && site.parents.dom().contains(other) ==> #[trigger] site.recorded(
                link,
                commit,
            ).parents[other] == site.parents[other],
{
}

/// Of two cycles in a row on a repository without history, the first makes a
/// commit without parents, and the second a commit whose only parent is the
/// first.
pub proof fn lemma_second_commit_follows_first(first: Cycle, second: Cycle, before: Site)
    requires
        before.head is None,
        first.completes(before),
        second.completes(first.outcome(before).0),
    ensures
        ({
            let between = first.outcome(before).0;
            let after = second.outcome(between).0;
            let one = first.commit_made(before);
            let two = second.commit_made(between);
            &&& one != two
            &&& after.parents[one] == Seq::<Seq<char>>::empty()
            &&& after.parents[two] == seq![one]
            &&& after.head == Some(two)
        }),
{
    let between = first.outcome(before).0;
    lemma_finished_cycle(first, before);
    lemma_finished_cycle(second, between);
    lemma_recorded_history(before, first.link_made(before), first.commit_made(before));
    lemma_recorded_history(between, second.link_made(between), second.commit_made(between));
}

/// A supplied name is used whether or not its page exists: the cycle ends
/// with the page holding the new redirect and with one more entry in the
/// index. Left out is the one name whose page is the index itself.
pub proof fn lemma_supplied_name_overwrites(cycle: Cycle, before: Site)
    requires
        !cycle.generated,
        cycle.completes(before),
        page_file_text(cycle.link.name) != LEDGER_FILE@,
    ensures
        cycle.link_made(before) == cycle.link,
        cycle.outcome(before).0.content(page_file_text(cycle.link.name)) == redirect_page_text(
            cycle.link.target,
        ),
        cycle.outcome(before).0.ledger() == before.ledger() + ledger_entry_text(cycle.link),
{
    lemma_finished_cycle(cycle, before);
    lemma_recorded_files(before, cycle.link_made(before), cycle.commit_made(before));
}

/// The replies of a cycle in which nothing fails and no name is found taken,
/// from the writing of the page on.
pub open spec fn smooth_replies(
    head: Option<Seq<char>>,
    tree: Seq<char>,
    commit: Seq<char>,
    branch: Seq<char>,
    published: bool,
) -> Seq<ReplyView> {
    seq![
        ReplyView::Done,
        ReplyView::Done,
        ReplyView::Staged(tree),
        ReplyView::Head(head),
        ReplyView::Committed { commit, branch },
        if published {
            ReplyView::Done
        } else {
            ReplyView::Failed
        },
    ]
}

/// A supplied name is never probed. Once the repository is open, a cycle for
/// a supplied name in which no action fails ends with a commit, whether or
/// not a page of that name exists, and whether or not the publication
/// succeeds.
pub proof fn lemma_supplied_name_cycle_completes(
    cycle: Cycle,
    before: Site,
    tree: Seq<char>,
    commit: Seq<char>,
    branch: Seq<char>,
    published: bool,
)
    requires
        !cycle.generated,
        cycle.link.wf(),
        candidates(cycle.names, cycle.replies),
        !before.parents.dom().contains(commit),
        cycle.replies == seq![ReplyView::Done] + smooth_replies(
            before.head,
            tree,
            commit,
            branch,
            published,
        ),
    ensures
        cycle.completes(before),
        cycle.link_made(before) == cycle.link,
        cycle.commit_made(before) == commit,
        cycle.outcome(before).1.published == published,
{
    reveal_with_fuel(carried_out, 8);
    reveal_with_fuel(truthful, 8);
}

/// A drawn name is probed until one is free. A cycle whose first candidate
/// is taken and whose second is free, and in which no action fails, ends
/// with a commit for the second candidate.
pub proof fn lemma_taken_name_is_replaced(
    cycle: Cycle,
    before: Site,
    tree: Seq<char>,
    commit: Seq<char>,
    branch: Seq<char>,
    published: bool,
)
    requires
        cycle.generated,
        is_generated_name(cycle.link.name),
        candidates(cycle.names, cycle.replies),
        before.holds(page_file_text(cycle.link.name)),
        !before.holds(page_file_text(cycle.names[1])),
        !before.parents.dom().contains(commit),
        cycle.replies == seq![ReplyView::Done, ReplyView::Exists(true), ReplyView::Exists(false)]
            + smooth_replies(before.head, tree, commit, branch, published),
    ensures
        cycle.completes(before),
        cycle.link_made(before).name == cycle.names[1],
        cycle.commit_made(before) == commit,
{
    reveal_with_fuel(carried_out, 10);
    reveal_with_fuel(truthful, 10);
    lemma_generated_name_is_path_segment(cycle.link.name);
}

/// The site after the cycles ran one after the other.
pub open spec fn site_after(site: Site, cycles: Seq<Cycle>) -> Site
    decreases cycles.len(),
{
    if cycles.len() == 0 {
        site
    } else {
        cycles.last().outcome(site_after(site, cycles.drop_last())).0
    }
}

/// Every cycle ends with a commit on the site that the cycles before it left.
pub open spec fn all_complete(site: Site, cycles: Seq<Cycle>) -> bool
    decreases cycles.len(),
{
    if cycles.len() == 0 {
        true
    } else {
        &&& all_complete(site, cycles.drop_last())
        &&& cycles.last().completes(site_after(site, cycles.drop_last()))
    }
}

/// No cycle ends with a link whose page is the index itself.
pub open spec fn all_apart(site: Site, cycles: Seq<Cycle>) -> bool
    decreases cycles.len(),
{
    if cycles.len() == 0 {
        true
    } else {
        &&& all_apart(site, cycles.drop_last())
        &&& page_file_text(cycles.last().link_made(site_after(site, cycles.drop_last())).name)
            != LEDGER_FILE@
    }
}

/// The entries of the links that the cycles end with, in the order of the
/// cycles.
pub open spec fn entries_of(site: Site, cycles: Seq<Cycle>) -> Seq<Seq<char>>
    decreases cycles.len(),
{
    if cycles.len() == 0 {
        Seq::empty()
    } else {
        entries_of(site, cycles.drop_last()).push(
            ledger_entry_text(cycles.last().link_made(site_after(site, cycles.drop_last()))),
        )
    }
}

/// The texts one after the other.
pub open spec fn joined(texts: Seq<Seq<char>>) -> Seq<char>
    decreases texts.len(),
{
    if texts.len() == 0 {
        Seq::empty()
    } else {
        joined(texts.drop_last()) + texts.last()
    }
}

/// After any number of cycles that each ended with a commit, the index holds
/// what it held before, followed by exactly one entry per cycle, in the order
/// of the cycles, each for the link that its cycle made. Left out are cycles
/// for the one name whose page is the index itself.
pub proof fn lemma_ledger_grows_by_one_entry_per_cycle(site: Site, cycles: Seq<Cycle>)
    requires
        all_complete(site, cycles),
        all_apart(site, cycles),
    ensures
        entries_of(site, cycles).len() == cycles.len(),
        site_after(site, cycles).ledger() == site.ledger() + joined(entries_of(site, cycles)),
    decreases cycles.len(),
{
    if cycles.len() == 0 {
        assert(site.ledger() + joined(entries_of(site, cycles)) =~= site.ledger());
    } else {
        let earlier = cycles.drop_last();
        let last = cycles.last();
        let between = site_after(site, earlier);
        let entry = ledger_entry_text(last.link_made(between));
        lemma_ledger_grows_by_one_entry_per_cycle(site, earlier);
        lemma_finished_cycle(last, between);
        lemma_recorded_files(between, last.link_made(between), last.commit_made(between));
        assert(entries_of(site, cycles).drop_last() =~= entries_of(site, earlier));
        assert(joined(entries_of(site, cycles)) == joined(entries_of(site, earlier)) + entry);
        assert((site.ledger() + joined(entries_of(site, earlier))) + entry =~= site.ledger() + (
            joined(entries_of(site, earlier)) + entry));
    }
}

} // verus!
