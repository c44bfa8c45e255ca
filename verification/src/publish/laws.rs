//! What holds of every publication, whatever the caller reports.

use vstd::prelude::*;
use vstd::string::*;
use crate::error::{unexpected, CliErrorView, ValidationErrorView};
use crate::path::{is_entry_name, is_relative_inside, is_within, joined, lemma_entry_within};
use crate::process::ExitStatus;
use crate::publish::{
    first_bad_entry, stale_paths, transition, working_copy, PublishActionView, PublishEvent,
    PublishRequest, PublisherView, Step,
};

verus! {

/// The publication after each of `events` in turn, with what the caller
/// was told to do after each.
pub open spec fn run(state: PublisherView, events: Seq<PublishEvent>) -> (
    PublisherView,
    Seq<PublishActionView>,
)
    decreases events.len(),
{
    if events.len() == 0 {
        (state, Seq::empty())
    } else {
        let (before, actions) = run(state, events.drop_last());
        let (after, action) = transition(before, events.last());
        (after, actions.push(action))
    }
}

/// A publication that has not begun.
pub open spec fn initial(request: PublishRequest) -> PublisherView {
    PublisherView {
        request,
        step: Step::Idle,
        root: Seq::empty(),
        sub: Seq::empty(),
        version: None,
        copied: false,
    }
}

/// Whether the step lies behind the check of the publish path and
/// before the end.
pub open spec fn past_check(step: Step) -> bool {
    step is Listing || step is Clearing || step is ReadingMetadata || step is Copying
        || step is WritingRecord || step is WritingPicture || step is Staging || step is Committing
        || step is Pushing
}

/// A publication whose directory for the documentation, once the check
/// is passed, lies inside the working copy.
pub open spec fn anchored(state: PublisherView) -> bool {
    past_check(state.step) ==> is_within(state.sub, state.root)
}

/// Whether all that the action removes, writes or copies to lies inside
/// `root`.
pub open spec fn touches_only(action: PublishActionView, root: Seq<char>) -> bool {
    match action {
        PublishActionView::Clear { paths } => forall|i: int|
            0 <= i < paths.len() ==> is_within(#[trigger] paths[i], root),
        PublishActionView::Write { path, content } => is_within(path, root),
        PublishActionView::Copy { notice, from, to } => is_within(to, root),
        _ => true,
    }
}

/// Whether the action removes, writes or copies anything.
pub open spec fn touches(action: PublishActionView) -> bool {
    action is Clear || action is Write || action is Copy
}

proof fn lemma_no_bad_entry(entries: Seq<Seq<char>>)
    requires
        first_bad_entry(entries) is None,
    ensures
        forall|i: int| 0 <= i < entries.len() ==> is_entry_name(#[trigger] entries[i]),
    decreases entries.len(),
{
    if entries.len() != 0 {
        lemma_no_bad_entry(entries.drop_last());
        assert forall|i: int| 0 <= i < entries.len() implies is_entry_name(
            #[trigger] entries[i],
        ) by {
            if i < entries.len() - 1 {
                assert(entries.drop_last()[i] == entries[i]);
            }
        }
    }
}

/// Whatever is cleared from a directory inside `root` lies inside
/// `root`.
pub proof fn lemma_stale_within(
    sub: Seq<char>,
    entries: Seq<Seq<char>>,
    keep_index: bool,
    root: Seq<char>,
)
    requires
        is_within(sub, root),
        first_bad_entry(entries) is None,
    ensures
        forall|i: int|
            0 <= i < stale_paths(sub, entries, keep_index).len() ==> is_within(
                #[trigger] stale_paths(sub, entries, keep_index)[i],
                root,
            ),
    decreases entries.len(),
{
    if entries.len() != 0 {
        lemma_no_bad_entry(entries);
        lemma_stale_within(sub, entries.drop_last(), keep_index, root);
        assert(is_entry_name(entries[entries.len() - 1]));
        lemma_entry_within(sub, entries.last(), root);
        let paths = stale_paths(sub, entries, keep_index);
        let earlier = stale_paths(sub, entries.drop_last(), keep_index);
        assert forall|i: int| 0 <= i < paths.len() implies is_within(#[trigger] paths[i], root) by {
            if i < earlier.len() {
                assert(paths[i] == earlier[i]);
            }
        }
    }
}

proof fn lemma_badge_names()
    ensures
        is_entry_name("badge.json"@),
        is_entry_name("badge.svg"@),
{
    reveal_strlit("badge.json");
    reveal_strlit("badge.svg");
    assert("badge.json"@.len() == 10);
    assert("badge.svg"@.len() == 9);
    assert(seq!['.'].len() == 1);
    assert(seq!['.', '.'].len() == 2);
}

/// One step keeps a publication anchored, and touches nothing outside
/// the working copy: what it removes, writes or copies to lies inside the
/// canonical root that the caller reported.
pub proof fn lemma_step_contained(state: PublisherView, event: PublishEvent)
    requires
        anchored(state),
    ensures
        anchored(transition(state, event).0),
        touches_only(transition(state, event).1, transition(state, event).0.root),
        touches(transition(state, event).1) ==> past_check(state.step),
{
    let (next, action) = transition(state, event);
    lemma_badge_names();
    match (state.step, event) {
        (Step::Listing, PublishEvent::Listed { entries, fresh_index }) => {
            if first_bad_entry(entries.deep_view()) is None {
                lemma_stale_within(
                    state.sub,
                    entries.deep_view(),
                    state.keeps_index(fresh_index),
                    state.root,
                );
            }
        },
        (Step::Copying, PublishEvent::Copied(_)) => {
            lemma_entry_within(state.sub, "badge.json"@, state.root);
        },
        (Step::WritingRecord, PublishEvent::Written) => {
            lemma_entry_within(state.sub, "badge.svg"@, state.root);
        },
        _ => {},
    }
}

/// A publication that has not begun is anchored.
pub proof fn lemma_initial_anchored(request: PublishRequest)
    ensures
        anchored(initial(request)),
{
}

/// Whatever the caller reports, a publication touches nothing outside
/// the working copy: each action of a run removes, writes and copies to
/// paths inside the root that the publication then holds, and none does
/// so before the publish path was checked.
pub proof fn lemma_run_contained(request: PublishRequest, events: Seq<PublishEvent>, i: int)
    requires
        0 <= i < events.len(),
    ensures
        run(initial(request), events).1.len() == events.len(),
        anchored(run(initial(request), events.take(i)).0),
        run(initial(request), events).1[i] == transition(
            run(initial(request), events.take(i)).0,
            events[i],
        ).1,
        touches_only(
            run(initial(request), events).1[i],
            run(initial(request), events.take(i + 1)).0.root,
        ),
        touches(run(initial(request), events).1[i]) ==> past_check(
            run(initial(request), events.take(i)).0.step,
        ),
{
    let start = initial(request);
    lemma_run_prefix(start, events, i);
    lemma_run_anchored(start, events.take(i));
    lemma_step_contained(run(start, events.take(i)).0, events[i]);
    assert(events.take(i + 1).drop_last() =~= events.take(i));
    assert(events.take(i + 1).last() == events[i]);
}

proof fn lemma_run_anchored(state: PublisherView, events: Seq<PublishEvent>)
    requires
        anchored(state),
    ensures
        anchored(run(state, events).0),
    decreases events.len(),
{
    if events.len() != 0 {
        lemma_run_anchored(state, events.drop_last());
        lemma_step_contained(run(state, events.drop_last()).0, events.last());
    }
}

proof fn lemma_run_prefix(state: PublisherView, events: Seq<PublishEvent>, i: int)
    requires
        0 <= i < events.len(),
    ensures
        run(state, events).1.len() == events.len(),
        run(state, events).1[i] == transition(run(state, events.take(i)).0, events[i]).1,
    decreases events.len(),
{
    lemma_run_len(state, events);
    if i == events.len() - 1 {
        assert(events.take(i) =~= events.drop_last());
    } else {
        lemma_run_prefix(state, events.drop_last(), i);
        lemma_run_len(state, events.drop_last());
        assert(events.drop_last().take(i) =~= events.take(i));
    }
}

proof fn lemma_run_len(state: PublisherView, events: Seq<PublishEvent>)
    ensures
        run(state, events).1.len() == events.len(),
    decreases events.len(),
{
    if events.len() != 0 {
        lemma_run_len(state, events.drop_last());
    }
}

proof fn lemma_failed_stays(state: PublisherView, events: Seq<PublishEvent>)
    requires
        state.step is Failed,
    ensures
        run(state, events).0.step is Failed,
        run(state, events).1.len() == events.len(),
        forall|i: int| 0 <= i < events.len() ==> #[trigger] run(state, events).1[i] is Finish,
    decreases events.len(),
{
    if events.len() != 0 {
        lemma_failed_stays(state, events.drop_last());
    }
}

/// A publish path that is canonical outside the working copy is refused
/// before anything is removed: the publication fails with `PathEscape`,
/// and whatever the caller reports afterwards, no action removes, writes
/// or copies anything.
pub proof fn lemma_path_escape_refused(
    state: PublisherView,
    path: String,
    root: String,
    later: Seq<PublishEvent>,
)
    requires
        state.step is Resolving,
        !is_within(path@, root@),
    ensures
        ({
            let (refused, action) = transition(state, PublishEvent::Resolved { path, root });
            &&& refused.step is Failed
            &&& action == (PublishActionView::Finish {
                notice: None,
                result: Err(CliErrorView::Validation(ValidationErrorView::PathEscape)),
            })
            &&& run(refused, later).1.len() == later.len()
            &&& forall|i: int|
                0 <= i < later.len() ==> !touches(#[trigger] run(refused, later).1[i])
        }),
{
    let (refused, action) = transition(state, PublishEvent::Resolved { path, root });
    lemma_failed_stays(refused, later);
}

/// A commit that finds nothing to commit is no failure: where the commit
/// command exits with another code than 0, the publication ends there,
/// without a push, with the outcome it would have had after one.
pub proof fn lemma_nothing_to_publish(state: PublisherView, status: ExitStatus)
    requires
        state.step is Committing,
        !status.succeeded(),
    ensures
        transition(state, PublishEvent::Exited(Ok(status))) == (
            state.at(Step::Done),
            PublishActionView::Finish {
                notice: Some("No changes to the documentation."@),
                result: state.outcome(),
            },
        ),
        state.copied ==> state.outcome() is Ok,
{
}

/// Whether the event answers what the publication last asked for.
pub open spec fn expects(step: Step, event: PublishEvent) -> bool {
    match (step, event) {
        (Step::Idle, PublishEvent::Begin) => true,
        (Step::Probing, PublishEvent::Exists(_)) => true,
        (Step::Cloning, PublishEvent::Exited(_)) => true,
        (Step::Initializing, PublishEvent::Exited(_)) => true,
        (Step::CheckingOut, PublishEvent::Exited(_)) => true,
        (Step::CreatingDir, PublishEvent::DirCreated(_)) => true,
        (Step::Resolving, PublishEvent::Resolved { .. }) => true,
        (Step::Listing, PublishEvent::Listed { .. }) => true,
        (Step::Clearing, PublishEvent::Cleared) => true,
        (Step::ReadingMetadata, PublishEvent::Metadata(_)) => true,
        (Step::Copying, PublishEvent::Copied(_)) => true,
        (Step::WritingRecord, PublishEvent::Written) => true,
        (Step::WritingPicture, PublishEvent::Written) => true,
        (Step::Staging, PublishEvent::Exited(_)) => true,
        (Step::Committing, PublishEvent::Exited(_)) => true,
        (Step::Pushing, PublishEvent::Exited(_)) => true,
        _ => false,
    }
}

/// A publication that is told what it did not ask for ends there.
pub proof fn lemma_unexpected(state: PublisherView, event: PublishEvent)
    requires
        !expects(state.step, event),
    ensures
        transition(state, event) == state.fail(unexpected()),
{
}

/// No directory is created outside the working copy: whatever the caller
/// reports, a directory is asked for only below the working copy, by a
/// path that the request writes relative and that never leads out of it.
/// A request whose path is absolute or leads out ends in `PathEscape`
/// where the directory would have been asked for.
pub proof fn lemma_create_dir_inside(state: PublisherView, event: PublishEvent)
    ensures
        transition(state, event).1 matches PublishActionView::CreateDir { path } ==> {
            &&& is_relative_inside(state.request.doc_path@)
            &&& path == joined(working_copy(), state.request.doc_path@)
            &&& is_within(path, working_copy())
        },
        !is_relative_inside(state.request.doc_path@) ==> state.create_dir() == state.fail(
            CliErrorView::Validation(ValidationErrorView::PathEscape),
        ),
{
    reveal_strlit("target/doc-upload");
    let root = working_copy();
    let path = joined(root, state.request.doc_path@);
    if is_relative_inside(state.request.doc_path@) {
        assert(root.len() == 17);
        assert(root.last() != '/');
        assert(path =~= root + seq!['/'] + state.request.doc_path@);
        assert(root =~= path.subrange(0, root.len() as int));
    }
}

} // verus!
