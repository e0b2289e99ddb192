//! The order of a run: compute the new version, ask, write, commit, tag.
//!
//! The workflow is a state machine. The caller performs the outside work that
//! [`action`] names for the current state, reports what happened as an
//! [`Event`], and moves on with [`step`]. Nothing here touches a file, a
//! repository or a terminal.

use vstd::prelude::*;
use vstd::string::{StrSliceExecFns, StringExecFns};
use crate::error::BumpError;
use crate::packages::PackageUtils;
use crate::version::{format_version, Increment};

verus! {

/// Where a run stands.
#[derive(Debug, Clone, Copy, PartialEq, Eq, Structural)]
pub enum State {
    /// Nothing has been done yet.
    Init,
    /// The manifest is loaded and holds the new version in memory.
    VersionComputed,
    /// The operator accepted the new version.
    Confirmed,
    /// The manifest on disk holds the new version.
    Written,
    /// The manifest is committed on the current branch.
    Committed,
    /// The new commit is tagged.
    Tagged,
    /// The run succeeded.
    Done,
    /// The run ended early, for the reason given.
    Aborted(BumpError),
}

/// The outside work that a state calls for.
#[derive(Debug, Clone, Copy, PartialEq, Eq, Structural)]
pub enum Action {
    /// Find the manifest, load it and apply the increment.
    ComputeVersion,
    /// Show the new version to the operator and read the answer.
    Confirm,
    /// Write the serialized manifest to its path.
    WriteManifest,
    /// Stage the manifest and commit it as a child of the branch head.
    Commit,
    /// Tag the new commit with the version.
    Tag,
    /// Tell the operator that the bump succeeded.
    Announce,
    /// Leave the process with the given exit code.
    Exit(i32),
}

/// What the caller reports after performing an action.
#[derive(Debug, Clone, Copy, PartialEq, Eq, Structural)]
pub enum Event {
    /// The action was carried out. For the prompt: the operator accepted.
    Completed,
    /// The operator did not accept the new version.
    Declined,
    /// The action failed.
    Failed(BumpError),
}

impl State {
    /// Whether the run is over.
    pub open spec fn terminal(self) -> bool {
        self is Done || self is Aborted
    }

    /// How far along the run is.
    pub open spec fn rank(self) -> nat {
        match self {
            State::Init => 0,
            State::VersionComputed => 1,
            State::Confirmed => 2,
            State::Written => 3,
            State::Committed => 4,
            State::Tagged => 5,
            State::Done => 6,
            State::Aborted(_) => 6,
        }
    }

    /// The state that follows when the work of this one has completed. A run
    /// that does not tag is done once it has committed.
    pub open spec fn successor(self, tag: bool) -> State {
        match self {
            State::Init => State::VersionComputed,
            State::VersionComputed => State::Confirmed,
            State::Confirmed => State::Written,
            State::Written => State::Committed,
            State::Committed => if tag {
                State::Tagged
            } else {
                State::Done
            },
            State::Tagged => State::Done,
            State::Done => self,
            State::Aborted(_) => self,
        }
    }

    /// Whether the run is over.
    pub fn is_terminal(&self) -> (over: bool)
        ensures
            over == self.terminal(),
    {
        match self {
            State::Done | State::Aborted(_) => true,
            _ => false,
        }
    }
}

/// The increment that the three selector flags ask for: the most significant
/// one that is set wins.
pub open spec fn selected(major: bool, minor: bool, patch: bool) -> Option<Increment> {
    if major {
        Some(Increment::Major)
    } else if minor {
        Some(Increment::Minor)
    } else if patch {
        Some(Increment::Patch)
    } else {
        None
    }
}

/// Picks the increment from the three selector flags.
pub fn select_increment(major: bool, minor: bool, patch: bool) -> (increment: Option<Increment>)
    ensures
        increment == selected(major, minor, patch),
{
    if major {
        Some(Increment::Major)
    } else if minor {
        Some(Increment::Minor)
    } else if patch {
        Some(Increment::Patch)
    } else {
        None
    }
}

/// Applies the increment that was asked for to a loaded manifest, in memory
/// alone, and gives the text of the new version.
///
/// Without an increment the run ends cleanly, and a component that cannot
/// grow ends it as a failure; the manifest is then left as it was.
pub fn compute_version<P: PackageUtils>(package: &mut P, increment: Option<Increment>) -> (text:
    Result<String, BumpError>)
    ensures
        match increment {
            Some(increment) => if old(package).version().can_raise(increment) {
                &&& text matches Ok(t)
                &&& t@ == format_version(old(package).version().raised(increment))
                &&& *final(package) == old(package).with_version(
                    old(package).version().raised(increment),
                )
            } else {
                &&& text == Err::<String, BumpError>(BumpError::VersionOverflow)
                &&& *final(package) == *old(package)
            },
            None => {
                &&& text == Err::<String, BumpError>(BumpError::NoIncrementSpecified)
                &&& *final(package) == *old(package)
            },
        },
{
    let done = match increment {
        Some(Increment::Major) => package.increment_major(),
        Some(Increment::Minor) => package.increment_minor(),
        Some(Increment::Patch) => package.increment_patch(),
        None => Err(BumpError::NoIncrementSpecified),
    };
    match done {
        Ok(()) => {
            proof {
                let before = old(package);
                before.lemma_with_version(before.version().raised(increment.unwrap()));
            }
            Ok(package.get_version().to_string())
        },
        Err(error) => Err(error),
    }
}

/// The work that `state` calls for. `tag` says whether the run tags its
/// commit.
pub open spec fn planned(state: State, tag: bool) -> Action {
    match state {
        State::Init => Action::ComputeVersion,
        State::VersionComputed => Action::Confirm,
        State::Confirmed => Action::WriteManifest,
        State::Written => Action::Commit,
        State::Committed => if tag {
            Action::Tag
        } else {
            Action::Announce
        },
        State::Tagged => Action::Announce,
        State::Done => Action::Exit(0),
        State::Aborted(error) => Action::Exit(
            if error.fatal() {
                1
            } else {
                0
            },
        ),
    }
}

/// The state that follows `state` once `event` is reported.
///
/// A finished run stays finished. Otherwise completed work leads to the
/// successor, a failure aborts the run with the reported error, and a decline
/// aborts it as `UserAborted`.
pub open spec fn next(state: State, event: Event, tag: bool) -> State {
    if state.terminal() {
        state
    } else {
        match event {
            Event::Completed => state.successor(tag),
            Event::Declined => State::Aborted(BumpError::UserAborted),
            Event::Failed(error) => State::Aborted(error),
        }
    }
}

/// The state after a whole sequence of events, starting from `state`.
pub open spec fn run(state: State, events: Seq<Event>, tag: bool) -> State
    decreases events.len(),
{
    if events.len() == 0 {
        state
    } else {
        next(run(state, events.drop_last(), tag), events.last(), tag)
    }
}

/// Names the outside work that `state` calls for.
///
/// The manifest is written only once the operator has confirmed, a commit is
/// asked for only once the manifest is written, and a tag only for an
/// existing commit of a run that tags.
pub fn action(state: State, tag: bool) -> (work: Action)
    ensures
        work == planned(state, tag),
        work is WriteManifest <==> state is Confirmed,
        work is Commit <==> state is Written,
        work is Tag <==> state is Committed && tag,
        work is Exit <==> state.terminal(),
{
    match state {
        State::Init => Action::ComputeVersion,
        State::VersionComputed => Action::Confirm,
        State::Confirmed => Action::WriteManifest,
        State::Written => Action::Commit,
        State::Committed => if tag {
            Action::Tag
        } else {
            Action::Announce
        },
        State::Tagged => Action::Announce,
        State::Done => Action::Exit(0),
        State::Aborted(error) => Action::Exit(error.exit_code()),
    }
}

/// Moves the run on after `event`. Every event moves an unfinished run
/// forward, and none moves a finished one.
pub fn step(state: State, event: Event, tag: bool) -> (after: State)
    ensures
        after == next(state, event, tag),
        state.terminal() ==> after == state,
        !state.terminal() ==> after.rank() > state.rank(),
{
    match state {
        State::Done => state,
        State::Aborted(_) => state,
        _ => match event {
            Event::Failed(error) => State::Aborted(error),
            Event::Declined => State::Aborted(BumpError::UserAborted),
            Event::Completed => match state {
                State::Init => State::VersionComputed,
                State::VersionComputed => State::Confirmed,
                State::Confirmed => State::Written,
                State::Written => State::Committed,
                State::Committed => if tag {
                    State::Tagged
                } else {
                    State::Done
                },
                _ => State::Done,
            },
        },
    }
}

/// The state that calls for writing the manifest is entered from
/// `VersionComputed` alone, when the prompt has completed with the operator's
/// consent; the state that calls for a commit from `Confirmed` alone, when
/// the write has completed; the state that calls for a tag from `Written`
/// alone, when the commit has completed; and `Tagged` from `Committed` alone,
/// when the tag has completed in a run that tags.
pub proof fn lemma_each_step_follows_the_one_before(state: State, event: Event, tag: bool)
    ensures
        next(state, event, tag) is Confirmed && !(state is Confirmed) ==> state is VersionComputed
            && event is Completed,
        next(state, event, tag) is Written && !(state is Written) ==> state is Confirmed && event
            is Completed,
        next(state, event, tag) is Committed && !(state is Committed) ==> state is Written
            && event is Completed,
        next(state, event, tag) is Tagged && !(state is Tagged) ==> state is Committed && event
            is Completed && tag,
{
}

/// A run only moves forward. Of two moments of a run, the later one stands
/// at a rank that is no lower, and that is higher where the run was not yet
/// over at the earlier one.
pub proof fn lemma_run_moves_forward(events: Seq<Event>, tag: bool, earlier: int, later: int)
    requires
        0 <= earlier <= later <= events.len(),
    ensures
        run(State::Init, events.take(earlier), tag).rank() <= run(
            State::Init,
            events.take(later),
            tag,
        ).rank(),
        earlier < later && !run(State::Init, events.take(earlier), tag).terminal() ==> run(
            State::Init,
            events.take(earlier),
            tag,
        ).rank() < run(State::Init, events.take(later), tag).rank(),
    decreases later - earlier,
{
    if earlier < later {
        lemma_run_moves_forward(events, tag, earlier, later - 1);
        assert(events.take(later).drop_last() =~= events.take(later - 1));
    }
}

/// In one run the manifest is written at most once, at most one commit is
/// made, and at most one tag: whatever events the run is fed, it asks for
/// none of the three at two different moments.
pub proof fn lemma_write_commit_and_tag_happen_once(
    events: Seq<Event>,
    tag: bool,
    earlier: int,
    later: int,
)
    requires
        0 <= earlier < later <= events.len(),
    ensures
        ({
            let first = planned(run(State::Init, events.take(earlier), tag), tag);
            let second = planned(run(State::Init, events.take(later), tag), tag);
            first is WriteManifest || first is Commit || first is Tag ==> second != first
        }),
{
    lemma_run_moves_forward(events, tag, earlier, later);
}

/// A run that does not tag never asks for a tag and never reaches `Tagged`,
/// whatever events it is fed.
pub proof fn lemma_no_tag_without_request(events: Seq<Event>)
    ensures
        !(run(State::Init, events, false) is Tagged),
        !(planned(run(State::Init, events, false), false) is Tag),
    decreases events.len(),
{
    if events.len() > 0 {
        lemma_no_tag_without_request(events.drop_last());
    }
}

/// When the operator declines, the run is aborted as `UserAborted`. No later
/// event brings it back, and what it calls for is a clean exit.
pub proof fn lemma_declined_run_stays_aborted(events: Seq<Event>, tag: bool)
    ensures
        next(State::VersionComputed, Event::Declined, tag) == State::Aborted(
            BumpError::UserAborted,
        ),
        run(State::Aborted(BumpError::UserAborted), events, tag) == State::Aborted(
            BumpError::UserAborted,
        ),
        planned(State::Aborted(BumpError::UserAborted), tag) == Action::Exit(0),
    decreases events.len(),
{
    if events.len() > 0 {
        lemma_declined_run_stays_aborted(events.drop_last(), tag);
    }
}

/// The text of the confirmation prompt for `version`.
pub open spec fn prompt_text(version: Seq<char>) -> Seq<char> {
    "Update the version to: "@ + version + "? [y/N]"@
}

/// Builds the confirmation prompt for the new version.
pub fn prompt(version: &str) -> (text: String)
    ensures
        text@ == prompt_text(version@),
{
    String::from_str("Update the version to: ").concat(version).concat("? [y/N]")
}

/// An answer without the whitespace around it: what `str::trim` returns.
pub uninterp spec fn trimmed(text: Seq<char>) -> Seq<char>;

/// An answer in lower case: what `str::to_lowercase` returns.
pub uninterp spec fn lowercased(text: Seq<char>) -> Seq<char>;

/// `str::trim`. Trusted: the result depends on the text alone, and is named
/// `trimmed`.
pub assume_specification[ str::trim ](s: &str) -> (r: &str)
    ensures
        r@ == trimmed(s@),
;

/// `str::to_lowercase`. Trusted: the result depends on the text alone, and is
/// named `lowercased`.
pub assume_specification[ str::to_lowercase ](s: &str) -> (r: String)
    ensures
        r@ == lowercased(s@),
;

/// Whether the operator's answer accepts the new version: once the
/// whitespace around it is dropped and its letters are lowered, it is the
/// single letter `y`.
pub open spec fn affirmative(answer: Seq<char>) -> bool {
    lowercased(trimmed(answer)) == seq!['y']
}

/// Whether a trimmed, lower-case answer is the affirmative one: the single
/// letter `y`.
pub fn is_yes(answer: &str) -> (yes: bool)
    ensures
        yes == (answer@ == seq!['y']),
{
    let yes = answer.unicode_len() == 1 && answer.get_char(0) == 'y';
    proof {
        if yes {
            assert(answer@ =~= seq!['y']);
        }
    }
    yes
}

/// Whether the operator's answer accepts the new version.
pub fn is_affirmative(answer: &str) -> (accepted: bool)
    ensures
        accepted == affirmative(answer@),
{
    let normalized = answer.trim().to_lowercase();
    is_yes(normalized.as_str())
}

/// The event that the operator's answer to the prompt amounts to: the prompt
/// has completed where the answer is affirmative, and the operator has
/// declined with any other answer.
pub fn answer(text: &str) -> (event: Event)
    ensures
        event == if affirmative(text@) {
            Event::Completed
        } else {
            Event::Declined
        },
{
    if is_affirmative(text) {
        Event::Completed
    } else {
        Event::Declined
    }
}

} // verus!
