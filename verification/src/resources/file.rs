//! Replacing a file under the guard of a backup, and exporting one as base64.
//!
//! Nothing here touches a disk. [`set`] opens a run of a small state machine:
//! [`SetState::action`] says what is to be done next, the caller does it and
//! reports how it went, and [`SetState::step`] decides what follows. The laws at
//! the end of the module say what such a run leaves behind on a store that
//! behaves.

use crate::encoding::{base64_fits, base64_len, base64_text, text_bytes, to_base64};
use vstd::prelude::*;
use vstd::string::*;

verus! {

/// What [`export_base64`] reports for a file too large to encode.
pub const TOO_LARGE: &'static str = "content is too large to encode";

/// What is put between a failed write's message and the message of the failed
/// attempt to restore the backup.
pub const RESTORE_FAILED: &'static str = "; restoring the backup failed: ";

/// The name of the backup that guards `name`.
pub open spec fn backup_name_of(name: Seq<char>) -> Seq<char> {
    name + ".bak"@
}

/// The name of the backup that guards `name`.
pub fn backup_name(name: &str) -> (r: String)
    ensures
        r@ == backup_name_of(name@),
{
    name.to_owned().concat(".bak")
}

/// The base64 text of a file's content, given the outcome of reading the file.
///
/// A failed read is passed on with its message; a content whose text would not
/// fit the machine is reported as [`TOO_LARGE`].
pub fn export_base64(contents: Result<Vec<u8>, String>) -> (r: Result<String, String>)
    ensures
        match contents {
            Ok(data) => if base64_fits(data@.len()) {
                &&& r matches Ok(text)
                &&& text@ == base64_text(data@)
                &&& text@.len() == base64_len(data@.len())
                &&& vstd::utf8::is_ascii_chars(text@)
            } else {
                r matches Err(message) && message@ == TOO_LARGE@
            },
            Err(error) => r matches Err(message) && message@ == error@,
        },
{
    match contents {
        Ok(data) => match to_base64(data.as_slice()) {
            Some(text) => Ok(text),
            None => Err(TOO_LARGE.to_owned()),
        },
        Err(error) => Err(error),
    }
}

/// Where a run of [`set`] stands.
#[derive(Clone, Copy, Debug, PartialEq, Eq)]
pub enum Stage {
    /// Asking whether the target exists.
    ProbeTarget,
    /// Copying the target to its backup.
    Backup,
    /// Writing the new content to the target.
    Write,
    /// The write failed; asking whether there is a backup to restore.
    ProbeAfterFailure,
    /// Copying the backup over the target.
    Restore,
    /// The write succeeded; asking whether there is a backup to remove.
    ProbeAfterSuccess,
    /// Removing the backup.
    Discard,
    /// Nothing is left to do.
    Finished,
}

/// What the caller is asked to do.
#[derive(Debug)]
pub enum SetAction {
    /// Report with [`SetEvent::Found`] whether a file exists at `path`.
    Probe { path: String },
    /// Copy the file at `from` to `to`, replacing what is there.
    Copy { from: String, to: String },
    /// Create or truncate the file at `path` and write `content` to it.
    Write { path: String, content: String },
    /// Remove the file at `path`.
    Remove { path: String },
    /// The run is over, with this result.
    Finish { result: Result<(), String> },
}

/// How the action went.
#[derive(Debug)]
pub enum SetEvent {
    /// The answer to a probe.
    Found(bool),
    /// The copy, write or removal was done.
    Completed,
    /// The copy, write or removal failed, with this message.
    Failed(String),
}

/// A run of [`set`]: the target, the content it is to get, and how far it is.
#[derive(Debug)]
pub struct SetState {
    name: String,
    content: String,
    stage: Stage,
    failure: Option<String>,
}

/// [`SetAction`] as contracts see it.
pub enum SetActionView {
    Probe { path: Seq<char> },
    Copy { from: Seq<char>, to: Seq<char> },
    Write { path: Seq<char>, content: Seq<char> },
    Remove { path: Seq<char> },
    Finish { result: Result<(), Seq<char>> },
}

/// [`SetEvent`] as contracts see it.
pub enum SetEventView {
    Found(bool),
    Completed,
    Failed(Seq<char>),
}

/// [`SetState`] as contracts see it.
pub struct SetStateView {
    pub name: Seq<char>,
    pub content: Seq<char>,
    pub stage: Stage,
    pub failure: Option<Seq<char>>,
}

impl View for SetAction {
    type V = SetActionView;

    open spec fn view(&self) -> SetActionView {
        match self {
            SetAction::Probe { path } => SetActionView::Probe { path: path@ },
            SetAction::Copy { from, to } => SetActionView::Copy { from: from@, to: to@ },
            SetAction::Write { path, content } => SetActionView::Write {
                path: path@,
                content: content@,
            },
            SetAction::Remove { path } => SetActionView::Remove { path: path@ },
            SetAction::Finish { result } => SetActionView::Finish {
                result: match result {
                    Ok(_) => Ok(()),
                    Err(message) => Err(message@),
                },
            },
        }
    }
}

impl View for SetEvent {
    type V = SetEventView;

    open spec fn view(&self) -> SetEventView {
        match self {
            SetEvent::Found(exists) => SetEventView::Found(*exists),
            SetEvent::Completed => SetEventView::Completed,
            SetEvent::Failed(message) => SetEventView::Failed(message@),
        }
    }
}

impl View for SetState {
    type V = SetStateView;

    closed spec fn view(&self) -> SetStateView {
        SetStateView {
            name: self.name@,
            content: self.content@,
            stage: self.stage,
            failure: match self.failure {
                Some(message) => Some(message@),
                None => None,
            },
        }
    }
}

/// The state in which a run for `name` and `content` begins.
pub open spec fn start_of(name: Seq<char>, content: Seq<char>) -> SetStateView {
    SetStateView { name, content, stage: Stage::ProbeTarget, failure: None }
}

/// What a state asks for.
pub open spec fn action_of(state: SetStateView) -> SetActionView {
    let backup = backup_name_of(state.name);
    match state.stage {
        Stage::ProbeTarget => SetActionView::Probe { path: state.name },
        Stage::Backup => SetActionView::Copy { from: state.name, to: backup },
        Stage::Write => SetActionView::Write { path: state.name, content: state.content },
        Stage::ProbeAfterFailure => SetActionView::Probe { path: backup },
        Stage::Restore => SetActionView::Copy { from: backup, to: state.name },
        Stage::ProbeAfterSuccess => SetActionView::Probe { path: backup },
        Stage::Discard => SetActionView::Remove { path: backup },
        Stage::Finished => SetActionView::Finish {
            result: match state.failure {
                Some(message) => Err(message),
                None => Ok(()),
            },
        },
    }
}

/// The state that follows `state` once its action went as `event` says.
///
/// An existing target is backed up before the write. A failed backup ends the
/// run with its message and nothing written. After a failed write the backup,
/// if there is one, is copied back, and the run ends with the write's message,
/// followed by the restore's message where that failed too. After a good write
/// the backup, if there is one, is removed. An event that does not answer the
/// action leaves the state as it is.
pub open spec fn step_of(state: SetStateView, event: SetEventView) -> SetStateView {
    match (state.stage, event) {
        (Stage::ProbeTarget, SetEventView::Found(exists)) => SetStateView {
            stage: if exists {
                Stage::Backup
            } else {
                Stage::Write
            },
            ..state
        },
        (Stage::Backup, SetEventView::Completed) => SetStateView { stage: Stage::Write, ..state },
        (Stage::Backup, SetEventView::Failed(message)) => SetStateView {
            stage: Stage::Finished,
            failure: Some(message),
            ..state
        },
        (Stage::Write, SetEventView::Completed) => SetStateView {
            stage: Stage::ProbeAfterSuccess,
            ..state
        },
        (Stage::Write, SetEventView::Failed(message)) => SetStateView {
            stage: Stage::ProbeAfterFailure,
            failure: Some(message),
            ..state
        },
        (Stage::ProbeAfterFailure, SetEventView::Found(exists)) => SetStateView {
            stage: if exists {
                Stage::Restore
            } else {
                Stage::Finished
            },
            ..state
        },
        (Stage::Restore, SetEventView::Completed) => SetStateView {
            stage: Stage::Finished,
            ..state
        },
        (Stage::Restore, SetEventView::Failed(message)) => SetStateView {
            stage: Stage::Finished,
            failure: Some(
                match state.failure {
                    Some(first) => first + RESTORE_FAILED@ + message,
                    None => message,
                },
            ),
            ..state
        },
        (Stage::ProbeAfterSuccess, SetEventView::Found(exists)) => SetStateView {
            stage: if exists {
                Stage::Discard
            } else {
                Stage::Finished
            },
            ..state
        },
        (Stage::Discard, SetEventView::Completed) => SetStateView {
            stage: Stage::Finished,
            ..state
        },
        (Stage::Discard, SetEventView::Failed(message)) => SetStateView {
            stage: Stage::Finished,
            failure: Some(message),
            ..state
        },
        _ => state,
    }
}

/// Whether `event` answers what `stage` asks: a probe is answered by what was
/// found, a copy, write or removal by its outcome, the end of the run by
/// nothing.
pub open spec fn answers(stage: Stage, event: SetEventView) -> bool {
    match stage {
        Stage::ProbeTarget | Stage::ProbeAfterFailure | Stage::ProbeAfterSuccess => event is Found,
        Stage::Backup | Stage::Write | Stage::Restore | Stage::Discard => !(event is Found),
        Stage::Finished => false,
    }
}

/// The most actions that a run at `stage` still asks for.
pub open spec fn remaining(stage: Stage) -> nat {
    match stage {
        Stage::ProbeTarget => 5,
        Stage::Backup => 4,
        Stage::Write => 3,
        Stage::ProbeAfterFailure | Stage::ProbeAfterSuccess => 2,
        Stage::Restore | Stage::Discard => 1,
        Stage::Finished => 0,
    }
}

/// What holds of every state of a run: it holds a message exactly from the
/// first failure on. Before the write and on the way that follows a good write
/// there is none; on the way that follows a failed write there is one.
pub open spec fn well_formed(state: SetStateView) -> bool {
    match state.stage {
        Stage::ProbeTarget
        | Stage::Backup
        | Stage::Write
        | Stage::ProbeAfterSuccess
        | Stage::Discard => state.failure is None,
        Stage::ProbeAfterFailure | Stage::Restore => state.failure is Some,
        Stage::Finished => true,
    }
}

/// Opens the run that gives the file `name` the content `content`.
pub fn set(name: &str, content: &str) -> (r: SetState)
    ensures
        r@ == start_of(name@, content@),
        well_formed(r@),
{
    SetState {
        name: name.to_owned(),
        content: content.to_owned(),
        stage: Stage::ProbeTarget,
        failure: None,
    }
}

impl SetState {
    #[verifier::type_invariant]
    spec fn holds_message_from_first_failure(self) -> bool {
        well_formed(self@)
    }

    /// How far the run is.
    pub fn stage(&self) -> (r: Stage)
        ensures
            r == self@.stage,
    {
        self.stage
    }

    /// What is to be done next.
    pub fn action(&self) -> (r: SetAction)
        ensures
            r@ == action_of(self@),
            well_formed(self@),
    {
        proof {
            use_type_invariant(self);
        }
        match self.stage {
            Stage::ProbeTarget => SetAction::Probe { path: self.name.clone() },
            Stage::Backup => SetAction::Copy {
                from: self.name.clone(),
                to: backup_name(self.name.as_str()),
            },
            Stage::Write => SetAction::Write {
                path: self.name.clone(),
                content: self.content.clone(),
            },
            Stage::ProbeAfterFailure => SetAction::Probe { path: backup_name(self.name.as_str()) },
            Stage::Restore => SetAction::Copy {
                from: backup_name(self.name.as_str()),
                to: self.name.clone(),
            },
            Stage::ProbeAfterSuccess => SetAction::Probe { path: backup_name(self.name.as_str()) },
            Stage::Discard => SetAction::Remove { path: backup_name(self.name.as_str()) },
            Stage::Finished => SetAction::Finish {
                result: match &self.failure {
                    Some(message) => Err(message.clone()),
                    None => Ok(()),
                },
            },
        }
    }

    /// Takes in how the action went and moves on.
    pub fn step(self, event: SetEvent) -> (r: SetState)
        ensures
            r@ == step_of(self@, event@),
            well_formed(self@),
            well_formed(r@),
    {
        proof {
            use_type_invariant(&self);
        }
        let SetState { name, content, stage, failure } = self;
        let (stage, failure) = match stage {
            Stage::ProbeTarget => match event {
                SetEvent::Found(true) => (Stage::Backup, failure),
                SetEvent::Found(false) => (Stage::Write, failure),
                _ => (stage, failure),
            },
            Stage::Backup => match event {
                SetEvent::Completed => (Stage::Write, failure),
                SetEvent::Failed(message) => (Stage::Finished, Some(message)),
                _ => (stage, failure),
            },
            Stage::Write => match event {
                SetEvent::Completed => (Stage::ProbeAfterSuccess, failure),
                SetEvent::Failed(message) => (Stage::ProbeAfterFailure, Some(message)),
                _ => (stage, failure),
            },
            Stage::ProbeAfterFailure => match event {
                SetEvent::Found(true) => (Stage::Restore, failure),
                SetEvent::Found(false) => (Stage::Finished, failure),
                _ => (stage, failure),
            },
            Stage::Restore => match event {
                SetEvent::Completed => (Stage::Finished, failure),
                SetEvent::Failed(message) => match failure {
                    Some(first) => (
                        Stage::Finished,
                        Some(first.concat(RESTORE_FAILED).concat(message.as_str())),
                    ),
                    None => (Stage::Finished, Some(message)),
                },
                _ => (stage, failure),
            },
            Stage::ProbeAfterSuccess => match event {
                SetEvent::Found(true) => (Stage::Discard, failure),
                SetEvent::Found(false) => (Stage::Finished, failure),
                _ => (stage, failure),
            },
            Stage::Discard => match event {
                SetEvent::Completed => (Stage::Finished, failure),
                SetEvent::Failed(message) => (Stage::Finished, Some(message)),
                _ => (stage, failure),
            },
            Stage::Finished => (stage, failure),
        };
        SetState { name, content, stage, failure }
    }
}

/// Every answer brings the run nearer to its end, and nothing else moves it:
/// a run is over after five answers at most. The target and the content stay.
pub proof fn lemma_step_progresses(state: SetStateView, event: SetEventView)
    ensures
        answers(state.stage, event) ==> remaining(step_of(state, event).stage) < remaining(
            state.stage,
        ),
        !answers(state.stage, event) ==> step_of(state, event) == state,
        step_of(state, event).name == state.name,
        step_of(state, event).content == state.content,
        well_formed(state) ==> well_formed(step_of(state, event)),
{
}

/// A failure is never dropped: once a run holds a message, every later state
/// holds a message that begins with it, and the run ends in an error.
pub proof fn lemma_failure_is_kept(state: SetStateView, event: SetEventView)
    requires
        well_formed(state),
        state.failure is Some,
    ensures
        step_of(state, event).failure is Some,
        state.failure->0.is_prefix_of(step_of(state, event).failure->0),
        step_of(state, event).stage == Stage::Finished ==> action_of(step_of(state, event))
            == (SetActionView::Finish { result: Err(step_of(state, event).failure->0) }),
{
    let first = state.failure->0;
    assert(first.is_prefix_of(first));
    match event {
        SetEventView::Failed(message) => {
            assert(first.is_prefix_of(first + RESTORE_FAILED@ + message));
        },
        _ => {},
    }
}

/// A run ends well only if nothing failed: every failure of a copy, a write or
/// a removal that answers the run's action leaves a message.
pub proof fn lemma_failure_is_noticed(state: SetStateView, message: Seq<char>)
    requires
        well_formed(state),
        answers(state.stage, SetEventView::Failed(message)),
    ensures
        step_of(state, SetEventView::Failed(message)).failure is Some,
        message.is_suffix_of(step_of(state, SetEventView::Failed(message)).failure->0),
{
    let next = step_of(state, SetEventView::Failed(message)).failure->0;
    assert(message =~= next.subrange(next.len() - message.len(), next.len() as int));
}

/// A store of files as the laws below see it: the content of each file that
/// exists, by name.
pub type Store = Map<Seq<char>, Seq<u8>>;

/// A write that goes wrong: the message it fails with, and what is found at the
/// target afterwards (`None` for no file at all).
pub struct Fault {
    pub message: Seq<char>,
    pub left: Option<Seq<u8>>,
}

/// A store doing what it is asked: the store afterwards, and the event to
/// report. Everything succeeds but a copy of a file that is not there and, under
/// a `fault`, the write.
pub open spec fn perform(store: Store, action: SetActionView, fault: Option<Fault>) -> (
    Store,
    SetEventView,
) {
    match action {
        SetActionView::Probe { path } => (store, SetEventView::Found(store.dom().contains(path))),
        SetActionView::Copy { from, to } => if store.dom().contains(from) {
            (store.insert(to, store[from]), SetEventView::Completed)
        } else {
            (store, SetEventView::Failed(Seq::empty()))
        },
        SetActionView::Write { path, content } => match fault {
            None => (store.insert(path, text_bytes(content)), SetEventView::Completed),
            Some(fault) => (
                match fault.left {
                    Some(debris) => store.insert(path, debris),
                    None => store.remove(path),
                },
                SetEventView::Failed(fault.message),
            ),
        },
        SetActionView::Remove { path } => (store.remove(path), SetEventView::Completed),
        SetActionView::Finish { result } => (store, SetEventView::Completed),
    }
}

/// Up to `steps` rounds of asking the state for its action, performing it on
/// the store and stepping on the event, stopping early once the run is over.
pub open spec fn run(state: SetStateView, store: Store, fault: Option<Fault>, steps: nat) -> (
    SetStateView,
    Store,
)
    decreases steps,
{
    if steps == 0 || state.stage == Stage::Finished {
        (state, store)
    } else {
        let (next, event) = perform(store, action_of(state), fault);
        run(step_of(state, event), next, fault, (steps - 1) as nat)
    }
}

/// A backup never has the name of what it guards.
pub proof fn lemma_backup_name_differs(name: Seq<char>)
    ensures
        backup_name_of(name) != name,
{
    reveal_strlit(".bak");
    assert(backup_name_of(name).len() == name.len() + 4);
}

/// On a store where nothing fails, a run ends within five actions, succeeds,
/// and leaves the new content in the target, no backup, and every other file as
/// it was.
pub proof fn lemma_set_replaces(store: Store, name: Seq<char>, content: Seq<char>)
    ensures
        run(start_of(name, content), store, None, 5).0.stage == Stage::Finished,
        run(start_of(name, content), store, None, 5).0.failure is None,
        run(start_of(name, content), store, None, 5).1 == store.insert(
            name,
            text_bytes(content),
        ).remove(backup_name_of(name)),
        run(start_of(name, content), store, None, 5).1.dom().contains(name),
        run(start_of(name, content), store, None, 5).1[name] == text_bytes(content),
        !run(start_of(name, content), store, None, 5).1.dom().contains(backup_name_of(name)),
{
    lemma_backup_name_differs(name);
    reveal_with_fuel(run, 6);
    let end = run(start_of(name, content), store, None, 5);
    assert(end.1 =~= store.insert(name, text_bytes(content)).remove(backup_name_of(name)));
}

/// Writing the same content a second time changes nothing: after either run
/// the target holds the content and there is no backup.
pub proof fn lemma_set_twice_is_once(store: Store, name: Seq<char>, content: Seq<char>)
    ensures
        ({
            let once = run(start_of(name, content), store, None, 5).1;
            let twice = run(start_of(name, content), once, None, 5).1;
            &&& twice == once
            &&& twice.dom().contains(name)
            &&& twice[name] == text_bytes(content)
            &&& !twice.dom().contains(backup_name_of(name))
        }),
{
    lemma_backup_name_differs(name);
    lemma_set_replaces(store, name, content);
    let once = run(start_of(name, content), store, None, 5).1;
    lemma_set_replaces(once, name, content);
    let twice = run(start_of(name, content), once, None, 5).1;
    assert(twice =~= once);
}

/// Where the write fails on a target that existed, whatever the failed write
/// left there, the run ends within five actions with the write's message, and
/// the target holds again what it held before.
pub proof fn lemma_set_restores(store: Store, name: Seq<char>, content: Seq<char>, fault: Fault)
    requires
        store.dom().contains(name),
    ensures
        run(start_of(name, content), store, Some(fault), 5).0.stage == Stage::Finished,
        run(start_of(name, content), store, Some(fault), 5).0.failure == Some(fault.message),
        run(start_of(name, content), store, Some(fault), 5).1.dom().contains(name),
        run(start_of(name, content), store, Some(fault), 5).1[name] == store[name],
{
    lemma_backup_name_differs(name);
    reveal_with_fuel(run, 6);
}

} // verus!
