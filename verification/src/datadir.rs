//! The data directory: it is created where it is missing, and swept where it
//! exists. The sweep removes what is no completed artifact: every file that
//! is no audio file, and every audio file without a titled metadata tag, the
//! mark that an earlier run left unfinished.
//!
//! The sweep is a state machine. The caller does what the action says,
//! reports what it found as an event, and gets the next action.

use crate::error::Error;
use crate::tag::{read_tag_title, tag_title};
use crate::text::strip_suffix;
use vstd::prelude::*;

verus! {

/// Where a sweep stands: what it waits to hear of.
#[derive(Clone, Copy, Debug, PartialEq, Eq)]
pub enum Sweep {
    /// Whether the directory exists.
    Stat,
    /// That the directory has been created.
    Creating,
    /// The next entry of the directory.
    Scanning,
    /// The content of the entry at hand, an audio file.
    Inspecting,
    /// That the entry at hand has been removed.
    Removing,
    /// Nothing: the directory is ready.
    Done,
    /// Nothing: the sweep was given up.
    Failed(Error),
}

/// What the caller of a sweep does next.
#[derive(Clone, Copy, Debug, PartialEq, Eq)]
pub enum SweepAction {
    /// Find out whether the directory exists; report `Exists`.
    Stat,
    /// Create the directory; report `Created`.
    Create,
    /// Take the next entry of the directory; report `Entry` with its name,
    /// or with `None` when there is none left.
    Next,
    /// Read the entry at hand; report `Content`.
    Read,
    /// Remove the entry at hand; report `Removed`.
    Remove,
    /// Stop: the directory is ready.
    Finish,
    /// Stop: the sweep failed, as its state says.
    Abort,
}

/// What the caller of a sweep found when it did as told.
#[derive(Clone, Debug, PartialEq, Eq)]
pub enum SweepEvent {
    /// Whether the directory exists.
    Exists(bool),
    /// The directory has been created.
    Created,
    /// The name of the next entry, or `None` when no entry is left.
    Entry(Option<String>),
    /// The bytes of the entry at hand.
    Content(Vec<u8>),
    /// The entry at hand has been removed.
    Removed,
    /// The action could not be performed.
    Failed,
}

/// Whether a file of this name is an audio file.
pub open spec fn is_audio_name(name: Seq<char>) -> bool {
    ".mp3"@.is_suffix_of(name)
}

/// Whether what a tag says of its title marks a completed artifact: there is
/// a title, and it is not empty.
pub open spec fn is_titled(title: Option<Seq<char>>) -> bool {
    title matches Some(t) && t.len() > 0
}

/// The action that a sweep in `state` waits on.
pub open spec fn pending(state: Sweep) -> SweepAction {
    match state {
        Sweep::Stat => SweepAction::Stat,
        Sweep::Creating => SweepAction::Create,
        Sweep::Scanning => SweepAction::Next,
        Sweep::Inspecting => SweepAction::Read,
        Sweep::Removing => SweepAction::Remove,
        Sweep::Done => SweepAction::Finish,
        Sweep::Failed(_) => SweepAction::Abort,
    }
}

/// How a sweep goes on once the tag of the audio file at hand has been read:
/// a titled file stays, an untitled one is removed, and a tag that cannot be
/// read ends the sweep.
pub open spec fn judged(title: Result<Option<Seq<char>>, Error>) -> Sweep {
    match title {
        Ok(t) => if is_titled(t) {
            Sweep::Scanning
        } else {
            Sweep::Removing
        },
        Err(e) => Sweep::Failed(e),
    }
}

/// The state that follows `state` on `event`. An event that `state` does not
/// wait for changes nothing.
pub open spec fn sweep_next(state: Sweep, event: SweepEvent) -> Sweep {
    match (state, event) {
        (Sweep::Stat, SweepEvent::Exists(true)) => Sweep::Scanning,
        (Sweep::Stat, SweepEvent::Exists(false)) => Sweep::Creating,
        (Sweep::Creating, SweepEvent::Created) => Sweep::Done,
        (Sweep::Creating, SweepEvent::Failed) => Sweep::Failed(Error::DataDirError),
        (Sweep::Scanning, SweepEvent::Entry(Some(name))) => if is_audio_name(name@) {
            Sweep::Inspecting
        } else {
            Sweep::Removing
        },
        (Sweep::Scanning, SweepEvent::Entry(None)) => Sweep::Done,
        (Sweep::Scanning, SweepEvent::Failed) => Sweep::Failed(Error::DataDirError),
        (Sweep::Inspecting, SweepEvent::Content(bytes)) => judged(tag_title(bytes@)),
        (Sweep::Inspecting, SweepEvent::Failed) => Sweep::Failed(Error::TagReadError),
        (Sweep::Removing, SweepEvent::Removed) => Sweep::Scanning,
        (Sweep::Removing, SweepEvent::Failed) => Sweep::Failed(Error::DataDirError),
        _ => state,
    }
}

/// Whether a file of this name is an audio file.
pub fn is_audio(name: &str) -> (audio: bool)
    ensures
        audio == is_audio_name(name@),
{
    strip_suffix(name, ".mp3").is_some()
}

/// How a sweep goes on once the tag of the audio file at hand has been read.
pub fn judge(title: Result<Option<String>, Error>) -> (next: Sweep)
    ensures
        next == judged(
            match title {
                Ok(Some(t)) => Ok(Some(t@)),
                Ok(None) => Ok(None),
                Err(e) => Err(e),
            },
        ),
{
    match title {
        Ok(Some(t)) => if t.as_str().is_empty() {
            Sweep::Removing
        } else {
            Sweep::Scanning
        },
        Ok(None) => Sweep::Removing,
        Err(e) => Sweep::Failed(e),
    }
}

impl Sweep {
    /// A sweep at its start.
    pub fn start() -> (sweep: Sweep)
        ensures
            sweep == Sweep::Stat,
    {
        Sweep::Stat
    }

    /// The action that this sweep waits on.
    pub fn action(&self) -> (action: SweepAction)
        ensures
            action == pending(*self),
    {
        match self {
            Sweep::Stat => SweepAction::Stat,
            Sweep::Creating => SweepAction::Create,
            Sweep::Scanning => SweepAction::Next,
            Sweep::Inspecting => SweepAction::Read,
            Sweep::Removing => SweepAction::Remove,
            Sweep::Done => SweepAction::Finish,
            Sweep::Failed(_) => SweepAction::Abort,
        }
    }

    /// Takes in what the caller found when it did the pending action.
    pub fn step(self, event: SweepEvent) -> (next: Sweep)
        ensures
            next == sweep_next(self, event),
    {
        match (self, event) {
            (Sweep::Stat, SweepEvent::Exists(exists)) => if exists {
                Sweep::Scanning
            } else {
                Sweep::Creating
            },
            (Sweep::Creating, SweepEvent::Created) => Sweep::Done,
            (Sweep::Creating, SweepEvent::Failed) => Sweep::Failed(Error::DataDirError),
            (Sweep::Scanning, SweepEvent::Entry(Some(name))) => if is_audio(name.as_str()) {
                Sweep::Inspecting
            } else {
                Sweep::Removing
            },
            (Sweep::Scanning, SweepEvent::Entry(None)) => Sweep::Done,
            (Sweep::Scanning, SweepEvent::Failed) => Sweep::Failed(Error::DataDirError),
            (Sweep::Inspecting, SweepEvent::Content(bytes)) => judge(
                read_tag_title(bytes.as_slice()),
            ),
            (Sweep::Inspecting, SweepEvent::Failed) => Sweep::Failed(Error::TagReadError),
            (Sweep::Removing, SweepEvent::Removed) => Sweep::Scanning,
            (Sweep::Removing, SweepEvent::Failed) => Sweep::Failed(Error::DataDirError),
            (state, _) => state,
        }
    }
}

/// What the sweep does to each file. A file that is no audio file is
/// removed, whatever it holds. An audio file is read: one without a tag, or
/// whose tag has no title or an empty one, is removed; one with a title that
/// is not empty stays; one whose tag cannot be read ends the sweep.
pub proof fn lemma_sweep_policy(name: String, content: Vec<u8>)
    ensures
        !is_audio_name(name@) ==> sweep_next(Sweep::Scanning, SweepEvent::Entry(Some(name)))
            == Sweep::Removing,
        is_audio_name(name@) ==> sweep_next(Sweep::Scanning, SweepEvent::Entry(Some(name)))
            == Sweep::Inspecting,
        tag_title(content@) == Ok::<Option<Seq<char>>, Error>(None) ==> sweep_next(
            Sweep::Inspecting,
            SweepEvent::Content(content),
        ) == Sweep::Removing,
        tag_title(content@) == Ok::<Option<Seq<char>>, Error>(Some(Seq::empty())) ==> sweep_next(
            Sweep::Inspecting,
            SweepEvent::Content(content),
        ) == Sweep::Removing,
        forall|title: Seq<char>|
            title.len() > 0 && tag_title(content@) == Ok::<Option<Seq<char>>, Error>(Some(title))
                ==> sweep_next(Sweep::Inspecting, SweepEvent::Content(content))
                == Sweep::Scanning,
        tag_title(content@) is Err ==> sweep_next(Sweep::Inspecting, SweepEvent::Content(content))
            == Sweep::Failed(Error::TagReadError),
        pending(Sweep::Removing) == SweepAction::Remove,
        pending(Sweep::Scanning) == SweepAction::Next,
{
}

} // verus!
