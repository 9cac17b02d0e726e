//! A whole run, as a state machine: probe the downloader, make the data
//! directory ready, list the playlist, then take the items in their order. An
//! item whose artifact exists is skipped; any other is downloaded and tagged.
//! What fails before the first item ends the run; what fails for one item is
//! reported, and the run goes on with the next.
//!
//! The caller does what the pending action says, reports what came of it as
//! an event, and finds the next action pending.

use crate::datadir::Sweep;
use crate::error::Error;
use crate::tag::{tag_written, write_tag};
use crate::youtube::{
    artifact_path, download_query, download_result, listed_playlist, listing_query,
    probed_version, version_query, Capture, Video, VideoView, YouTube, YouTubeView,
};
use vstd::prelude::*;

verus! {

/// What the caller of a run does next. An item is named by its place in the
/// playlist, counted from 0.
#[derive(Clone, Copy, Debug, PartialEq, Eq)]
pub enum Action {
    /// Run the downloader's version query; report `Ran`.
    Probe,
    /// Sweep the data directory to its end; report `Swept` with the state in
    /// which the sweep ended.
    Prepare,
    /// Run the downloader's listing query; report `Ran`.
    List,
    /// Find out whether the artifact of this item exists; report `Exists`.
    Check(usize),
    /// Run the download of this item; report `Ran`.
    Download(usize),
    /// Read the artifact of this item; report `Content`.
    Read(usize),
    /// Write the tagged bytes, which the run holds, over the artifact of this
    /// item; report `Written`.
    Write(usize),
    /// Stop: every item has had its turn.
    Finish,
    /// Stop: the run failed, as its state says.
    Abort,
}

/// What the caller of a run found when it did as told.
#[derive(Clone, Debug, PartialEq, Eq)]
pub enum Event {
    /// What the invocation of the downloader came to.
    Ran(Capture),
    /// The state in which the sweep of the data directory ended.
    Swept(Sweep),
    /// Whether the artifact exists.
    Exists(bool),
    /// The bytes of the artifact.
    Content(Vec<u8>),
    /// The tagged bytes have been written over the artifact.
    Written,
    /// The artifact could not be read or written.
    Failed,
}

/// What a step settled for one item.
#[derive(Clone, Copy, Debug, PartialEq, Eq)]
pub enum Notice {
    /// The artifact was there already.
    Skipped(usize),
    /// The item was downloaded and tagged.
    Completed(usize),
    /// The item was given up, for this reason.
    Failed(usize, Error),
}

enum Stage {
    Checking,
    Downloading,
    Reading,
    Writing(Vec<u8>),
}

enum Phase {
    Probing { command: String, datadir: String, url: String },
    Preparing { client: YouTube, url: String },
    Listing { client: YouTube, url: String },
    Working { client: YouTube, videos: Vec<Video>, index: usize, stage: Stage },
    Finished { client: YouTube, videos: Vec<Video> },
    Failed { error: Error },
}

/// A run of the whole program.
pub struct Run {
    phase: Phase,
}

/// What a run waits for, for the item at hand.
pub enum StageView {
    /// Whether its artifact exists.
    Checking,
    /// The end of its download.
    Downloading,
    /// The bytes of its artifact.
    Reading,
    /// That these bytes, the artifact with its tag, have been written.
    Writing(Seq<u8>),
}

/// The mathematical content of a `Run`: where it stands, and what it has
/// learnt so far.
pub enum RunView {
    /// It waits for the answer to the version query.
    Probing { command: Seq<char>, datadir: Seq<char>, url: Seq<char> },
    /// It waits for the data directory.
    Preparing { client: YouTubeView, url: Seq<char> },
    /// It waits for the listing of the playlist at `url`.
    Listing { client: YouTubeView, url: Seq<char> },
    /// It is at the item `index` of `videos`.
    Working { client: YouTubeView, videos: Seq<VideoView>, index: usize, stage: StageView },
    /// Every item has had its turn.
    Finished { client: YouTubeView, videos: Seq<VideoView> },
    /// The run was given up before the first item.
    Failed { error: Error },
}

impl View for Stage {
    type V = StageView;

    closed spec fn view(&self) -> StageView {
        match self {
            Stage::Checking => StageView::Checking,
            Stage::Downloading => StageView::Downloading,
            Stage::Reading => StageView::Reading,
            Stage::Writing(bytes) => StageView::Writing(bytes@),
        }
    }
}

impl View for Run {
    type V = RunView;

    closed spec fn view(&self) -> RunView {
        match self.phase {
            Phase::Probing { command, datadir, url } => RunView::Probing {
                command: command@,
                datadir: datadir@,
                url: url@,
            },
            Phase::Preparing { client, url } => RunView::Preparing { client: client@, url: url@ },
            Phase::Listing { client, url } => RunView::Listing { client: client@, url: url@ },
            Phase::Working { client, videos, index, stage } => RunView::Working {
                client: client@,
                videos: videos.deep_view(),
                index,
                stage: stage@,
            },
            Phase::Finished { client, videos } => RunView::Finished {
                client: client@,
                videos: videos.deep_view(),
            },
            Phase::Failed { error } => RunView::Failed { error },
        }
    }
}

impl RunView {
    /// Whether the run is at an item of its playlist where it is at one, and
    /// the playlist is one that fits in memory.
    pub open spec fn wf(self) -> bool {
        match self {
            RunView::Working { videos, index, .. } => index < videos.len() <= usize::MAX,
            RunView::Finished { videos, .. } => videos.len() <= usize::MAX,
            _ => true,
        }
    }

    /// The binary that the run invokes.
    pub open spec fn command(self) -> Option<Seq<char>> {
        match self {
            RunView::Probing { command, .. } => Some(command),
            RunView::Preparing { client, .. } => Some(client.command),
            RunView::Listing { client, .. } => Some(client.command),
            RunView::Working { client, .. } => Some(client.command),
            RunView::Finished { client, .. } => Some(client.command),
            RunView::Failed { .. } => None,
        }
    }

    /// The data directory of the run.
    pub open spec fn datadir(self) -> Option<Seq<char>> {
        match self {
            RunView::Probing { datadir, .. } => Some(datadir),
            RunView::Preparing { client, .. } => Some(client.datadir),
            RunView::Listing { client, .. } => Some(client.datadir),
            RunView::Working { client, .. } => Some(client.datadir),
            RunView::Finished { client, .. } => Some(client.datadir),
            RunView::Failed { .. } => None,
        }
    }

    /// The version that the downloader reported, once it has.
    pub open spec fn version(self) -> Option<Seq<char>> {
        match self {
            RunView::Preparing { client, .. } => Some(client.version),
            RunView::Listing { client, .. } => Some(client.version),
            RunView::Working { client, .. } => Some(client.version),
            RunView::Finished { client, .. } => Some(client.version),
            _ => None,
        }
    }

    /// The playlist, once it has been listed.
    pub open spec fn videos(self) -> Option<Seq<VideoView>> {
        match self {
            RunView::Working { videos, .. } => Some(videos),
            RunView::Finished { videos, .. } => Some(videos),
            _ => None,
        }
    }

    /// The arguments with which the pending action invokes the downloader,
    /// where it does.
    pub open spec fn arguments(self) -> Option<Seq<Seq<char>>> {
        match self {
            RunView::Probing { .. } => Some(version_query()),
            RunView::Listing { url, .. } => Some(listing_query(url)),
            RunView::Working { client, videos, index, stage: StageView::Downloading } => Some(
                download_query(client.datadir, videos[index as int].id),
            ),
            _ => None,
        }
    }

    /// The path of the artifact of the item at hand.
    pub open spec fn artifact(self) -> Option<Seq<char>> {
        match self {
            RunView::Working { client, videos, index, .. } => Some(
                artifact_path(client.datadir, videos[index as int].id),
            ),
            _ => None,
        }
    }

    /// The bytes that the pending action writes over the artifact, where it
    /// writes.
    pub open spec fn tagged(self) -> Option<Seq<u8>> {
        match self {
            RunView::Working { stage: StageView::Writing(bytes), .. } => Some(bytes),
            _ => None,
        }
    }

    /// Why the run was given up, where it was.
    pub open spec fn error(self) -> Option<Error> {
        match self {
            RunView::Failed { error } => Some(error),
            _ => None,
        }
    }
}

/// The run that turns to the item `index` of `videos`: it asks whether the
/// artifact of that item exists, or is finished where `videos` has no such
/// item.
pub open spec fn turned_to(client: YouTubeView, videos: Seq<VideoView>, index: int) -> RunView {
    if 0 <= index < videos.len() {
        RunView::Working { client, videos, index: index as usize, stage: StageView::Checking }
    } else {
        RunView::Finished { client, videos }
    }
}

/// The action that a run in `state` waits on.
pub open spec fn pending(state: RunView) -> Action {
    match state {
        RunView::Probing { .. } => Action::Probe,
        RunView::Preparing { .. } => Action::Prepare,
        RunView::Listing { .. } => Action::List,
        RunView::Working { index, stage, .. } => match stage {
            StageView::Checking => Action::Check(index),
            StageView::Downloading => Action::Download(index),
            StageView::Reading => Action::Read(index),
            StageView::Writing(_) => Action::Write(index),
        },
        RunView::Finished { .. } => Action::Finish,
        RunView::Failed { .. } => Action::Abort,
    }
}

/// The state that follows `state` once tagging the artifact at hand has come
/// to `outcome`, and what that settled: tagged bytes are to be written, and a
/// failure gives the item up. A state that does not wait for the bytes of an
/// artifact stays as it is.
pub open spec fn run_tagged(state: RunView, outcome: Result<Seq<u8>, Error>) -> (
    RunView,
    Option<Notice>,
) {
    match state {
        RunView::Working { client, videos, index, stage: StageView::Reading } => match outcome {
            Ok(tagged) => (
                RunView::Working { client, videos, index, stage: StageView::Writing(tagged) },
                None,
            ),
            Err(error) => (
                turned_to(client, videos, index + 1),
                Some(Notice::Failed(index, error)),
            ),
        },
        _ => (state, None),
    }
}

/// The state that follows `state` on `event`, and what the step settled. An
/// event that `state` does not wait for changes nothing.
pub open spec fn run_next(state: RunView, event: Event) -> (RunView, Option<Notice>) {
    match state {
        RunView::Probing { command, datadir, url } => match event {
            Event::Ran(probe) => match probed_version(probe) {
                Ok(version) => (
                    RunView::Preparing { client: YouTubeView { command, datadir, version }, url },
                    None,
                ),
                Err(error) => (RunView::Failed { error }, None),
            },
            _ => (state, None),
        },
        RunView::Preparing { client, url } => match event {
            Event::Swept(Sweep::Done) => (RunView::Listing { client, url }, None),
            Event::Swept(Sweep::Failed(error)) => (RunView::Failed { error }, None),
            _ => (state, None),
        },
        RunView::Listing { client, url } => match event {
            Event::Ran(listing) => match listed_playlist(listing) {
                Ok(videos) => (turned_to(client, videos, 0), None),
                Err(error) => (RunView::Failed { error }, None),
            },
            _ => (state, None),
        },
        RunView::Working { client, videos, index, stage } => {
            let onward = turned_to(client, videos, index + 1);
            match (stage, event) {
                (StageView::Checking, Event::Exists(true)) => (
                    onward,
                    Some(Notice::Skipped(index)),
                ),
                (StageView::Checking, Event::Exists(false)) => (
                    RunView::Working { client, videos, index, stage: StageView::Downloading },
                    None,
                ),
                (StageView::Downloading, Event::Ran(outcome)) => match download_result(outcome) {
                    Ok(_) => (
                        RunView::Working { client, videos, index, stage: StageView::Reading },
                        None,
                    ),
                    Err(error) => (onward, Some(Notice::Failed(index, error))),
                },
                (StageView::Reading, Event::Content(bytes)) => run_tagged(
                    state,
                    tag_written(bytes@, videos[index as int].title, videos[index as int].channel),
                ),
                (StageView::Reading, Event::Failed) => (
                    onward,
                    Some(Notice::Failed(index, Error::TagWriteError)),
                ),
                (StageView::Writing(_), Event::Written) => (
                    onward,
                    Some(Notice::Completed(index)),
                ),
                (StageView::Writing(_), Event::Failed) => (
                    onward,
                    Some(Notice::Failed(index, Error::TagWriteError)),
                ),
                _ => (state, None),
            }
        },
        RunView::Finished { .. } => (state, None),
        RunView::Failed { .. } => (state, None),
    }
}

impl Run {
    #[verifier::type_invariant]
    spec fn at_an_item(self) -> bool {
        match self.phase {
            Phase::Working { videos, index, .. } => index < videos.len(),
            _ => true,
        }
    }

    /// A run at its start, for the downloader `command`, the data directory
    /// `datadir` and the playlist at `url`.
    pub fn new(command: String, datadir: String, url: String) -> (run: Run)
        ensures
            run@ == (RunView::Probing { command: command@, datadir: datadir@, url: url@ }),
            run@.wf(),
    {
        Run { phase: Phase::Probing { command, datadir, url } }
    }

    /// The run that turns to the item `index`, or is finished where there is
    /// no such item.
    fn turn_to(client: YouTube, videos: Vec<Video>, index: usize) -> (run: Run)
        ensures
            run@ == turned_to(client@, videos.deep_view(), index as int),
    {
        if index < videos.len() {
            Run { phase: Phase::Working { client, videos, index, stage: Stage::Checking } }
        } else {
            Run { phase: Phase::Finished { client, videos } }
        }
    }

    /// The action that this run waits on.
    pub fn action(&self) -> (action: Action)
        ensures
            action == pending(self@),
    {
        match &self.phase {
            Phase::Probing { .. } => Action::Probe,
            Phase::Preparing { .. } => Action::Prepare,
            Phase::Listing { .. } => Action::List,
            Phase::Working { index, stage, .. } => match stage {
                Stage::Checking => Action::Check(*index),
                Stage::Downloading => Action::Download(*index),
                Stage::Reading => Action::Read(*index),
                Stage::Writing(_) => Action::Write(*index),
            },
            Phase::Finished { .. } => Action::Finish,
            Phase::Failed { .. } => Action::Abort,
        }
    }

    /// The binary that this run invokes.
    pub fn command(&self) -> (command: Option<&String>)
        ensures
            match command {
                Some(c) => self@.command() == Some(c@),
                None => self@.command() is None,
            },
    {
        match &self.phase {
            Phase::Probing { command, .. } => Some(command),
            Phase::Preparing { client, .. } => Some(&client.command),
            Phase::Listing { client, .. } => Some(&client.command),
            Phase::Working { client, .. } => Some(&client.command),
            Phase::Finished { client, .. } => Some(&client.command),
            Phase::Failed { .. } => None,
        }
    }

    /// The data directory of this run.
    pub fn datadir(&self) -> (datadir: Option<&String>)
        ensures
            match datadir {
                Some(d) => self@.datadir() == Some(d@),
                None => self@.datadir() is None,
            },
    {
        match &self.phase {
            Phase::Probing { datadir, .. } => Some(datadir),
            Phase::Preparing { client, .. } => Some(&client.datadir),
            Phase::Listing { client, .. } => Some(&client.datadir),
            Phase::Working { client, .. } => Some(&client.datadir),
            Phase::Finished { client, .. } => Some(&client.datadir),
            Phase::Failed { .. } => None,
        }
    }

    /// The version that the downloader reported, once it has.
    pub fn version(&self) -> (version: Option<&String>)
        ensures
            match version {
                Some(v) => self@.version() == Some(v@),
                None => self@.version() is None,
            },
    {
        match &self.phase {
            Phase::Preparing { client, .. } => Some(&client.version),
            Phase::Listing { client, .. } => Some(&client.version),
            Phase::Working { client, .. } => Some(&client.version),
            Phase::Finished { client, .. } => Some(&client.version),
            _ => None,
        }
    }

    /// The playlist, once it has been listed.
    pub fn videos(&self) -> (videos: Option<&Vec<Video>>)
        ensures
            match videos {
                Some(v) => self@.videos() == Some(v.deep_view()),
                None => self@.videos() is None,
            },
    {
        match &self.phase {
            Phase::Working { videos, .. } => Some(videos),
            Phase::Finished { videos, .. } => Some(videos),
            _ => None,
        }
    }

    /// The arguments with which the pending action invokes the downloader,
    /// where it does.
    pub fn arguments(&self) -> (args: Option<Vec<String>>)
        ensures
            match args {
                Some(a) => self@.arguments() == Some(a.deep_view()),
                None => self@.arguments() is None,
            },
    {
        proof {
            use_type_invariant(self);
        }
        match &self.phase {
            Phase::Probing { .. } => Some(YouTube::version_args()),
            Phase::Listing { client, url } => Some(client.playlist_args(url.as_str())),
            Phase::Working { client, videos, index, stage: Stage::Downloading } => Some(
                client.download_args(&videos[*index]),
            ),
            _ => None,
        }
    }

    /// The path of the artifact of the item at hand.
    pub fn artifact(&self) -> (path: Option<String>)
        ensures
            match path {
                Some(p) => self@.artifact() == Some(p@),
                None => self@.artifact() is None,
            },
    {
        proof {
            use_type_invariant(self);
        }
        match &self.phase {
            Phase::Working { client, videos, index, .. } => Some(
                videos[*index].path(&client.datadir),
            ),
            _ => None,
        }
    }

    /// The bytes that the pending action writes over the artifact, where it
    /// writes.
    pub fn tagged(&self) -> (bytes: Option<&Vec<u8>>)
        ensures
            match bytes {
                Some(b) => self@.tagged() == Some(b@),
                None => self@.tagged() is None,
            },
    {
        match &self.phase {
            Phase::Working { stage: Stage::Writing(bytes), .. } => Some(bytes),
            _ => None,
        }
    }

    /// Why this run was given up, where it was.
    pub fn error(&self) -> (error: Option<Error>)
        ensures
            error == self@.error(),
    {
        match &self.phase {
            Phase::Failed { error } => Some(*error),
            _ => None,
        }
    }

    /// Takes in what tagging the artifact at hand came to, and says what that
    /// settled. `step` does so with the outcome of `write_tag` when it hears
    /// of the bytes of the artifact.
    pub fn after_tagging(self, outcome: Result<Vec<u8>, Error>) -> (next: (Run, Option<Notice>))
        ensures
            (next.0@, next.1) == run_tagged(
                self@,
                match outcome {
                    Ok(tagged) => Ok(tagged@),
                    Err(error) => Err(error),
                },
            ),
            next.0@.wf(),
    {
        proof {
            use_type_invariant(&self);
        }
        let next = match (self.phase, outcome) {
            (Phase::Working { client, videos, index, stage: Stage::Reading }, Ok(tagged)) => (
                Run {
                    phase: Phase::Working { client, videos, index, stage: Stage::Writing(tagged) },
                },
                None,
            ),
            (Phase::Working { client, videos, index, stage: Stage::Reading }, Err(error)) => (
                Run::turn_to(client, videos, index + 1),
                Some(Notice::Failed(index, error)),
            ),
            (phase, _) => (Run { phase }, None),
        };
        proof {
            use_type_invariant(&next.0);
            next.0.lemma_fits();
        }
        next
    }

    /// Takes in what the caller found when it did the pending action, and
    /// says what that settled.
    pub fn step(self, event: Event) -> (next: (Run, Option<Notice>))
        ensures
            (next.0@, next.1) == run_next(self@, event),
            next.0@.wf(),
    {
        proof {
            use_type_invariant(&self);
        }
        let next = match (self.phase, event) {
            (Phase::Probing { command, datadir, url }, Event::Ran(probe)) => {
                match YouTube::new(command, datadir, probe) {
                    Ok(client) => (Run { phase: Phase::Preparing { client, url } }, None),
                    Err(error) => (Run { phase: Phase::Failed { error } }, None),
                }
            },
            (Phase::Preparing { client, url }, Event::Swept(Sweep::Done)) => (
                Run { phase: Phase::Listing { client, url } },
                None,
            ),
            (Phase::Preparing { client, url }, Event::Swept(Sweep::Failed(error))) => (
                Run { phase: Phase::Failed { error } },
                None,
            ),
            (Phase::Listing { client, url }, Event::Ran(listing)) => {
                let mut client = client;
                match client.get_playlist(listing) {
                    Ok(videos) => (Run::turn_to(client, videos, 0), None),
                    Err(error) => (Run { phase: Phase::Failed { error } }, None),
                }
            },
            (
                Phase::Working { client, videos, index, stage: Stage::Checking },
                Event::Exists(exists),
            ) => {
                if exists {
                    (Run::turn_to(client, videos, index + 1), Some(Notice::Skipped(index)))
                } else {
                    (
                        Run {
                            phase: Phase::Working {
                                client,
                                videos,
                                index,
                                stage: Stage::Downloading,
                            },
                        },
                        None,
                    )
                }
            },
            (
                Phase::Working { client, videos, index, stage: Stage::Downloading },
                Event::Ran(outcome),
            ) => {
                match client.download_video(&outcome) {
                    Ok(_) => (
                        Run {
                            phase: Phase::Working { client, videos, index, stage: Stage::Reading },
                        },
                        None,
                    ),
                    Err(error) => (
                        Run::turn_to(client, videos, index + 1),
                        Some(Notice::Failed(index, error)),
                    ),
                }
            },
            (
                Phase::Working { client, videos, index, stage: Stage::Reading },
                Event::Content(bytes),
            ) => {
                let outcome = write_tag(
                    bytes,
                    videos[index].title.as_str(),
                    videos[index].channel.as_str(),
                );
                let reading = Run {
                    phase: Phase::Working { client, videos, index, stage: Stage::Reading },
                };
                reading.after_tagging(outcome)
            },
            (
                Phase::Working { client, videos, index, stage: Stage::Reading },
                Event::Failed,
            ) => (
                Run::turn_to(client, videos, index + 1),
                Some(Notice::Failed(index, Error::TagWriteError)),
            ),
            (
                Phase::Working { client, videos, index, stage: Stage::Writing(_) },
                Event::Written,
            ) => (Run::turn_to(client, videos, index + 1), Some(Notice::Completed(index))),
            (
                Phase::Working { client, videos, index, stage: Stage::Writing(_) },
                Event::Failed,
            ) => (
                Run::turn_to(client, videos, index + 1),
                Some(Notice::Failed(index, Error::TagWriteError)),
            ),
            (phase, _) => (Run { phase }, None),
        };
        proof {
            use_type_invariant(&next.0);
            next.0.lemma_fits();
        }
        next
    }

    proof fn lemma_fits(self)
        requires
            self.at_an_item(),
        ensures
            self@.wf(),
    {
        if let Phase::Finished { videos, .. } = self.phase {
            assert(videos@.len() == videos.len());
        }
    }
}

/// The state of a run after the events `events`, in their order.
pub open spec fn run_after(state: RunView, events: Seq<Event>) -> RunView
    decreases events.len(),
{
    if events.len() == 0 {
        state
    } else {
        run_after(run_next(state, events[0]).0, events.drop_first())
    }
}

/// Whether `event` makes a run in `state` ask for a download.
pub open spec fn starts_download(state: RunView, event: Event) -> bool {
    !(pending(state) is Download) && pending(run_next(state, event).0) is Download
}

/// How many downloads a run in `state` asks for while it takes in `events`.
pub open spec fn downloads(state: RunView, events: Seq<Event>) -> nat
    decreases events.len(),
{
    if events.len() == 0 {
        0
    } else {
        let rest = downloads(run_next(state, events[0]).0, events.drop_first());
        if starts_download(state, events[0]) {
            1 + rest
        } else {
            rest
        }
    }
}

/// A run asks for a download only when it hears that an artifact is missing:
/// while no event reports a missing artifact, nothing is downloaded. So a run
/// that finds the artifact of every item in place, as a second run over the
/// same playlist and data directory does, downloads nothing.
pub proof fn lemma_nothing_missing_nothing_downloaded(state: RunView, events: Seq<Event>)
    requires
        forall|i: int| 0 <= i < events.len() ==> events[i] != Event::Exists(false),
    ensures
        downloads(state, events) == 0,
    decreases events.len(),
{
    if events.len() > 0 {
        lemma_nothing_missing_nothing_downloaded(
            run_next(state, events[0]).0,
            events.drop_first(),
        );
    }
}

/// A run that turns to an item and hears, for that item and each one after
/// it, that the artifact exists, skips them all: once it has heard so of the
/// last item, it is finished.
pub proof fn lemma_present_artifacts_are_skipped(
    client: YouTubeView,
    videos: Seq<VideoView>,
    index: int,
    events: Seq<Event>,
)
    requires
        0 <= index,
        index + events.len() <= videos.len() <= usize::MAX,
        forall|i: int| 0 <= i < events.len() ==> events[i] == Event::Exists(true),
    ensures
        run_after(turned_to(client, videos, index), events) == turned_to(
            client,
            videos,
            index + events.len(),
        ),
        index + events.len() == videos.len() ==> run_after(
            turned_to(client, videos, index),
            events,
        ) == (RunView::Finished { client, videos }),
    decreases events.len(),
{
    if events.len() > 0 {
        lemma_present_artifacts_are_skipped(client, videos, index + 1, events.drop_first());
    }
}

/// What happens to one item never ends the run. Whatever a run that is at an
/// item hears, it stays at that item or turns to the next one, with the same
/// client and the same playlist; and when it gives the item up, it turns to
/// the next one.
pub proof fn lemma_items_do_not_end_the_run(state: RunView, event: Event)
    requires
        state.wf(),
        state is Working,
    ensures
        ({
            let (next, notice) = run_next(state, event);
            &&& next.wf()
            &&& !(next is Failed)
            &&& next.videos() == state.videos()
            &&& next.command() == state.command()
            &&& next.datadir() == state.datadir()
            &&& next.version() == state.version()
            &&& next matches RunView::Working { index, .. } ==> index == state->index || index
                == state->index + 1
            &&& notice is Some ==> next == turned_to(
                state->Working_client,
                state->Working_videos,
                state->index + 1,
            )
        }),
{
}

} // verus!
