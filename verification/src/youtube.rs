//! The adapter around the external downloader: the arguments of each of its
//! three invocations, and what each invocation's outcome means.

use crate::error::Error;
use crate::text::{decoded, from_utf8, lines, split_lines};
use crate::utils::{stripped, StripTrailingNewline};
use itertools::Itertools;
use vstd::prelude::*;
use vstd::string::StringExecFns;

verus! {

/// What one invocation of the downloader came to.
#[derive(Clone, Debug, PartialEq, Eq)]
pub enum Capture {
    /// The binary could not be located or executed.
    NotRun,
    /// It ran and ended, with this exit code (none where a signal ended it)
    /// and this standard output.
    Exited { code: Option<i32>, stdout: Vec<u8> },
}

/// A client for the downloader binary `command`, which answered the version
/// query with `version`, and which stores artifacts under `datadir`.
#[derive(Clone, Debug, PartialEq, Eq)]
pub struct YouTube {
    pub command: String,
    pub datadir: String,
    pub version: String,
}

/// One item of a playlist.
#[derive(Clone, Debug, PartialEq, Eq)]
pub struct Video {
    pub id: String,
    pub title: String,
    pub channel: String,
}

/// The mathematical content of a `YouTube`.
pub struct YouTubeView {
    pub command: Seq<char>,
    pub datadir: Seq<char>,
    pub version: Seq<char>,
}

/// The mathematical content of a `Video`.
pub struct VideoView {
    pub id: Seq<char>,
    pub title: Seq<char>,
    pub channel: Seq<char>,
}

impl View for YouTube {
    type V = YouTubeView;

    open spec fn view(&self) -> YouTubeView {
        YouTubeView { command: self.command@, datadir: self.datadir@, version: self.version@ }
    }
}

impl View for Video {
    type V = VideoView;

    open spec fn view(&self) -> VideoView {
        VideoView { id: self.id@, title: self.title@, channel: self.channel@ }
    }
}

impl DeepView for Video {
    type V = VideoView;

    open spec fn deep_view(&self) -> VideoView {
        self@
    }
}

/// The watch URL of the item `id`.
pub open spec fn watch_url(id: Seq<char>) -> Seq<char> {
    "https://youtube.com/watch?v="@ + id
}

/// The path of the artifact of the item `id` under `data_dir`.
pub open spec fn artifact_path(data_dir: Seq<char>, id: Seq<char>) -> Seq<char> {
    data_dir + "/"@ + id + ".mp3"@
}

/// The records that a sequence of lines holds: each three lines in a row are
/// one record, in the order channel, title, id. Lines left over at the end
/// belong to no record.
pub open spec fn records(lines: Seq<Seq<char>>) -> Seq<VideoView> {
    Seq::new(
        lines.len() / 3,
        |i: int| VideoView { channel: lines[3 * i], title: lines[3 * i + 1], id: lines[3 * i + 2] },
    )
}

/// The playlist that the downloader's listing describes.
pub open spec fn playlist(listing: Seq<char>) -> Seq<VideoView> {
    records(lines(listing))
}

/// A listing of three lines per item gives one item per group of three
/// lines, in the order of the lines; one or two lines left over after the
/// last group give no item.
pub proof fn lemma_playlist_of_groups(listing: Seq<char>, groups: nat, rest: nat)
    requires
        lines(listing).len() == 3 * groups + rest,
        rest < 3,
    ensures
        playlist(listing).len() == groups,
        forall|i: int|
            0 <= i < groups ==> playlist(listing)[i] == (VideoView {
                channel: lines(listing)[3 * i],
                title: lines(listing)[3 * i + 1],
                id: lines(listing)[3 * i + 2],
            }),
        playlist(listing) == records(lines(listing).take(3 * groups as int)),
{
}

/// The arguments of the version query.
pub open spec fn version_query() -> Seq<Seq<char>> {
    seq!["--version"@]
}

/// The arguments that list the playlist at `url`: one line each for channel,
/// title and id of every item, without descending into the items.
pub open spec fn listing_query(url: Seq<char>) -> Seq<Seq<char>> {
    seq!["--get-id"@, "--get-title"@, "--print=channel"@, "--flat-playlist"@, url]
}

/// The arguments that download the item `id` into `data_dir`: best audio,
/// extracted, at the highest quality, as mp3, in a file named after the id.
pub open spec fn download_query(data_dir: Seq<char>, id: Seq<char>) -> Seq<Seq<char>> {
    seq![
        "-f bestaudio"@,
        "--extract-audio"@,
        "--audio-quality=0"@,
        "--audio-format=mp3"@,
        "--concurrent-fragments=8"@,
        "--output="@ + data_dir + "/%(id)s.%(ext)s"@,
        watch_url(id),
    ]
}

/// What the answer to the version query says: the version, or why there is
/// none.
pub open spec fn probed_version(probe: Capture) -> Result<Seq<char>, Error> {
    match probe {
        Capture::NotRun => Err(Error::BinaryNotFound),
        Capture::Exited { code, stdout } => match decoded(stdout@) {
            Some(text) => Ok(stripped(text)),
            None => Err(Error::UnexpectedOutput),
        },
    }
}

/// What the answer to the listing query says: the playlist, or why there is
/// none. There is one only where the downloader ran, ended with success, and
/// printed text.
pub open spec fn listed_playlist(listing: Capture) -> Result<Seq<VideoView>, Error> {
    match listing {
        Capture::NotRun => Err(Error::PlaylistFetchError),
        Capture::Exited { code, stdout } => if code == Some(0i32) {
            match decoded(stdout@) {
                Some(text) => Ok(playlist(text)),
                None => Err(Error::PlaylistFetchError),
            }
        } else {
            Err(Error::PlaylistFetchError)
        },
    }
}

/// What the end of a download says: success, or why it failed.
pub open spec fn download_result(outcome: Capture) -> Result<(), Error> {
    match outcome {
        Capture::NotRun => Err(Error::BinaryNotFound),
        Capture::Exited { code, stdout } => if code == Some(0i32) {
            Ok(())
        } else {
            Err(Error::DownloadFailed { exit_status: code })
        },
    }
}

/// `Itertools::tuples` for tuples of three, collected with
/// `Itertools::collect_vec`: the items in groups of three, in their order;
/// one or two items left at the end are in no group.
#[verifier::external_body]
fn triples(items: Vec<String>) -> (groups: Vec<(String, String, String)>)
    ensures
        groups@.len() == items@.len() / 3,
        forall|i: int|
            0 <= i < groups@.len() ==> groups@[i] == (
                items@[3 * i],
                items@[3 * i + 1],
                items@[3 * i + 2],
            ),
{
    items.into_iter().tuples().collect_vec()
}

/// Reads the downloader's listing: three lines per item.
pub fn parse_playlist(listing: &str) -> (videos: Vec<Video>)
    ensures
        videos.deep_view() == playlist(listing@),
{
    let rows = split_lines(listing);
    let ghost rows_view = rows.deep_view();
    let ghost row_values = rows@;
    let groups = triples(rows);
    let ghost group_values = groups@;
    let mut videos: Vec<Video> = Vec::new();
    for group in iter: groups
        invariant
            iter.seq() == group_values,
            group_values.len() == row_values.len() / 3,
            rows_view.len() == row_values.len(),
            forall|i: int| 0 <= i < row_values.len() ==> rows_view[i] == row_values[i]@,
            forall|i: int|
                0 <= i < group_values.len() ==> group_values[i] == (
                    row_values[3 * i],
                    row_values[3 * i + 1],
                    row_values[3 * i + 2],
                ),
            videos.deep_view() == records(rows_view).take(iter.index() as int),
    {
        let (channel, title, id) = group;
        let video = Video { id, title, channel };
        videos.push(video);
        assert(records(rows_view).take(iter.index() + 1) =~= records(rows_view).take(
            iter.index() as int,
        ).push(video@));
    }
    videos
}

impl Video {
    /// The watch URL of this item.
    pub fn url(&self) -> (url: String)
        ensures
            url@ == watch_url(self.id@),
    {
        let mut url = String::from_str("https://youtube.com/watch?v=");
        url.append(self.id.as_str());
        url
    }

    /// The path of this item's artifact under `data_dir`.
    pub fn path(&self, data_dir: &String) -> (path: String)
        ensures
            path@ == artifact_path(data_dir@, self.id@),
    {
        let mut path = data_dir.clone();
        path.append("/");
        path.append(self.id.as_str());
        path.append(".mp3");
        path
    }
}

impl YouTube {
    /// The arguments with which the downloader tells its version.
    pub fn version_args() -> (args: Vec<String>)
        ensures
            args.deep_view() == version_query(),
    {
        let mut args: Vec<String> = Vec::new();
        args.push(String::from_str("--version"));
        args
    }

    /// The client for `command` and `datadir`, given what the version query
    /// came to.
    pub fn new(command: String, datadir: String, probe: Capture) -> (client: Result<YouTube, Error>)
        ensures
            match client {
                Ok(c) => probed_version(probe) == Ok::<Seq<char>, Error>(c.version@) && c.command
                    == command && c.datadir == datadir,
                Err(e) => probed_version(probe) == Err::<Seq<char>, Error>(e),
            },
    {
        match probe {
            Capture::NotRun => Err(Error::BinaryNotFound),
            Capture::Exited { code, stdout } => match from_utf8(stdout) {
                Some(text) => {
                    let version = text.strip_trailing_newline();
                    Ok(YouTube { command, datadir, version })
                },
                None => Err(Error::UnexpectedOutput),
            },
        }
    }

    /// The arguments with which the downloader lists the playlist at `url`.
    pub fn playlist_args(&self, url: &str) -> (args: Vec<String>)
        ensures
            args.deep_view() == listing_query(url@),
    {
        let mut args: Vec<String> = Vec::new();
        args.push(String::from_str("--get-id"));
        args.push(String::from_str("--get-title"));
        args.push(String::from_str("--print=channel"));
        args.push(String::from_str("--flat-playlist"));
        args.push(String::from_str(url));
        args
    }

    /// The playlist, given what the listing query came to. A listing that
    /// did not end with success is no listing, whatever it printed.
    pub fn get_playlist(&mut self, listing: Capture) -> (videos: Result<Vec<Video>, Error>)
        ensures
            *final(self) == *old(self),
            match videos {
                Ok(v) => listed_playlist(listing) == Ok::<Seq<VideoView>, Error>(v.deep_view()),
                Err(e) => listed_playlist(listing) == Err::<Seq<VideoView>, Error>(e),
            },
    {
        match listing {
            Capture::NotRun => Err(Error::PlaylistFetchError),
            Capture::Exited { code, stdout } => match code {
                Some(0) => match from_utf8(stdout) {
                    Some(text) => Ok(parse_playlist(text.as_str())),
                    None => Err(Error::PlaylistFetchError),
                },
                _ => Err(Error::PlaylistFetchError),
            },
        }
    }

    /// The arguments with which the downloader fetches the audio of `video`.
    pub fn download_args(&self, video: &Video) -> (args: Vec<String>)
        ensures
            args.deep_view() == download_query(self.datadir@, video.id@),
    {
        let mut output = String::from_str("--output=");
        output.append(self.datadir.as_str());
        output.append("/%(id)s.%(ext)s");
        let mut args: Vec<String> = Vec::new();
        args.push(String::from_str("-f bestaudio"));
        args.push(String::from_str("--extract-audio"));
        args.push(String::from_str("--audio-quality=0"));
        args.push(String::from_str("--audio-format=mp3"));
        args.push(String::from_str("--concurrent-fragments=8"));
        args.push(output);
        args.push(video.url());
        args
    }

    /// Whether a download succeeded, given what it came to. The artifact
    /// that a successful download leaves has no metadata tag yet.
    pub fn download_video(&self, outcome: &Capture) -> (done: Result<(), Error>)
        ensures
            done == download_result(*outcome),
    {
        match outcome {
            Capture::NotRun => Err(Error::BinaryNotFound),
            Capture::Exited { code, stdout } => match code {
                Some(0) => Ok(()),
                _ => Err(Error::DownloadFailed { exit_status: *code }),
            },
        }
    }
}

} // verus!
