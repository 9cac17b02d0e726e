use playlist_audio::error::Error;
use playlist_audio::youtube::{Capture, Video, YouTube};

fn video(id: &str) -> Video {
    Video { id: id.to_string(), title: "Some Title".to_string(), channel: "Some Channel".to_string() }
}

fn client(datadir: &str) -> YouTube {
    YouTube {
        command: "yt-dlp".to_string(),
        datadir: datadir.to_string(),
        version: "2024.01.01".to_string(),
    }
}

fn exited(code: Option<i32>, stdout: &[u8]) -> Capture {
    Capture::Exited { code, stdout: stdout.to_vec() }
}

#[test]
fn url_is_the_watch_url() {
    assert_eq!(video("dQw4w9WgXcQ").url(), "https://youtube.com/watch?v=dQw4w9WgXcQ");
    assert_eq!(video("").url(), "https://youtube.com/watch?v=");
}

#[test]
fn path_lies_in_the_data_directory() {
    assert_eq!(video("abc").path(&"data".to_string()), "data/abc.mp3");
    assert_eq!(video("abc").path(&"/var/lib/music".to_string()), "/var/lib/music/abc.mp3");
    assert_eq!(video("abc").path(&"".to_string()), "/abc.mp3");
}

#[test]
fn version_query_arguments() {
    assert_eq!(YouTube::version_args(), vec!["--version"]);
}

#[test]
fn listing_query_arguments() {
    assert_eq!(
        client("data").playlist_args("https://www.youtube.com/playlist?list=PL123"),
        vec![
            "--get-id",
            "--get-title",
            "--print=channel",
            "--flat-playlist",
            "https://www.youtube.com/playlist?list=PL123",
        ]
    );
}

#[test]
fn download_query_arguments() {
    assert_eq!(
        client("data").download_args(&video("id1")),
        vec![
            "-f bestaudio",
            "--extract-audio",
            "--audio-quality=0",
            "--audio-format=mp3",
            "--concurrent-fragments=8",
            "--output=data/%(id)s.%(ext)s",
            "https://youtube.com/watch?v=id1",
        ]
    );
}

#[test]
fn new_takes_the_version_from_the_output() {
    let made = YouTube::new("yt-dlp".to_string(), "data".to_string(), exited(Some(0), b"2024.01.01\n"));
    assert_eq!(made, Ok(client("data")));
}

#[test]
fn new_strips_one_terminator_from_the_version() {
    let crlf = YouTube::new("c".to_string(), "d".to_string(), exited(Some(0), b"1.2\r\n"));
    assert_eq!(crlf.map(|c| c.version), Ok("1.2".to_string()));
    let two = YouTube::new("c".to_string(), "d".to_string(), exited(Some(0), b"1.2\n\n"));
    assert_eq!(two.map(|c| c.version), Ok("1.2\n".to_string()));
    let none = YouTube::new("c".to_string(), "d".to_string(), exited(Some(0), b""));
    assert_eq!(none.map(|c| c.version), Ok(String::new()));
}

#[test]
fn new_ignores_the_exit_code() {
    let made = YouTube::new("c".to_string(), "d".to_string(), exited(Some(2), b"1.2\n"));
    assert_eq!(made.map(|c| c.version), Ok("1.2".to_string()));
}

#[test]
fn new_fails_without_a_binary() {
    let made = YouTube::new("nowhere".to_string(), "data".to_string(), Capture::NotRun);
    assert_eq!(made, Err(Error::BinaryNotFound));
}

#[test]
fn new_fails_on_output_that_is_no_text() {
    let made = YouTube::new("c".to_string(), "d".to_string(), exited(Some(0), &[0x32, 0xff, 0x0a]));
    assert_eq!(made, Err(Error::UnexpectedOutput));
}

#[test]
fn new_decodes_the_output_as_utf8() {
    let version = |stdout: &[u8]| {
        YouTube::new("c".to_string(), "d".to_string(), exited(Some(0), stdout)).map(|c| c.version)
    };
    assert_eq!(version("Zürich 東京\n".as_bytes()), Ok("Zürich 東京".to_string()));
    assert_eq!(version(&[0xff, 0xfe]), Err(Error::UnexpectedOutput));
    assert_eq!(version(&[b'a', 0xc3]), Err(Error::UnexpectedOutput));
    assert_eq!(version(&[0xed, 0xa0, 0x80]), Err(Error::UnexpectedOutput));
    assert_eq!(version(&[0xc0, 0x80]), Err(Error::UnexpectedOutput));
    assert_eq!(version(&[0xf4, 0x90, 0x80, 0x80]), Err(Error::UnexpectedOutput));
}

#[test]
fn download_succeeds_on_exit_code_zero() {
    assert_eq!(client("data").download_video(&exited(Some(0), b"")), Ok(()));
    assert_eq!(client("data").download_video(&exited(Some(0), b"noise")), Ok(()));
}

#[test]
fn download_fails_on_any_other_exit_code() {
    for code in [1, 2, -1, 101, i32::MAX, i32::MIN] {
        assert_eq!(
            client("data").download_video(&exited(Some(code), b"")),
            Err(Error::DownloadFailed { exit_status: Some(code) })
        );
    }
}

#[test]
fn download_fails_when_a_signal_ended_it() {
    assert_eq!(
        client("data").download_video(&exited(None, b"")),
        Err(Error::DownloadFailed { exit_status: None })
    );
}

#[test]
fn download_fails_without_a_binary() {
    assert_eq!(client("data").download_video(&Capture::NotRun), Err(Error::BinaryNotFound));
}
