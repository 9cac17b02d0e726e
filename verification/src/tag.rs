//! The metadata tag of an artifact: writing title and artist into the bytes
//! of an audio file, and reading the title back.

use crate::error::Error;
use id3::TagLike;
use vstd::prelude::*;
use vstd::utf8::encode_utf8;

verus! {

/// What id3 makes of the audio file `file` when it writes a fresh ID3v2.4 tag
/// with `title` and `artist` into it, in place of any tag that the file had:
/// the new bytes of the file, or `None` where id3 reports an error. The three
/// arguments determine them. What they are is said here only for a file that
/// does not start with a tag: see `tag_written`.
pub uninterp spec fn retagged(file: Seq<u8>, title: Seq<char>, artist: Seq<char>) -> Option<Seq<u8>>;

/// What id3 reads as the title in the tag of the audio file `file`:
/// `Some(Some(t))` for the title `t`, `Some(None)` where the file has no tag
/// or the tag no title, `None` where id3 cannot read the tag. Nothing is said
/// of the title here but that the bytes of the file determine it.
pub uninterp spec fn embedded_title(file: Seq<u8>) -> Option<Option<Seq<char>>>;

/// Whether `title` and `artist` fit into one tag: a tag's frames take less
/// than 2^28 bytes, and each of the two frames takes eleven bytes besides its
/// text.
pub open spec fn fits_tag(title: Seq<char>, artist: Seq<char>) -> bool {
    encode_utf8(title).len() + encode_utf8(artist).len() + 22 < 0x1000_0000
}

/// Whether `file` starts like a container of chunks and not like an mp3
/// file: it has twelve bytes or more, and begins with `FORM`, as an AIFF file
/// does, or with `RIFF` and then `WAVE` from the ninth byte on, as a WAV file
/// does. An artifact is an mp3 file, so such a file is none, and gets no tag.
pub open spec fn is_chunked(file: Seq<u8>) -> bool {
    &&& file.len() >= 12
    &&& {
        ||| file.subrange(0, 4) == seq![0x46u8, 0x4f, 0x52, 0x4d]
        ||| file.subrange(0, 4) == seq![0x52u8, 0x49, 0x46, 0x46] && file.subrange(8, 12)
            == seq![0x57u8, 0x41, 0x56, 0x45]
    }
}

/// Whether `file` starts where an ID3v2 tag may stand: it has twelve bytes or
/// more, and begins with `ID3`.
pub open spec fn is_tagged(file: Seq<u8>) -> bool {
    file.len() >= 12 && file.subrange(0, 3) == seq![0x49u8, 0x44, 0x33]
}

/// The four bytes that hold the size `n` in a tag: seven bits in each, the
/// highest first.
pub open spec fn size_bytes(n: nat) -> Seq<u8> {
    seq![
        (n / 0x20_0000 % 0x80) as u8,
        (n / 0x4000 % 0x80) as u8,
        (n / 0x80 % 0x80) as u8,
        (n % 0x80) as u8,
    ]
}

/// The ID3v2.4 frame `id` with the text `text`: the id, the size of what
/// follows the header, two flag bytes that are zero, the mark of UTF-8, and
/// the text in UTF-8.
pub open spec fn text_frame(id: Seq<u8>, text: Seq<char>) -> Seq<u8> {
    id + size_bytes(1 + encode_utf8(text).len()) + seq![0u8, 0u8, 3u8] + encode_utf8(text)
}

/// The ID3v2.4 tag that holds the title `title` and the artist `artist` and
/// nothing else: `ID3`, the version 4.0, a flag byte that is zero, the size of
/// the frames, then the frame `TIT2` and the frame `TPE1`. It has no padding.
pub open spec fn fresh_tag(title: Seq<char>, artist: Seq<char>) -> Seq<u8> {
    let frames = text_frame(seq![0x54u8, 0x49, 0x54, 0x32], title) + text_frame(
        seq![0x54u8, 0x50, 0x45, 0x31],
        artist,
    );
    seq![0x49u8, 0x44, 0x33, 4u8, 0u8, 0u8] + size_bytes(frames.len()) + frames
}

/// What writing the tag into `file` gives: the new bytes of the file, or
/// `TagWriteError`. Text that does not fit a tag and a container of chunks
/// are refused. A file that does not start with a tag gets the fresh tag in
/// front of it. For a file that starts with one, id3 decides: it puts the
/// fresh tag in the place of the old one, or reports an error.
pub open spec fn tag_written(
    file: Seq<u8>,
    title: Seq<char>,
    artist: Seq<char>,
) -> Result<Seq<u8>, Error> {
    if !fits_tag(title, artist) || is_chunked(file) {
        Err(Error::TagWriteError)
    } else if !is_tagged(file) {
        Ok(fresh_tag(title, artist) + file)
    } else {
        match retagged(file, title, artist) {
            Some(bytes) => Ok(bytes),
            None => Err(Error::TagWriteError),
        }
    }
}

/// What reading the tag of `file` gives: the title if there is one, or
/// `TagReadError`.
pub open spec fn tag_title(file: Seq<u8>) -> Result<Option<Seq<char>>, Error> {
    match embedded_title(file) {
        Some(title) => Ok(title),
        None => Err(Error::TagReadError),
    }
}

/// `id3::Tag::write_to_file` on the bytes of a file, for a fresh tag that got
/// `set_title` and `set_artist`, in the version `Id3v24`: the bytes that the
/// file holds afterwards, which depend on the three arguments alone, or
/// `None` where id3 reports an error. Where the file does not start with a
/// tag, id3 encodes the header and the two frames as `fresh_tag` says, moves
/// the file's bytes back by the tag's length, and reports no error. Where it
/// does, id3 first looks for the end of the old tag, which takes pages to
/// say. The first bound keeps the tag within the size that id3 can encode.
/// The second keeps out the files that id3 takes for AIFF or WAV: there it
/// trusts the sizes that the chunks claim, and does not return where they
/// claim more than the file holds.
#[verifier::external_body]
fn write_id3v24(file: Vec<u8>, title: &str, artist: &str) -> (out: Option<Vec<u8>>)
    requires
        fits_tag(title@, artist@),
        !is_chunked(file@),
    ensures
        match out {
            Some(bytes) => retagged(file@, title@, artist@) == Some(bytes@),
            None => retagged(file@, title@, artist@) is None,
        },
        match out {
            Some(bytes) => !is_tagged(file@) ==> bytes@ == fresh_tag(title@, artist@) + file@,
            None => is_tagged(file@),
        },
{
    let mut tag = id3::Tag::new();
    tag.set_title(title);
    tag.set_artist(artist);
    let mut cursor = std::io::Cursor::new(file);
    match tag.write_to_file(&mut cursor, id3::Version::Id3v24) {
        Ok(()) => Some(cursor.into_inner()),
        Err(_) => None,
    }
}

/// `id3::Tag::read_from2` on the bytes of a file, and `title` of the tag it
/// finds: the title, which depends on the bytes alone; `Some(None)` where id3
/// reports `NoTag` or the tag has no title; `None` for any other error. id3
/// takes memory and stack as the bytes ask for them, frames within frames
/// included; that it gets them is taken for granted here.
#[verifier::external_body]
fn read_id3_title(file: &[u8]) -> (title: Option<Option<String>>)
    ensures
        match title {
            Some(Some(t)) => embedded_title(file@) == Some(Some(t@)),
            Some(None) => embedded_title(file@) == Some(None::<Seq<char>>),
            None => embedded_title(file@) is None,
        },
{
    match id3::Tag::read_from2(std::io::Cursor::new(file)) {
        Ok(tag) => Some(tag.title().map(|t| t.to_string())),
        Err(id3::Error { kind: id3::ErrorKind::NoTag, .. }) => Some(None),
        Err(_) => None,
    }
}

/// Whether `file` starts like a container of chunks, AIFF or WAV.
pub fn chunked(file: &[u8]) -> (yes: bool)
    ensures
        yes == is_chunked(file@),
{
    if file.len() < 12 {
        return false;
    }
    let form = file[0] == 0x46 && file[1] == 0x4f && file[2] == 0x52 && file[3] == 0x4d;
    let riff = file[0] == 0x52 && file[1] == 0x49 && file[2] == 0x46 && file[3] == 0x46;
    let wave = file[8] == 0x57 && file[9] == 0x41 && file[10] == 0x56 && file[11] == 0x45;
    proof {
        let head = file@.subrange(0, 4);
        let format = file@.subrange(8, 12);
        assert(form <==> head =~= seq![0x46u8, 0x4f, 0x52, 0x4d]);
        assert(riff <==> head =~= seq![0x52u8, 0x49, 0x46, 0x46]);
        assert(wave <==> format =~= seq![0x57u8, 0x41, 0x56, 0x45]);
    }
    form || (riff && wave)
}

/// Writes a fresh tag with `title` and `artist` into the bytes of an mp3
/// file. A tag that the file had is discarded. A file that starts like an
/// AIFF or WAV file is refused. A file that does not start with a tag is
/// tagged without fail, where the text fits.
pub fn write_tag(file: Vec<u8>, title: &str, artist: &str) -> (out: Result<Vec<u8>, Error>)
    ensures
        match out {
            Ok(bytes) => tag_written(file@, title@, artist@) == Ok::<Seq<u8>, Error>(bytes@),
            Err(e) => tag_written(file@, title@, artist@) == Err::<Seq<u8>, Error>(e),
        },
{
    let limit: usize = 0x1000_0000 - 22;
    let title_len = title.as_bytes().len();
    let artist_len = artist.as_bytes().len();
    if title_len >= limit || artist_len >= limit - title_len {
        return Err(Error::TagWriteError);
    }
    if chunked(file.as_slice()) {
        return Err(Error::TagWriteError);
    }
    match write_id3v24(file, title, artist) {
        Some(bytes) => Ok(bytes),
        None => Err(Error::TagWriteError),
    }
}

/// Reads the title from the tag of an audio file. A file without a tag has
/// no title, which is no error.
pub fn read_tag_title(file: &[u8]) -> (title: Result<Option<String>, Error>)
    ensures
        match title {
            Ok(Some(t)) => tag_title(file@) == Ok::<Option<Seq<char>>, Error>(Some(t@)),
            Ok(None) => tag_title(file@) == Ok::<Option<Seq<char>>, Error>(None),
            Err(e) => tag_title(file@) == Err::<Option<Seq<char>>, Error>(e),
        },
{
    match read_id3_title(file) {
        Some(title) => Ok(title),
        None => Err(Error::TagReadError),
    }
}

} // verus!
