//! Media attachments that the model can look at.
use crate::bridge::{base64_text, encode_base64};
use crate::text::{
    law_split_at_the_last, lower, opt_str, rsplit_once, same_text, split_last, texts,
    to_ascii_lowercase,
};
use vstd::prelude::*;

verus! {

/// The media type for an extension in small letters.
pub open spec fn extension_type(extension: Seq<char>) -> Option<Seq<char>> {
    if extension == "png"@ {
        Some("image/png"@)
    } else if extension == "jpg"@ || extension == "jpeg"@ {
        Some("image/jpeg"@)
    } else if extension == "gif"@ {
        Some("image/gif"@)
    } else if extension == "webp"@ {
        Some("image/webp"@)
    } else if extension == "mp3"@ {
        Some("audio/mpeg"@)
    } else if extension == "wav"@ {
        Some("audio/wav"@)
    } else if extension == "flac"@ {
        Some("audio/flac"@)
    } else if extension == "mp4"@ {
        Some("video/mp4"@)
    } else if extension == "mov"@ {
        Some("video/quicktime"@)
    } else if extension == "webm"@ {
        Some("video/webm"@)
    } else if extension == "mkv"@ {
        Some("video/x-matroska"@)
    } else if extension == "avi"@ {
        Some("video/x-msvideo"@)
    } else if extension == "m4v"@ {
        Some("video/x-m4v"@)
    } else {
        None
    }
}

/// The media type of a file, by what follows the last dot of its name.
pub open spec fn file_type(filename: Seq<char>) -> Option<Seq<char>> {
    match split_last(filename, '.') {
        Some((_, extension)) => extension_type(lower(extension)),
        None => None,
    }
}

/// The media type of a file, by what follows the last dot of its name.
pub fn media_type(filename: &str) -> (r: Option<&'static str>)
    ensures
        opt_str(r) == file_type(filename@),
{
    let extension = match rsplit_once(filename, '.') {
        Some((_, extension)) => to_ascii_lowercase(extension),
        None => {
            return None;
        },
    };
    let e = extension.as_str();
    if same_text(e, "png") {
        Some("image/png")
    } else if same_text(e, "jpg") || same_text(e, "jpeg") {
        Some("image/jpeg")
    } else if same_text(e, "gif") {
        Some("image/gif")
    } else if same_text(e, "webp") {
        Some("image/webp")
    } else if same_text(e, "mp3") {
        Some("audio/mpeg")
    } else if same_text(e, "wav") {
        Some("audio/wav")
    } else if same_text(e, "flac") {
        Some("audio/flac")
    } else if same_text(e, "mp4") {
        Some("video/mp4")
    } else if same_text(e, "mov") {
        Some("video/quicktime")
    } else if same_text(e, "webm") {
        Some("video/webm")
    } else if same_text(e, "mkv") {
        Some("video/x-matroska")
    } else if same_text(e, "avi") {
        Some("video/x-msvideo")
    } else if same_text(e, "m4v") {
        Some("video/x-m4v")
    } else {
        None
    }
}

/// Is one of the attached files media?
pub open spec fn has_media(filenames: Seq<Seq<char>>) -> bool {
    exists|i: int| 0 <= i < filenames.len() && file_type(#[trigger] filenames[i]) is Some
}

/// Is one of the attached files media?
pub fn message_has_supported_media(filenames: &Vec<String>) -> (r: bool)
    ensures
        r == has_media(texts(filenames@)),
{
    let mut i: usize = 0;
    while i < filenames.len()
        invariant
            i <= filenames@.len(),
            forall|j: int| 0 <= j < i ==> file_type(#[trigger] texts(filenames@)[j]) is None,
        decreases filenames.len() - i,
    {
        if media_type(filenames[i].as_str()).is_some() {
            proof {
                assert(file_type(texts(filenames@)[i as int]) is Some);
            }
            return true;
        }
        proof {
            assert(texts(filenames@)[i as int] == filenames@[i as int]@);
        }
        i += 1;
    }
    false
}

/// Media as the model gets it.
#[derive(Debug, PartialEq, Eq)]
pub struct MediaData {
    pub media_type: String,
    pub data: String,
}

/// A fetched attachment as the model gets it; none where it is no media.
pub fn media_data(filename: &str, bytes: &[u8]) -> (r: Option<MediaData>)
    requires
        bytes@.len() / 3 * 4 + 4 <= usize::MAX,
    ensures
        r is Some <==> file_type(filename@) is Some,
        r matches Some(media) ==> Some(media.media_type@) == file_type(filename@)
            && media.data@ == base64_text(bytes@),
{
    match media_type(filename) {
        Some(kind) => Some(
            MediaData { media_type: kind.to_owned(), data: encode_base64(bytes) },
        ),
        None => None,
    }
}

// ---------------------------------------------------------------------- laws

/// The extensions differ.
proof fn lemma_extensions()
    ensures
        forall|i: int, j: int|
            0 <= i < j < 14 ==> #[trigger] extensions()[i] != #[trigger] extensions()[j],
{
    reveal_strlit("png");
    reveal_strlit("jpg");
    reveal_strlit("jpeg");
    reveal_strlit("gif");
    reveal_strlit("webp");
    reveal_strlit("mp3");
    reveal_strlit("wav");
    reveal_strlit("flac");
    reveal_strlit("mp4");
    reveal_strlit("mov");
    reveal_strlit("webm");
    reveal_strlit("mkv");
    reveal_strlit("avi");
    reveal_strlit("m4v");
    assert("jpeg"@.len() == 4 && "jpeg"@[0] == 'j');
    assert("webp"@.len() == 4 && "webp"@[0] == 'w' && "webp"@[3] == 'p');
    assert("flac"@.len() == 4 && "flac"@[0] == 'f');
    assert("webm"@.len() == 4 && "webm"@[0] == 'w' && "webm"@[3] == 'm');
    assert("png"@.len() == 3 && "png"@[0] == 'p');
    assert("jpg"@.len() == 3 && "jpg"@[0] == 'j');
    assert("gif"@.len() == 3 && "gif"@[0] == 'g');
    assert("wav"@.len() == 3 && "wav"@[0] == 'w');
    assert("avi"@.len() == 3 && "avi"@[0] == 'a');
    assert("mp3"@.len() == 3 && "mp3"@[0] == 'm' && "mp3"@[1] == 'p' && "mp3"@[2] == '3');
    assert("mp4"@.len() == 3 && "mp4"@[0] == 'm' && "mp4"@[1] == 'p' && "mp4"@[2] == '4');
    assert("mov"@.len() == 3 && "mov"@[0] == 'm' && "mov"@[1] == 'o');
    assert("mkv"@.len() == 3 && "mkv"@[0] == 'm' && "mkv"@[1] == 'k');
    assert("m4v"@.len() == 3 && "m4v"@[0] == 'm' && "m4v"@[1] == '4');
}

/// The extensions of media files.
pub open spec fn extensions() -> Seq<Seq<char>> {
    seq![
        "png"@,
        "jpg"@,
        "jpeg"@,
        "gif"@,
        "webp"@,
        "mp3"@,
        "wav"@,
        "flac"@,
        "mp4"@,
        "mov"@,
        "webm"@,
        "mkv"@,
        "avi"@,
        "m4v"@,
    ]
}

/// A file is media by what follows the last dot of its name, in whatever case,
/// whatever stands before it; each extension has its own type, and a file of another
/// extension, or of none, is no media.
pub proof fn law_media_is_told_by_the_extension(name: Seq<char>, extension: Seq<char>)
    requires
        !extension.contains('.'),
    ensures
        ({
            let kind = file_type(name + seq!['.'] + extension);
            let e = lower(extension);
            &&& e == "png"@ ==> kind == Some("image/png"@)
            &&& e == "jpg"@ ==> kind == Some("image/jpeg"@)
            &&& e == "jpeg"@ ==> kind == Some("image/jpeg"@)
            &&& e == "gif"@ ==> kind == Some("image/gif"@)
            &&& e == "webp"@ ==> kind == Some("image/webp"@)
            &&& e == "mp3"@ ==> kind == Some("audio/mpeg"@)
            &&& e == "wav"@ ==> kind == Some("audio/wav"@)
            &&& e == "flac"@ ==> kind == Some("audio/flac"@)
            &&& e == "mp4"@ ==> kind == Some("video/mp4"@)
            &&& e == "mov"@ ==> kind == Some("video/quicktime"@)
            &&& e == "webm"@ ==> kind == Some("video/webm"@)
            &&& e == "mkv"@ ==> kind == Some("video/x-matroska"@)
            &&& e == "avi"@ ==> kind == Some("video/x-msvideo"@)
            &&& e == "m4v"@ ==> kind == Some("video/x-m4v"@)
            &&& kind is Some <==> e == "png"@ || e == "jpg"@ || e == "jpeg"@ || e == "gif"@ || e
                == "webp"@ || e == "mp3"@ || e == "wav"@ || e == "flac"@ || e == "mp4"@ || e
                == "mov"@ || e == "webm"@ || e == "mkv"@ || e == "avi"@ || e == "m4v"@
        }),
        file_type(extension) is None,
{
    law_split_at_the_last(name, '.', extension);
    lemma_extensions();
    let all = extensions();
    assert(all[0] == "png"@ && all[1] == "jpg"@ && all[2] == "jpeg"@ && all[3] == "gif"@);
    assert(all[4] == "webp"@ && all[5] == "mp3"@ && all[6] == "wav"@ && all[7] == "flac"@);
    assert(all[8] == "mp4"@ && all[9] == "mov"@ && all[10] == "webm"@ && all[11] == "mkv"@);
    assert(all[12] == "avi"@ && all[13] == "m4v"@);
}

/// A message has media where any one of its files is media, wherever it stands, and
/// only there.
pub proof fn law_one_file_of_media_is_enough(filenames: Seq<Seq<char>>, i: int)
    ensures
        0 <= i < filenames.len() && file_type(filenames[i]) is Some ==> has_media(filenames),
        (forall|j: int| 0 <= j < filenames.len() ==> file_type(#[trigger] filenames[j]) is None)
            ==> !has_media(filenames),
{
}

} // verus!
