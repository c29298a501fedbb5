//! Sorting the files a user picked into images and a video, and the
//! messages that report what could not be loaded.
use vstd::prelude::*;
use vstd::string::*;
use crate::text::{decimal, push_decimal};

verus! {

/// What a picked file is taken for, going by its MIME type.
#[derive(PartialEq, Eq, Debug, Clone, Copy, Structural)]
pub enum MediaKind {
    /// Becomes a frame of its own.
    Image,
    /// Goes to the video player.
    Video,
    /// Neither an image nor a video; it is reported and skipped.
    Unsupported,
}

/// Whether `s` begins with `prefix`.
pub open spec fn has_prefix(s: Seq<char>, prefix: Seq<char>) -> bool {
    prefix.len() <= s.len() && s.subrange(0, prefix.len() as int) == prefix
}

/// The kind of a file with MIME type `mime`: a type beginning with `video`
/// is a video, one beginning with `image` an image, anything else is
/// unsupported.
pub open spec fn media_kind_of(mime: Seq<char>) -> MediaKind {
    if has_prefix(mime, "video"@) {
        MediaKind::Video
    } else if has_prefix(mime, "image"@) {
        MediaKind::Image
    } else {
        MediaKind::Unsupported
    }
}

/// Message for a picked file that is neither an image nor a video.
pub open spec fn unsupported_message(name: Seq<char>) -> Seq<char> {
    "\""@ + name + "\" is not an image or video file."@
}

/// Message for a file that could not be opened.
pub open spec fn open_failure_message(name: Seq<char>) -> Seq<char> {
    "Failed to open \""@ + name + "\"."@
}

/// Message for an image that the browser could not decode.
pub open spec fn decode_failure_message(name: Seq<char>) -> Seq<char> {
    "Could not decode \""@ + name
        + "\". The browser may not support this image format. Converting it to PNG or JPEG usually helps."@
}

/// Message for a selection that held `count` videos, of which only the
/// first was opened.
pub open spec fn extra_videos_message(count: nat) -> Seq<char> {
    "Only one video can be open at a time. The first of the "@ + decimal(count)
        + " selected videos was opened and the rest were discarded."@
}

/// The messages of `list`, separated by `sep`.
pub open spec fn joined(list: Seq<Seq<char>>, sep: Seq<char>) -> Seq<char>
    decreases list.len(),
{
    if list.len() == 0 {
        Seq::empty()
    } else if list.len() == 1 {
        list[0]
    } else {
        joined(list.drop_last(), sep) + sep + list.last()
    }
}

/// Whether `s` begins with `prefix`.
fn starts_with(s: &str, prefix: &str) -> (r: bool)
    ensures
        r == has_prefix(s@, prefix@),
{
    let n = prefix.unicode_len();
    let m = s.unicode_len();
    if n > m {
        return false;
    }
    let mut i: usize = 0;
    while i < n
        invariant
            i <= n <= m,
            n == prefix@.len(),
            m == s@.len(),
            forall|j: int| 0 <= j < i ==> s@[j] == prefix@[j],
        decreases n - i,
    {
        if s.get_char(i) != prefix.get_char(i) {
            assert(s@.subrange(0, n as int)[i as int] != prefix@[i as int]);
            return false;
        }
        i = i + 1;
    }
    assert(s@.subrange(0, n as int) =~= prefix@);
    true
}

/// The kind of a file with MIME type `mime`.
pub fn media_kind(mime: &str) -> (kind: MediaKind)
    ensures
        kind == media_kind_of(mime@),
        mime@.len() >= 5 && mime@.subrange(0, 5) == "image"@ ==> kind == MediaKind::Image,
        mime@.len() >= 5 && mime@.subrange(0, 5) == "video"@ ==> kind == MediaKind::Video,
{
    proof {
        lemma_media_kind_by_prefix(mime@);
    }
    if starts_with(mime, "video") {
        MediaKind::Video
    } else if starts_with(mime, "image") {
        MediaKind::Image
    } else {
        MediaKind::Unsupported
    }
}

/// What went wrong while loading one selection of files, and how many
/// videos it held.
pub struct LoadReport {
    video_count: usize,
    errors: Vec<String>,
}

impl LoadReport {
    /// Number of videos of the selection admitted so far.
    pub closed spec fn videos(&self) -> nat {
        self.video_count as nat
    }

    /// The messages collected so far, in the order they arose.
    pub closed spec fn messages(&self) -> Seq<Seq<char>> {
        self.errors@.map_values(|e: String| e@)
    }

    /// A report of a selection with no videos and no errors yet.
    pub fn new() -> (report: Self)
        ensures
            report.videos() == 0,
            report.messages() == Seq::<Seq<char>>::empty(),
    {
        let report = LoadReport { video_count: 0, errors: Vec::new() };
        assert(report.messages() =~= Seq::<Seq<char>>::empty());
        report
    }

    /// Number of videos of the selection admitted so far.
    pub fn video_count(&self) -> (count: usize)
        ensures
            count == self.videos(),
    {
        self.video_count
    }

    fn push_message(&mut self, message: String)
        ensures
            final(self).videos() == old(self).videos(),
            final(self).messages() == old(self).messages().push(message@),
    {
        self.errors.push(message);
        assert(self.messages() =~= old(self).messages().push(message@));
    }

    /// Records that the file `name` is neither an image nor a video.
    pub fn reject_unsupported(&mut self, name: &str)
        ensures
            final(self).videos() == old(self).videos(),
            final(self).messages() == old(self).messages().push(unsupported_message(name@)),
    {
        let mut m = String::new();
        m.append("\"");
        m.append(name);
        m.append("\" is not an image or video file.");
        self.push_message(m);
    }

    /// Records that the file `name` could not be opened.
    pub fn report_open_failure(&mut self, name: &str)
        ensures
            final(self).videos() == old(self).videos(),
            final(self).messages() == old(self).messages().push(open_failure_message(name@)),
    {
        let mut m = String::new();
        m.append("Failed to open \"");
        m.append(name);
        m.append("\".");
        self.push_message(m);
    }

    /// Records that the image `name` could not be decoded.
    pub fn report_decode_failure(&mut self, name: &str)
        ensures
            final(self).videos() == old(self).videos(),
            final(self).messages() == old(self).messages().push(decode_failure_message(name@)),
    {
        let mut m = String::new();
        m.append("Could not decode \"");
        m.append(name);
        m.append(
            "\". The browser may not support this image format. Converting it to PNG or JPEG usually helps.",
        );
        self.push_message(m);
    }

    /// Counts one more opened video of the selection. Only one video can be
    /// open at a time, so only the first one is shown: the result says
    /// whether this is it. Later ones are to be discarded.
    pub fn admit_video(&mut self) -> (shown: bool)
        requires
            old(self).videos() < usize::MAX,
        ensures
            shown == (old(self).videos() == 0),
            final(self).videos() == old(self).videos() + 1,
            final(self).messages() == old(self).messages(),
    {
        self.video_count = self.video_count + 1;
        self.video_count == 1
    }

    /// Ends the pass over the selection: when it held more than one video,
    /// records that all but the first were discarded.
    pub fn finish_selection(&mut self)
        ensures
            final(self).videos() == old(self).videos(),
            old(self).videos() > 1 ==> final(self).messages() == old(self).messages().push(
                extra_videos_message(old(self).videos()),
            ),
            old(self).videos() <= 1 ==> final(self).messages() == old(self).messages(),
    {
        if self.video_count > 1 {
            let mut m = String::new();
            m.append("Only one video can be open at a time. The first of the ");
            push_decimal(&mut m, self.video_count as u64);
            m.append(" selected videos was opened and the rest were discarded.");
            self.push_message(m);
        }
    }

    /// The status line for the user: all messages separated by single
    /// spaces, or nothing when loading went without a problem.
    pub fn status(&self) -> (status: Option<String>)
        ensures
            self.messages().len() == 0 ==> status is None,
            self.messages().len() > 0 ==> (status matches Some(s) && s@ == joined(
                self.messages(),
                " "@,
            )),
    {
        let n = self.errors.len();
        if n == 0 {
            return None;
        }
        let ghost msgs = self.messages();
        let mut out = String::new();
        let mut i: usize = 0;
        while i < n
            invariant
                i <= n,
                n == self.errors@.len(),
                msgs == self.messages(),
                msgs.len() == n,
                out@ == joined(msgs.take(i as int), " "@),
            decreases n - i,
        {
            if i > 0 {
                out.append(" ");
            }
            out.append(self.errors[i].as_str());
            assert(msgs.take(i + 1).drop_last() =~= msgs.take(i as int));
            assert(msgs[i as int] == self.errors@[i as int]@);
            if i == 0 {
                assert(out@ =~= joined(msgs.take(1), " "@));
            }
            i = i + 1;
        }
        assert(msgs.take(n as int) =~= msgs);
        Some(out)
    }
}

/// Every MIME type beginning with `image` is an image, every one beginning
/// with `video` a video, and a type beginning with neither is unsupported.
pub proof fn lemma_media_kind_by_prefix(mime: Seq<char>)
    ensures
        mime.len() >= 5 && mime.subrange(0, 5) == "image"@ ==> media_kind_of(mime)
            == MediaKind::Image,
        mime.len() >= 5 && mime.subrange(0, 5) == "video"@ ==> media_kind_of(mime)
            == MediaKind::Video,
        !(mime.len() >= 5 && mime.subrange(0, 5) == "image"@) && !(mime.len() >= 5 && mime.subrange(
            0,
            5,
        ) == "video"@) ==> media_kind_of(mime) == MediaKind::Unsupported,
{
    reveal_strlit("image");
    reveal_strlit("video");
    if mime.len() >= 5 && mime.subrange(0, 5) == "image"@ {
        assert(mime.subrange(0, 5)[0] == 'i');
        assert(!has_prefix(mime, "video"@)) by {
            if has_prefix(mime, "video"@) {
                assert(mime.subrange(0, 5)[0] == 'v');
            }
        }
    }
}

} // verus!
