//! One selected audio file and its parsed tag metadata.
//!
//! A `Track` keeps the file's path, a coarse playback state, and the tag
//! read from the file's bytes, when one is present.  Tag parsing is the one
//! outside call here; everything derived from the parsed tag — display
//! name, artist, cover-art lookup — is verified.

use vstd::prelude::*;

use id3::TagLike;

verus! {

/// The coarse playback state a track can be marked with.
#[derive(Copy, Clone, PartialEq, Eq, Structural, Debug)]
pub enum MusicState {
    NotStarted,
    Playing,
    Stopped,
    Completed,
}

/// One embedded picture of a tag: whether it is the front cover, and its
/// raw encoded bytes.
pub struct PictureInfo {
    pub is_front_cover: bool,
    pub data: Vec<u8>,
}

/// The view of a `PictureInfo`.
pub struct PictureView {
    pub is_front_cover: bool,
    pub data: Seq<u8>,
}

impl View for PictureInfo {
    type V = PictureView;

    open spec fn view(&self) -> PictureView {
        PictureView { is_front_cover: self.is_front_cover, data: self.data@ }
    }
}

/// What the player reads from an embedded tag: the optional title and
/// artist texts, and the embedded pictures in tag order.
pub struct TagInfo {
    pub title: Option<String>,
    pub artist: Option<String>,
    pub pictures: Vec<PictureInfo>,
}

/// The view of a `TagInfo`.
pub struct TagView {
    pub title: Option<Seq<char>>,
    pub artist: Option<Seq<char>>,
    pub pictures: Seq<PictureView>,
}

impl View for TagInfo {
    type V = TagView;

    open spec fn view(&self) -> TagView {
        TagView {
            title: match self.title {
                Some(t) => Some(t@),
                None => None,
            },
            artist: match self.artist {
                Some(a) => Some(a@),
                None => None,
            },
            pictures: self.pictures@.map_values(|p: PictureInfo| p@),
        }
    }
}

/// The tag embedded at the head of `data`, if the bytes hold a readable
/// one; what it carries is a function of the bytes alone.
pub uninterp spec fn tag_of(data: Seq<u8>) -> Option<TagView>;

/// Relies on `id3::Tag::read_from2`: reads the ID3 tag from a byte stream
/// (directly, or inside an AIFF or WAV envelope); the result is a function
/// of the bytes alone, and an error leaves the track without a tag.
#[verifier::external_body]
fn parse_tag(data: &Vec<u8>) -> (tag: Option<TagInfo>)
    ensures
        tag_of(data@) == (match tag {
            Some(t) => Some(t@),
            None => None::<TagView>,
        }),
{
    let parsed = match id3::Tag::read_from2(std::io::Cursor::new(data.as_slice())) {
        Ok(t) => t,
        Err(_) => return None,
    };
    Some(TagInfo {
        title: parsed.title().map(|s| s.to_string()),
        artist: parsed.artist().map(|s| s.to_string()),
        pictures: parsed
            .pictures()
            .map(|p| PictureInfo {
                is_front_cover: matches!(p.picture_type, id3::frame::PictureType::CoverFront),
                data: p.data.clone(),
            })
            .collect(),
    })
}

/// The index of the last occurrence of `c` in `s`, or -1 when `c` does not
/// occur.
pub open spec fn spec_last_index_of(s: Seq<char>, c: char) -> int
    decreases s.len(),
{
    if s.len() == 0 {
        -1
    } else if s[s.len() - 1] == c {
        s.len() - 1
    } else {
        spec_last_index_of(s.drop_last(), c)
    }
}

proof fn lemma_last_index_at(s: Seq<char>, c: char, i: int)
    requires
        0 <= i < s.len(),
        s[i] == c,
        forall|j: int| i < j < s.len() ==> s[j] != c,
    ensures
        spec_last_index_of(s, c) == i,
    decreases s.len(),
{
    if i < s.len() - 1 {
        lemma_last_index_at(s.drop_last(), c, i);
    }
}

proof fn lemma_last_index_absent(s: Seq<char>, c: char)
    requires
        forall|j: int| 0 <= j < s.len() ==> s[j] != c,
    ensures
        spec_last_index_of(s, c) == -1,
    decreases s.len(),
{
    if s.len() > 0 {
        lemma_last_index_absent(s.drop_last(), c);
    }
}

/// The index of the last occurrence of `c` in `s`, if any.
fn last_index_of(s: &str, c: char) -> (r: Option<usize>)
    ensures
        match r {
            Some(i) => i == spec_last_index_of(s@, c) && i < s@.len(),
            None => spec_last_index_of(s@, c) == -1,
        },
{
    let n = s.unicode_len();
    let mut i: usize = n;
    while i > 0
        invariant
            i <= n,
            n == s@.len(),
            forall|j: int| i <= j < s@.len() ==> s@[j] != c,
        decreases i,
    {
        i = i - 1;
        if s.get_char(i) == c {
            proof {
                lemma_last_index_at(s@, c, i as int);
            }
            return Some(i);
        }
    }
    proof {
        lemma_last_index_absent(s@, c);
    }
    None
}

/// The file-name part of a `/`-separated path: everything after the last
/// separator, which is empty when the path ends in one.
pub open spec fn spec_file_name(path: Seq<char>) -> Seq<char> {
    path.subrange(spec_last_index_of(path, '/') + 1, path.len() as int)
}

/// The file name's stem: the part before its last `.`, except that a name
/// whose only `.` leads (a hidden file) is kept whole.
pub open spec fn spec_file_stem(path: Seq<char>) -> Seq<char> {
    let name = spec_file_name(path);
    let dot = spec_last_index_of(name, '.');
    if dot <= 0 {
        name
    } else {
        name.subrange(0, dot)
    }
}

/// The title a track without a usable tag falls back to: its path's file
/// stem, or the fixed placeholder when the path has no stem at all.
pub open spec fn spec_name_from_path(path: Seq<char>) -> Seq<char> {
    if spec_file_stem(path).len() == 0 {
        "Not named song"@
    } else {
        spec_file_stem(path)
    }
}

/// What the player displays as the track's name: the tag's title when one
/// is present, else the file stem, else the placeholder.
pub open spec fn spec_track_name(t: TrackView) -> Seq<char> {
    match t.tag {
        Some(tag) => match tag.title {
            Some(title) => title,
            None => spec_name_from_path(t.path),
        },
        None => spec_name_from_path(t.path),
    }
}

/// What the player displays as the artist: the tag's artist text when one
/// is present, else the fixed placeholder.
pub open spec fn spec_track_artist(t: TrackView) -> Seq<char> {
    match t.tag {
        Some(tag) => match tag.artist {
            Some(artist) => artist,
            None => "No named artist"@,
        },
        None => "No named artist"@,
    }
}

/// The stem of `path`, as `spec_file_stem` describes it.
fn file_stem_of(path: &String) -> (r: String)
    ensures
        r@ == spec_file_stem(path@),
{
    let s = path.as_str();
    let n = s.unicode_len();
    let start = match last_index_of(s, '/') {
        Some(i) => i + 1,
        None => 0,
    };
    let name = s.substring_char(start, n);
    proof {
        assert(name@ =~= spec_file_name(path@));
    }
    let stem = match last_index_of(name, '.') {
        Some(d) if d > 0 => name.substring_char(0, d),
        _ => name,
    };
    proof {
        assert(stem@ =~= spec_file_stem(path@));
    }
    stem.to_owned()
}

/// The errors of the cover-art path: the track has no tag at all, the tag
/// has no front-cover picture, or the picture's bytes do not decode.
#[derive(Copy, Clone, PartialEq, Eq, Structural, Debug)]
pub enum CoverArtError {
    NoTag,
    NoFrontCover,
    DecodeFailed,
}

/// The data of the first front-cover picture of the sequence, if any.
pub open spec fn spec_first_front_cover(pics: Seq<PictureView>) -> Option<Seq<u8>>
    decreases pics.len(),
{
    if pics.len() == 0 {
        None
    } else if pics[0].is_front_cover {
        Some(pics[0].data)
    } else {
        spec_first_front_cover(pics.drop_first())
    }
}

/// The in-memory representation of one selected audio file.
pub struct Track {
    path: String,
    state: MusicState,
    tag: Option<TagInfo>,
}

/// The view of a `Track`.
pub struct TrackView {
    pub path: Seq<char>,
    pub state: MusicState,
    pub tag: Option<TagView>,
}

impl View for Track {
    type V = TrackView;

    closed spec fn view(&self) -> TrackView {
        TrackView {
            path: self.path@,
            state: self.state,
            tag: match self.tag {
                Some(t) => Some(t@),
                None => None,
            },
        }
    }
}

/// The tag a freshly opened track carries: the one parsed from the file's
/// bytes, or none when no file was found at the path.
pub open spec fn spec_opened_tag(data: Option<Seq<u8>>) -> Option<TagView> {
    match data {
        Some(d) => tag_of(d),
        None => None,
    }
}

impl Track {
    /// Builds the track for `path`. `data` carries the file's bytes as the
    /// caller read them, or `None` when no file exists at the path; a
    /// missing file yields an empty track rather than an error, and a
    /// malformed tag is tolerated in the same way.
    pub fn new(path: String, data: Option<&Vec<u8>>) -> (t: Track)
        ensures
            t@.path == path@,
            t@.state == MusicState::NotStarted,
            t@.tag == spec_opened_tag(match data {
                Some(d) => Some(d@),
                None => None,
            }),
    {
        let tag = match data {
            Some(d) => parse_tag(d),
            None => None,
        };
        Track { path, state: MusicState::NotStarted, tag }
    }

    /// Marks the track with a playback state.
    pub fn set_state(&mut self, state: MusicState)
        ensures
            final(self)@ == (TrackView { state, ..old(self)@ }),
    {
        self.state = state;
    }

    /// The playback state the track was last marked with.
    pub fn state(&self) -> (s: MusicState)
        ensures
            s == self@.state,
    {
        self.state
    }

    /// The path the track was opened from.
    pub fn path(&self) -> (p: &String)
        ensures
            p@ == self@.path,
    {
        &self.path
    }

    /// The name shown for the track: the tag's title, else the file stem of
    /// the path, else the fixed placeholder.
    pub fn name(&self) -> (r: String)
        ensures
            r@ == spec_track_name(self@),
    {
        if let Some(tag) = &self.tag {
            if let Some(title) = &tag.title {
                return title.clone();
            }
        }
        let stem = file_stem_of(&self.path);
        if stem.as_str().unicode_len() == 0 {
            String::from_str("Not named song")
        } else {
            stem
        }
    }

    /// The artist shown for the track: the tag's artist text, else the
    /// fixed placeholder.
    pub fn artist(&self) -> (r: String)
        ensures
            r@ == spec_track_artist(self@),
    {
        if let Some(tag) = &self.tag {
            if let Some(artist) = &tag.artist {
                return artist.clone();
            }
        }
        String::from_str("No named artist")
    }

    /// The raw bytes of the tag's first front-cover picture: `NoTag` when
    /// the track has no tag, `NoFrontCover` when the tag has no front-cover
    /// picture.
    pub fn extract_img_bytes(&self) -> (r: Result<Vec<u8>, CoverArtError>)
        ensures
            match r {
                Ok(d) => self@.tag matches Some(tag) && spec_first_front_cover(tag.pictures)
                    == Some(d@),
                Err(e) => match e {
                    CoverArtError::NoTag => self@.tag is None,
                    CoverArtError::NoFrontCover => self@.tag matches Some(tag)
                        && spec_first_front_cover(tag.pictures) is None,
                    CoverArtError::DecodeFailed => false,
                },
            },
    {
        let tag = match self.tag.as_ref() {
            Some(t) => t,
            None => {
                return Err(CoverArtError::NoTag);
            },
        };
        let ghost pics = tag@.pictures;
        proof {
            assert(pics.skip(0) =~= pics);
        }
        let mut i: usize = 0;
        while i < tag.pictures.len()
            invariant
                i <= tag.pictures.len(),
                self.tag is Some,
                *tag == self.tag->0,
                pics == tag@.pictures,
                pics.len() == tag.pictures.len(),
                spec_first_front_cover(pics) == spec_first_front_cover(pics.skip(i as int)),
            decreases tag.pictures.len() - i,
        {
            if tag.pictures[i].is_front_cover {
                let d = tag.pictures[i].data.clone();
                proof {
                    assert(pics.skip(i as int)[0] == pics[i as int]);
                    assert(d@ =~= pics[i as int].data);
                    assert(self@.tag == Some((*tag)@));
                }
                return Ok(d);
            }
            proof {
                assert(pics.skip(i as int).drop_first() =~= pics.skip(i as int + 1));
            }
            i = i + 1;
        }
        proof {
            assert(pics.skip(i as int) =~= Seq::<PictureView>::empty());
        }
        Err(CoverArtError::NoFrontCover)
    }
}

} // verus!
