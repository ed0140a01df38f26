//! The playback-state coordinator.
//!
//! `MusicService` owns the current track, the cached total duration, and
//! the state of the one active sink: whether one is loaded, whether it is
//! playing, paused or stopped, and where playback stands.  Opening a track
//! probes the bytes through the audio decoder; the device that renders the
//! samples lives outside this crate and mirrors this state.

use vstd::prelude::*;

use crate::track::{spec_first_front_cover, spec_opened_tag, CoverArtError, MusicState, Track,
    TrackView};
use rodio::Source;

verus! {

/// The errors `open` can return.  `SinkErr` is reserved for engine-level
/// failures of sink creation; the current engine cannot fail there.
#[derive(Clone, Copy, PartialEq, Eq, Structural, Debug)]
pub enum MusicOpenError {
    OpenErr,
    DecoderErr,
    SinkErr,
    NoErr,
}

/// The transport state of a loaded sink.
#[derive(Clone, Copy, PartialEq, Eq, Structural, Debug)]
pub enum Transport {
    Playing,
    Paused,
    Stopped,
}

/// The engine side of the service: nothing loaded, or one sink bound to a
/// decoded source, with its transport state and its position in whole
/// seconds.
#[derive(Clone, Copy, Debug)]
pub enum SinkState {
    Unloaded,
    Loaded { transport: Transport, pos_secs: u64 },
}

/// What the audio decoder reports for a byte stream: rejection, or a
/// playable source whose total duration (in whole seconds) may be unknown,
/// as it is for some formats and streams.
#[derive(Clone, Copy, Debug)]
pub enum ProbeOutcome {
    Rejected,
    Playable { total_secs: Option<u64> },
}

/// The decoder's verdict on a byte stream; a function of the bytes alone.
pub uninterp spec fn probe_of(data: Seq<u8>) -> ProbeOutcome;

/// Relies on `rodio::Decoder::new`: whether bytes hold a playable audio
/// stream, and the duration the decoder reports for it, depend on the bytes
/// alone.
#[verifier::external_body]
fn probe_source(data: &Vec<u8>) -> (r: ProbeOutcome)
    ensures
        r == probe_of(data@),
{
    match rodio::Decoder::new(std::io::Cursor::new(data.clone())) {
        Ok(source) => ProbeOutcome::Playable {
            total_secs: source.total_duration().map(|d| d.as_secs()),
        },
        Err(_) => ProbeOutcome::Rejected,
    }
}

/// `image::DynamicImage` declared for use in signatures; the crate carries
/// decoded bitmaps through opaquely.
#[verifier::external_type_specification]
#[verifier::external_body]
pub struct ExDynamicImage(image::DynamicImage);

/// Whether a byte buffer decodes into a bitmap; a function of the bytes
/// alone.
pub uninterp spec fn image_decodes(data: Seq<u8>) -> bool;

/// Relies on `image::ImageReader` with a guessed format: whether the bytes
/// decode into a bitmap depends on the bytes alone.
#[verifier::external_body]
fn decode_image_bytes(data: &Vec<u8>) -> (r: Option<image::DynamicImage>)
    ensures
        r is Some == image_decodes(data@),
{
    let reader = match image::ImageReader::new(std::io::Cursor::new(data.as_slice()))
        .with_guessed_format()
    {
        Ok(r) => r,
        Err(_) => return None,
    };
    reader.decode().ok()
}

/// The view of a `MusicService`.
pub struct ServiceView {
    pub track: TrackView,
    pub sink: SinkState,
    pub total_secs: Option<u64>,
}

impl ServiceView {
    /// Well-formedness: while a sink is loaded and the total duration is
    /// known, the position never stands past the end.
    pub open spec fn wf(self) -> bool {
        match self.sink {
            SinkState::Loaded { pos_secs, .. } => match self.total_secs {
                Some(t) => pos_secs <= t,
                None => true,
            },
            SinkState::Unloaded => true,
        }
    }

    /// Whether a sink is loaded.
    pub open spec fn is_loaded(self) -> bool {
        self.sink is Loaded
    }

    /// The playback position, present exactly while a sink is loaded.
    pub open spec fn pos(self) -> Option<u64> {
        match self.sink {
            SinkState::Loaded { pos_secs, .. } => Some(pos_secs),
            SinkState::Unloaded => None,
        }
    }
}

/// Where a seek to `p` lands: `p` itself, cut back to the total duration
/// when that is known and `p` lies past it.
pub open spec fn spec_clamp_pos(p: u64, total: Option<u64>) -> u64 {
    match total {
        Some(t) => if p <= t {
            p
        } else {
            t
        },
        None => p,
    }
}

/// The state after a seek: the position moves on the loaded sink and
/// nothing else changes; with no sink loaded the seek is a no-op.
pub open spec fn spec_set_pos(v: ServiceView, p: u64) -> ServiceView {
    match v.sink {
        SinkState::Loaded { transport, .. } => ServiceView {
            sink: SinkState::Loaded { transport, pos_secs: spec_clamp_pos(p, v.total_secs) },
            ..v
        },
        SinkState::Unloaded => v,
    }
}

/// The state after `resume`: the loaded sink plays on from where it stood;
/// with no sink loaded, a no-op.
pub open spec fn spec_resume(v: ServiceView) -> ServiceView {
    match v.sink {
        SinkState::Loaded { pos_secs, .. } => ServiceView {
            sink: SinkState::Loaded { transport: Transport::Playing, pos_secs },
            ..v
        },
        SinkState::Unloaded => v,
    }
}

/// The state after `pause`: the loaded sink halts where it stands; with no
/// sink loaded, a no-op.
pub open spec fn spec_pause(v: ServiceView) -> ServiceView {
    match v.sink {
        SinkState::Loaded { pos_secs, .. } => ServiceView {
            sink: SinkState::Loaded { transport: Transport::Paused, pos_secs },
            ..v
        },
        SinkState::Unloaded => v,
    }
}

/// The state after `stop`: the loaded sink's queue empties, which rewinds
/// the position to the start; with no sink loaded, a no-op.
pub open spec fn spec_stop(v: ServiceView) -> ServiceView {
    match v.sink {
        SinkState::Loaded { .. } => ServiceView {
            sink: SinkState::Loaded { transport: Transport::Stopped, pos_secs: 0 },
            ..v
        },
        SinkState::Unloaded => v,
    }
}

/// The state after `dt` seconds of wall time: a playing sink moves forward,
/// never past a known end; a paused, stopped or unloaded sink stands still.
pub open spec fn spec_advance(v: ServiceView, dt: u64) -> ServiceView {
    match v.sink {
        SinkState::Loaded { transport: Transport::Playing, pos_secs } => {
            let moved = if pos_secs + dt > u64::MAX {
                u64::MAX as int
            } else {
                pos_secs + dt
            };
            let landed = match v.total_secs {
                Some(t) => if moved > t {
                    t as int
                } else {
                    moved
                },
                None => moved,
            };
            ServiceView {
                sink: SinkState::Loaded {
                    transport: Transport::Playing,
                    pos_secs: landed as u64,
                },
                ..v
            }
        },
        _ => v,
    }
}

/// What `open` returns for a path whose bytes are `data`: the file must be
/// readable and the decoder must accept it.
pub open spec fn spec_open_result(data: Option<Seq<u8>>) -> Result<(), MusicOpenError> {
    match data {
        None => Err(MusicOpenError::OpenErr),
        Some(d) => match probe_of(d) {
            ProbeOutcome::Rejected => Err(MusicOpenError::DecoderErr),
            ProbeOutcome::Playable { .. } => Ok(()),
        },
    }
}

/// The state after `open`: on success the track is replaced, the duration
/// reported by the decoder is cached, and a fresh sink starts playing from
/// the start; any failure leaves the prior state untouched.
pub open spec fn spec_open_state(
    v: ServiceView,
    path: Seq<char>,
    data: Option<Seq<u8>>,
) -> ServiceView {
    match data {
        None => v,
        Some(d) => match probe_of(d) {
            ProbeOutcome::Rejected => v,
            ProbeOutcome::Playable { total_secs } => ServiceView {
                track: TrackView {
                    path,
                    state: MusicState::NotStarted,
                    tag: spec_opened_tag(Some(d)),
                },
                sink: SinkState::Loaded { transport: Transport::Playing, pos_secs: 0 },
                total_secs,
            },
        },
    }
}

/// The playback-state coordinator: one track, one optional sink, and the
/// total duration cached at open time.
pub struct MusicService {
    music_file: Track,
    sink: SinkState,
    total_secs: Option<u64>,
}

impl View for MusicService {
    type V = ServiceView;

    closed spec fn view(&self) -> ServiceView {
        ServiceView { track: self.music_file@, sink: self.sink, total_secs: self.total_secs }
    }
}

impl MusicService {
    /// A service with nothing loaded: an empty track, no sink, no duration.
    pub fn new() -> (s: MusicService)
        ensures
            s@.track.path == Seq::<char>::empty(),
            s@.track.state == MusicState::NotStarted,
            s@.track.tag is None,
            s@.sink is Unloaded,
            s@.total_secs is None,
            s@.wf(),
    {
        MusicService {
            music_file: Track::new(String::new(), None),
            sink: SinkState::Unloaded,
            total_secs: None,
        }
    }

    /// The current track.
    pub fn music_file(&self) -> (t: &Track)
        ensures
            t@ == self@.track,
    {
        &self.music_file
    }

    /// Opens the file at `path`, whose bytes the caller read: `data` is
    /// `None` when the file could not be read.  On success the track is
    /// replaced, the decoder's duration is cached and a fresh sink plays
    /// from the start; on failure nothing changes.  `OpenErr` is returned
    /// exactly for an unreadable file, `DecoderErr` exactly for bytes the
    /// decoder rejects.
    pub fn open(&mut self, path: String, data: Option<Vec<u8>>) -> (r: Result<
        (),
        MusicOpenError,
    >)
        ensures
            r == spec_open_result(match data {
                Some(d) => Some(d@),
                None => None::<Seq<u8>>,
            }),
            final(self)@ == spec_open_state(old(self)@, path@, match data {
                Some(d) => Some(d@),
                None => None::<Seq<u8>>,
            }),
            old(self)@.wf() ==> final(self)@.wf(),
    {
        let data = match data {
            Some(d) => d,
            None => {
                return Err(MusicOpenError::OpenErr);
            },
        };
        match probe_source(&data) {
            ProbeOutcome::Rejected => Err(MusicOpenError::DecoderErr),
            ProbeOutcome::Playable { total_secs } => {
                self.music_file = Track::new(path, Some(&data));
                self.total_secs = total_secs;
                self.sink = SinkState::Loaded { transport: Transport::Playing, pos_secs: 0 };
                Ok(())
            },
        }
    }

    /// Resumes the loaded sink; a no-op with nothing loaded.
    pub fn resume(&mut self)
        ensures
            final(self)@ == spec_resume(old(self)@),
    {
        if let SinkState::Loaded { pos_secs, .. } = self.sink {
            self.sink = SinkState::Loaded { transport: Transport::Playing, pos_secs };
        }
    }

    /// Pauses the loaded sink where it stands; a no-op with nothing loaded.
    pub fn pause(&mut self)
        ensures
            final(self)@ == spec_pause(old(self)@),
    {
        if let SinkState::Loaded { pos_secs, .. } = self.sink {
            self.sink = SinkState::Loaded { transport: Transport::Paused, pos_secs };
        }
    }

    /// Stops the loaded sink, which rewinds it to the start; a no-op with
    /// nothing loaded.
    pub fn stop(&mut self)
        ensures
            final(self)@ == spec_stop(old(self)@),
    {
        if let SinkState::Loaded { .. } = self.sink {
            self.sink = SinkState::Loaded { transport: Transport::Stopped, pos_secs: 0 };
        }
    }

    /// Seeks the loaded sink to `pos_secs`, cut back to the end when the
    /// total duration is known; a no-op with nothing loaded.
    pub fn set_pos(&mut self, pos_secs: u64)
        ensures
            final(self)@ == spec_set_pos(old(self)@, pos_secs),
            final(self)@.wf(),
            old(self)@.sink is Unloaded ==> old(self)@.wf() == final(self)@.wf(),
    {
        if let SinkState::Loaded { transport, .. } = self.sink {
            let landed = match self.total_secs {
                Some(t) => if pos_secs <= t {
                    pos_secs
                } else {
                    t
                },
                None => pos_secs,
            };
            self.sink = SinkState::Loaded { transport, pos_secs: landed };
        }
    }

    /// Lets `dt` seconds of wall time pass: a playing sink moves forward,
    /// never past a known end; anything else stands still.
    pub fn advance(&mut self, dt: u64)
        requires
            old(self)@.wf(),
        ensures
            final(self)@ == spec_advance(old(self)@, dt),
            final(self)@.wf(),
    {
        if let SinkState::Loaded { transport: Transport::Playing, pos_secs } = self.sink {
            let moved = if dt > u64::MAX - pos_secs {
                u64::MAX
            } else {
                pos_secs + dt
            };
            let landed = match self.total_secs {
                Some(t) => if moved > t {
                    t
                } else {
                    moved
                },
                None => moved,
            };
            self.sink = SinkState::Loaded { transport: Transport::Playing, pos_secs: landed };
        }
    }

    /// Decodes the track's front-cover picture into a bitmap.  The errors
    /// say exactly what was missing: no tag on the track, no front-cover
    /// picture in the tag, or cover bytes the image decoder rejects.
    pub fn decode_image(&self) -> (r: Result<image::DynamicImage, CoverArtError>)
        ensures
            match r {
                Ok(_) => self@.track.tag matches Some(tag) && spec_first_front_cover(tag.pictures)
                    matches Some(d) && image_decodes(d),
                Err(e) => match e {
                    CoverArtError::NoTag => self@.track.tag is None,
                    CoverArtError::NoFrontCover => self@.track.tag matches Some(tag)
                        && spec_first_front_cover(tag.pictures) is None,
                    CoverArtError::DecodeFailed => self@.track.tag matches Some(tag)
                        && spec_first_front_cover(tag.pictures) matches Some(d)
                        && !image_decodes(d),
                },
            },
    {
        let bytes = match self.music_file.extract_img_bytes() {
            Ok(b) => b,
            Err(e) => {
                return Err(e);
            },
        };
        match decode_image_bytes(&bytes) {
            Some(img) => Ok(img),
            None => Err(CoverArtError::DecodeFailed),
        }
    }

    /// The playback position, present exactly while a sink is loaded.
    pub fn get_pos(&self) -> (p: Option<u64>)
        ensures
            p == self@.pos(),
    {
        match self.sink {
            SinkState::Loaded { pos_secs, .. } => Some(pos_secs),
            SinkState::Unloaded => None,
        }
    }

    /// The total duration cached when the track was opened, when the
    /// decoder reported one.
    pub fn get_total_duration(&self) -> (t: Option<u64>)
        ensures
            t == self@.total_secs,
    {
        self.total_secs
    }

    /// Whether a sink is currently installed.
    pub fn is_music_loaded(&self) -> (b: bool)
        ensures
            b == self@.is_loaded(),
    {
        match self.sink {
            SinkState::Loaded { .. } => true,
            SinkState::Unloaded => false,
        }
    }
}

/// Law: opening readable bytes that the decoder accepts succeeds and loads
/// music; opening an unreadable file fails with `OpenErr` and leaves the
/// service — its loaded state included — exactly as it was.
pub proof fn lemma_open_loads(v: ServiceView, path: Seq<char>, data: Option<Seq<u8>>)
    ensures
        data matches Some(d) && probe_of(d) is Playable ==> spec_open_result(data) == Ok::<
            (),
            MusicOpenError,
        >(()) && spec_open_state(v, path, data).is_loaded(),
        data is None ==> spec_open_result(data) == Err::<(), MusicOpenError>(
            MusicOpenError::OpenErr,
        ) && spec_open_state(v, path, data) == v,
{
}

/// Law: seeking to a position within the known total duration and then
/// reading the position returns exactly the sought position.
pub proof fn lemma_seek_then_read(v: ServiceView, p: u64)
    requires
        v.is_loaded(),
        v.total_secs matches Some(t) ==> p <= t,
    ensures
        spec_set_pos(v, p).pos() == Some(p),
{
}

/// Law: pausing and then resuming never moves the position — in particular
/// it does not rewind it to the start.
pub proof fn lemma_pause_resume_keeps_pos(v: ServiceView)
    ensures
        spec_resume(spec_pause(v)).pos() == v.pos(),
{
}

/// Law: elapsed play time only moves the position forward, so the position
/// is monotonically non-decreasing across any run of pauses, resumes and
/// passing time.
pub proof fn lemma_advance_monotone(v: ServiceView, dt: u64)
    requires
        v.wf(),
    ensures
        v.pos() matches Some(p1) ==> spec_advance(v, dt).pos() matches Some(p2) && p1 <= p2,
{
}

} // verus!
