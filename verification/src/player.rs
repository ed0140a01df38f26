//! The per-frame composition of the player.
//!
//! Each redraw the rendering shell collects this frame's interaction
//! results — a consumed load request's file bytes, a slider drag, the
//! transport clicks — and hands them to `update`, which applies them to the
//! service and the widget state in the order the frame runs them.

use vstd::prelude::*;

use crate::music_buttons::MusicButtons;
use crate::music_path_entry_ui::{spec_join_path, MusicPathEntryUI, PathEntryView};
use crate::service::{spec_advance, spec_open_result, spec_open_state, spec_pause, spec_resume,
    spec_set_pos, spec_stop, MusicOpenError, MusicService, ServiceView};

verus! {

/// The interaction results of one frame.
pub struct FrameEvents {
    /// The whole seconds of wall time since the previous frame; a playing
    /// sink moves forward by this much.
    pub elapsed_secs: u64,
    /// The bytes of the file a pending load request resolves to, as the
    /// shell read them; `None` when the file could not be read.  Ignored
    /// while no load is pending.
    pub file_data: Option<Vec<u8>>,
    /// The second the slider was dragged to this frame, if the pointer held
    /// it.
    pub slider_dragged_to: Option<u64>,
    pub play_clicked: bool,
    pub pause_clicked: bool,
    pub stop_clicked: bool,
}

/// The view of `FrameEvents`.
pub struct FrameEventsView {
    pub elapsed_secs: u64,
    pub file_data: Option<Seq<u8>>,
    pub slider_dragged_to: Option<u64>,
    pub play_clicked: bool,
    pub pause_clicked: bool,
    pub stop_clicked: bool,
}

impl View for FrameEvents {
    type V = FrameEventsView;

    open spec fn view(&self) -> FrameEventsView {
        FrameEventsView {
            elapsed_secs: self.elapsed_secs,
            file_data: match self.file_data {
                Some(d) => Some(d@),
                None => None,
            },
            slider_dragged_to: self.slider_dragged_to,
            play_clicked: self.play_clicked,
            pause_clicked: self.pause_clicked,
            stop_clicked: self.stop_clicked,
        }
    }
}

/// The view of a `MusicPlayer`.
pub struct PlayerView {
    pub service: ServiceView,
    pub path_entry: PathEntryView,
    pub button_size: (u64, u64),
    pub pos: u64,
    pub total_duration: Option<u64>,
}

/// What one frame does to the player.  First the elapsed wall time moves a
/// playing sink forward, then a pending load request is consumed.  Then,
/// only with a track loaded: the cached duration is filled in once, the
/// slider either seeks (while dragged) or mirrors the playback position,
/// and the transport clicks are forwarded in play-pause-stop order.  The
/// second component is the open outcome the frame reports, when a load was
/// attempted.
pub open spec fn spec_update(v: PlayerView, e: FrameEventsView) -> (PlayerView, Option<
    Result<(), MusicOpenError>,
>) {
    let svc0 = spec_advance(v.service, e.elapsed_secs);
    let submitted = if v.path_entry.load_requested {
        let path = spec_join_path(
            v.path_entry.dir_path,
            v.path_entry.entries[v.path_entry.selected->0],
        );
        (
            spec_open_state(svc0, path, e.file_data),
            PathEntryView { load_requested: false, ..v.path_entry },
            Some(spec_open_result(e.file_data)),
        )
    } else {
        (svc0, v.path_entry, None::<Result<(), MusicOpenError>>)
    };
    let svc1 = submitted.0;
    if svc1.is_loaded() {
        let total = if v.total_duration is None {
            svc1.total_secs
        } else {
            v.total_duration
        };
        let moved = match e.slider_dragged_to {
            Some(sec) => (spec_set_pos(svc1, sec), sec),
            None => (svc1, svc1.pos()->0),
        };
        let svc2 = moved.0;
        let svc3 = if e.play_clicked {
            spec_resume(svc2)
        } else {
            svc2
        };
        let svc4 = if e.pause_clicked {
            spec_pause(svc3)
        } else {
            svc3
        };
        let svc5 = if e.stop_clicked {
            spec_stop(svc4)
        } else {
            svc4
        };
        (
            PlayerView {
                service: svc5,
                path_entry: submitted.1,
                button_size: v.button_size,
                pos: moved.1,
                total_duration: total,
            },
            submitted.2,
        )
    } else {
        (
            PlayerView {
                service: svc1,
                path_entry: submitted.1,
                button_size: v.button_size,
                pos: v.pos,
                total_duration: v.total_duration,
            },
            submitted.2,
        )
    }
}

/// The whole player: the service, the path-entry state, the button
/// parameters, and the slider's mirror of position and duration.
pub struct MusicPlayer {
    music_service: MusicService,
    music_path_entry_ui: MusicPathEntryUI,
    music_button_ui: MusicButtons,
    pos: u64,
    total_duration: Option<u64>,
}

impl View for MusicPlayer {
    type V = PlayerView;

    closed spec fn view(&self) -> PlayerView {
        PlayerView {
            service: self.music_service@,
            path_entry: self.music_path_entry_ui@,
            button_size: (self.music_button_ui.width, self.music_button_ui.height),
            pos: self.pos,
            total_duration: self.total_duration,
        }
    }
}

impl MusicPlayer {
    /// A fresh player: nothing loaded, nothing listed, the slider at the
    /// start with no duration known.
    pub fn new() -> (p: MusicPlayer)
        ensures
            p@.service.sink is Unloaded,
            p@.service.total_secs is None,
            p@.path_entry.dir_path == "music/audio.mp3"@,
            !p@.path_entry.load_requested,
            p@.pos == 0,
            p@.total_duration is None,
            p@.service.wf(),
            p@.path_entry.wf(),
    {
        MusicPlayer {
            music_service: MusicService::new(),
            music_path_entry_ui: MusicPathEntryUI::new(),
            music_button_ui: MusicButtons::new(),
            pos: 0,
            total_duration: None,
        }
    }

    /// The playback coordinator.
    pub fn music_service(&self) -> (s: &MusicService)
        ensures
            s@ == self@.service,
    {
        &self.music_service
    }

    /// The path-entry and library state.
    pub fn music_path_entry_ui(&mut self) -> (ui: &mut MusicPathEntryUI)
        ensures
            ui@ == old(self)@.path_entry,
            final(self)@ == (PlayerView { path_entry: final(ui)@, ..old(self)@ }),
    {
        &mut self.music_path_entry_ui
    }

    /// The button parameters.
    pub fn music_button_ui(&self) -> (b: &MusicButtons)
        ensures
            (b.width, b.height) == self@.button_size,
    {
        &self.music_button_ui
    }

    /// The slider's position mirror, in seconds.
    pub fn pos(&self) -> (p: u64)
        ensures
            p == self@.pos,
    {
        self.pos
    }

    /// The duration cached for the slider's range, in seconds.
    pub fn total_duration(&self) -> (t: Option<u64>)
        ensures
            t == self@.total_duration,
    {
        self.total_duration
    }

    /// Applies one frame's interaction results, as `spec_update` describes,
    /// and reports the open outcome when this frame consumed a load
    /// request.
    pub fn update(&mut self, events: FrameEvents) -> (r: Option<Result<(), MusicOpenError>>)
        requires
            old(self)@.path_entry.wf(),
            old(self)@.service.wf(),
        ensures
            (final(self)@, r) == spec_update(old(self)@, events@),
            final(self)@.path_entry.wf(),
            final(self)@.service.wf(),
    {
        self.music_service.advance(events.elapsed_secs);
        let r = self.music_path_entry_ui.on_submit(&mut self.music_service, events.file_data);
        if self.music_service.is_music_loaded() {
            if self.total_duration.is_none() {
                self.total_duration = self.music_service.get_total_duration();
            }
            match events.slider_dragged_to {
                Some(sec) => {
                    self.pos = sec;
                    self.music_service.set_pos(sec);
                },
                None => {
                    self.pos = match self.music_service.get_pos() {
                        Some(p) => p,
                        None => 0,
                    };
                },
            }
            if events.play_clicked {
                self.music_service.resume();
            }
            if events.pause_clicked {
                self.music_service.pause();
            }
            if events.stop_clicked {
                self.music_service.stop();
            }
        }
        r
    }
}

} // verus!
