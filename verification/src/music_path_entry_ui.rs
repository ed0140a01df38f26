//! The directory field and the library list.
//!
//! The user types a directory path, asks for its listing, and picks an
//! entry; picking raises a load request that the next submit consumes by
//! joining the directory path with the chosen name and opening the result.
//! The rendering shell lists the directory and draws the widgets; every
//! decision — how a listing outcome changes the state, which path a
//! selection resolves to, when the request flag is consumed — is verified
//! here.

use vstd::prelude::*;

use crate::service::{spec_open_result, spec_open_state, MusicOpenError, MusicService};

verus! {

/// What the rendering shell found when it listed the directory path.
pub enum DirListing {
    /// Nothing exists at the path.
    Missing,
    /// The path names a file, not a directory.
    NotADirectory,
    /// The names of the directory's immediate children, unfiltered.
    Entries(Vec<String>),
}

/// The view of a `MusicPathEntryUI`.
pub struct PathEntryView {
    pub dir_path: Seq<char>,
    pub entries: Seq<Seq<char>>,
    pub selected: Option<int>,
    pub load_requested: bool,
}

impl PathEntryView {
    /// Well-formedness: a selection points into the entries, and a load
    /// request always carries a selection.
    pub open spec fn wf(self) -> bool {
        &&& (self.selected matches Some(i) ==> 0 <= i < self.entries.len())
        &&& (self.load_requested ==> self.selected is Some)
    }
}

/// `dir` and `name` joined with a single `/`: the separator is added only
/// when `dir` is nonempty and does not already end in one.
pub open spec fn spec_join_path(dir: Seq<char>, name: Seq<char>) -> Seq<char> {
    if dir.len() == 0 {
        name
    } else if dir[dir.len() - 1] == '/' {
        dir + name
    } else {
        dir + seq!['/'] + name
    }
}

/// Joins a directory path and a file name, as `spec_join_path` describes.
pub fn join_path(dir: &String, name: &String) -> (r: String)
    ensures
        r@ == spec_join_path(dir@, name@),
{
    let mut out = dir.clone();
    let n = dir.as_str().unicode_len();
    if n > 0 {
        if dir.as_str().get_char(n - 1) != '/' {
            out.append("/");
        }
    }
    out.append(name.as_str());
    proof {
        reveal_strlit("/");
        assert(out@ =~= spec_join_path(dir@, name@));
    }
    out
}

/// The directory field, the listed library, the current selection, and the
/// pending load request.
pub struct MusicPathEntryUI {
    dir_path: String,
    entries: Vec<String>,
    selected: Option<usize>,
    load_requested: bool,
}

impl View for MusicPathEntryUI {
    type V = PathEntryView;

    closed spec fn view(&self) -> PathEntryView {
        PathEntryView {
            dir_path: self.dir_path@,
            entries: self.entries.deep_view(),
            selected: match self.selected {
                Some(i) => Some(i as int),
                None => None,
            },
            load_requested: self.load_requested,
        }
    }
}

impl MusicPathEntryUI {
    /// A fresh entry field, pointing at the default path, with nothing
    /// listed and nothing requested.
    pub fn new() -> (ui: MusicPathEntryUI)
        ensures
            ui@.dir_path == "music/audio.mp3"@,
            ui@.entries == Seq::<Seq<char>>::empty(),
            ui@.selected is None,
            !ui@.load_requested,
            ui@.wf(),
    {
        let ui = MusicPathEntryUI {
            dir_path: String::from_str("music/audio.mp3"),
            entries: Vec::new(),
            selected: None,
            load_requested: false,
        };
        proof {
            assert(ui@.entries =~= Seq::<Seq<char>>::empty());
        }
        ui
    }

    /// The directory path as it stands in the field.
    pub fn dir_path(&self) -> (p: &String)
        ensures
            p@ == self@.dir_path,
    {
        &self.dir_path
    }

    /// Replaces the directory path with what the user typed.
    pub fn set_dir_path(&mut self, path: String)
        ensures
            final(self)@ == (PathEntryView { dir_path: path@, ..old(self)@ }),
    {
        self.dir_path = path;
    }

    /// The listed entry names, in directory order.
    pub fn entries(&self) -> (e: &Vec<String>)
        ensures
            e.deep_view() == self@.entries,
    {
        &self.entries
    }

    /// Takes a listing outcome for the directory path.  A listing replaces
    /// the library and drops any selection and request; either error leaves
    /// the state as it was and yields the console message instead.  An
    /// empty directory is a valid listing, not an error.
    pub fn apply_listing(&mut self, listing: DirListing) -> (msg: Option<String>)
        ensures
            match listing {
                DirListing::Missing => final(self)@ == old(self)@ && (msg matches Some(m)
                    && m@ == "doesn't exist"@),
                DirListing::NotADirectory => final(self)@ == old(self)@ && (msg matches Some(m)
                    && m@ == "not a directory"@),
                DirListing::Entries(v) => msg is None && final(self)@ == (PathEntryView {
                    entries: v.deep_view(),
                    selected: None,
                    load_requested: false,
                    ..old(self)@
                }),
            },
            old(self)@.wf() ==> final(self)@.wf(),
    {
        match listing {
            DirListing::Missing => Some(String::from_str("doesn't exist")),
            DirListing::NotADirectory => Some(String::from_str("not a directory")),
            DirListing::Entries(v) => {
                self.entries = v;
                self.selected = None;
                self.load_requested = false;
                None
            },
        }
    }

    /// Marks entry `i` as selected and raises the load request that the
    /// next submit consumes.
    pub fn select(&mut self, i: usize)
        requires
            i < old(self)@.entries.len(),
        ensures
            final(self)@ == (PathEntryView {
                selected: Some(i as int),
                load_requested: true,
                ..old(self)@
            }),
            old(self)@.wf() ==> final(self)@.wf(),
    {
        self.selected = Some(i);
        self.load_requested = true;
    }

    /// The path a pending load request resolves to: the directory path
    /// joined with the selected name; `None` while nothing is requested.
    pub fn pending_path(&self) -> (r: Option<String>)
        requires
            self@.wf(),
        ensures
            match r {
                Some(p) => self@.load_requested && p@ == spec_join_path(
                    self@.dir_path,
                    self@.entries[self@.selected->0],
                ),
                None => !self@.load_requested,
            },
    {
        if !self.load_requested {
            return None;
        }
        let i = match self.selected {
            Some(i) => i,
            None => {
                return None;
            },
        };
        Some(join_path(&self.dir_path, &self.entries[i]))
    }

    /// Consumes a pending load request: opens the resolved path on the
    /// service, handing it the bytes the shell read for that path, and
    /// clears the request whatever the outcome.  Without a pending request
    /// nothing happens.
    pub fn on_submit(&mut self, service: &mut MusicService, data: Option<Vec<u8>>) -> (r: Option<
        Result<(), MusicOpenError>,
    >)
        requires
            old(self)@.wf(),
        ensures
            !old(self)@.load_requested ==> r is None && final(self)@ == old(self)@
                && final(service)@ == old(service)@,
            old(self)@.load_requested ==> {
                let path = spec_join_path(
                    old(self)@.dir_path,
                    old(self)@.entries[old(self)@.selected->0],
                );
                let d = match data {
                    Some(b) => Some(b@),
                    None => None::<Seq<u8>>,
                };
                &&& r == Some(spec_open_result(d))
                &&& final(service)@ == spec_open_state(old(service)@, path, d)
                &&& final(self)@ == (PathEntryView { load_requested: false, ..old(self)@ })
            },
            final(self)@.wf(),
            old(service)@.wf() ==> final(service)@.wf(),
    {
        if !self.load_requested {
            return None;
        }
        let i = match self.selected {
            Some(i) => i,
            None => {
                return None;
            },
        };
        let path = join_path(&self.dir_path, &self.entries[i]);
        self.load_requested = false;
        Some(service.open(path, data))
    }
}

} // verus!
