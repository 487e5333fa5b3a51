//! The playlist driver.
//!
//! A state machine that fetches content through a virtual file system and
//! chains playback. URL loads in flight sit in `inprogress`; each
//! function here takes one observed event — a message from the caller, an
//! answer from the VFS, a reply from the playback engine — and moves the
//! state, handing back the loads to start. In `Randomize` mode the driver
//! walks a directory tree at random from a base directory and gives up
//! after ten empty listings in a row.

use crate::playback::PlaybackReply;
use rand::Rng;
use vstd::prelude::*;
use vstd::string::StrSliceExecFns;
use vstd::string::StringExecFns;

verus! {

/// Empty directory listings in a row after which a randomize walk is
/// abandoned.
pub const MAX_RANDOMIZE_TRIES: usize = 10;

/// Mode of the playlist: play what was asked, or walk a directory tree at
/// random.
#[derive(Clone, Copy, Debug, PartialEq, Eq, Structural)]
pub enum Mode {
    /// Do nothing beyond what was asked.
    Default,
    /// Walk the tree under the base directory at random.
    Randomize,
}

/// A directory listing the VFS handed back.
#[derive(Debug)]
pub struct FilesDirs {
    pub files: Vec<String>,
    pub dirs: Vec<String>,
}

/// What the VFS reports for a URL load in flight.
#[derive(Debug)]
pub enum VfsEvent {
    /// The load is under way.
    ReadProgress,
    /// The URL does not exist.
    NotFound,
    /// The load failed.
    Error(String),
    /// The URL named a directory; here is its listing.
    Directory(FilesDirs),
    /// The URL named a file; here are its bytes.
    ReadDone(Vec<u8>),
}

/// Replies from the playlist to the caller.
pub enum PlaylistReply {
    /// The path was not found.
    NotFound(String),
    /// No decoder accepts the path.
    NotSupported(String),
    /// Playback of the path has started.
    PlaybackStarted(String),
}

/// Messages the playlist receives from the caller.
pub enum PlaylistMessage {
    /// Add a URL to the playlist.
    AddUrl(String),
    /// Add a URL and start playing from it.
    PlayUrl(String),
}

/// A URL load the caller must start on the VFS, for the in-flight slot
/// named by `slot`.
#[derive(Debug)]
pub struct LoadRequest {
    pub slot: usize,
    pub url: String,
}

/// The URL of the entry picked from a listing: directories come first,
/// then files.
pub open spec fn spec_chosen_entry(dir: FilesDirs, pick: int) -> String {
    if pick < dir.dirs@.len() {
        dir.dirs@[pick]
    } else {
        dir.files@[pick - dir.dirs@.len()]
    }
}

/// A path joined from a base and an entry under it.
pub open spec fn spec_join_url(base: Seq<char>, entry: Seq<char>) -> Seq<char> {
    if base.len() > 0 && base.last() == '/' {
        base + entry
    } else {
        base + seq!['/'] + entry
    }
}

/// Whether a URL ends with a path separator.
fn ends_with_slash(s: &String) -> (r: bool)
    ensures
        r <==> (s@.len() > 0 && s@.last() == '/'),
{
    let n = s.as_str().unicode_len();
    if n == 0 {
        false
    } else {
        let c = s.as_str().get_char(n - 1);
        c == '/'
    }
}

/// Join a base URL and an entry under it with a path separator.
pub fn join_url(base: &String, entry: &String) -> (r: String)
    ensures
        r@ == spec_join_url(base@, entry@),
{
    let mut r = base.clone();
    if !ends_with_slash(base) {
        proof {
            reveal_strlit("/");
            assert("/"@ =~= seq!['/']);
        }
        r.append("/");
    }
    r.append(entry.as_str());
    proof {
        assert(r@ =~= spec_join_url(base@, entry@));
    }
    r
}

/// The file name of a URL, for probing decoders: the longest suffix
/// without a path separator. A URL ending in a separator has the empty
/// file name.
pub fn filename_of_url(url: &String) -> (r: String)
    ensures
        r@.len() <= url@.len(),
        r@ == url@.subrange(url@.len() - r@.len(), url@.len() as int),
        forall|j: int| url@.len() - r@.len() <= j < url@.len() ==> url@[j] != '/',
        r@.len() < url@.len() ==> url@[url@.len() - r@.len() - 1] == '/',
{
    let n = url.as_str().unicode_len();
    let mut idx: usize = 0;
    let mut i: usize = 0;
    while i < n
        invariant
            idx <= i <= n,
            n == url@.len(),
            idx > 0 ==> url@[idx - 1] == '/',
            forall|j: int| idx <= j < i ==> url@[j] != '/',
        decreases n - i,
    {
        let c = url.as_str().get_char(i);
        if c == '/' {
            idx = i + 1;
        }
        i = i + 1;
    }
    let tail = url.as_str().substring_char(idx, n);
    let r = tail.to_owned();
    proof {
        assert(r@ =~= url@.subrange(url@.len() - r@.len(), url@.len() as int));
    }
    r
}

/// Relies on rand's `Rng::gen_range` over the range `0..n`, which panics
/// on an empty range and otherwise samples a value of the range.
#[verifier::external_body]
fn random_below(n: usize) -> (r: usize)
    requires
        n >= 1,
    ensures
        r < n,
{
    rand::thread_rng().gen_range(0..n)
}

/// State of the playlist driver.
pub struct PlaylistInternal {
    /// URLs of the loads in flight; the caller holds the matching VFS
    /// handles, position by position.
    pub inprogress: Vec<String>,
    /// Songs queued or playing on the playback engine, by handle.
    pub active_songs: Vec<u64>,
    /// Where a randomize walk starts over.
    pub randomize_base_dir: String,
    /// State machine mode.
    pub mode: Mode,
    /// Empty listings seen in a row while randomizing.
    pub missed_randomize_tries: usize,
}

impl PlaylistInternal {
    /// Well-formedness: the miss counter never passes its limit.
    pub open spec fn inv(self) -> bool {
        self.missed_randomize_tries <= MAX_RANDOMIZE_TRIES
    }

    /// A fresh driver: nothing in flight, nothing playing, default mode.
    pub fn new() -> (r: PlaylistInternal)
        ensures
            r.inv(),
            r.inprogress@ == Seq::<String>::empty(),
            r.active_songs@ == Seq::<u64>::empty(),
            r.randomize_base_dir@ == Seq::<char>::empty(),
            r.mode == Mode::Default,
            r.missed_randomize_tries == 0,
    {
        PlaylistInternal {
            inprogress: Vec::new(),
            active_songs: Vec::new(),
            randomize_base_dir: String::new(),
            mode: Mode::Default,
            missed_randomize_tries: 0,
        }
    }

    /// Take one message from the caller. `PlayUrl` switches to randomize
    /// mode rooted at the URL and starts two loads of it, so one song is
    /// always prefetching; `AddUrl` starts one load.
    pub fn incoming_msg(&mut self, msg: &PlaylistMessage) -> (r: Vec<LoadRequest>)
        requires
            old(self).inv(),
        ensures
            final(self).inv(),
            final(self).active_songs@ == old(self).active_songs@,
            msg matches PlaylistMessage::PlayUrl(url) ==> {
                &&& final(self).mode == Mode::Randomize
                &&& final(self).randomize_base_dir == *url
                &&& final(self).inprogress@ == old(self).inprogress@.push(*url).push(*url)
                &&& final(self).missed_randomize_tries == old(self).missed_randomize_tries
                &&& r@.len() == 2
                &&& r@[0] == (LoadRequest { slot: old(self).inprogress@.len() as usize, url: *url })
                &&& r@[1] == (LoadRequest {
                    slot: (old(self).inprogress@.len() + 1) as usize,
                    url: *url,
                })
            },
            msg matches PlaylistMessage::AddUrl(url) ==> {
                &&& final(self).mode == old(self).mode
                &&& final(self).randomize_base_dir == old(self).randomize_base_dir
                &&& final(self).inprogress@ == old(self).inprogress@.push(*url)
                &&& final(self).missed_randomize_tries == old(self).missed_randomize_tries
                &&& r@.len() == 1
                &&& r@[0] == (LoadRequest { slot: old(self).inprogress@.len() as usize, url: *url })
            },
    {
        let mut out: Vec<LoadRequest> = Vec::new();
        match msg {
            PlaylistMessage::AddUrl(url) => {
                let slot = self.inprogress.len();
                self.inprogress.push(url.clone());
                out.push(LoadRequest { slot, url: url.clone() });
            },
            PlaylistMessage::PlayUrl(url) => {
                self.mode = Mode::Randomize;
                self.randomize_base_dir = url.clone();
                let slot = self.inprogress.len();
                self.inprogress.push(url.clone());
                out.push(LoadRequest { slot, url: url.clone() });
                let slot2 = self.inprogress.len();
                self.inprogress.push(url.clone());
                out.push(LoadRequest { slot: slot2, url: url.clone() });
            },
        }
        out
    }

    /// Drop a load whose VFS handle reported an error or a missing path.
    /// The failure stays confined to this slot.
    pub fn vfs_load_failed(&mut self, slot: usize)
        requires
            old(self).inv(),
            slot < old(self).inprogress@.len(),
        ensures
            final(self).inv(),
            final(self).inprogress@ == old(self).inprogress@.remove(slot as int),
            final(self).active_songs@ == old(self).active_songs@,
            final(self).mode == old(self).mode,
            final(self).randomize_base_dir == old(self).randomize_base_dir,
            final(self).missed_randomize_tries == old(self).missed_randomize_tries,
    {
        let _ = self.inprogress.remove(slot);
    }

    /// Take a directory listing for the load in `slot`, deciding by
    /// `pick` which entry to descend into. In randomize mode an empty
    /// listing counts a miss — the walk starts over from the base
    /// directory, and at [`MAX_RANDOMIZE_TRIES`] misses in a row the
    /// driver gives up, drops the slot and falls back to the default
    /// mode. A non-empty listing picks entry `pick` (directories first,
    /// then files), replaces this slot's URL with the joined path, resets
    /// the miss counter, and asks for that load. Outside randomize mode a
    /// listing is ignored.
    pub fn update_get_directory(&mut self, slot: usize, dir: &FilesDirs, pick: usize) -> (r: Option<
        LoadRequest,
    >)
        requires
            old(self).inv(),
            slot < old(self).inprogress@.len(),
            dir.files@.len() + dir.dirs@.len() <= usize::MAX,
            dir.files@.len() + dir.dirs@.len() > 0 ==> pick < dir.files@.len() + dir.dirs@.len(),
        ensures
            final(self).inv(),
            final(self).active_songs@ == old(self).active_songs@,
            final(self).randomize_base_dir == old(self).randomize_base_dir,
            old(self).mode == Mode::Default ==> *final(self) == *old(self) && r is None,
            old(self).mode == Mode::Randomize && dir.files@.len() + dir.dirs@.len() == 0 ==> {
                &&& (old(self).missed_randomize_tries + 1 >= MAX_RANDOMIZE_TRIES ==> {
                    &&& final(self).missed_randomize_tries == MAX_RANDOMIZE_TRIES
                    &&& final(self).mode == Mode::Default
                    &&& final(self).inprogress@ == old(self).inprogress@.remove(slot as int)
                    &&& r is None
                })
                &&& (old(self).missed_randomize_tries + 1 < MAX_RANDOMIZE_TRIES ==> {
                    &&& final(self).missed_randomize_tries == old(self).missed_randomize_tries + 1
                    &&& final(self).mode == Mode::Randomize
                    &&& r matches Some(req) && req.slot == slot && req.url == old(self).randomize_base_dir
                    &&& final(self).inprogress@ == old(self).inprogress@.update(
                        slot as int,
                        old(self).randomize_base_dir,
                    )
                })
            },
            old(self).mode == Mode::Randomize && dir.files@.len() + dir.dirs@.len() > 0 ==> {
                &&& final(self).mode == Mode::Randomize
                &&& final(self).missed_randomize_tries == 0
                &&& r matches Some(req) && req.slot == slot && req.url@ == spec_join_url(
                    old(self).inprogress@[slot as int]@,
                    spec_chosen_entry(*dir, pick as int)@,
                ) && final(self).inprogress@ == old(self).inprogress@.update(slot as int, req.url)
            },
    {
        match self.mode {
            Mode::Default => None,
            Mode::Randomize => {
                let dirs_len = dir.dirs.len();
                let files_len = dir.files.len();
                let total = dirs_len + files_len;
                if total == 0 {
                    self.missed_randomize_tries = self.missed_randomize_tries + 1;
                    if self.missed_randomize_tries >= MAX_RANDOMIZE_TRIES {
                        self.mode = Mode::Default;
                        self.missed_randomize_tries = MAX_RANDOMIZE_TRIES;
                        let _ = self.inprogress.remove(slot);
                        return None;
                    }
                    let url = self.randomize_base_dir.clone();
                    self.inprogress.set(slot, url.clone());
                    return Some(LoadRequest { slot, url });
                }
                let entry = if pick < dirs_len {
                    &dir.dirs[pick]
                } else {
                    &dir.files[pick - dirs_len]
                };
                let url = join_url(&self.inprogress[slot], entry);
                self.inprogress.set(slot, url.clone());
                self.missed_randomize_tries = 0;
                Some(LoadRequest { slot, url })
            },
        }
    }

    /// As [`PlaylistInternal::update_get_directory`], with the entry
    /// picked uniformly at random among files and directories together.
    pub fn update_get_directory_random(&mut self, slot: usize, dir: &FilesDirs) -> (r: Option<
        LoadRequest,
    >)
        requires
            old(self).inv(),
            slot < old(self).inprogress@.len(),
            dir.files@.len() + dir.dirs@.len() <= usize::MAX,
        ensures
            final(self).inv(),
            final(self).active_songs@ == old(self).active_songs@,
            final(self).randomize_base_dir == old(self).randomize_base_dir,
            old(self).mode == Mode::Default ==> *final(self) == *old(self) && r is None,
            old(self).mode == Mode::Randomize && dir.files@.len() + dir.dirs@.len() == 0 ==> {
                &&& (old(self).missed_randomize_tries + 1 >= MAX_RANDOMIZE_TRIES ==> {
                    &&& final(self).missed_randomize_tries == MAX_RANDOMIZE_TRIES
                    &&& final(self).mode == Mode::Default
                    &&& final(self).inprogress@ == old(self).inprogress@.remove(slot as int)
                    &&& r is None
                })
                &&& (old(self).missed_randomize_tries + 1 < MAX_RANDOMIZE_TRIES ==> {
                    &&& final(self).missed_randomize_tries == old(self).missed_randomize_tries + 1
                    &&& final(self).mode == Mode::Randomize
                    &&& r matches Some(req) && req.slot == slot && req.url == old(self).randomize_base_dir
                    &&& final(self).inprogress@ == old(self).inprogress@.update(
                        slot as int,
                        old(self).randomize_base_dir,
                    )
                })
            },
            old(self).mode == Mode::Randomize && dir.files@.len() + dir.dirs@.len() > 0 ==> {
                &&& final(self).mode == Mode::Randomize
                &&& final(self).missed_randomize_tries == 0
                &&& r matches Some(req) && req.slot == slot && (exists|k: int|
                    0 <= k < dir.files@.len() + dir.dirs@.len() && req.url@ == spec_join_url(
                        old(self).inprogress@[slot as int]@,
                        spec_chosen_entry(*dir, k)@,
                    )) && final(self).inprogress@ == old(self).inprogress@.update(
                    slot as int,
                    req.url,
                )
            },
    {
        let dirs_len = dir.dirs.len();
        let files_len = dir.files.len();
        let total = dirs_len + files_len;
        if total > 0 {
            let pick = random_below(total);
            let r = self.update_get_directory(slot, dir, pick);
            proof {
                if old(self).mode == Mode::Randomize {
                    assert(r matches Some(req) && req.url@ == spec_join_url(
                        old(self).inprogress@[slot as int]@,
                        spec_chosen_entry(*dir, pick as int)@,
                    ));
                }
            }
            r
        } else {
            self.update_get_directory(slot, dir, 0)
        }
    }

    /// A decoder accepted the bytes of the load in `slot` and playback
    /// was queued under `song_id`: the load is done and the song is
    /// active.
    pub fn decoder_ready(&mut self, slot: usize, song_id: u64)
        requires
            old(self).inv(),
            slot < old(self).inprogress@.len(),
        ensures
            final(self).inv(),
            final(self).inprogress@ == old(self).inprogress@.remove(slot as int),
            final(self).active_songs@ == old(self).active_songs@.push(song_id),
            final(self).mode == old(self).mode,
            final(self).randomize_base_dir == old(self).randomize_base_dir,
            final(self).missed_randomize_tries == old(self).missed_randomize_tries,
    {
        let _ = self.inprogress.remove(slot);
        self.active_songs.push(song_id);
    }

    /// Start the next song of a randomize walk: load the base directory
    /// again, into the given slot or into a new one. Outside randomize
    /// mode, or without a base directory, there is nothing to do.
    pub fn get_next_song(&mut self, prev_slot: Option<usize>) -> (r: Option<LoadRequest>)
        requires
            old(self).inv(),
            prev_slot matches Some(s) ==> s < old(self).inprogress@.len(),
        ensures
            final(self).inv(),
            final(self).active_songs@ == old(self).active_songs@,
            final(self).mode == old(self).mode,
            final(self).randomize_base_dir == old(self).randomize_base_dir,
            final(self).missed_randomize_tries == old(self).missed_randomize_tries,
            !(old(self).mode == Mode::Randomize && old(self).randomize_base_dir@.len() > 0) ==> (
            *final(self) == *old(self) && r is None),
            old(self).mode == Mode::Randomize && old(self).randomize_base_dir@.len() > 0 ==> {
                &&& (prev_slot matches Some(s) ==> final(self).inprogress@ == old(self).inprogress@.update(s as int, old(self).randomize_base_dir) && r == Some(
                    LoadRequest { slot: s, url: old(self).randomize_base_dir },
                ))
                &&& (prev_slot is None ==> final(self).inprogress@ == old(self).inprogress@.push(
                    old(self).randomize_base_dir,
                ) && r == Some(
                    LoadRequest {
                        slot: old(self).inprogress@.len() as usize,
                        url: old(self).randomize_base_dir,
                    },
                ))
            },
    {
        match self.mode {
            Mode::Default => None,
            Mode::Randomize => {
                if self.randomize_base_dir.as_str().unicode_len() == 0 {
                    return None;
                }
                let url = self.randomize_base_dir.clone();
                match prev_slot {
                    Some(s) => {
                        self.inprogress.set(s, url.clone());
                        Some(LoadRequest { slot: s, url })
                    },
                    None => {
                        let slot = self.inprogress.len();
                        self.inprogress.push(url.clone());
                        Some(LoadRequest { slot, url })
                    },
                }
            },
        }
    }

    /// No decoder accepted the bytes of the load in `slot`. A randomize
    /// walk with a base directory starts over in the same slot; otherwise
    /// the slot is dropped and the caller answers `NotSupported` for its
    /// URL.
    pub fn no_decoder_found(&mut self, slot: usize) -> (r: Option<LoadRequest>)
        requires
            old(self).inv(),
            slot < old(self).inprogress@.len(),
        ensures
            final(self).inv(),
            final(self).active_songs@ == old(self).active_songs@,
            final(self).mode == old(self).mode,
            final(self).randomize_base_dir == old(self).randomize_base_dir,
            final(self).missed_randomize_tries == old(self).missed_randomize_tries,
            old(self).mode == Mode::Randomize && old(self).randomize_base_dir@.len() > 0 ==> final(self).inprogress@ == old(self).inprogress@.update(
                slot as int,
                old(self).randomize_base_dir,
            ) && r == Some(LoadRequest { slot, url: old(self).randomize_base_dir }),
            !(old(self).mode == Mode::Randomize && old(self).randomize_base_dir@.len() > 0)
                ==> final(self).inprogress@ == old(self).inprogress@.remove(slot as int) && r
                is None,
    {
        if self.base_dir_set() {
            self.get_next_song(Some(slot))
        } else {
            let _ = self.inprogress.remove(slot);
            None
        }
    }

    /// Take one reply from an active song's channel: `PlaybackEnded`
    /// retires the song; anything else leaves the list alone.
    pub fn handle_song_reply(&mut self, index: usize, reply: &PlaybackReply)
        requires
            old(self).inv(),
            index < old(self).active_songs@.len(),
        ensures
            final(self).inv(),
            final(self).inprogress@ == old(self).inprogress@,
            final(self).mode == old(self).mode,
            final(self).randomize_base_dir == old(self).randomize_base_dir,
            final(self).missed_randomize_tries == old(self).missed_randomize_tries,
            reply is PlaybackEnded ==> final(self).active_songs@ == old(self).active_songs@.remove(index as int),
            !(reply is PlaybackEnded) ==> final(self).active_songs@ == old(self).active_songs@,
    {
        match reply {
            PlaybackReply::PlaybackEnded => {
                let _ = self.active_songs.remove(index);
            },
            _ => {},
        }
    }

    /// Keep one song pre-loading: when randomizing with at most one song
    /// active and nothing in flight, load the base directory again.
    pub fn auto_advance(&mut self) -> (r: Option<LoadRequest>)
        requires
            old(self).inv(),
        ensures
            final(self).inv(),
            final(self).active_songs@ == old(self).active_songs@,
            final(self).mode == old(self).mode,
            final(self).randomize_base_dir == old(self).randomize_base_dir,
            final(self).missed_randomize_tries == old(self).missed_randomize_tries,
            (old(self).mode == Mode::Randomize && old(self).active_songs@.len() <= 1 && old(self).inprogress@.len() == 0 && old(self).randomize_base_dir@.len() > 0) ==> {
                &&& final(self).inprogress@ == old(self).inprogress@.push(
                    old(self).randomize_base_dir,
                )
                &&& r == Some(LoadRequest { slot: 0, url: old(self).randomize_base_dir })
            },
            !(old(self).mode == Mode::Randomize && old(self).active_songs@.len() <= 1 && old(self).inprogress@.len() == 0 && old(self).randomize_base_dir@.len() > 0) ==> (*final(self)
                == *old(self) && r is None),
    {
        let is_randomize = match self.mode {
            Mode::Randomize => true,
            Mode::Default => false,
        };
        if is_randomize && self.active_songs.len() <= 1 && self.inprogress.len() == 0 {
            self.get_next_song(None)
        } else {
            None
        }
    }

    /// Whether a randomize base directory is set.
    fn base_dir_set(&self) -> (r: bool)
        ensures
            r <==> (self.mode == Mode::Randomize && self.randomize_base_dir@.len() > 0),
    {
        let is_randomize = match self.mode {
            Mode::Randomize => true,
            Mode::Default => false,
        };
        is_randomize && self.randomize_base_dir.as_str().unicode_len() > 0
    }
}

} // verus!
