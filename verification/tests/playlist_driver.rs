use retrovert_core::playback::PlaybackReply;
use retrovert_core::playlist::filename_of_url;
use retrovert_core::playlist::join_url;
use retrovert_core::playlist::FilesDirs;
use retrovert_core::playlist::LoadRequest;
use retrovert_core::playlist::Mode;
use retrovert_core::playlist::PlaylistInternal;
use retrovert_core::playlist::PlaylistMessage;

fn empty_dir() -> FilesDirs {
    FilesDirs { files: Vec::new(), dirs: Vec::new() }
}

fn listing(files: &[&str], dirs: &[&str]) -> FilesDirs {
    FilesDirs {
        files: files.iter().map(|s| s.to_string()).collect(),
        dirs: dirs.iter().map(|s| s.to_string()).collect(),
    }
}

#[test]
fn filename_is_the_suffix_after_the_last_separator() {
    assert_eq!(filename_of_url(&"music/sub/tune.mod".to_string()), "tune.mod");
    assert_eq!(filename_of_url(&"tune.mod".to_string()), "tune.mod");
    assert_eq!(filename_of_url(&"music/sub/".to_string()), "");
    assert_eq!(filename_of_url(&"".to_string()), "");
}

#[test]
fn join_url_inserts_one_separator() {
    assert_eq!(join_url(&"music".to_string(), &"a.mod".to_string()), "music/a.mod");
    assert_eq!(join_url(&"music/".to_string(), &"a.mod".to_string()), "music/a.mod");
    assert_eq!(join_url(&"".to_string(), &"a.mod".to_string()), "/a.mod");
}

#[test]
fn play_url_prefetches_two_loads() {
    let mut playlist = PlaylistInternal::new();
    let loads = playlist.incoming_msg(&PlaylistMessage::PlayUrl("base".to_string()));
    assert_eq!(loads.len(), 2);
    assert_eq!(loads[0].slot, 0);
    assert_eq!(loads[0].url, "base");
    assert_eq!(loads[1].slot, 1);
    assert_eq!(loads[1].url, "base");
    assert!(matches!(playlist.mode, Mode::Randomize));
    assert_eq!(playlist.randomize_base_dir, "base");
    assert_eq!(playlist.inprogress, vec!["base".to_string(), "base".to_string()]);
}

#[test]
fn add_url_starts_one_load() {
    let mut playlist = PlaylistInternal::new();
    let loads = playlist.incoming_msg(&PlaylistMessage::AddUrl("song.mod".to_string()));
    assert_eq!(loads.len(), 1);
    assert_eq!(loads[0].slot, 0);
    assert_eq!(loads[0].url, "song.mod");
    assert!(matches!(playlist.mode, Mode::Default));
}

#[test]
fn directory_listing_picks_dirs_then_files() {
    let mut playlist = PlaylistInternal::new();
    let _ = playlist.incoming_msg(&PlaylistMessage::PlayUrl("base".to_string()));
    let dir = listing(&["f0", "f1"], &["d0"]);
    // picks index directories first: 0 is d0, 1 is f0, 2 is f1
    let req = playlist.update_get_directory(0, &dir, 0).unwrap();
    assert_eq!(req.url, "base/d0");
    assert_eq!(playlist.inprogress[0], "base/d0");
    let req = playlist.update_get_directory(0, &dir, 2).unwrap();
    assert_eq!(req.url, "base/d0/f1");
    assert_eq!(playlist.missed_randomize_tries, 0);
}

#[test]
fn ten_empty_listings_end_the_walk() {
    let mut playlist = PlaylistInternal::new();
    let _ = playlist.incoming_msg(&PlaylistMessage::PlayUrl("base".to_string()));
    // consume the prefetched second slot so one load stays in flight
    playlist.vfs_load_failed(1);
    let dir = empty_dir();
    for round in 1..10 {
        let req = playlist.update_get_directory(0, &dir, 0);
        assert_eq!(playlist.missed_randomize_tries, round);
        assert!(matches!(playlist.mode, Mode::Randomize));
        let req = req.unwrap();
        assert_eq!(req.slot, 0);
        assert_eq!(req.url, "base");
    }
    // the tenth empty listing gives up: back to default mode, slot dropped
    let req = playlist.update_get_directory(0, &dir, 0);
    assert!(req.is_none());
    assert!(matches!(playlist.mode, Mode::Default));
    assert_eq!(playlist.inprogress.len(), 0);
    // no new prefetch is issued after giving up
    assert!(playlist.auto_advance().is_none());
    assert_eq!(playlist.missed_randomize_tries, 10);
}

#[test]
fn an_exhausted_walk_restarted_gives_up_at_once() {
    let mut playlist = PlaylistInternal::new();
    let _ = playlist.incoming_msg(&PlaylistMessage::PlayUrl("base".to_string()));
    playlist.vfs_load_failed(1);
    let dir = empty_dir();
    for _ in 0..10 {
        let _ = playlist.update_get_directory(0, &dir, 0);
    }
    assert!(matches!(playlist.mode, Mode::Default));
    // asking to play again re-enters the walk with its misses remembered:
    // the next empty listing ends it at once
    let _ = playlist.incoming_msg(&PlaylistMessage::PlayUrl("base".to_string()));
    assert!(matches!(playlist.mode, Mode::Randomize));
    let req = playlist.update_get_directory(0, &dir, 0);
    assert!(req.is_none());
    assert!(matches!(playlist.mode, Mode::Default));
    assert_eq!(playlist.missed_randomize_tries, 10);
}

#[test]
fn random_pick_lands_on_a_listed_entry() {
    let mut playlist = PlaylistInternal::new();
    let _ = playlist.incoming_msg(&PlaylistMessage::PlayUrl("base".to_string()));
    // with a single entry the random pick has one lawful outcome
    let dir = listing(&[], &["only"]);
    let req = playlist.update_get_directory_random(0, &dir).unwrap();
    assert_eq!(req.url, "base/only");
    // with several entries the outcome is one of them
    let dir = listing(&["fa", "fb"], &["da"]);
    for _ in 0..20 {
        playlist.inprogress[0] = "base".to_string();
        let req = playlist.update_get_directory_random(0, &dir).unwrap();
        let url = req.url.as_str();
        assert!(url == "base/da" || url == "base/fa" || url == "base/fb");
    }
}

#[test]
fn finished_song_triggers_auto_advance() {
    let mut playlist = PlaylistInternal::new();
    let _ = playlist.incoming_msg(&PlaylistMessage::PlayUrl("base".to_string()));
    // both loads found decoders: two songs active, nothing in flight
    playlist.decoder_ready(0, 1);
    playlist.decoder_ready(0, 2);
    assert_eq!(playlist.active_songs, vec![1u64, 2]);
    assert_eq!(playlist.inprogress.len(), 0);
    // nothing to do while two songs are active
    assert!(playlist.auto_advance().is_none());
    // the first song ends: it leaves the list and a new load starts
    playlist.handle_song_reply(0, &PlaybackReply::PlaybackEnded);
    assert_eq!(playlist.active_songs, vec![2u64]);
    let req = playlist.auto_advance().unwrap();
    assert_eq!(req.slot, 0);
    assert_eq!(req.url, "base");
    assert_eq!(playlist.inprogress, vec!["base".to_string()]);
}

#[test]
fn playback_started_leaves_active_songs_alone() {
    let mut playlist = PlaylistInternal::new();
    let _ = playlist.incoming_msg(&PlaylistMessage::PlayUrl("base".to_string()));
    playlist.decoder_ready(0, 9);
    playlist.handle_song_reply(0, &PlaybackReply::PlaybackStarted);
    assert_eq!(playlist.active_songs, vec![9u64]);
}

#[test]
fn no_decoder_retries_in_randomize_mode() {
    let mut playlist = PlaylistInternal::new();
    let _ = playlist.incoming_msg(&PlaylistMessage::PlayUrl("base".to_string()));
    playlist.inprogress[0] = "base/strange.bin".to_string();
    let req = playlist.no_decoder_found(0).unwrap();
    assert_eq!(req.slot, 0);
    assert_eq!(req.url, "base");
    assert_eq!(playlist.inprogress[0], "base");
}

#[test]
fn no_decoder_drops_the_slot_in_default_mode() {
    let mut playlist = PlaylistInternal::new();
    let _ = playlist.incoming_msg(&PlaylistMessage::AddUrl("strange.bin".to_string()));
    let req: Option<LoadRequest> = playlist.no_decoder_found(0);
    assert!(req.is_none());
    assert_eq!(playlist.inprogress.len(), 0);
}

#[test]
fn vfs_errors_stay_confined_to_their_slot() {
    let mut playlist = PlaylistInternal::new();
    let _ = playlist.incoming_msg(&PlaylistMessage::PlayUrl("base".to_string()));
    playlist.inprogress[1] = "base/bad".to_string();
    playlist.vfs_load_failed(1);
    assert_eq!(playlist.inprogress, vec!["base".to_string()]);
    assert!(matches!(playlist.mode, Mode::Randomize));
}

#[test]
fn default_mode_ignores_directory_listings() {
    let mut playlist = PlaylistInternal::new();
    let _ = playlist.incoming_msg(&PlaylistMessage::AddUrl("dir".to_string()));
    let dir = listing(&["f"], &[]);
    let req = playlist.update_get_directory(0, &dir, 0);
    assert!(req.is_none());
    assert_eq!(playlist.inprogress, vec!["dir".to_string()]);
    assert_eq!(playlist.missed_randomize_tries, 0);
}
