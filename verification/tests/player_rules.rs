use commanda::mpris::{MediaMethod, MetaValue, Metadata, MprisService, PlayerProbe, ScanPolicy, ScanStep};
use commanda::player_scan::PlayerScan;

#[test]
fn player_bus_names() {
    assert!(MprisService::is_player_bus_name("org.mpris.MediaPlayer2.vlc"));
    assert!(!MprisService::is_player_bus_name("org.freedesktop.DBus"));
    assert!(!MprisService::is_player_bus_name("org.mpris.MediaPlayer2"));
}

#[test]
fn active_statuses() {
    assert!(MprisService::is_active_status("Playing"));
    assert!(MprisService::is_active_status("Paused"));
    assert!(!MprisService::is_active_status("Stopped"));
    assert!(!MprisService::is_active_status("playing"));
}

#[test]
fn player_short_names() {
    assert_eq!(MprisService::player_id("org.mpris.MediaPlayer2.spotify"), "spotify");
    assert_eq!(MprisService::player_id("org.mpris.MediaPlayer2.firefox.instance_1_84"), "firefox.instance_1_84");
    assert_eq!(MprisService::player_id("org.mpris.MediaPlayer2.org.mpris.MediaPlayer2.x"), "x");
    assert_eq!(MprisService::player_id(":1.42"), ":1.42");
}

#[test]
fn scan_steps() {
    let skip = ScanPolicy::SkipUnreachable;
    let stop = ScanPolicy::StopOnUnreachable;
    assert!(MprisService::scan_step(&skip, &PlayerProbe::ProxyUnavailable) == ScanStep::Skip);
    assert!(MprisService::scan_step(&stop, &PlayerProbe::ProxyUnavailable) == ScanStep::GiveUp);
    assert!(MprisService::scan_step(&stop, &PlayerProbe::StatusUnavailable) == ScanStep::Skip);
    assert!(MprisService::scan_step(&skip, &PlayerProbe::Status("Paused".to_string())) == ScanStep::Select);
    assert!(MprisService::scan_step(&stop, &PlayerProbe::Status("Playing".to_string())) == ScanStep::Select);
    assert!(MprisService::scan_step(&skip, &PlayerProbe::Status("Stopped".to_string())) == ScanStep::Skip);
}

#[test]
fn media_commands() {
    assert!(MprisService::media_method("next") == Ok(MediaMethod::Next));
    assert!(MprisService::media_method("prev") == Ok(MediaMethod::Previous));
    assert!(MprisService::media_method("pause") == Ok(MediaMethod::Pause));
    assert!(MprisService::media_method("play") == Ok(MediaMethod::Play));
    assert_eq!(MprisService::media_method("previous").err(), Some("unknown command: previous".to_string()));
    assert_eq!(MprisService::media_method("").err(), Some("unknown command: ".to_string()));
}

#[test]
fn broadcast_artwork() {
    assert_eq!(MprisService::broadcast_art_url("file:///tmp/cover.png"), "/api/playing/art");
    assert_eq!(MprisService::broadcast_art_url("https://i.scdn.co/image/ab"), "https://i.scdn.co/image/ab");
    assert_eq!(MprisService::broadcast_art_url(""), "");
    let once = MprisService::broadcast_art_url("file:///a");
    assert_eq!(MprisService::broadcast_art_url(&once), once);
}

fn sample_metadata() -> Metadata {
    let mut meta = Metadata::new();
    meta.insert("xesam:title".to_string(), MetaValue::Str("Song".to_string()));
    meta.insert(
        "xesam:artist".to_string(),
        MetaValue::Array(vec![MetaValue::Other, MetaValue::Str("Artist A".to_string()), MetaValue::Str("Artist B".to_string())]),
    );
    meta.insert("mpris:length".to_string(), MetaValue::I64(215_000_000));
    meta.insert("xesam:album".to_string(), MetaValue::I64(3));
    meta
}

#[test]
fn metadata_text_values() {
    let meta = sample_metadata();
    assert_eq!(MprisService::extract_string(&meta, "xesam:title"), "Song");
    assert_eq!(MprisService::extract_string(&meta, "xesam:artist"), "Artist A");
    assert_eq!(MprisService::extract_string(&meta, "xesam:album"), "");
    assert_eq!(MprisService::extract_string(&meta, "mpris:artUrl"), "");
}

#[test]
fn metadata_insert_replaces() {
    let mut meta = sample_metadata();
    meta.insert("xesam:title".to_string(), MetaValue::Str("Other".to_string()));
    assert_eq!(MprisService::extract_string(&meta, "xesam:title"), "Other");
    assert_eq!(MprisService::extract_string(&meta, "xesam:artist"), "Artist A");
    meta.insert("xesam:artist".to_string(), MetaValue::Array(vec![]));
    assert_eq!(MprisService::extract_string(&meta, "xesam:artist"), "");
}

#[test]
fn track_lengths() {
    let meta = sample_metadata();
    assert_eq!(MprisService::track_length(&meta), 215_000_000);
    let mut other = Metadata::new();
    assert_eq!(MprisService::track_length(&other), 0);
    other.insert("mpris:length".to_string(), MetaValue::Str("215".to_string()));
    assert_eq!(MprisService::track_length(&other), 0);
}

#[test]
fn snapshot_timestamps() {
    assert_eq!(MprisService::millis_to_timestamp(None), 0);
    assert_eq!(MprisService::millis_to_timestamp(Some(1_700_000_000_000)), 1_700_000_000_000);
    assert_eq!(MprisService::millis_to_timestamp(Some(u64::MAX as u128)), -1);
    assert!(MprisService::now_ms() > 1_600_000_000_000);
}

fn names() -> Vec<String> {
    ["org.freedesktop.DBus", "org.mpris.MediaPlayer2.vlc", ":1.7", "org.mpris.MediaPlayer2.spotify", "org.mpris.MediaPlayer2.mpv"]
        .iter()
        .map(|s| s.to_string())
        .collect()
}

#[test]
fn scan_selects_first_active_player() {
    let mut scan = PlayerScan::new(ScanPolicy::SkipUnreachable, names());
    assert_eq!(scan.next_player(), Some(1));
    assert!(scan.record(PlayerProbe::ProxyUnavailable) == ScanStep::Skip);
    assert_eq!(scan.next_player(), Some(3));
    assert!(scan.record(PlayerProbe::Status("Paused".to_string())) == ScanStep::Select);
}

#[test]
fn scan_gives_up_on_unreachable_player() {
    let mut scan = PlayerScan::new(ScanPolicy::StopOnUnreachable, names());
    assert_eq!(scan.next_player(), Some(1));
    assert!(scan.record(PlayerProbe::ProxyUnavailable) == ScanStep::GiveUp);
}

#[test]
fn scan_runs_out_of_players() {
    let mut scan = PlayerScan::new(ScanPolicy::SkipUnreachable, names());
    assert_eq!(scan.next_player(), Some(1));
    assert!(scan.record(PlayerProbe::Status("Stopped".to_string())) == ScanStep::Skip);
    assert_eq!(scan.next_player(), Some(3));
    assert!(scan.record(PlayerProbe::StatusUnavailable) == ScanStep::Skip);
    assert_eq!(scan.next_player(), Some(4));
    assert!(scan.record(PlayerProbe::Status("Stopped".to_string())) == ScanStep::Skip);
    assert_eq!(scan.next_player(), None);
    let mut empty = PlayerScan::new(ScanPolicy::SkipUnreachable, vec![":1.1".to_string()]);
    assert_eq!(empty.next_player(), None);
}

#[test]
fn snapshot_fields_from_metadata() {
    let mut meta = sample_metadata();
    meta.insert("mpris:artUrl".to_string(), MetaValue::Str("file:///tmp/c.png".to_string()));
    let t = MprisService::track_info(&meta);
    assert_eq!(t.title, "Song");
    assert_eq!(t.artist, "Artist A");
    assert_eq!(t.album, "");
    assert_eq!(t.art_url, "file:///tmp/c.png");
    assert_eq!(t.duration, 215_000_000);
}
