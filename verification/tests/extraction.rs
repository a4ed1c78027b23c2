use presence_sync::status::{parse_playback_status, PlaybackStatus, ProtocolViolation};
use presence_sync::track::{extract, PropertyBag};

fn empty_bag(status: PlaybackStatus) -> PropertyBag {
    PropertyBag {
        title: None,
        album: None,
        artist: None,
        url: None,
        length_micros: None,
        position_micros: None,
        status,
    }
}

#[test]
fn extract_defaults_when_all_missing() {
    let t = extract(empty_bag(PlaybackStatus::Paused));
    assert_eq!(t.title, "Unknown title");
    assert_eq!(t.album, "Unknown album");
    assert_eq!(t.artist, "Unknown artist");
    assert_eq!(t.url, "Unknown url");
    assert_eq!(t.length_micros, 1);
    assert_eq!(t.position_micros, 0);
    assert_eq!(t.status, PlaybackStatus::Paused);
}

#[test]
fn extract_defaults_single_missing_fields() {
    let mut bag = empty_bag(PlaybackStatus::Playing);
    bag.title = Some(String::from("Song"));
    let t = extract(bag);
    assert_eq!(t.title, "Song");
    assert_eq!(t.album, "Unknown album");
    assert_eq!(t.artist, "Unknown artist");
    assert_eq!(t.url, "Unknown url");

    let mut bag = empty_bag(PlaybackStatus::Playing);
    bag.album = Some(String::from("Record"));
    bag.url = Some(String::from("file:///music/song.flac"));
    let t = extract(bag);
    assert_eq!(t.title, "Unknown title");
    assert_eq!(t.album, "Record");
    assert_eq!(t.url, "file:///music/song.flac");
}

#[test]
fn extract_keeps_given_values() {
    let bag = PropertyBag {
        title: Some(String::from("X")),
        album: Some(String::from("Y")),
        artist: Some(vec![String::from("Z")]),
        url: Some(String::from("file:///x.mp3")),
        length_micros: Some(5_000_000),
        position_micros: Some(1_000_000),
        status: PlaybackStatus::Playing,
    };
    let t = extract(bag);
    assert_eq!(t.title, "X");
    assert_eq!(t.album, "Y");
    assert_eq!(t.artist, "Z");
    assert_eq!(t.length_micros, 5_000_000);
    assert_eq!(t.position_micros, 1_000_000);
    assert_eq!(t.status, PlaybackStatus::Playing);
}

#[test]
fn extract_joins_artists_with_spaces() {
    let mut bag = empty_bag(PlaybackStatus::Stopped);
    bag.artist = Some(vec![
        String::from("A"),
        String::from("B"),
        String::from("C"),
    ]);
    let t = extract(bag);
    assert_eq!(t.artist, "A B C");
}

#[test]
fn extract_empty_artist_list_joins_to_empty() {
    let mut bag = empty_bag(PlaybackStatus::Stopped);
    bag.artist = Some(Vec::new());
    let t = extract(bag);
    assert_eq!(t.artist, "");
}

#[test]
fn extract_clamps_negative_numbers() {
    let mut bag = empty_bag(PlaybackStatus::Playing);
    bag.length_micros = Some(-5);
    bag.position_micros = Some(-3);
    let t = extract(bag);
    assert_eq!(t.length_micros, 0);
    assert_eq!(t.position_micros, 0);
}

#[test]
fn parse_status_accepts_the_three_contract_values() {
    assert_eq!(parse_playback_status("Playing"), Ok(PlaybackStatus::Playing));
    assert_eq!(parse_playback_status("Paused"), Ok(PlaybackStatus::Paused));
    assert_eq!(parse_playback_status("Stopped"), Ok(PlaybackStatus::Stopped));
}

#[test]
fn parse_status_rejects_anything_else() {
    assert_eq!(parse_playback_status("playing"), Err(ProtocolViolation));
    assert_eq!(parse_playback_status(""), Err(ProtocolViolation));
    assert_eq!(parse_playback_status("Buffering"), Err(ProtocolViolation));
    assert_eq!(parse_playback_status("PlayingX"), Err(ProtocolViolation));
}
