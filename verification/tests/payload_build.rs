use presence_sync::presence::{
    build, end_timestamp_from_clock, end_timestamp_micros, truncate_scalars,
};
use presence_sync::status::PlaybackStatus;
use presence_sync::track::{extract, PropertyBag};

fn scenario_bag(status: PlaybackStatus) -> PropertyBag {
    PropertyBag {
        title: Some(String::from("X")),
        album: Some(String::from("Y")),
        artist: Some(vec![String::from("Z")]),
        url: None,
        length_micros: Some(5_000_000),
        position_micros: Some(1_000_000),
        status,
    }
}

#[test]
fn truncation_keeps_short_strings() {
    assert_eq!(truncate_scalars("hello", 128), "hello");
    assert_eq!(truncate_scalars("", 128), "");
}

#[test]
fn truncation_cuts_to_the_limit() {
    let long: String = std::iter::repeat('a').take(200).collect();
    let cut = truncate_scalars(&long, 128);
    assert_eq!(cut.chars().count(), 128);
    assert!(long.starts_with(&cut));
}

#[test]
fn truncation_counts_scalars_not_bytes() {
    let long: String = std::iter::repeat('日').take(130).collect();
    let cut = truncate_scalars(&long, 128);
    assert_eq!(cut.chars().count(), 128);
    assert!(cut.chars().all(|c| c == '日'));
    let exact: String = std::iter::repeat('é').take(128).collect();
    assert_eq!(truncate_scalars(&exact, 128), exact);
}

#[test]
fn end_timestamp_floors_to_seconds() {
    assert_eq!(end_timestamp_micros(10_000_000, 5_000_000, 1_000_000), 14);
    assert_eq!(end_timestamp_micros(10_500_000, 1, 0), 10);
    assert_eq!(end_timestamp_micros(0, 0, 0), 0);
}

#[test]
fn end_timestamp_floors_negative_instants() {
    assert_eq!(end_timestamp_micros(-1_500_000, 0, 0), -2);
    assert_eq!(end_timestamp_micros(-1_000_000, 0, 0), -1);
    assert_eq!(end_timestamp_micros(-1, 0, 0), -1);
    assert_eq!(end_timestamp_micros(-2_000_000, 1_000_000, 0), -1);
}

#[test]
fn end_timestamp_from_clock_matches_its_instant() {
    let (now, end) = end_timestamp_from_clock(5_000_000, 1_000_000).unwrap();
    assert_eq!(end, (now + 4_000_000).div_euclid(1_000_000));
}

#[test]
fn playing_payload_carries_end_timestamp() {
    let track = extract(scenario_bag(PlaybackStatus::Playing));
    let p = build("spotify", &track, 10_000_000);
    assert_eq!(p.details, "X");
    assert_eq!(p.state, "Z - Y");
    assert_eq!(p.end_timestamp, Some(14));
    assert_eq!(p.assets.large_text, "Listening with spotify");
    assert_eq!(p.assets.large_image, "logo");
    assert_eq!(p.assets.small_text, "Playing");
    assert_eq!(p.assets.small_image, "playing");
}

#[test]
fn paused_payload_omits_end_timestamp() {
    let track = extract(scenario_bag(PlaybackStatus::Paused));
    let p = build("spotify", &track, 10_000_000);
    assert_eq!(p.details, "X");
    assert_eq!(p.state, "Z - Y");
    assert_eq!(p.end_timestamp, None);
    assert_eq!(p.assets.small_text, "Paused");
    assert_eq!(p.assets.small_image, "paused");
}

#[test]
fn stopped_payload_omits_end_timestamp() {
    let track = extract(scenario_bag(PlaybackStatus::Stopped));
    let p = build("mpv", &track, 10_000_000);
    assert_eq!(p.end_timestamp, None);
    assert_eq!(p.assets.small_text, "Paused");
}

#[test]
fn payload_lines_are_truncated() {
    let mut bag = scenario_bag(PlaybackStatus::Paused);
    bag.title = Some(std::iter::repeat('t').take(200).collect());
    bag.artist = Some(vec![std::iter::repeat('a').take(100).collect()]);
    bag.album = Some(std::iter::repeat('b').take(100).collect());
    let track = extract(bag);
    let p = build("mpv", &track, 0);
    assert_eq!(p.details.chars().count(), 128);
    assert_eq!(p.state.chars().count(), 128);
    let expected_state: String = std::iter::repeat('a')
        .take(100)
        .chain(" - ".chars())
        .chain(std::iter::repeat('b').take(25))
        .collect();
    assert_eq!(p.state, expected_state);
}

#[test]
fn defaulted_bag_builds_full_payload() {
    let bag = PropertyBag {
        title: None,
        album: None,
        artist: None,
        url: None,
        length_micros: None,
        position_micros: None,
        status: PlaybackStatus::Playing,
    };
    let track = extract(bag);
    let p = build("vlc", &track, 7_000_000);
    assert_eq!(p.details, "Unknown title");
    assert_eq!(p.state, "Unknown artist - Unknown album");
    // length defaults to 1 microsecond, so the track ends this very second
    assert_eq!(p.end_timestamp, Some(7));
}
