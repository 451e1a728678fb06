use spotify_player::model::{
    Context, ContextId, CurrentPlaybackContext, CustomQueue, FullEpisode, FullTrack, PlayableId,
    PlayableItem, PlaybackDevice, PlaybackMetadata, RepeatState, SimplifiedArtist, TracksId, Type,
};
use spotify_player::player::PlayerState;
use spotify_player::time::{Elapsed, TimeDelta};
use std::time::{Duration, Instant};

fn player(volume: u32) -> PlayerState<&'static str> {
    PlayerState {
        buffered_playback: Some(PlaybackMetadata {
            device_name: "test".into(),
            device_id: Some("laptop".into()),
            volume: Some(volume),
            is_playing: true,
            repeat_state: RepeatState::Off,
            shuffle_state: false,
            mute_state: None,
        }),
        ..Default::default()
    }
}

fn snapshot(progress: Option<i64>) -> CurrentPlaybackContext<&'static str> {
    CurrentPlaybackContext {
        device: PlaybackDevice {
            id: Some("laptop".into()),
            name: "test".into(),
            volume_percent: Some(50),
        },
        repeat_state: RepeatState::Off,
        shuffle_state: false,
        context: None,
        progress: progress.map(TimeDelta::milliseconds),
        is_playing: true,
        item: None,
        rest: "timestamp and actions",
    }
}

fn volume(p: &PlayerState<&'static str>) -> Option<u32> {
    p.buffered_playback.as_ref().unwrap().volume
}

#[test]
fn repeated_volume_keys_accumulate_and_clamp() {
    let mut p = player(5);
    assert_eq!(p.change_volume(-10), Some(0));
    assert_eq!(p.change_volume(-1), None);
    assert_eq!(p.change_volume(5), Some(5));
    assert_eq!(p.change_volume(5), Some(10));
    assert_eq!(p.change_volume(i32::MAX), Some(100));
    assert_eq!(p.change_volume(1), None);
    assert_eq!(p.change_volume(i32::MIN), Some(0));
}

#[test]
fn stale_volume_cannot_overwrite_pending_keys() {
    let mut p = player(50);
    p.change_volume(5);
    p.change_volume(5);
    p.buffered_playback.as_mut().unwrap().volume = Some(55);
    p.reconcile_pending_volume();
    assert_eq!(p.buffered_playback.as_ref().unwrap().volume, Some(60));
}

#[test]
fn volume_intent_does_not_cross_devices_or_persist_forever() {
    let mut p = player(50);
    p.change_volume(5);
    p.buffered_playback.as_mut().unwrap().device_id = Some("phone".into());
    p.buffered_playback.as_mut().unwrap().volume = Some(20);
    p.reconcile_pending_volume();
    assert!(p.pending_volume.is_none());
    assert_eq!(p.buffered_playback.as_ref().unwrap().volume, Some(20));
    p.change_volume(5);
    p.pending_volume.as_mut().unwrap().requested_at = Instant::now() - Duration::from_secs(3);
    p.buffered_playback.as_mut().unwrap().volume = Some(20);
    p.reconcile_pending_volume();
    assert!(p.pending_volume.is_none());
    assert_eq!(p.buffered_playback.as_ref().unwrap().volume, Some(20));
}

#[test]
fn buffered_pause_freezes_progress_even_when_raw_snapshot_says_playing() {
    let mut p = player(50);
    p.playback = Some(snapshot(Some(1000)));
    p.playback_last_updated_time = Some(Instant::now() - Duration::from_secs(10));
    p.buffered_playback.as_mut().unwrap().is_playing = false;
    assert_eq!(p.playback_progress(), Some(TimeDelta::milliseconds(1000)));
    assert_eq!(p.current_playback().unwrap().progress, p.playback_progress());
}

#[test]
fn absent_api_progress_or_timestamp_does_not_panic() {
    let mut p = player(50);
    p.playback = Some(snapshot(None));
    assert_eq!(p.playback_progress(), None);
    p.playback = Some(snapshot(Some(1000)));
    assert_eq!(p.playback_progress(), Some(TimeDelta::milliseconds(1000)));
}

#[test]
fn volume_change_remembers_request_and_clears_mute() {
    let mut p = player(50);
    p.buffered_playback.as_mut().unwrap().mute_state = Some(30);
    let at = Instant::now();
    assert_eq!(p.change_volume_at(7, at), Some(57));
    assert_eq!(volume(&p), Some(57));
    assert_eq!(p.buffered_playback.as_ref().unwrap().mute_state, None);
    let pending = p.pending_volume.as_ref().unwrap();
    assert_eq!(pending.volume, 57);
    assert_eq!(pending.device_id, Some("laptop".to_string()));
    assert_eq!(pending.requested_at, at);
}

#[test]
fn shown_volume_stays_when_the_request_expires() {
    let mut p = player(50);
    p.change_volume(10);
    p.buffered_playback.as_mut().unwrap().volume = Some(20);
    p.reconcile_pending_volume_after(Elapsed::from_millis(1999));
    assert_eq!(volume(&p), Some(60));
    assert!(p.pending_volume.is_some());
    p.reconcile_pending_volume_after(Elapsed::from_secs(2));
    assert_eq!(volume(&p), Some(60));
    assert!(p.pending_volume.is_none());
}

#[test]
fn volume_change_without_known_volume_asks_for_nothing() {
    let mut p = PlayerState::<&'static str>::default();
    assert_eq!(p.change_volume(5), None);
    assert!(p.pending_volume.is_none());
    let mut p = player(50);
    p.buffered_playback.as_mut().unwrap().volume = None;
    assert_eq!(p.change_volume(5), None);
    assert!(p.pending_volume.is_none());
    let mut p = player(50);
    assert_eq!(p.change_volume(0), None);
    assert!(p.pending_volume.is_none());
}

#[test]
fn reported_volume_above_the_limit_is_brought_back() {
    let mut p = player(130);
    assert_eq!(p.change_volume(0), Some(100));
    let mut p = player(u32::MAX);
    assert_eq!(p.change_volume(i32::MIN), Some(100));
}

#[test]
fn two_changes_show_what_their_sum_shows() {
    let mut twice = player(40);
    twice.change_volume(15);
    twice.change_volume(-30);
    let mut once = player(40);
    once.change_volume(-15);
    assert_eq!(volume(&twice), volume(&once));
    assert_eq!(volume(&once), Some(25));
}

#[test]
fn pending_volume_is_weighed_for_two_seconds() {
    let mut p = player(50);
    p.change_volume(5);
    p.buffered_playback.as_mut().unwrap().volume = Some(10);
    p.reconcile_pending_volume_after(Elapsed::from_millis(1999));
    assert_eq!(volume(&p), Some(55));
    assert!(p.pending_volume.is_some());
    p.buffered_playback.as_mut().unwrap().volume = Some(10);
    p.reconcile_pending_volume_after(Elapsed::from_secs(2));
    assert_eq!(volume(&p), Some(10));
    assert!(p.pending_volume.is_none());
    p.reconcile_pending_volume_after(Elapsed::zero());
    assert_eq!(volume(&p), Some(10));
}

#[test]
fn pending_volume_waits_for_a_report() {
    let mut p = player(50);
    p.change_volume(5);
    p.buffered_playback = None;
    p.reconcile_pending_volume_after(Elapsed::from_secs(100));
    assert!(p.pending_volume.is_some());
    assert!(p.buffered_playback.is_none());
}

#[test]
fn pending_volume_without_device_is_kept_without_device() {
    let mut p = player(50);
    p.buffered_playback.as_mut().unwrap().device_id = None;
    p.change_volume(5);
    p.buffered_playback.as_mut().unwrap().volume = Some(10);
    p.reconcile_pending_volume_after(Elapsed::from_secs(1));
    assert_eq!(volume(&p), Some(55));
    p.buffered_playback.as_mut().unwrap().device_id = Some("laptop".into());
    p.reconcile_pending_volume_after(Elapsed::from_secs(1));
    assert!(p.pending_volume.is_none());
}

#[test]
fn running_progress_moves_with_the_clock() {
    let mut p = player(50);
    p.playback = Some(snapshot(Some(1000)));
    p.playback_last_updated_time = Some(Instant::now() - Duration::from_secs(10));
    let progress = p.playback_progress().unwrap();
    assert!(progress.at_least(&TimeDelta::milliseconds(11_000)));
    assert!(!progress.at_least(&TimeDelta::milliseconds(3_600_000)));
    let shown = p.current_playback().unwrap().progress.unwrap();
    assert!(shown.at_least(&progress));
}

#[test]
fn progress_is_the_exact_sum() {
    let mut p = player(50);
    p.playback = Some(snapshot(Some(1000)));
    p.playback_last_updated_time = Some(Instant::now());
    assert_eq!(
        p.playback_progress_after(Elapsed::from_millis(2345)),
        Some(TimeDelta::milliseconds(3345))
    );
    p.playback = Some(snapshot(Some(-1500)));
    assert_eq!(
        p.playback_progress_after(Elapsed::from_secs(1)),
        Some(TimeDelta::milliseconds(-500))
    );
    assert_eq!(
        p.playback_progress_after(Elapsed::from_millis(1501)),
        Some(TimeDelta::milliseconds(1))
    );
    assert_eq!(
        p.playback_progress_after(Elapsed::zero()),
        Some(TimeDelta::milliseconds(-1500))
    );
}

#[test]
fn snapshot_decides_while_nothing_is_buffered() {
    let mut p = PlayerState::<&'static str>::default();
    p.playback = Some(snapshot(Some(1000)));
    p.playback_last_updated_time = Some(Instant::now());
    assert_eq!(
        p.playback_progress_after(Elapsed::from_secs(1)),
        Some(TimeDelta::milliseconds(2000))
    );
    p.playback.as_mut().unwrap().is_playing = false;
    assert_eq!(
        p.playback_progress_after(Elapsed::from_secs(1)),
        Some(TimeDelta::milliseconds(1000))
    );
}

#[test]
fn time_too_long_for_a_duration_counts_as_none() {
    let mut p = player(50);
    p.playback = Some(snapshot(Some(0)));
    p.playback_last_updated_time = Some(Instant::now());
    assert_eq!(
        p.playback_progress_after(Elapsed::from_secs(u64::MAX)),
        Some(TimeDelta::zero())
    );
    assert_eq!(
        p.playback_progress_after(Elapsed::from_millis(i64::MAX as u64)),
        Some(TimeDelta::milliseconds(i64::MAX))
    );
    assert_eq!(
        p.playback_progress_after(Elapsed::from_millis(i64::MAX as u64 + 1)),
        Some(TimeDelta::zero())
    );
}

#[test]
fn progress_beyond_a_duration_is_not_told() {
    let mut p = player(50);
    p.playback = Some(snapshot(Some(i64::MAX)));
    p.playback_last_updated_time = Some(Instant::now() - Duration::from_secs(1));
    assert_eq!(p.playback_progress(), None);
    assert_eq!(p.current_playback().unwrap().progress, None);
}

#[test]
fn durations_have_their_nanoseconds() {
    assert_eq!(TimeDelta::zero().num_nanoseconds(), 0);
    assert_eq!(TimeDelta::milliseconds(1234).num_nanoseconds(), 1_234_000_000);
    assert_eq!(TimeDelta::milliseconds(-1).num_nanoseconds(), -1_000_000);
    assert_eq!(
        TimeDelta::milliseconds(-i64::MAX).num_nanoseconds(),
        -9_223_372_036_854_775_807_000_000
    );
    assert!(TimeDelta::milliseconds(-1).at_least(&TimeDelta::milliseconds(-2)));
    assert!(!TimeDelta::milliseconds(-1).at_least(&TimeDelta::zero()));
    assert!(Elapsed::from_secs(2).at_least(&Elapsed::from_millis(2000)));
    assert!(!Elapsed::from_millis(1999).at_least(&Elapsed::from_secs(2)));
}

fn track(id: Option<&str>) -> PlayableItem {
    PlayableItem::Track(FullTrack {
        id: id.map(String::from),
        name: "Song".into(),
        artists: vec![SimplifiedArtist { name: "A".into() }],
        duration: TimeDelta::milliseconds(1000),
    })
}

#[test]
fn current_playback_overlays_what_was_asked_for() {
    let mut p = player(70);
    p.playback = Some(snapshot(Some(1000)));
    p.playback.as_mut().unwrap().item = Some(track(Some("abc")));
    {
        let b = p.buffered_playback.as_mut().unwrap();
        b.device_name = "Phone".into();
        b.device_id = Some("phone".into());
        b.is_playing = false;
        b.repeat_state = RepeatState::Track;
        b.shuffle_state = true;
    }
    let shown = p.current_playback().unwrap();
    assert_eq!(shown.device.name, "Phone");
    assert_eq!(shown.device.id, Some("phone".to_string()));
    assert_eq!(shown.device.volume_percent, Some(70));
    assert!(!shown.is_playing);
    assert_eq!(shown.repeat_state, RepeatState::Track);
    assert!(shown.shuffle_state);
    assert_eq!(shown.item, Some(track(Some("abc"))));
    assert_eq!(shown.rest, "timestamp and actions");
    assert_eq!(p.currently_playing(), Some(&track(Some("abc"))));
    p.buffered_playback = None;
    let mut expected = snapshot(Some(1000));
    expected.item = Some(track(Some("abc")));
    assert_eq!(p.current_playback(), Some(expected));
}

#[test]
fn nothing_is_known_without_a_snapshot() {
    let p = player(50);
    assert_eq!(p.current_playback(), None);
    assert_eq!(p.currently_playing(), None);
    assert_eq!(p.playback_progress(), None);
    assert_eq!(p.playing_context_id(|uri: &String| uri.clone()), None);
}

fn playing_from(kind: Type, uri: &str) -> Option<ContextId> {
    let mut p = player(50);
    let mut playback = snapshot(None);
    playback.context = Some(Context { uri: uri.into(), _type: kind });
    p.playback = Some(playback);
    p.playing_context_id(|uri: &String| uri.clone())
}

#[test]
fn contexts_are_recognised_by_type_and_uri() {
    assert_eq!(
        playing_from(Type::Playlist, "spotify:playlist:37i9dQZF1DX"),
        Some(ContextId::Playlist("37i9dQZF1DX".into()))
    );
    assert_eq!(
        playing_from(Type::Album, "spotify/album/6IcGNaXFRf5Y1jc7QsE9O2"),
        Some(ContextId::Album("6IcGNaXFRf5Y1jc7QsE9O2".into()))
    );
    assert_eq!(
        playing_from(Type::Artist, "spotify:artist:2QI8e2Vwgg9KXOz2zjcrkI"),
        Some(ContextId::Artist("2QI8e2Vwgg9KXOz2zjcrkI".into()))
    );
    assert_eq!(
        playing_from(Type::Show, "spotify:show:4y4VO05kYgUTo2bzbox1an"),
        Some(ContextId::Show("4y4VO05kYgUTo2bzbox1an".into()))
    );
    assert_eq!(
        playing_from(Type::Playlist, "spotify:playlist:"),
        Some(ContextId::Playlist("".into()))
    );
}

#[test]
fn other_uris_are_no_contexts() {
    for kind in [Type::Playlist, Type::Album, Type::Artist, Type::Show] {
        assert_eq!(playing_from(kind, ""), None);
        assert_eq!(playing_from(kind, "spotify:track:abc"), None);
        assert_eq!(playing_from(kind, "spotify:user:me:playlist:abc"), None);
        assert_eq!(playing_from(kind, "abc"), None);
    }
    assert_eq!(playing_from(Type::Playlist, "spotify:album:abc"), None);
    assert_eq!(playing_from(Type::Album, "spotify:artist:abc"), None);
    assert_eq!(playing_from(Type::Artist, "spotify:album:abc"), None);
    assert_eq!(playing_from(Type::Show, "spotify:show:a-b"), None);
    assert_eq!(playing_from(Type::Show, "spotify:show/abc"), None);
    assert_eq!(playing_from(Type::Playlist, "spotify:Playlist:abc"), None);
    assert_eq!(playing_from(Type::Track, "spotify:track:abc"), None);
    assert_eq!(playing_from(Type::Collection, "spotify:playlist:abc"), None);
    assert_eq!(playing_from(Type::Unknown, "spotify:playlist:abc"), None);
}

#[test]
fn context_uri_is_parsed_before_it_is_read() {
    let mut p = player(50);
    let mut playback = snapshot(None);
    playback.context = Some(Context {
        uri: "spotify:user:me:playlist:abc".into(),
        _type: Type::Playlist,
    });
    p.playback = Some(playback);
    let parse = |uri: &String| {
        assert_eq!(uri, "spotify:user:me:playlist:abc");
        "spotify:playlist:abc".to_string()
    };
    assert_eq!(p.playing_context_id(parse), Some(ContextId::Playlist("abc".into())));
    assert_eq!(
        p.playing_context_id_in(&"spotify:playlist:xyz".to_string()),
        Some(ContextId::Playlist("xyz".into()))
    );
}

#[test]
fn local_contexts_stand_in_for_a_missing_one() {
    let tracks = || TracksId { uri: "tracks:liked".into(), kind: "Liked Tracks".into() };
    let parse = |uri: &String| uri.clone();
    let mut p = player(50);
    p.playback = Some(snapshot(None));
    assert_eq!(p.playing_context_id(parse), None);
    p.currently_playing_tracks_id = Some(tracks());
    assert_eq!(p.playing_context_id(parse), Some(ContextId::Tracks(tracks())));
    p.custom_queue = Some(CustomQueue { source_context: None });
    assert_eq!(p.playing_context_id(parse), Some(ContextId::Tracks(tracks())));
    p.custom_queue = Some(CustomQueue {
        source_context: Some(ContextId::Album("abc".into())),
    });
    assert_eq!(p.playing_context_id(parse), Some(ContextId::Album("abc".into())));
    p.playback.as_mut().unwrap().context = Some(Context {
        uri: "spotify:nothing".into(),
        _type: Type::Album,
    });
    assert_eq!(p.playing_context_id(parse), None);
    p.playback = None;
    assert_eq!(p.playing_context_id(parse), None);
}

#[test]
fn uris_are_made_of_type_and_id() {
    assert_eq!(ContextId::Playlist("a1".into()).uri(), "spotify:playlist:a1");
    assert_eq!(ContextId::Album("a1".into()).uri(), "spotify:album:a1");
    assert_eq!(ContextId::Artist("a1".into()).uri(), "spotify:artist:a1");
    assert_eq!(ContextId::Show("a1".into()).uri(), "spotify:show:a1");
    assert_eq!(
        ContextId::Tracks(TracksId { uri: "tracks:top".into(), kind: "Top".into() }).uri(),
        "tracks:top"
    );
    assert_eq!(PlayableId::Track("a1".into()).uri(), "spotify:track:a1");
    assert_eq!(PlayableId::Episode("a1".into()).uri(), "spotify:episode:a1");
    assert_eq!(
        playing_from(Type::Show, &ContextId::Show("a1".into()).uri()),
        Some(ContextId::Show("a1".into()))
    );
}

#[test]
fn items_have_the_ids_of_their_kind() {
    assert_eq!(track(Some("x")).id(), Some(PlayableId::Track("x".into())));
    assert_eq!(track(None).id(), None);
    let episode = PlayableItem::Episode(FullEpisode {
        id: "e".into(),
        duration: TimeDelta::zero(),
    });
    assert_eq!(episode.id(), Some(PlayableId::Episode("e".into())));
    assert_eq!(PlayableItem::Unknown(None).id(), None);
    let unknown = PlayableItem::Unknown(Some(PlayableId::Track("u".into())));
    assert_eq!(unknown.id(), Some(PlayableId::Track("u".into())));
    assert!(PlayableId::Track("x".into()).same(&PlayableId::Track("x".into())));
    assert!(!PlayableId::Track("x".into()).same(&PlayableId::Episode("x".into())));
}
