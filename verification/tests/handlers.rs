use spotify_player::handlers::{
    handle_page_change_event, handle_page_change_event_at, handle_playback_change_event,
    handle_playback_change_event_at, handle_player_event, join_names, Action, ContextPageType,
    ContextPageUIState, EventStep, PageState, PageStep, PlaybackStep, PlayerEventHandlerState,
};
use spotify_player::model::{
    Context, ContextId, CurrentPlaybackContext, CurrentUserQueue, FullEpisode, FullTrack,
    PlayableItem, PlaybackDevice, PlaybackMetadata, RepeatState, SimplifiedArtist, TracksId, Type,
};
use spotify_player::player::PlayerState;
use spotify_player::request::ClientRequest;
use spotify_player::time::{Elapsed, TimeDelta};
use std::time::{Duration, Instant};

type Act<S> = Action<S, (), ()>;

fn handler() -> PlayerEventHandlerState {
    PlayerEventHandlerState {
        ended_playable_uri: None,
        last_get_context: Instant::now(),
        last_playback_refresh: Instant::now(),
        last_queue_refresh: None,
    }
}

fn track(id: &str, name: &str) -> PlayableItem {
    PlayableItem::Track(FullTrack {
        id: Some(id.into()),
        name: name.into(),
        artists: vec![
            SimplifiedArtist { name: "Ann".into() },
            SimplifiedArtist { name: "Bob".into() },
        ],
        duration: TimeDelta::milliseconds(3000),
    })
}

fn player(item: Option<PlayableItem>) -> PlayerState<()> {
    PlayerState {
        buffered_playback: Some(PlaybackMetadata {
            device_name: "test".into(),
            device_id: Some("laptop".into()),
            volume: Some(50),
            is_playing: true,
            repeat_state: RepeatState::Off,
            shuffle_state: false,
            mute_state: None,
        }),
        playback: Some(CurrentPlaybackContext {
            device: PlaybackDevice { id: None, name: "test".into(), volume_percent: None },
            repeat_state: RepeatState::Off,
            shuffle_state: false,
            context: None,
            progress: Some(TimeDelta::zero()),
            is_playing: true,
            item,
            rest: (),
        }),
        ..Default::default()
    }
}

fn look_at_playback(
    p: &PlayerState<()>,
    h: &mut PlayerEventHandlerState,
    step: PlaybackStep,
    progress_ms: i64,
    since_queue: Elapsed,
) -> Act<PlaybackStep> {
    let progress = Some(TimeDelta::milliseconds(progress_ms));
    handle_playback_change_event_at(p, h, step, progress, since_queue, Instant::now())
}

fn ask_playback() -> Act<PlaybackStep> {
    Action::Send {
        request: ClientRequest::GetCurrentPlayback,
        then: Some(PlaybackStep::Requested),
    }
}

fn ask_queue() -> Act<PlaybackStep> {
    Action::Send { request: ClientRequest::GetCurrentUserQueue, then: None }
}

#[test]
fn end_of_item_is_reported_once_until_it_plays_again() {
    let p = player(Some(track("a", "Song")));
    let mut h = handler();
    let e = Elapsed::zero();
    let go_on = Action::Continue(PlaybackStep::Queue);
    assert_eq!(look_at_playback(&p, &mut h, PlaybackStep::End, 2999, e), go_on);
    assert_eq!(look_at_playback(&p, &mut h, PlaybackStep::End, 3000, e), ask_playback());
    assert_eq!(h.ended_playable_uri, None);
    assert_eq!(look_at_playback(&p, &mut h, PlaybackStep::Requested, 3000, e), go_on);
    assert_eq!(h.ended_playable_uri, Some("spotify:track:a".to_string()));
    assert_eq!(look_at_playback(&p, &mut h, PlaybackStep::End, 3100, e), go_on);
    let same_title = player(Some(track("b", "Song")));
    assert_eq!(
        look_at_playback(&same_title, &mut h, PlaybackStep::End, 3100, e),
        ask_playback()
    );
    assert_eq!(look_at_playback(&p, &mut h, PlaybackStep::End, 10, e), go_on);
    assert_eq!(h.ended_playable_uri, None);
    assert_eq!(look_at_playback(&p, &mut h, PlaybackStep::End, 3000, e), ask_playback());
}

#[test]
fn paused_item_does_not_end() {
    let mut p = player(Some(track("a", "Song")));
    p.buffered_playback.as_mut().unwrap().is_playing = false;
    let mut h = handler();
    h.ended_playable_uri = Some("spotify:track:a".into());
    assert_eq!(
        look_at_playback(&p, &mut h, PlaybackStep::End, 9000, Elapsed::zero()),
        Action::Continue(PlaybackStep::Queue)
    );
    assert_eq!(h.ended_playable_uri, None);
    let action: Act<PlaybackStep> = handle_playback_change_event_at(
        &p,
        &mut h,
        PlaybackStep::End,
        None,
        Elapsed::zero(),
        Instant::now(),
    );
    assert_eq!(action, Action::Continue(PlaybackStep::Queue));
}

#[test]
fn queue_is_asked_for_every_five_seconds() {
    let p = player(Some(track("a", "Song")));
    let mut h = handler();
    let queue = PlaybackStep::Queue;
    assert_eq!(look_at_playback(&p, &mut h, queue, 0, Elapsed::zero()), ask_queue());
    assert_eq!(h.last_queue_refresh.as_ref().unwrap().0, "spotify:track:a");
    assert_eq!(look_at_playback(&p, &mut h, queue, 0, Elapsed::from_millis(4999)), Action::Done);
    assert_eq!(look_at_playback(&p, &mut h, queue, 0, Elapsed::from_secs(5)), ask_queue());
    let other = player(Some(track("b", "Song")));
    assert_eq!(look_at_playback(&other, &mut h, queue, 0, Elapsed::zero()), ask_queue());
    assert_eq!(h.last_queue_refresh.as_ref().unwrap().0, "spotify:track:b");
}

#[test]
fn fresh_queue_is_not_asked_for() {
    let mut p = player(Some(track("a", "Song")));
    let mut h = handler();
    h.last_queue_refresh = Some(("spotify:track:a".into(), Instant::now()));
    p.queue = Some(CurrentUserQueue {
        currently_playing: Some(track("a", "Other name")),
        queue: vec![],
    });
    let queue = PlaybackStep::Queue;
    assert_eq!(look_at_playback(&p, &mut h, queue, 0, Elapsed::zero()), Action::Done);
    assert_eq!(h.last_queue_refresh, None);
    p.queue.as_mut().unwrap().currently_playing = None;
    assert_eq!(look_at_playback(&p, &mut h, queue, 0, Elapsed::zero()), ask_queue());
}

#[test]
fn queue_of_another_item_is_stale() {
    let mut p = player(Some(PlayableItem::Episode(FullEpisode {
        id: "a".into(),
        duration: TimeDelta::milliseconds(10),
    })));
    p.queue = Some(CurrentUserQueue { currently_playing: Some(track("a", "Song")), queue: vec![] });
    let mut h = handler();
    assert_eq!(
        look_at_playback(&p, &mut h, PlaybackStep::Queue, 0, Elapsed::zero()),
        ask_queue()
    );
    assert_eq!(h.last_queue_refresh.as_ref().unwrap().0, "spotify:episode:a");
}

#[test]
fn unknown_playback_is_left_alone() {
    let mut h = handler();
    h.ended_playable_uri = Some("x".into());
    let mut silent = player(Some(track("a", "Song")));
    silent.buffered_playback = None;
    let unknown = player(Some(PlayableItem::Unknown(None)));
    for p in [player(None), PlayerState::default(), silent, unknown] {
        for step in [PlaybackStep::End, PlaybackStep::Requested, PlaybackStep::Queue] {
            let action: Act<PlaybackStep> = handle_playback_change_event(&p, &mut h, step);
            assert_eq!(action, Action::Done);
            assert_eq!(h.ended_playable_uri, Some("x".to_string()));
            assert_eq!(h.last_queue_refresh, None);
        }
    }
}

#[test]
fn playback_is_looked_at_with_the_clock() {
    let mut p = player(Some(track("a", "Song")));
    let mut h = handler();
    p.playback_last_updated_time = Some(Instant::now() - Duration::from_secs(10));
    let ended: Act<PlaybackStep> = handle_playback_change_event(&p, &mut h, PlaybackStep::End);
    assert_eq!(ended, ask_playback());
    p.playback_last_updated_time = None;
    let ended: Act<PlaybackStep> = handle_playback_change_event(&p, &mut h, PlaybackStep::End);
    assert_eq!(ended, Action::Continue(PlaybackStep::Queue));
    let asked: Act<PlaybackStep> = handle_playback_change_event(&p, &mut h, PlaybackStep::Queue);
    assert_eq!(asked, ask_queue());
    let again: Act<PlaybackStep> = handle_playback_change_event(&p, &mut h, PlaybackStep::Queue);
    assert_eq!(again, Action::Done);
    h.last_queue_refresh.as_mut().unwrap().1 = Instant::now() - Duration::from_secs(6);
    let late: Act<PlaybackStep> = handle_playback_change_event(&p, &mut h, PlaybackStep::Queue);
    assert_eq!(late, ask_queue());
}

fn album(id: &str) -> ContextId {
    ContextId::Album(id.into())
}

fn tracks() -> ContextId {
    ContextId::Tracks(TracksId { uri: "tracks:liked".into(), kind: "Liked".into() })
}

fn browsing(id: ContextId) -> PageState<u32> {
    PageState::Context {
        id: None,
        context_page_type: ContextPageType::Browsing(id),
        state: None,
    }
}

fn look_at_page(
    page: &mut PageState<u32>,
    p: &PlayerState<()>,
    h: &mut PlayerEventHandlerState,
    step: PageStep,
    playing: Option<ContextId>,
    since: Elapsed,
) -> Act<PageStep> {
    handle_page_change_event_at(page, p, h, step, playing, 0, since, Instant::now())
}

#[test]
fn browsed_context_is_shown_and_looked_up() {
    let p = player(None);
    let mut h = handler();
    let mut page = browsing(album("a"));
    let e = Elapsed::zero();
    assert_eq!(
        look_at_page(&mut page, &p, &mut h, PageStep::Change, None, e),
        Action::LookUp { uri: "spotify:album:a".into(), new_id: true }
    );
    let shown = PageState::Context {
        id: Some(album("a")),
        context_page_type: ContextPageType::Browsing(album("a")),
        state: Some(ContextPageUIState::Album(0)),
    };
    assert_eq!(page, shown);
    assert_eq!(
        look_at_page(&mut page, &p, &mut h, PageStep::Change, None, e),
        Action::LookUp { uri: "spotify:album:a".into(), new_id: false }
    );
    assert_eq!(page, shown);
}

#[test]
fn layout_follows_the_context() {
    let p = player(None);
    let mut h = handler();
    let cases = [
        (ContextId::Playlist("a".into()), ContextPageUIState::Playlist(0)),
        (album("a"), ContextPageUIState::Album(0)),
        (ContextId::Artist("a".into()), ContextPageUIState::Artist(0)),
        (ContextId::Show("a".into()), ContextPageUIState::Show(0)),
        (tracks(), ContextPageUIState::Tracks(0)),
    ];
    for (context, layout) in cases {
        let mut page = browsing(context);
        look_at_page(&mut page, &p, &mut h, PageStep::Change, None, Elapsed::zero());
        assert!(matches!(page, PageState::Context { state: Some(l), .. } if l == layout));
    }
}

#[test]
fn playing_page_follows_the_playback() {
    let p = player(None);
    let mut h = handler();
    let mut page = PageState::Context {
        id: Some(album("old")),
        context_page_type: ContextPageType::CurrentPlaying,
        state: Some(ContextPageUIState::Album(0)),
    };
    let e = Elapsed::zero();
    assert_eq!(
        look_at_page(&mut page, &p, &mut h, PageStep::Change, Some(tracks()), e),
        Action::Done
    );
    assert_eq!(
        page,
        PageState::Context {
            id: Some(tracks()),
            context_page_type: ContextPageType::CurrentPlaying,
            state: Some(ContextPageUIState::Tracks(0)),
        }
    );
    assert_eq!(look_at_page(&mut page, &p, &mut h, PageStep::Change, None, e), Action::Done);
    assert_eq!(
        page,
        PageState::Context {
            id: None,
            context_page_type: ContextPageType::CurrentPlaying,
            state: None,
        }
    );
}

#[test]
fn selection_is_fresh_on_another_context_and_stays_otherwise() {
    let mut p = player(None);
    let mut h = handler();
    let page = |id: &str, row: u32| PageState::Context {
        id: Some(album(id)),
        context_page_type: ContextPageType::CurrentPlaying,
        state: Some(ContextPageUIState::Album(row)),
    };
    let now = Instant::now();
    let e = Elapsed::zero();
    let mut shown = page("a", 7);
    for (id, row) in [("a", 7), ("b", 3), ("b", 3)] {
        let playing = Some(album(id));
        let _: Act<PageStep> = handle_page_change_event_at(
            &mut shown,
            &p,
            &mut h,
            PageStep::Change,
            playing,
            3,
            e,
            now,
        );
        assert_eq!(shown, page(id, row));
    }
    p.playback.as_mut().unwrap().context = Some(Context {
        uri: "spotify:album:c".into(),
        _type: Type::Album,
    });
    let parse = |uri: &String| uri.clone();
    let _: Act<PageStep> =
        handle_page_change_event(&mut shown, &p, parse, &mut h, PageStep::Change);
    assert_eq!(shown, page("c", 0));
    let mut selected = page("c", 5);
    let _: Act<PageStep> =
        handle_page_change_event(&mut selected, &p, parse, &mut h, PageStep::Change);
    assert_eq!(selected, page("c", 5));
    let first = EventStep::first();
    let _: Act<EventStep> = handle_player_event(&mut selected, &p, parse, &mut h, first);
    assert_eq!(selected, page("c", 5));
}

#[test]
fn context_data_is_asked_for_when_it_is_missing_and_due() {
    let p = player(None);
    let mut h = handler();
    let mut page = browsing(album("a"));
    let e = Elapsed::zero();
    look_at_page(&mut page, &p, &mut h, PageStep::Change, None, e);
    let ask = || Action::Send {
        request: ClientRequest::GetContext(album("a")),
        then: Some(PageStep::Requested),
    };
    let mut looked_up = |new_id: bool, cached: bool, since: Elapsed| {
        look_at_page(&mut page, &p, &mut h, PageStep::LookedUp { new_id, cached }, None, since)
    };
    assert_eq!(looked_up(true, false, e), ask());
    assert_eq!(looked_up(true, true, e), Action::Done);
    assert_eq!(looked_up(false, false, Elapsed::from_secs(5)), Action::Done);
    assert_eq!(looked_up(false, false, Elapsed::from_millis(5001)), ask());
    assert_eq!(looked_up(false, true, Elapsed::from_secs(100)), Action::Done);
}

#[test]
fn request_for_a_context_is_remembered() {
    let p = player(None);
    let mut h = handler();
    h.last_get_context = Instant::now() - Duration::from_secs(60);
    let mut page = browsing(album("a"));
    let at = Instant::now();
    let action: Act<PageStep> = handle_page_change_event_at(
        &mut page,
        &p,
        &mut h,
        PageStep::Requested,
        None,
        0,
        Elapsed::zero(),
        at,
    );
    assert_eq!(action, Action::Done);
    assert_eq!(h.last_get_context, at);
}

#[test]
fn lyrics_page_follows_the_track() {
    let p = player(Some(track("a", "Song")));
    let mut h = handler();
    let mut page = PageState::Lyrics {
        track_uri: "spotify:track:old".into(),
        track: "Old song".into(),
        artists: "Someone".into(),
    };
    let e = Elapsed::zero();
    assert_eq!(
        look_at_page(&mut page, &p, &mut h, PageStep::Change, None, e),
        Action::Send {
            request: ClientRequest::GetLyrics { track_id: "a".into() },
            then: None,
        }
    );
    let shown = PageState::Lyrics {
        track_uri: "spotify:track:a".into(),
        track: "Song".into(),
        artists: "Ann, Bob".into(),
    };
    assert_eq!(page, shown);
    assert_eq!(look_at_page(&mut page, &p, &mut h, PageStep::Change, None, e), Action::Done);
    assert_eq!(page, shown);
    let local = player(Some(PlayableItem::Track(FullTrack {
        id: None,
        name: "Local".into(),
        artists: vec![],
        duration: TimeDelta::zero(),
    })));
    assert_eq!(look_at_page(&mut page, &local, &mut h, PageStep::Change, None, e), Action::Done);
    let silent = player(None);
    assert_eq!(look_at_page(&mut page, &silent, &mut h, PageStep::Change, None, e), Action::Done);
    assert_eq!(page, shown);
}

#[test]
fn other_pages_are_left_alone() {
    let p = player(Some(track("a", "Song")));
    let mut h = handler();
    let mut page = PageState::Other;
    let action = look_at_page(&mut page, &p, &mut h, PageStep::Change, None, Elapsed::zero());
    assert_eq!(action, Action::Done);
    assert_eq!(page, PageState::Other);
}

#[test]
fn names_are_joined() {
    let artist = |name: &str| SimplifiedArtist { name: name.into() };
    assert_eq!(join_names(&vec![], ", "), "");
    assert_eq!(join_names(&vec![artist("A")], ", "), "A");
    assert_eq!(join_names(&vec![artist("A"), artist("B"), artist("C")], ", "), "A, B, C");
}

#[test]
fn page_is_looked_at_with_the_clock_and_the_playing_context() {
    let mut p = player(None);
    p.playback.as_mut().unwrap().context = Some(Context {
        uri: "spotify:album:abc".into(),
        _type: Type::Album,
    });
    let parse = |uri: &String| uri.clone();
    let mut h = handler();
    let mut page: PageState<u32> = PageState::Context {
        id: None,
        context_page_type: ContextPageType::CurrentPlaying,
        state: None,
    };
    let action: Act<PageStep> =
        handle_page_change_event(&mut page, &p, parse, &mut h, PageStep::Change);
    assert_eq!(action, Action::LookUp { uri: "spotify:album:abc".into(), new_id: true });
    let again = PageStep::LookedUp { new_id: false, cached: false };
    let action: Act<PageStep> = handle_page_change_event(&mut page, &p, parse, &mut h, again);
    assert_eq!(action, Action::Done);
    h.last_get_context = Instant::now() - Duration::from_secs(6);
    let action: Act<PageStep> = handle_page_change_event(&mut page, &p, parse, &mut h, again);
    assert_eq!(
        action,
        Action::Send {
            request: ClientRequest::GetContext(album("abc")),
            then: Some(PageStep::Requested),
        }
    );
    let before = h.last_get_context;
    let action: Act<PageStep> =
        handle_page_change_event(&mut page, &p, parse, &mut h, PageStep::Requested);
    assert_eq!(action, Action::Done);
    assert!(h.last_get_context > before);
}

/// Looks at the player until nothing is left to do. No context is in memory.
fn look(
    page: &mut PageState<u32>,
    p: &PlayerState<()>,
    h: &mut PlayerEventHandlerState,
) -> Vec<ClientRequest<(), ()>> {
    let mut sent = Vec::new();
    let mut step = EventStep::first();
    loop {
        let action = handle_player_event(page, p, |uri: &String| uri.clone(), h, step);
        step = match action {
            Action::LookUp { new_id, .. } => {
                EventStep::Page(PageStep::LookedUp { new_id, cached: false })
            }
            Action::Send { request, then } => {
                sent.push(request);
                match then {
                    Some(next) => next,
                    None => return sent,
                }
            }
            Action::Continue(next) => next,
            Action::Done => return sent,
        };
    }
}

#[test]
fn page_comes_before_playback_and_a_second_look_asks_for_nothing() {
    let mut p = player(Some(track("a", "Song")));
    p.playback_last_updated_time = Some(Instant::now() - Duration::from_secs(10));
    let mut h = handler();
    let mut page = browsing(album("x"));
    assert_eq!(
        look(&mut page, &p, &mut h),
        vec![
            ClientRequest::GetContext(album("x")),
            ClientRequest::GetCurrentPlayback,
            ClientRequest::GetCurrentUserQueue,
        ]
    );
    assert_eq!(look(&mut page, &p, &mut h), vec![]);
    let mut lyrics = PageState::Lyrics {
        track_uri: "".into(),
        track: "".into(),
        artists: "".into(),
    };
    assert_eq!(
        look(&mut lyrics, &p, &mut h),
        vec![ClientRequest::GetLyrics { track_id: "a".into() }]
    );
    assert_eq!(look(&mut lyrics, &p, &mut h), vec![]);
}
