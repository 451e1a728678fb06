//! What holds of the player as a whole, over every state and every reading of
//! the clock.

use crate::handlers::{
    context_is_due, expected_id, has_ended, is_fresh, joined, layout, needs_playing, next_lyrics,
    page_action, page_change, page_part, playback_change, playback_part, playing,
    playing_id_known, queue_id_known, queue_is_stale, remote_context, updated_page, Action,
    ActionView, ContextPageType, ContextPageTypeView, ContextPageUIState, EventStep, HandlerView,
    PageState, PageStep, PageView, PlaybackStep, PlayerEventHandlerState,
    CONTEXT_REFRESH_THROTTLE_SECS, QUEUE_REFRESH_THROTTLE_SECS,
};
use crate::ids::{after, id_in_uri, is_valid_id, text, uri_of};
use crate::model::{
    context_view, nanos, ContextId, ContextIdView, CurrentPlaybackContext, CustomQueue, FullTrack,
    FullTrackView, PlayableId, PlayableIdView, PlayableItem, PlayableItemView, PlaybackMetadata,
    PlaybackView, TracksIdView, Type,
};
use crate::player::{
    context_in_uri, in_bounds, moved_volume, overlaid, shows, PlayerState, PENDING_VOLUME_SECS,
};
use crate::request::{ClientRequest, ClientRequestView, PlayerRequest};
use crate::run_loop::{
    is_volume, refresh_is_due, RunAction, RunEvent, RunLoop, EVENT_INTERVAL_MS,
    SESSION_CHECK_INTERVAL_MS,
};
use crate::time::{passed, TimeDelta, MAX_DELTA_NANOS};
use std::time::Instant;
use vstd::prelude::*;

verus! {

// ---- Contents ----

/// The contents of an optional value are there exactly if the value is, and are
/// then its contents.
pub proof fn optional_contents_are_kept(s: String, d: TimeDelta, id: ContextId)
    ensures
        text(Some(s)) == Some(s@) && text(None) is None,
        nanos(Some(d)) == Some(d@) && nanos(None) is None,
        context_view(Some(id)) == Some(id@) && context_view(None) is None,
{
}

/// An ID is told by its kind and its text.
pub proof fn id_is_told_as_it_is(context: ContextId, playable: PlayableId)
    ensures
        match context {
            ContextId::Playlist(id) => context@ == ContextIdView::Playlist(id@),
            ContextId::Album(id) => context@ == ContextIdView::Album(id@),
            ContextId::Artist(id) => context@ == ContextIdView::Artist(id@),
            ContextId::Show(id) => context@ == ContextIdView::Show(id@),
            ContextId::Tracks(id) => context@ is Tracks && context@->Tracks_0.uri == id.uri@
                && context@->Tracks_0.kind == id.kind@,
        },
        match playable {
            PlayableId::Track(id) => playable@ == PlayableIdView::Track(id@),
            PlayableId::Episode(id) => playable@ == PlayableIdView::Episode(id@),
        },
{
}

/// Requests with the same contents ask for the same.
pub proof fn requests_are_told_apart<P, R>(a: ClientRequest<P, R>, b: ClientRequest<P, R>)
    ensures
        a@ == b@ <==> match (a, b) {
            (ClientRequest::GetContext(a), ClientRequest::GetContext(b)) => a@ == b@,
            (
                ClientRequest::GetLyrics { track_id: a },
                ClientRequest::GetLyrics { track_id: b },
            ) => a@ == b@,
            _ => a == b,
        },
        a@ is GetCurrentPlayback <==> a is GetCurrentPlayback,
        a@ is GetCurrentUserQueue <==> a is GetCurrentUserQueue,
        a@ is GetContext <==> a is GetContext,
        a@ is GetLyrics <==> a is GetLyrics,
        a@ is Player <==> a is Player,
        a@ is Other <==> a is Other,
        a matches ClientRequest::GetContext(id) ==> a@->GetContext_0 == id@,
        a matches ClientRequest::GetLyrics { track_id } ==> a@->track_id == track_id@,
{
}

/// What is remembered of the player is told as it is.
pub proof fn memory_is_told_as_it_is(h: PlayerEventHandlerState)
    ensures
        h@.last_get_context == h.last_get_context,
        h@.last_playback_refresh == h.last_playback_refresh,
        match (h@.ended_playable_uri, h.ended_playable_uri) {
            (Some(a), Some(b)) => a == b@,
            (None, None) => true,
            _ => false,
        },
        match (h@.last_queue_refresh, h.last_queue_refresh) {
            (Some((a, t)), Some((b, u))) => a == b@ && t == u,
            (None, None) => true,
            _ => false,
        },
{
}

/// An action is told as it is.
pub proof fn action_is_told_as_it_is<S, P, R>(action: Action<S, P, R>)
    ensures
        match action {
            Action::LookUp { uri, new_id } => action@ == (ActionView::<S, P, R>::LookUp {
                uri: uri@,
                new_id,
            }),
            Action::Send { request, then } => action@ == (ActionView::<S, P, R>::Send {
                request: request@,
                then,
            }),
            Action::Continue(step) => action@ == ActionView::<S, P, R>::Continue(step),
            Action::Done => action@ is Done,
        },
{
}

/// A page is told as it is.
pub proof fn page_is_told_as_it_is<U>(page: PageState<U>)
    ensures
        match page {
            PageState::Context { id, context_page_type, state } => {
                &&& page@ is Context && page@->state == state
                &&& match id {
                    Some(id) => page@->id == Some(id@),
                    None => page@->id is None,
                }
                &&& page@->context_page_type == match context_page_type {
                    ContextPageType::CurrentPlaying => ContextPageTypeView::CurrentPlaying,
                    ContextPageType::Browsing(browsed) => ContextPageTypeView::Browsing(browsed@),
                }
            },
            PageState::Lyrics { track_uri, track, artists } => page@ is Lyrics && page@->track_uri
                == track_uri@ && page@->track == track@ && page@->artists == artists@,
            PageState::Other => page@ is Other,
        },
{
}

/// A track is told by its ID, its name, its artists in their order, and its
/// duration; an episode by its ID and its duration.
pub proof fn item_is_told_as_it_is(item: PlayableItem)
    ensures
        match item {
            PlayableItem::Track(track) => {
                let told = item@->Track_0;
                &&& item@ is Track && told.name == track.name@ && told.duration == track.duration@
                &&& match (told.id, track.id) {
                    (Some(a), Some(b)) => a == b@,
                    (None, None) => true,
                    _ => false,
                }
                &&& told.artists.len() == track.artists@.len()
                &&& forall|i: int|
                    0 <= i < told.artists.len() ==> #[trigger] told.artists[i]
                        == track.artists@[i].name@
            },
            PlayableItem::Episode(episode) => item@ is Episode && item@->Episode_0.id == episode.id@
                && item@->Episode_0.duration == episode.duration@,
            PlayableItem::Unknown(id) => item@ is Unknown && match (item@->Unknown_0, id) {
                (Some(a), Some(b)) => a == b@,
                (None, None) => true,
                _ => false,
            },
        },
{
}

// ---- Volume ----

/// The volume that is shown.
pub open spec fn shown_volume<X>(p: PlayerState<X>) -> Option<u32> {
    match p.buffered_playback {
        Some(playback) => playback.volume,
        None => None,
    }
}

/// The state after the volume has been changed by `offset` at `now`.
pub open spec fn changed<X>(p: PlayerState<X>, offset: i32, now: Instant) -> PlayerState<X> {
    match p.requested_volume(offset) {
        Some(v) => p.with_pending_volume(v, now),
        None => p,
    }
}

/// The state after the playback has been reported as `playback`.
pub open spec fn reported<X>(p: PlayerState<X>, playback: PlaybackMetadata) -> PlayerState<X> {
    PlayerState { buffered_playback: Some(playback), ..p }
}

/// A volume that is asked for lies between 0 and 100, and a change shows the
/// volume it asks for at once.
pub proof fn volume_change_is_shown_and_bounded<X>(p: PlayerState<X>, offset: i32, now: Instant)
    ensures
        p.requested_volume(offset) matches Some(v) ==> v <= 100,
        shown_volume(p) matches Some(v) ==> shown_volume(changed(p, offset, now)) == Some(
            moved_volume(v, offset) as u32,
        ),
        shown_volume(p) is None ==> changed(p, offset, now) == p,
{
}

/// A change leads as close to the volume it is to lead to as the range from 0 to
/// 100 allows, and it asks for a volume exactly if that is another one than the
/// volume shown. Where no volume is known, it asks for none.
pub proof fn volume_change_comes_closest<X>(p: PlayerState<X>, offset: i32, other: int)
    requires
        0 <= other <= 100,
    ensures
        match p.buffered_playback {
            Some(PlaybackMetadata { volume: Some(v), .. }) => match p.requested_volume(offset) {
                Some(asked) => asked != v && asked <= 100 && distance(v + offset, asked as int)
                    <= distance(v + offset, other),
                None => v <= 100 && distance(v + offset, v as int) <= distance(v + offset, other),
            },
            _ => p.requested_volume(offset) is None,
        },
{
}

/// How far apart two numbers are.
pub open spec fn distance(a: int, b: int) -> int {
    if a < b {
        b - a
    } else {
        a - b
    }
}

/// A volume that is asked for is remembered together with the device that plays
/// and the time, is shown at once, and ends a mute. Nothing else changes.
pub proof fn volume_request_is_remembered<X>(p: PlayerState<X>, volume: u8, now: Instant)
    requires
        p.buffered_playback is Some,
    ensures
        ({
            let after = p.with_pending_volume(volume, now);
            let pending = after.pending_volume->0;
            let shown = after.buffered_playback->0;
            let playback = p.buffered_playback->0;
            &&& after.pending_volume is Some && pending.volume == volume && pending.requested_at
                == now && pending.device_id == playback.device_id
            &&& after.buffered_playback is Some && shown.volume == Some(volume as u32)
                && shown.mute_state is None
            &&& shown.device_name == playback.device_name && shown.device_id == playback.device_id
            &&& shown.is_playing == playback.is_playing && shown.repeat_state
                == playback.repeat_state && shown.shuffle_state == playback.shuffle_state
            &&& same_but_for_volume(after, p)
        }),
{
}

/// Whether two states agree in all that has nothing to do with the volume.
pub open spec fn same_but_for_volume<X>(a: PlayerState<X>, b: PlayerState<X>) -> bool {
    &&& a.devices == b.devices
    &&& a.playback == b.playback
    &&& a.playback_last_updated_time == b.playback_last_updated_time
    &&& a.queue == b.queue
    &&& a.currently_playing_tracks_id == b.currently_playing_tracks_id
    &&& a.custom_queue == b.custom_queue
}

/// Changes of the volume add up: as long as the first one does not run into a
/// limit, two changes show what one change by their sum shows.
pub proof fn volume_changes_accumulate<X>(
    p: PlayerState<X>,
    first: i32,
    second: i32,
    sum: i32,
    t1: Instant,
    t2: Instant,
    t3: Instant,
)
    requires
        sum == first + second,
        shown_volume(p) matches Some(v) ==> 0 <= v + first <= 100,
    ensures
        shown_volume(changed(changed(p, first, t1), second, t2)) == shown_volume(
            changed(p, sum, t3),
        ),
{
}

/// At a limit, a change that goes beyond it asks for nothing and changes
/// nothing.
pub proof fn volume_stops_at_the_limits<X>(p: PlayerState<X>, offset: i32, now: Instant)
    requires
        (shown_volume(p) == Some(0u32) && offset <= 0) || (shown_volume(p) == Some(100u32)
            && offset >= 0),
    ensures
        p.requested_volume(offset) is None,
        changed(p, offset, now) == p,
{
}

/// The volume that has been asked for last survives every report of the same
/// device within two seconds, whatever volume the report has.
pub proof fn stale_report_keeps_pending_volume<X>(
    p: PlayerState<X>,
    offset: i32,
    now: Instant,
    report: PlaybackMetadata,
    elapsed: nat,
)
    requires
        p.requested_volume(offset) is Some,
        text(report.device_id) == text(p.buffered_playback->0.device_id),
        elapsed < PENDING_VOLUME_SECS * 1_000_000_000,
    ensures
        ({
            let asked = changed(p, offset, now);
            let after = reported(asked, report).reconciled(elapsed);
            &&& shown_volume(after) == shown_volume(asked)
            &&& after.pending_volume == asked.pending_volume
            &&& after == reported(
                asked,
                PlaybackMetadata { volume: shown_volume(asked), ..report },
            )
        }),
{
}

/// A volume that has been asked for on one device is dropped when another
/// device is reported: the report stands.
pub proof fn pending_volume_does_not_cross_devices<X>(
    p: PlayerState<X>,
    report: PlaybackMetadata,
    elapsed: nat,
)
    requires
        p.pending_volume matches Some(pending) ==> text(report.device_id) != text(
            pending.device_id,
        ),
    ensures
        reported(p, report).reconciled(elapsed) == (PlayerState {
            pending_volume: None,
            buffered_playback: Some(report),
            ..p
        }),
{
}

/// Two seconds after it has been asked for, a volume is dropped: the report
/// stands.
pub proof fn pending_volume_expires<X>(p: PlayerState<X>, report: PlaybackMetadata, elapsed: nat)
    requires
        elapsed >= PENDING_VOLUME_SECS * 1_000_000_000,
    ensures
        reported(p, report).reconciled(elapsed) == (PlayerState {
            pending_volume: None,
            buffered_playback: Some(report),
            ..p
        }),
{
}

/// Whether two device IDs that may be absent are the same.
pub open spec fn same_device(a: Option<String>, b: Option<String>) -> bool {
    match (a, b) {
        (Some(a), Some(b)) => a@ == b@,
        (None, None) => true,
        _ => false,
    }
}

/// For less than two seconds, and on the device that it was meant for, a volume
/// that has been asked for takes the place of the one reported, and goes on to be
/// remembered. Else the report stands as it is, and the request is forgotten.
pub proof fn request_outweighs_report_on_its_device<X>(p: PlayerState<X>, elapsed: nat)
    ensures
        ({
            let after = p.reconciled(elapsed);
            &&& same_but_for_volume(after, p)
            &&& match (p.pending_volume, p.buffered_playback) {
                (Some(pending), Some(report)) => after.buffered_playback matches Some(shown) && {
                    &&& shown.device_name == report.device_name && shown.device_id
                        == report.device_id
                    &&& shown.is_playing == report.is_playing && shown.repeat_state
                        == report.repeat_state && shown.shuffle_state == report.shuffle_state
                        && shown.mute_state == report.mute_state
                    &&& if same_device(report.device_id, pending.device_id) && elapsed
                        < 2_000_000_000 {
                        shown.volume == Some(pending.volume as u32) && after.pending_volume
                            == Some(pending)
                    } else {
                        shown.volume == report.volume && after.pending_volume is None
                    }
                },
                _ => after == p,
            }
        }),
{
}

/// Weighing the volume again at the same time changes nothing. At any other time
/// it changes nothing of what is shown, and once the request has been dropped it
/// changes nothing at all.
pub proof fn reconciling_is_stable<X>(p: PlayerState<X>, elapsed: nat, later: nat)
    ensures
        p.reconciled(elapsed).reconciled(elapsed) == p.reconciled(elapsed),
        p.reconciled(elapsed).reconciled(later).buffered_playback == p.reconciled(
            elapsed,
        ).buffered_playback,
        p.pending_volume is None ==> p.reconciled(later) == p,
{
}

// ---- Progress ----

/// While the playback is paused, its progress stays what the snapshot says.
pub proof fn pause_freezes_progress<X>(p: PlayerState<X>, elapsed: nat)
    requires
        !p.runs(),
    ensures
        p.progress_after(elapsed) == (match p.playback {
            Some(playback) => nanos(playback.progress),
            None => None,
        }),
{
}

/// What the user has asked for decides whether the progress moves, not what the
/// snapshot says.
pub proof fn buffered_state_decides_progress<X>(
    p: PlayerState<X>,
    snapshot: CurrentPlaybackContext<X>,
    elapsed: nat,
)
    requires
        p.playback is Some,
        p.buffered_playback is Some,
        snapshot.progress == p.playback->0.progress,
    ensures
        (PlayerState { playback: Some(snapshot), ..p }).progress_after(elapsed)
            == p.progress_after(elapsed),
{
}

/// While the playback runs, its progress moves on with the time.
pub proof fn progress_moves_with_time<X>(p: PlayerState<X>, earlier: nat, later: nat)
    requires
        p.runs(),
        p.playback matches Some(playback) && playback.progress is Some,
        p.playback_last_updated_time is Some,
        earlier <= later <= MAX_DELTA_NANOS,
    ensures
        p.progress_after(later)->0 - p.progress_after(earlier)->0 == later - earlier,
{
}

/// Whether the playback is to run: what the user has asked for decides, and the
/// snapshot only where nothing of that is known.
pub open spec fn is_to_run<X>(p: PlayerState<X>, snapshot: CurrentPlaybackContext<X>) -> bool {
    match p.buffered_playback {
        Some(playback) => playback.is_playing,
        None => snapshot.is_playing,
    }
}

/// The estimate starts at the progress of the snapshot, however far that is.
/// While the playback runs, the time since the snapshot is all that it is ahead
/// of it; while it is paused, it is not ahead at all. A time of more than
/// `i64::MAX` milliseconds counts for nothing, and so does one that is not known.
pub proof fn estimate_starts_at_the_snapshot<X>(
    p: PlayerState<X>,
    snapshot: CurrentPlaybackContext<X>,
    start: TimeDelta,
    elapsed: nat,
)
    requires
        p.playback == Some(snapshot),
        snapshot.progress == Some(start),
    ensures
        p.progress_after(0) == Some(start@),
        p.progress_after(elapsed) matches Some(estimate) && estimate - start@ == (if is_to_run(
            p,
            snapshot,
        ) && p.playback_last_updated_time is Some && elapsed <= i64::MAX * 1_000_000 {
            elapsed as int
        } else {
            0
        }),
{
}

/// Without a snapshot, or with one that has no progress, there is no estimate.
pub proof fn no_estimate_without_progress<X>(p: PlayerState<X>, elapsed: nat)
    requires
        p.playback matches Some(snapshot) ==> snapshot.progress is None,
    ensures
        p.progress_after(elapsed) is None,
{
}

/// An estimate is told as it is, unless it is longer than `i64::MAX`
/// milliseconds.
pub proof fn estimate_is_told_as_it_is(estimate: int)
    ensures
        in_bounds(None) is None,
        match in_bounds(Some(estimate)) {
            Some(told) => told == estimate && estimate <= i64::MAX * 1_000_000,
            None => estimate > i64::MAX * 1_000_000,
        },
{
}

/// The age of the snapshot is the time since it came, and the age of the queue is
/// the time since it was asked for.
pub proof fn ages_are_counted_from_their_times<X>(
    p: PlayerState<X>,
    h: HandlerView,
    uri: Seq<char>,
    at: Instant,
    elapsed: nat,
)
    ensures
        p.playback_last_updated_time == Some(at) ==> p.snapshot_age(elapsed) == passed(
            at,
            elapsed,
        ),
        h.last_queue_refresh == Some((uri, at)) ==> h.queue_age(elapsed) == passed(at, elapsed),
{
}

/// A snapshot without progress has none, whatever the clock says, and without
/// the time of the snapshot its progress does not move.
pub proof fn absent_data_is_tolerated<X>(p: PlayerState<X>, elapsed: nat)
    ensures
        (p.playback matches Some(playback) ==> playback.progress is None) ==> p.progress_after(
            elapsed,
        ) is None,
        p.playback_last_updated_time is None ==> p.progress_after(elapsed) == (match p.playback {
            Some(playback) => nanos(playback.progress),
            None => None,
        }),
{
}

/// The current playback keeps what is played, what it is played from and all
/// that the player does not read, shows the given progress, and overlaying it
/// once more changes nothing.
pub proof fn overlay_keeps_item_and_is_stable<X>(
    snapshot: PlaybackView<X>,
    buffered: Option<PlaybackMetadata>,
    progress: Option<int>,
)
    ensures
        ({
            let playback = overlaid(snapshot, buffered, progress);
            &&& playback.item == snapshot.item
            &&& playback.context == snapshot.context
            &&& playback.rest == snapshot.rest
            &&& playback.progress == progress
            &&& overlaid(playback, buffered, progress) == playback
        }),
{
}

/// Where it is known what the user has asked for, the current playback shows
/// that, field by field, whatever the snapshot says.
pub proof fn shown_playback_is_what_was_asked_for<X: Clone>(
    shown: CurrentPlaybackContext<X>,
    snapshot: CurrentPlaybackContext<X>,
    asked: PlaybackMetadata,
    progress: Option<int>,
)
    requires
        shows(shown, snapshot, Some(asked), progress),
    ensures
        shown.device.name@ == asked.device_name@,
        same_device(shown.device.id, asked.device_id),
        shown.device.volume_percent == asked.volume,
        shown.is_playing == asked.is_playing,
        shown.repeat_state == asked.repeat_state,
        shown.shuffle_state == asked.shuffle_state,
{
}

/// Where nothing of that is known, the current playback shows the device and the
/// settings of the snapshot, field by field.
pub proof fn shown_playback_falls_back_on_the_snapshot<X: Clone>(
    shown: CurrentPlaybackContext<X>,
    snapshot: CurrentPlaybackContext<X>,
    progress: Option<int>,
)
    requires
        shows(shown, snapshot, None, progress),
    ensures
        shown.device.name@ == snapshot.device.name@,
        same_device(shown.device.id, snapshot.device.id),
        shown.device.volume_percent == snapshot.device.volume_percent,
        shown.is_playing == snapshot.is_playing,
        shown.repeat_state == snapshot.repeat_state,
        shown.shuffle_state == snapshot.shuffle_state,
{
}

/// The current playback has the item, the context and all else of the snapshot,
/// and the estimated progress in place of the progress of the snapshot.
pub proof fn shown_playback_has_the_item_of_the_snapshot<X: Clone>(
    shown: CurrentPlaybackContext<X>,
    snapshot: CurrentPlaybackContext<X>,
    asked: Option<PlaybackMetadata>,
    progress: Option<int>,
)
    requires
        shows(shown, snapshot, asked, progress),
    ensures
        match (shown.item, snapshot.item) {
            (Some(a), Some(b)) => same_item(a, b),
            (None, None) => true,
            _ => false,
        },
        match (shown.context, snapshot.context) {
            (Some(a), Some(b)) => a.uri@ == b.uri@ && a._type == b._type,
            (None, None) => true,
            _ => false,
        },
        match (shown.progress, progress) {
            (Some(a), Some(b)) => a@ == b,
            (None, None) => true,
            _ => false,
        },
        cloned(snapshot.rest, shown.rest),
{
    if let (Some(PlayableItem::Track(a)), Some(PlayableItem::Track(b))) = (
        shown.item,
        snapshot.item,
    ) {
        same_tracks(a, b);
    }
}

/// Whether two items are of the same kind and hold the same.
pub open spec fn same_item(a: PlayableItem, b: PlayableItem) -> bool {
    match (a, b) {
        (PlayableItem::Track(a), PlayableItem::Track(b)) => {
            &&& match (a.id, b.id) {
                (Some(a), Some(b)) => a@ == b@,
                (None, None) => true,
                _ => false,
            }
            &&& a.name@ == b.name@
            &&& a.duration@ == b.duration@
            &&& a.artists@.len() == b.artists@.len()
            &&& forall|i: int|
                0 <= i < a.artists@.len() ==> (#[trigger] a.artists@[i]).name@
                    == b.artists@[i].name@
        },
        (PlayableItem::Episode(a), PlayableItem::Episode(b)) => a.id@ == b.id@ && a.duration@
            == b.duration@,
        (PlayableItem::Unknown(a), PlayableItem::Unknown(b)) => match (a, b) {
            (Some(PlayableId::Track(a)), Some(PlayableId::Track(b))) => a@ == b@,
            (Some(PlayableId::Episode(a)), Some(PlayableId::Episode(b))) => a@ == b@,
            (None, None) => true,
            _ => false,
        },
        _ => false,
    }
}

/// Tracks with the same contents have the same artists.
proof fn same_tracks(a: FullTrack, b: FullTrack)
    requires
        a@ == b@,
    ensures
        a.artists@.len() == b.artists@.len(),
        forall|i: int|
            0 <= i < a.artists@.len() ==> (#[trigger] a.artists@[i]).name@ == b.artists@[i].name@,
{
    assert(a@.artists.len() == a.artists@.len());
    assert(b@.artists.len() == b.artists@.len());
    assert forall|i: int| 0 <= i < a.artists@.len() implies (#[trigger] a.artists@[i]).name@
        == b.artists@[i].name@ by {
        assert(a@.artists[i] == a.artists@[i].name@);
        assert(b@.artists[i] == b.artists@[i].name@);
    }
}

// ---- URIs and contexts ----

/// What follows a prefix is found behind it.
proof fn after_finds_rest(prefix: Seq<char>, rest: Seq<char>)
    ensures
        after(prefix, prefix + rest) == Some(rest),
{
    assert((prefix + rest).take(prefix.len() as int) =~= prefix);
    assert((prefix + rest).skip(prefix.len() as int) =~= rest);
}

/// A URI gives back the ID that it was made from.
pub proof fn uri_gives_back_id(kind: Seq<char>, id: Seq<char>)
    requires
        is_valid_id(id),
    ensures
        id_in_uri(kind, uri_of(kind, id)) == Some(id),
{
    after_finds_rest("spotify:"@ + kind + ":"@, id);
}

/// An ID that is found in a URI is valid.
pub proof fn id_in_uri_is_valid(kind: Seq<char>, uri: Seq<char>)
    ensures
        id_in_uri(kind, uri) matches Some(id) ==> is_valid_id(id),
{
}

/// An ID is found in a URI exactly if the URI consists of the word `spotify`, the
/// type and that ID, with colons or with slashes between them, and the ID of
/// ASCII letters and digits.
pub proof fn id_stands_behind_its_type(kind: Seq<char>, uri: Seq<char>, id: Seq<char>)
    ensures
        id_in_uri(kind, uri) == Some(id) <==> (uri == "spotify:"@ + kind + ":"@ + id || uri
            == "spotify/"@ + kind + "/"@ + id) && (forall|i: int|
            0 <= i < id.len() ==> {
                ||| '0' <= #[trigger] id[i] <= '9'
                ||| 'A' <= id[i] <= 'Z'
                ||| 'a' <= id[i] <= 'z'
            }),
{
    reveal_strlit("spotify:");
    reveal_strlit("spotify/");
    let colons = "spotify:"@ + kind + ":"@;
    let slashes = "spotify/"@ + kind + "/"@;
    after_finds_rest(colons, id);
    after_finds_rest(slashes, id);
    assert(colons[7] == ':' && slashes[7] == '/');
    if after(colons, uri) is Some {
        assert(uri.take(colons.len() as int)[7] == uri[7]);
        assert(uri =~= colons + uri.skip(colons.len() as int));
    }
    if after(slashes, uri) is Some {
        assert(uri.take(slashes.len() as int)[7] == uri[7]);
        assert(uri =~= slashes + uri.skip(slashes.len() as int));
    }
}

/// A context that is reported is one of the type that is reported, with the ID
/// that its URI has for that type. Only playlists, albums, artists and shows are
/// contexts.
pub proof fn reported_type_decides_the_context(kind: Type, uri: Seq<char>, id: Seq<char>)
    ensures
        context_in_uri(kind, uri) == Some(ContextIdView::Playlist(id)) <==> kind is Playlist
            && id_in_uri("playlist"@, uri) == Some(id),
        context_in_uri(kind, uri) == Some(ContextIdView::Album(id)) <==> kind is Album && id_in_uri(
            "album"@,
            uri,
        ) == Some(id),
        context_in_uri(kind, uri) == Some(ContextIdView::Artist(id)) <==> kind is Artist
            && id_in_uri("artist"@, uri) == Some(id),
        context_in_uri(kind, uri) == Some(ContextIdView::Show(id)) <==> kind is Show && id_in_uri(
            "show"@,
            uri,
        ) == Some(id),
        !(context_in_uri(kind, uri) matches Some(ContextIdView::Tracks(_))),
{
}

/// What is played from is the context that the snapshot reports, by its parsed
/// URI. Where it reports none, it is what the custom queue was made from, else
/// the list of tracks that was started, else nothing; and without a snapshot it
/// is nothing.
pub proof fn snapshot_comes_before_local_contexts<X, F: Fn(&String) -> String>(
    p: PlayerState<X>,
    parse_uri: F,
    id: Option<ContextIdView>,
)
    requires
        p.plays_from(parse_uri, id),
    ensures
        match p.playback {
            None => id is None,
            Some(snapshot) => match snapshot.context {
                Some(context) => exists|uri: String|
                    #[trigger] parse_uri.ensures((&context.uri,), uri) && id == context_in_uri(
                        context._type,
                        uri@,
                    ),
                None => match (p.custom_queue, p.currently_playing_tracks_id) {
                    (Some(CustomQueue { source_context: Some(source) }), _) => id == Some(source@),
                    (_, Some(tracks)) => id == Some(ContextIdView::Tracks(tracks@)),
                    _ => id is None,
                },
            },
        },
{
}

/// The same holds where the parsed URI is given.
pub proof fn given_uri_is_that_of_the_snapshot<X>(p: PlayerState<X>, uri: Seq<char>)
    ensures
        match p.playback {
            None => p.playing_context(uri) is None,
            Some(snapshot) => match snapshot.context {
                Some(context) => p.playing_context(uri) == context_in_uri(context._type, uri),
                None => match (p.custom_queue, p.currently_playing_tracks_id) {
                    (Some(CustomQueue { source_context: Some(source) }), _) => p.playing_context(
                        uri,
                    ) == Some(source@),
                    (_, Some(tracks)) => p.playing_context(uri) == Some(
                        ContextIdView::Tracks(tracks@),
                    ),
                    _ => p.playing_context(uri) is None,
                },
            },
        },
{
}

/// A URI is parsed only where the snapshot reports a context, and then it is the
/// URI of that context.
pub proof fn only_the_reported_uri_is_parsed<X, F: Fn(&String) -> String>(
    p: PlayerState<X>,
    parse_uri: F,
)
    ensures
        p.can_parse(parse_uri) == (match p.playback {
            Some(CurrentPlaybackContext { context: Some(context), .. }) => parse_uri.requires(
                (&context.uri,),
            ),
            _ => true,
        }),
{
}

/// URIs begin with the word `spotify` and the type, and end with the ID. Only a
/// list of tracks has a URI of its own.
pub proof fn uris_name_type_and_id(id: Seq<char>, tracks: TracksIdView)
    ensures
        PlayableIdView::Track(id).uri() == "spotify:track:"@ + id,
        PlayableIdView::Episode(id).uri() == "spotify:episode:"@ + id,
        ContextIdView::Playlist(id).uri() == "spotify:playlist:"@ + id,
        ContextIdView::Album(id).uri() == "spotify:album:"@ + id,
        ContextIdView::Artist(id).uri() == "spotify:artist:"@ + id,
        ContextIdView::Show(id).uri() == "spotify:show:"@ + id,
        ContextIdView::Tracks(tracks).uri() == tracks.uri,
        uri_of("track"@, id) == "spotify:track:"@ + id,
{
    reveal_strlit("spotify:");
    reveal_strlit(":");
    reveal_strlit("track");
    reveal_strlit("episode");
    reveal_strlit("playlist");
    reveal_strlit("album");
    reveal_strlit("artist");
    reveal_strlit("show");
    reveal_strlit("spotify:track:");
    reveal_strlit("spotify:episode:");
    reveal_strlit("spotify:playlist:");
    reveal_strlit("spotify:album:");
    reveal_strlit("spotify:artist:");
    reveal_strlit("spotify:show:");
    assert(uri_of("track"@, id) =~= "spotify:track:"@ + id);
    assert(uri_of("episode"@, id) =~= "spotify:episode:"@ + id);
    assert(uri_of("playlist"@, id) =~= "spotify:playlist:"@ + id);
    assert(uri_of("album"@, id) =~= "spotify:album:"@ + id);
    assert(uri_of("artist"@, id) =~= "spotify:artist:"@ + id);
    assert(uri_of("show"@, id) =~= "spotify:show:"@ + id);
}

/// The type and the ID of a context of Spotify's.
pub open spec fn type_and_id(context: ContextIdView) -> Option<(Type, Seq<char>)> {
    match context {
        ContextIdView::Playlist(id) => Some((Type::Playlist, id)),
        ContextIdView::Album(id) => Some((Type::Album, id)),
        ContextIdView::Artist(id) => Some((Type::Artist, id)),
        ContextIdView::Show(id) => Some((Type::Show, id)),
        ContextIdView::Tracks(_) => None,
    }
}

/// A context is recognised by its type and its URI.
pub proof fn context_is_recognised(context: ContextIdView)
    requires
        type_and_id(context) matches Some((_, id)) && is_valid_id(id),
    ensures
        context_in_uri((type_and_id(context)->0).0, context.uri()) == Some(context),
{
    let id = (type_and_id(context)->0).1;
    uri_gives_back_id("playlist"@, id);
    uri_gives_back_id("album"@, id);
    uri_gives_back_id("artist"@, id);
    uri_gives_back_id("show"@, id);
}

/// A context that is recognised has the type that was asked for, and a valid
/// ID.
pub proof fn recognised_context_has_its_type(kind: Type, uri: Seq<char>)
    ensures
        context_in_uri(kind, uri) matches Some(context) ==> type_and_id(context) matches Some(
            (t, id),
        ) && t == kind && is_valid_id(id),
{
}

/// In a URI the type comes ninth, and the ID stands behind the type.
proof fn uri_starts_with_type(kind: Seq<char>, id: Seq<char>)
    requires
        kind.len() > 0,
    ensures
        uri_of(kind, id)[8] == kind[0],
        uri_of(kind, id).skip(9 + kind.len() as int) == id,
{
    reveal_strlit("spotify:");
    reveal_strlit(":");
    assert(uri_of(kind, id).skip(9 + kind.len() as int) =~= id);
}

/// Items with the same URI are the same item, whatever they are called.
pub proof fn playable_uri_is_unique(a: PlayableIdView, b: PlayableIdView)
    ensures
        a.uri() == b.uri() ==> a == b,
{
    reveal_strlit("track");
    reveal_strlit("episode");
    let t = "track"@;
    let e = "episode"@;
    match (a, b) {
        (PlayableIdView::Track(x), PlayableIdView::Track(y)) => {
            uri_starts_with_type(t, x);
            uri_starts_with_type(t, y);
        },
        (PlayableIdView::Episode(x), PlayableIdView::Episode(y)) => {
            uri_starts_with_type(e, x);
            uri_starts_with_type(e, y);
        },
        (PlayableIdView::Track(x), PlayableIdView::Episode(y)) => {
            uri_starts_with_type(t, x);
            uri_starts_with_type(e, y);
            assert(t[0] != e[0]);
        },
        (PlayableIdView::Episode(x), PlayableIdView::Track(y)) => {
            uri_starts_with_type(e, x);
            uri_starts_with_type(t, y);
            assert(t[0] != e[0]);
        },
    }
}

/// The URI of an object holds no ID of another type, where the names of the
/// types differ at `j`.
proof fn uri_of_other_type(asked: Seq<char>, kind: Seq<char>, id: Seq<char>, j: int)
    requires
        0 <= j < asked.len(),
        j < kind.len(),
        asked[j] != kind[j],
    ensures
        id_in_uri(asked, uri_of(kind, id)) is None,
{
    reveal_strlit("spotify:");
    reveal_strlit("spotify/");
    reveal_strlit(":");
    reveal_strlit("/");
    let uri = uri_of(kind, id);
    let colons = "spotify:"@ + asked + ":"@;
    let slashes = "spotify/"@ + asked + "/"@;
    assert(colons[8 + j] == asked[j]);
    assert(uri[8 + j] == kind[j]);
    assert(slashes[7] != uri[7]);
    if colons.len() <= uri.len() {
        assert(uri.take(colons.len() as int)[8 + j] == uri[8 + j]);
    }
    if slashes.len() <= uri.len() {
        assert(uri.take(slashes.len() as int)[7] == uri[7]);
    }
}

/// The URI of a context is not taken for a context of another type.
pub proof fn context_is_not_mistaken(kind: Type, context: ContextIdView)
    requires
        type_and_id(context) matches Some((t, _)) && t != kind,
    ensures
        context_in_uri(kind, context.uri()) is None,
{
    reveal_strlit("playlist");
    reveal_strlit("album");
    reveal_strlit("artist");
    reveal_strlit("show");
    let id = (type_and_id(context)->0).1;
    uri_of_other_type("playlist"@, "album"@, id, 0);
    uri_of_other_type("playlist"@, "artist"@, id, 0);
    uri_of_other_type("playlist"@, "show"@, id, 0);
    uri_of_other_type("album"@, "playlist"@, id, 0);
    uri_of_other_type("album"@, "artist"@, id, 1);
    uri_of_other_type("album"@, "show"@, id, 0);
    uri_of_other_type("artist"@, "playlist"@, id, 0);
    uri_of_other_type("artist"@, "album"@, id, 1);
    uri_of_other_type("artist"@, "show"@, id, 0);
    uri_of_other_type("show"@, "playlist"@, id, 0);
    uri_of_other_type("show"@, "album"@, id, 0);
    uri_of_other_type("show"@, "artist"@, id, 0);
}

// ---- Looking at the playback ----

/// Whether `item` has the ID `id`. A local file has none.
pub open spec fn has_id(item: PlayableItem, id: PlayableIdView) -> bool {
    match item {
        PlayableItem::Track(track) => track.id matches Some(text) && id == PlayableIdView::Track(
            text@,
        ),
        PlayableItem::Episode(episode) => id == PlayableIdView::Episode(episode.id@),
        PlayableItem::Unknown(Some(PlayableId::Track(text))) => id == PlayableIdView::Track(text@),
        PlayableItem::Unknown(Some(PlayableId::Episode(text))) => id == PlayableIdView::Episode(
            text@,
        ),
        PlayableItem::Unknown(None) => false,
    }
}

/// An item's ID is the one that it has.
pub proof fn item_has_one_id(item: PlayableItem, id: PlayableIdView)
    ensures
        item@.id() == Some(id) <==> has_id(item, id),
        item@.id() is None <==> item matches PlayableItem::Track(FullTrack { id: None, .. }) || item
            == PlayableItem::Unknown(None),
{
}

/// Whether the player knows of the playback, and plays the track or the episode
/// `id` of the given length.
pub open spec fn plays<X>(p: PlayerState<X>, id: PlayableIdView, duration: int) -> bool {
    &&& p.buffered_playback is Some
    &&& p.playback matches Some(snapshot) && snapshot.item matches Some(item) && has_id(item, id)
        && match item {
        PlayableItem::Track(track) => track.duration@ == duration,
        PlayableItem::Episode(episode) => episode.duration@ == duration,
        PlayableItem::Unknown(_) => false,
    }
}

/// The playback is asked for when a running item has come to its end, and
/// remembered is then that the end of this item has been reported. An end that
/// has been reported is not reported again, and an item that has not come to its
/// end, or is paused, makes any report forgotten. The queue comes next.
pub proof fn end_of_a_running_item_asks_for_the_playback<X, P, R>(
    p: PlayerState<X>,
    h: HandlerView,
    id: PlayableIdView,
    duration: int,
    progress: Option<int>,
    since: nat,
    now: Instant,
)
    requires
        plays(p, id, duration),
    ensures
        ({
            let (after, action) = playback_change::<X, P, R>(
                p,
                h,
                PlaybackStep::End,
                progress,
                since,
                now,
            );
            let ended = p.buffered_playback->0.is_playing && (progress matches Some(n) && n
                >= duration);
            &&& after.last_queue_refresh == h.last_queue_refresh
            &&& after.ended_playable_uri == if ended {
                h.ended_playable_uri
            } else {
                None
            }
            &&& if ended && h.ended_playable_uri != Some(id.uri()) {
                action matches ActionView::Send { request, then } && request
                    == ClientRequestView::<P, R>::GetCurrentPlayback && then == Some(
                    PlaybackStep::Requested,
                )
            } else {
                action == ActionView::<PlaybackStep, P, R>::Continue(PlaybackStep::Queue)
            }
        }),
        ({
            let (after, action) = playback_change::<X, P, R>(
                p,
                h,
                PlaybackStep::Requested,
                progress,
                since,
                now,
            );
            &&& after.last_queue_refresh == h.last_queue_refresh
            &&& after.ended_playable_uri == Some(id.uri())
            &&& action == ActionView::<PlaybackStep, P, R>::Continue(PlaybackStep::Queue)
        }),
{
}

/// A queue that plays the same item is left alone, and so is what is remembered
/// of the end. Any other queue is asked for: one that plays an item with another
/// ID, be it of the same kind, one that plays nothing, and one that is not there.
/// Only within five seconds of a request for the same item is it left for later.
pub proof fn queue_of_another_item_is_asked_for<X, P, R>(
    p: PlayerState<X>,
    h: HandlerView,
    id: PlayableIdView,
    duration: int,
    progress: Option<int>,
    since: nat,
    now: Instant,
)
    requires
        plays(p, id, duration),
    ensures
        ({
            let (after, action) = playback_change::<X, P, R>(
                p,
                h,
                PlaybackStep::Queue,
                progress,
                since,
                now,
            );
            let same_item = p.queue matches Some(queue) && queue.currently_playing matches Some(
                item,
            ) && has_id(item, id);
            let asked_lately = h.last_queue_refresh matches Some((uri, _)) && uri == id.uri()
                && since < 5_000_000_000;
            &&& after.ended_playable_uri == h.ended_playable_uri
            &&& same_item ==> action is Done && after.last_queue_refresh is None
            &&& !same_item && asked_lately ==> action is Done && after.last_queue_refresh
                == h.last_queue_refresh
            &&& !same_item && !asked_lately ==> {
                &&& action matches ActionView::Send { request, then } && request
                    == ClientRequestView::<P, R>::GetCurrentUserQueue && then is None
                &&& after.last_queue_refresh == Some((id.uri(), now))
            }
        }),
{
}

/// Where the playback is not known, nothing is played, or what is played is
/// neither a track nor an episode, looking at the playback does nothing.
pub proof fn unknown_playback_is_left_alone<X, P, R>(
    p: PlayerState<X>,
    h: HandlerView,
    step: PlaybackStep,
    progress: Option<int>,
    since: nat,
    now: Instant,
)
    requires
        p.buffered_playback is None || (p.playback matches Some(snapshot) ==> (
        snapshot.item matches Some(item) ==> item is Unknown)),
    ensures
        playback_change::<X, P, R>(p, h, step, progress, since, now) == (
            h,
            ActionView::<PlaybackStep, P, R>::Done,
        ),
{
}

/// The playback cannot be looked at only where a local file is played, and the
/// queue only where besides that an item without an ID heads it.
pub proof fn only_missing_ids_are_in_the_way<X>(p: PlayerState<X>)
    ensures
        !playing_id_known(p) <==> p.buffered_playback is Some && (
        p.playback matches Some(snapshot) && snapshot.item matches Some(
            PlayableItem::Track(track),
        ) && track.id is None),
        playing_id_known(p) ==> (!queue_id_known(p) <==> (exists|id: PlayableIdView, d: int|
            plays(p, id, d)) && (p.queue matches Some(queue)
            && queue.currently_playing matches Some(item) && (item matches PlayableItem::Track(
            FullTrack { id: None, .. },
        ) || item == PlayableItem::Unknown(None)))),
{
    if let Some(snapshot) = p.playback {
        if let Some(item) = snapshot.item {
            if p.buffered_playback is Some && playing_id_known(p) {
                match item {
                    PlayableItem::Track(track) => {
                        assert(plays(
                            p,
                            PlayableIdView::Track(track.id->0@),
                            track.duration@,
                        ));
                    },
                    PlayableItem::Episode(episode) => {
                        assert(plays(
                            p,
                            PlayableIdView::Episode(episode.id@),
                            episode.duration@,
                        ));
                    },
                    PlayableItem::Unknown(_) => {},
                }
            }
        }
    }
}

/// The end of an item is reported once: after the playback has been asked for,
/// it is not asked for again as long as the same item is played and has ended,
/// whatever else changes.
pub proof fn end_is_reported_once<X, P, R>(
    p: PlayerState<X>,
    later: PlayerState<X>,
    h: HandlerView,
    progress: Option<int>,
    later_progress: Option<int>,
    since1: nat,
    since2: nat,
    t1: Instant,
    t2: Instant,
)
    requires
        playing(p) is Some,
        playing(later) is Some,
        (playing(later)->0).0 == (playing(p)->0).0,
        has_ended(later, (playing(later)->0).1, later_progress),
    ensures
        ({
            let asked = playback_change::<X, P, R>(
                p,
                h,
                PlaybackStep::Requested,
                progress,
                since1,
                t1,
            ).0;
            playback_change::<X, P, R>(later, asked, PlaybackStep::End, later_progress, since2, t2)
                == (asked, ActionView::<PlaybackStep, P, R>::Continue(PlaybackStep::Queue))
        }),
{
}

/// Once an item is seen that has not ended, every end is reported again; and
/// the end of another item than the one reported is reported at once.
pub proof fn end_is_reported_again<X, P, R>(
    p: PlayerState<X>,
    h: HandlerView,
    progress: Option<int>,
    since: nat,
    now: Instant,
)
    requires
        playing(p) is Some,
    ensures
        ({
            let (id, duration) = playing(p)->0;
            let (after, action) = playback_change::<X, P, R>(
                p,
                h,
                PlaybackStep::End,
                progress,
                since,
                now,
            );
            &&& !has_ended(p, duration, progress) ==> after.ended_playable_uri is None
            &&& has_ended(p, duration, progress) && h.ended_playable_uri != Some(id.uri())
                ==> action == (ActionView::<PlaybackStep, P, R>::Send {
                request: ClientRequestView::GetCurrentPlayback,
                then: Some(PlaybackStep::Requested),
            })
        }),
{
}

/// The queue is asked for at most every five seconds for the same item, and at
/// once for another item.
pub proof fn queue_requests_are_throttled<X, P, R>(
    p: PlayerState<X>,
    later: PlayerState<X>,
    h: HandlerView,
    progress: Option<int>,
    since1: nat,
    since2: nat,
    t1: Instant,
    t2: Instant,
)
    requires
        playing(p) is Some,
        playing(later) is Some,
        queue_is_stale(later, (playing(later)->0).0),
        playback_change::<X, P, R>(p, h, PlaybackStep::Queue, progress, since1, t1).1 is Send,
    ensures
        ({
            let asked = playback_change::<X, P, R>(
                p,
                h,
                PlaybackStep::Queue,
                progress,
                since1,
                t1,
            ).0;
            let again = playback_change::<X, P, R>(
                later,
                asked,
                PlaybackStep::Queue,
                progress,
                since2,
                t2,
            );
            if (playing(later)->0).0 == (playing(p)->0).0 && since2 < QUEUE_REFRESH_THROTTLE_SECS
                * 1_000_000_000 {
                again == (asked, ActionView::<PlaybackStep, P, R>::Done)
            } else {
                again.1 == (ActionView::<PlaybackStep, P, R>::Send {
                    request: ClientRequestView::GetCurrentUserQueue,
                    then: None,
                })
            }
        }),
{
    playable_uri_is_unique((playing(later)->0).0, (playing(p)->0).0);
}

/// A queue that belongs to the item that is played is not asked for, and the
/// next one that does not belong to it is asked for at once.
pub proof fn fresh_queue_is_left_alone<X, P, R>(
    p: PlayerState<X>,
    later: PlayerState<X>,
    h: HandlerView,
    progress: Option<int>,
    since1: nat,
    since2: nat,
    t1: Instant,
    t2: Instant,
)
    requires
        playing(p) is Some,
        !queue_is_stale(p, (playing(p)->0).0),
        playing(later) is Some,
        queue_is_stale(later, (playing(later)->0).0),
    ensures
        ({
            let (seen, action) = playback_change::<X, P, R>(
                p,
                h,
                PlaybackStep::Queue,
                progress,
                since1,
                t1,
            );
            &&& action is Done
            &&& playback_change::<X, P, R>(
                later,
                seen,
                PlaybackStep::Queue,
                progress,
                since2,
                t2,
            ).1 is Send
        }),
{
}

/// Looking at the playback changes nothing but what is remembered of the end
/// and of the queue, and without a known item it does nothing at all.
pub proof fn playback_change_touches_its_own<X, P, R>(
    p: PlayerState<X>,
    h: HandlerView,
    step: PlaybackStep,
    progress: Option<int>,
    since: nat,
    now: Instant,
)
    ensures
        ({
            let (after, action) = playback_change::<X, P, R>(p, h, step, progress, since, now);
            &&& after.last_get_context == h.last_get_context
            &&& after.last_playback_refresh == h.last_playback_refresh
            &&& playing(p) is None ==> after == h && action is Done
        }),
{
}

/// The steps that follow an action whose request, if it has one, could be sent.
pub open spec fn following<S, P, R>(action: ActionView<S, P, R>) -> Option<S> {
    match action {
        ActionView::Send { then, .. } => then,
        ActionView::Continue(step) => Some(step),
        _ => None,
    }
}

/// The requests of an action.
pub open spec fn requests<S, P, R>(action: ActionView<S, P, R>) -> Seq<ClientRequestView<P, R>> {
    match action {
        ActionView::Send { request, .. } => seq![request],
        _ => Seq::empty(),
    }
}

/// A whole look at the playback from `step` on, in which every request could be
/// sent: what is remembered then, and the requests in their order.
pub open spec fn playback_look<X, P, R>(
    p: PlayerState<X>,
    h: HandlerView,
    step: PlaybackStep,
    progress: Option<int>,
    since_queue: nat,
    now: Instant,
) -> (HandlerView, Seq<ClientRequestView<P, R>>)
    decreases playback_rank(step),
{
    let (after, action) = playback_change::<X, P, R>(p, h, step, progress, since_queue, now);
    match following(action) {
        Some(next) if playback_rank(next) < playback_rank(step) => {
            let (last, rest) = playback_look::<X, P, R>(p, after, next, progress, since_queue, now);
            (last, requests(action) + rest)
        },
        _ => (after, requests(action)),
    }
}

/// How many steps of looking at the playback are left, at most.
pub open spec fn playback_rank(step: PlaybackStep) -> nat {
    match step {
        PlaybackStep::End => 3,
        PlaybackStep::Requested => 2,
        PlaybackStep::Queue => 1,
    }
}

/// A look at the playback asks for the playback and for the queue at most once
/// each, in this order; and a second look at the same playback, less than five
/// seconds later, asks for nothing and remembers nothing new.
pub proof fn second_look_asks_for_nothing<X, P, R>(
    p: PlayerState<X>,
    h: HandlerView,
    progress: Option<int>,
    since1: nat,
    since2: nat,
    t1: Instant,
    t2: Instant,
)
    requires
        since2 < QUEUE_REFRESH_THROTTLE_SECS * 1_000_000_000,
    ensures
        ({
            let (once, sent) = playback_look::<X, P, R>(
                p,
                h,
                PlaybackStep::End,
                progress,
                since1,
                t1,
            );
            let playback = ClientRequestView::<P, R>::GetCurrentPlayback;
            let queue = ClientRequestView::<P, R>::GetCurrentUserQueue;
            &&& sent == Seq::<ClientRequestView<P, R>>::empty() || sent == seq![playback] || sent
                == seq![queue] || sent == seq![playback, queue]
            &&& playback_look::<X, P, R>(p, once, PlaybackStep::End, progress, since2, t2) == (
                once,
                Seq::<ClientRequestView<P, R>>::empty(),
            )
        }),
{
    reveal_with_fuel(playback_look, 4);
    let playback = ClientRequestView::<P, R>::GetCurrentPlayback;
    let queue = ClientRequestView::<P, R>::GetCurrentUserQueue;
    let none = Seq::<ClientRequestView<P, R>>::empty();
    assert(none + none =~= none);
    assert(none + (none + none) =~= none);
    assert(none + seq![queue] =~= seq![queue]);
    assert(none + (none + seq![queue]) =~= seq![queue]);
    assert(seq![playback] + (none + none) =~= seq![playback]);
    assert(seq![playback] + (none + seq![queue]) =~= seq![playback, queue]);
}

// ---- Looking at the page ----

/// Whether the layout of a context page is that of its context.
pub open spec fn layout_matches<U>(page: PageView<U>) -> bool {
    page matches PageView::Context { id, state, .. } ==> match (id, state) {
        (Some(id), Some(state)) => state == layout(id, state.selection()),
        (None, None) => true,
        _ => false,
    }
}

/// A context page shows what it is to show once it has been looked at, remains
/// a page of its type, and keeps a layout that matches its context. Where its
/// context changes, even to one of the same kind, the fresh selection takes the
/// place of what was selected; where it stays, the page stays as it is.
pub proof fn page_follows_context<U>(
    page: PageView<U>,
    playing: Option<ContextIdView>,
    item: Option<PlayableItemView>,
    fresh: U,
)
    requires
        page is Context,
    ensures
        ({
            let after = updated_page(page, playing, item, fresh);
            &&& after is Context
            &&& after->context_page_type == page->context_page_type
            &&& after->id == expected_id(page->context_page_type, playing)
            &&& layout_matches(page) ==> layout_matches(after)
            &&& after->id != page->id ==> layout_matches(after) && (after->id is Some
                ==> after->state->0.selection() == fresh)
            &&& after->id == page->id ==> after == page
        }),
{
}

/// The context that a page is to show: the browsed one, or the one that is played
/// from.
pub open spec fn to_show(
    page_type: ContextPageTypeView,
    playing: Option<ContextIdView>,
) -> Option<ContextIdView> {
    if let ContextPageTypeView::Browsing(browsed) = page_type {
        Some(browsed)
    } else {
        playing
    }
}

/// A context page is made to show the context that it is to show. Where that is
/// another one than before, the page is laid out for it with a fresh selection;
/// else all stays as the user has left it.
pub proof fn context_page_is_laid_out_afresh<U, P, R>(
    id: Option<ContextIdView>,
    page_type: ContextPageTypeView,
    state: Option<ContextPageUIState<U>>,
    h: HandlerView,
    playing: Option<ContextIdView>,
    item: Option<PlayableItemView>,
    fresh: U,
    since: nat,
    now: Instant,
)
    ensures
        ({
            let page = PageView::Context { id, context_page_type: page_type, state };
            let (after, h_after, _) = page_change::<U, P, R>(
                page,
                h,
                PageStep::Change,
                playing,
                item,
                fresh,
                since,
                now,
            );
            let shown = to_show(page_type, playing);
            &&& h_after == h
            &&& after is Context && after->id == shown && after->context_page_type == page_type
            &&& id == shown ==> after->state == state
            &&& id != shown ==> match shown {
                Some(ContextIdView::Playlist(_)) => after->state == Some(
                    ContextPageUIState::Playlist(fresh),
                ),
                Some(ContextIdView::Album(_)) => after->state == Some(
                    ContextPageUIState::Album(fresh),
                ),
                Some(ContextIdView::Artist(_)) => after->state == Some(
                    ContextPageUIState::Artist(fresh),
                ),
                Some(ContextIdView::Tracks(_)) => after->state == Some(
                    ContextPageUIState::Tracks(fresh),
                ),
                Some(ContextIdView::Show(_)) => after->state == Some(
                    ContextPageUIState::Show(fresh),
                ),
                None => after->state is None,
            }
        }),
{
}

/// A fresh selection is the default one.
pub proof fn fresh_selection_is_the_default<U: Default>(selection: U)
    ensures
        is_fresh(selection) <==> U::default.ensures((), selection),
{
}

/// Every playlist, album, artist and show that a page is to show is looked up by
/// its URI, as a new one exactly if the page showed another context before. For a
/// list of tracks, or without a context, nothing is done.
pub proof fn every_context_of_spotify_is_looked_up<U, P, R>(
    id: Option<ContextIdView>,
    page_type: ContextPageTypeView,
    state: Option<ContextPageUIState<U>>,
    h: HandlerView,
    playing: Option<ContextIdView>,
    item: Option<PlayableItemView>,
    fresh: U,
    since: nat,
    now: Instant,
)
    ensures
        ({
            let page = PageView::Context { id, context_page_type: page_type, state };
            let action = page_change::<U, P, R>(
                page,
                h,
                PageStep::Change,
                playing,
                item,
                fresh,
                since,
                now,
            ).2;
            match to_show(page_type, playing) {
                None | Some(ContextIdView::Tracks(_)) => action is Done,
                Some(context) => action matches ActionView::LookUp { uri, new_id } && uri
                    == context.uri() && new_id == (id != Some(context)),
            }
        }),
{
}

/// The data of every playlist, album, artist and show on a page that is not in
/// memory is asked for: at once where the context is new on the page, else more
/// than five seconds after the last request. All else is left alone.
pub proof fn missing_context_data_is_asked_for<U, P, R>(
    page: PageView<U>,
    h: HandlerView,
    new_id: bool,
    cached: bool,
    playing: Option<ContextIdView>,
    item: Option<PlayableItemView>,
    fresh: U,
    since: nat,
    now: Instant,
)
    ensures
        ({
            let (after, h_after, action) = page_change::<U, P, R>(
                page,
                h,
                PageStep::LookedUp { new_id, cached },
                playing,
                item,
                fresh,
                since,
                now,
            );
            &&& after == page && h_after == h
            &&& match page {
                PageView::Context { id: Some(context), .. } if !(context is Tracks) && !cached && (
                new_id || since > 5_000_000_000) => action matches ActionView::Send {
                    request,
                    then,
                } && request == ClientRequestView::<P, R>::GetContext(context) && then == Some(
                    PageStep::Requested,
                ),
                _ => action is Done,
            }
        }),
{
}

/// Once the data of a context has been asked for, the time of that is remembered,
/// and that is all.
pub proof fn context_request_is_remembered<U, P, R>(
    page: PageView<U>,
    h: HandlerView,
    playing: Option<ContextIdView>,
    item: Option<PlayableItemView>,
    fresh: U,
    since: nat,
    now: Instant,
)
    ensures
        ({
            let (after, h_after, action) = page_change::<U, P, R>(
                page,
                h,
                PageStep::Requested,
                playing,
                item,
                fresh,
                since,
                now,
            );
            &&& after == page && action is Done
            &&& h_after.last_get_context == now
            &&& h_after.last_playback_refresh == h.last_playback_refresh
            &&& h_after.last_queue_refresh == h.last_queue_refresh
            &&& h_after.ended_playable_uri == h.ended_playable_uri
        }),
{
}

/// A lyrics page turns to the track that is played, with its name, its URI and
/// its artists, and its lyrics are asked for, exactly if the track has an ID and
/// another name than the one shown. Else the page is left alone, as every page is
/// that shows neither a context nor lyrics.
pub proof fn lyrics_of_another_track_are_asked_for<U, P, R>(
    track_uri: Seq<char>,
    track: Seq<char>,
    artists: Seq<char>,
    h: HandlerView,
    playing: Option<ContextIdView>,
    item: Option<PlayableItemView>,
    fresh: U,
    since: nat,
    now: Instant,
)
    ensures
        ({
            let page = PageView::<U>::Lyrics { track_uri, track, artists };
            let (after, h_after, action) = page_change::<U, P, R>(
                page,
                h,
                PageStep::Change,
                playing,
                item,
                fresh,
                since,
                now,
            );
            &&& h_after == h
            &&& match item {
                Some(PlayableItemView::Track(FullTrackView { id: Some(id), name, artists, .. })) if
                    name != track => {
                    &&& after is Lyrics && after->track == name
                    &&& after->track_uri == "spotify:track:"@ + id
                    &&& after->artists == joined(artists, ", "@)
                    &&& action matches ActionView::Send { request, then } && request
                        == ClientRequestView::<P, R>::GetLyrics { track_id: id } && then is None
                },
                _ => after == page && action is Done,
            }
        }),
        page_change::<U, P, R>(
            PageView::Other,
            h,
            PageStep::Change,
            playing,
            item,
            fresh,
            since,
            now,
        ) == (PageView::<U>::Other, h, ActionView::<PageStep, P, R>::Done),
{
    if let Some(PlayableItemView::Track(t)) = item {
        if let Some(id) = t.id {
            uris_name_type_and_id(id, TracksIdView { uri: id, kind: id });
        }
    }
}

/// What is played, for a page that follows it, is the item of the snapshot.
pub proof fn playing_item_is_that_of_the_snapshot<X>(p: PlayerState<X>)
    ensures
        match p.playback {
            Some(CurrentPlaybackContext { item: Some(item), .. }) => p.playing_item() == Some(
                item@,
            ),
            _ => p.playing_item() is None,
        },
{
}

/// What is played from matters for bringing a page up to date that follows it,
/// and for nothing else.
pub proof fn only_following_pages_need_the_playing_context<U>(page: PageView<U>, step: PageStep)
    ensures
        needs_playing(page, step) <==> step is Change && page matches PageView::Context {
            context_page_type: ContextPageTypeView::CurrentPlaying,
            ..
        },
{
}

/// Texts are joined one after the other, with the separator between each two of
/// them and nowhere else.
pub proof fn joining_puts_separators_between(
    a: Seq<Seq<char>>,
    b: Seq<Seq<char>>,
    one: Seq<char>,
    sep: Seq<char>,
)
    ensures
        joined(Seq::empty(), sep) == Seq::<char>::empty(),
        joined(seq![one], sep) == one,
        a.len() > 0 && b.len() > 0 ==> joined(a + b, sep) == joined(a, sep) + sep + joined(b, sep),
    decreases b.len(),
{
    if a.len() > 0 && b.len() > 0 {
        let all = a + b;
        assert(all.last() == b.last());
        assert(all.drop_last() =~= a + b.drop_last());
        if b.len() == 1 {
            assert(a + b.drop_last() =~= a);
        } else {
            joining_puts_separators_between(a, b.drop_last(), one, sep);
            assert(joined(a, sep) + sep + joined(b.drop_last(), sep) + sep + b.last()
                =~= joined(a, sep) + sep + (joined(b.drop_last(), sep) + sep + b.last()));
        }
    }
}

/// A lyrics page shows the track that is played, if that track has an ID; and
/// where it showed a track of another name, its URI is that of the track.
pub proof fn lyrics_follow_track<U>(
    page: PageView<U>,
    playing: Option<ContextIdView>,
    item: Option<PlayableItemView>,
    fresh: U,
)
    requires
        page is Lyrics,
        item matches Some(PlayableItemView::Track(t)) && t.id is Some,
    ensures
        updated_page(page, playing, item, fresh) matches PageView::Lyrics { track, .. } && track
            == item->0->Track_0.name,
        next_lyrics(page->track, item) matches Some((id, _)) ==> item->0.id() == Some(
            PlayableIdView::Track(id),
        ) && updated_page(page, playing, item, fresh)->track_uri == PlayableIdView::Track(id).uri(),
{
}

/// Looking at the page again, while the same is played, changes nothing: no
/// context is new, and no lyrics are asked for.
pub proof fn page_update_is_stable<U, P, R>(
    page: PageView<U>,
    playing: Option<ContextIdView>,
    item: Option<PlayableItemView>,
    fresh: U,
    again: U,
)
    ensures
        ({
            let after = updated_page(page, playing, item, fresh);
            &&& updated_page(after, playing, item, again) == after
            &&& match page_action::<U, P, R>(after, playing, item) {
                ActionView::LookUp { new_id, .. } => !new_id,
                action => action is Done,
            }
        }),
{
}

/// The data of a context is asked for only if it is not in memory, never for a
/// list of tracks; for a new context at once, and for one that has been asked
/// for only after more than five seconds.
pub proof fn context_requests_are_throttled<U, P, R>(
    page: PageView<U>,
    h: HandlerView,
    new_id: bool,
    cached: bool,
    playing: Option<ContextIdView>,
    item: Option<PlayableItemView>,
    fresh: U,
    since: nat,
    now: Instant,
)
    ensures
        ({
            let step = PageStep::LookedUp { new_id, cached };
            let (after, h_after, action) = page_change::<U, P, R>(
                page,
                h,
                step,
                playing,
                item,
                fresh,
                since,
                now,
            );
            &&& after == page && h_after == h
            &&& action is Send <==> remote_context(page) is Some && !cached && context_is_due(
                new_id,
                since,
            )
            &&& page matches PageView::Context { id: Some(ContextIdView::Tracks(_)), .. }
                ==> action is Done
            &&& !new_id && since <= CONTEXT_REFRESH_THROTTLE_SECS * 1_000_000_000 ==> action is Done
            &&& action is Send ==> action == (ActionView::<PageStep, P, R>::Send {
                request: ClientRequestView::GetContext(remote_context(page)->0),
                then: Some(PageStep::Requested),
            })
        }),
{
}

/// The data of a context that stays on the page is not asked for again within
/// five seconds, whether it has come or not.
pub proof fn context_is_asked_for_once<U, P, R>(
    page: PageView<U>,
    h: HandlerView,
    cached: bool,
    playing: Option<ContextIdView>,
    item: Option<PlayableItemView>,
    fresh: U,
    since: nat,
    now: Instant,
)
    requires
        since <= CONTEXT_REFRESH_THROTTLE_SECS * 1_000_000_000,
    ensures
        ({
            let shown = updated_page(page, playing, item, fresh);
            match page_action::<U, P, R>(shown, playing, item) {
                ActionView::LookUp { new_id, .. } => page_change::<U, P, R>(
                    shown,
                    h,
                    PageStep::LookedUp { new_id, cached },
                    playing,
                    item,
                    fresh,
                    since,
                    now,
                ).2 is Done,
                action => action is Done,
            }
        }),
{
    page_update_is_stable::<U, P, R>(page, playing, item, fresh, fresh);
}

/// Looking at the page changes nothing of what is remembered but when a context
/// was asked for, and that only once it has been asked for.
pub proof fn page_change_touches_its_own<U, P, R>(
    page: PageView<U>,
    h: HandlerView,
    step: PageStep,
    playing: Option<ContextIdView>,
    item: Option<PlayableItemView>,
    fresh: U,
    since: nat,
    now: Instant,
)
    ensures
        page_change::<U, P, R>(page, h, step, playing, item, fresh, since, now).1 == (HandlerView {
            last_get_context: if step is Requested {
                now
            } else {
                h.last_get_context
            },
            ..h
        }),
{
}

// ---- Looking at the player ----

/// How many steps of looking at the player are left, at most.
pub open spec fn event_rank(step: EventStep) -> nat {
    match step {
        EventStep::Page(PageStep::Change) => 6,
        EventStep::Page(PageStep::LookedUp { .. }) => 5,
        EventStep::Page(PageStep::Requested) => 4,
        EventStep::Playback(step) => playback_rank(step),
    }
}

/// What is done for the page is done as it is, and once the page asks for nothing
/// more it is the turn of the playback, from its first step on.
pub proof fn page_hands_over_to_the_playback<P, R>(action: ActionView<PageStep, P, R>)
    ensures
        match (action, page_part(action)) {
            (
                ActionView::LookUp { uri, new_id },
                ActionView::LookUp { uri: uri_after, new_id: new_id_after },
            ) => uri_after == uri && new_id_after == new_id,
            (
                ActionView::Send { request, then },
                ActionView::Send { request: request_after, then: then_after },
            ) => request_after == request && then_after == Some(
                match then {
                    Some(step) => EventStep::Page(step),
                    None => EventStep::Playback(PlaybackStep::End),
                },
            ),
            (ActionView::Continue(step), ActionView::Continue(next)) => next == EventStep::Page(
                step,
            ),
            (ActionView::Done, ActionView::Continue(next)) => next == EventStep::Playback(
                PlaybackStep::End,
            ),
            _ => false,
        },
{
}

/// What is done for the playback is done as it is, and the playback comes last.
pub proof fn playback_comes_last<P, R>(action: ActionView<PlaybackStep, P, R>)
    ensures
        match (action, playback_part(action)) {
            (
                ActionView::LookUp { uri, new_id },
                ActionView::LookUp { uri: uri_after, new_id: new_id_after },
            ) => uri_after == uri && new_id_after == new_id,
            (
                ActionView::Send { request, then },
                ActionView::Send { request: request_after, then: then_after },
            ) => request_after == request && match (then, then_after) {
                (Some(step), Some(next)) => next == EventStep::Playback(step),
                (None, None) => true,
                _ => false,
            },
            (ActionView::Continue(step), ActionView::Continue(next)) => next
                == EventStep::Playback(step),
            (ActionView::Done, ActionView::Done) => true,
            _ => false,
        },
{
}

/// Looking at the page leads on to looking at the playback, and to nothing
/// else: it ends only where a request cannot be sent.
pub proof fn page_leads_to_playback<U, P, R>(
    page: PageView<U>,
    h: HandlerView,
    step: PageStep,
    playing: Option<ContextIdView>,
    item: Option<PlayableItemView>,
    fresh: U,
    since: nat,
    now: Instant,
)
    ensures
        ({
            let action = page_part(
                page_change::<U, P, R>(page, h, step, playing, item, fresh, since, now).2,
            );
            if action is LookUp {
                step is Change
            } else {
                following(action) matches Some(next) && event_rank(next) < event_rank(
                    EventStep::Page(step),
                )
            }
        }),
{
}

/// Looking at the playback goes on with a later step or ends, so that looking at
/// the player comes to an end.
pub proof fn playback_comes_to_an_end<X, P, R>(
    p: PlayerState<X>,
    h: HandlerView,
    step: PlaybackStep,
    progress: Option<int>,
    since: nat,
    now: Instant,
)
    ensures
        ({
            let action = playback_part(
                playback_change::<X, P, R>(p, h, step, progress, since, now).1,
            );
            &&& !(action is LookUp)
            &&& following(action) matches Some(next) ==> event_rank(next) < event_rank(
                EventStep::Playback(step),
            )
        }),
{
}

// ---- The event loop ----

/// The session is checked every second and the player is looked at ten times a
/// second.
pub proof fn ticks_come_at_their_intervals()
    ensures
        SESSION_CHECK_INTERVAL_MS == 1000,
        EVENT_INTERVAL_MS == 100,
{
}

/// Every tick for it has the session checked, whether the playback is polled or
/// not, whatever the clock says and whatever the loop remembers, and nothing else
/// has it checked. It leaves the loop as it is.
pub proof fn session_is_checked_on_every_tick<P, R>(
    l: RunLoop<P, R>,
    event: RunEvent<P, R>,
    elapsed: nat,
    now: Instant,
)
    ensures
        ({
            let (after, action) = l.next(event, elapsed, now);
            &&& action is CheckSession <==> event is SessionTick
            &&& event is SessionTick ==> after == l
        }),
{
}

/// The player is looked at on every tick for it, after the playback has been
/// asked for where that is due: with polling switched on, at least a second and
/// at least the interval after the last time.
pub proof fn player_is_looked_at_on_every_tick<P, R>(
    l: RunLoop<P, R>,
    event: RunEvent<P, R>,
    elapsed: nat,
    now: Instant,
)
    ensures
        ({
            let (after, action) = l.next(event, elapsed, now);
            let due = l.playback_refresh_ms > 0 && elapsed >= 1_000_000_000 && elapsed
                >= l.playback_refresh_ms * 1_000_000;
            &&& action is SendRefresh <==> event is EventTick && due
            &&& action is LookAtPlayer <==> event is EventTick && !due || event
                == RunEvent::<P, R>::RefreshSent(true)
            &&& event is EventTick ==> after == l
        }),
{
}

/// A request that the loop comes to is dispatched at once, unless it is for a
/// volume: then the loop holds the volume back and looks for a later one. All
/// else that the loop remembers stays.
pub proof fn requests_are_dispatched_at_once<P, R>(
    l: RunLoop<P, R>,
    request: ClientRequest<P, R>,
    elapsed: nat,
    now: Instant,
)
    ensures
        ({
            let (after, action) = l.next(RunEvent::Received(Some(request)), elapsed, now);
            let waiting = RunLoop { deferred: Some(request), ..l };
            let (after_waiting, waiting_action) = waiting.next(RunEvent::Ready, elapsed, now);
            &&& match request {
                ClientRequest::Player(PlayerRequest::Volume(v)) => action is TryReceive
                    && after.volume == Some(v),
                ClientRequest::Player(command) => action == RunAction::<P, R>::Command(command)
                    && after.volume == l.volume,
                request => action == RunAction::<P, R>::Spawn(request) && after.volume == l.volume,
            }
            &&& after.deferred == l.deferred
            &&& waiting_action == action
            &&& after_waiting == (RunLoop { deferred: None, ..after })
        }),
{
}

/// While the loop holds a volume back, a later volume takes its place. Anything
/// else in the queue is deferred, and the volume is set first; so it is, too,
/// when the queue is empty.
pub proof fn held_volume_is_replaced_or_set<P, R>(
    l: RunLoop<P, R>,
    volume: u8,
    found: Option<ClientRequest<P, R>>,
    elapsed: nat,
    now: Instant,
)
    requires
        l.volume == Some(volume),
    ensures
        ({
            let (after, action) = l.next(RunEvent::Queued(found), elapsed, now);
            match found {
                Some(ClientRequest::Player(PlayerRequest::Volume(later))) => action is TryReceive
                    && after.volume == Some(later) && after.deferred == l.deferred,
                _ => action == RunAction::<P, R>::Command(PlayerRequest::Volume(volume))
                    && after.volume is None && after.deferred == found,
            }
        }),
{
}

/// The loop waits exactly if nothing is deferred when it is ready, and that
/// changes nothing.
pub proof fn loop_waits_when_nothing_is_deferred<P, R>(
    l: RunLoop<P, R>,
    event: RunEvent<P, R>,
    elapsed: nat,
    now: Instant,
)
    ensures
        ({
            let (after, action) = l.next(event, elapsed, now);
            &&& action is Wait <==> event is Ready && l.deferred is None
            &&& action is Wait || action is Stop ==> after == l
        }),
{
}

/// The playback is never asked for where that is switched off, and never more
/// often than once a second and once in the interval that is set.
pub proof fn polling_is_bounded(refresh_ms: u64, elapsed: nat)
    ensures
        refresh_is_due(0, elapsed) == false,
        refresh_is_due(refresh_ms, elapsed) ==> elapsed >= 1_000_000_000,
        refresh_is_due(refresh_ms, elapsed) ==> elapsed >= refresh_ms * 1_000_000,
        refresh_ms > 0 && elapsed >= 1_000_000_000 && elapsed >= refresh_ms * 1_000_000
            ==> refresh_is_due(refresh_ms, elapsed),
{
}

/// When the playback was asked for changes once it has been asked for, and at no
/// other time; nothing else that the loop remembers of its looks at the player
/// changes, and the interval stays as it is set.
pub proof fn refresh_is_remembered_once_sent<P, R>(
    l: RunLoop<P, R>,
    event: RunEvent<P, R>,
    elapsed: nat,
    now: Instant,
)
    ensures
        ({
            let (after, action) = l.next(event, elapsed, now);
            &&& after.handler_state == (PlayerEventHandlerState {
                last_playback_refresh: if event == RunEvent::<P, R>::RefreshSent(true) {
                    now
                } else {
                    l.handler_state.last_playback_refresh
                },
                ..l.handler_state
            })
            &&& after.playback_refresh_ms == l.playback_refresh_ms
            &&& action is SendRefresh <==> event is EventTick && refresh_is_due(
                l.playback_refresh_ms,
                elapsed,
            )
        }),
{
}

/// A request on its way to the loop. It is late if it was not in the queue yet
/// when the loop looked into it for a request behind the one before.
pub struct Arrival<P, R> {
    pub request: ClientRequest<P, R>,
    pub late: bool,
}

/// What is done for a request that is dispatched.
pub open spec fn work_of<P, R>(request: ClientRequest<P, R>) -> RunAction<P, R> {
    match request {
        ClientRequest::Player(command) => RunAction::Command(command),
        _ => RunAction::Spawn(request),
    }
}

/// What is done for the given requests: all of them are dispatched in their
/// order, except for a volume right behind which another volume was waiting.
pub open spec fn work<P, R>(arrivals: Seq<Arrival<P, R>>) -> Seq<RunAction<P, R>>
    decreases arrivals.len(),
{
    if arrivals.len() == 0 {
        Seq::empty()
    } else if arrivals.len() > 1 && is_volume(arrivals[0].request) && is_volume(
        arrivals[1].request,
    ) && !arrivals[1].late {
        work(arrivals.skip(1))
    } else {
        seq![work_of(arrivals[0].request)] + work(arrivals.skip(1))
    }
}

/// The request that the loop has taken up but not dispatched yet.
pub open spec fn taken_up<P, R>(l: RunLoop<P, R>) -> Seq<Arrival<P, R>> {
    match (l.volume, l.deferred) {
        (Some(v), _) => seq![
            Arrival { request: ClientRequest::Player(PlayerRequest::Volume(v)), late: false },
        ],
        (None, Some(request)) => seq![Arrival { request, late: false }],
        (None, None) => Seq::empty(),
    }
}

/// One step of the loop: what the loop remembers of its looks at the player when
/// the step begins, what has happened, and what the clock gives then.
pub struct Moment<P, R> {
    pub handler_state: PlayerEventHandlerState,
    pub event: RunEvent<P, R>,
    pub elapsed: nat,
    pub now: Instant,
}

/// The loop as the step `m` finds it.
pub open spec fn found<P, R>(l: RunLoop<P, R>, m: Moment<P, R>) -> RunLoop<P, R> {
    RunLoop { handler_state: m.handler_state, ..l }
}

/// The loop and its action after the step `m`.
pub open spec fn stepped<P, R>(l: RunLoop<P, R>, m: Moment<P, R>) -> (
    RunLoop<P, R>,
    RunAction<P, R>,
) {
    found(l, m).next(m.event, m.elapsed, m.now)
}

/// Whether the loop expects each event of the run: any mixture of requests and
/// ticks will do.
pub open spec fn expected<P, R>(l: RunLoop<P, R>, run: Seq<Moment<P, R>>) -> bool
    decreases run.len(),
{
    run.len() > 0 ==> found(l, run[0]).expects(run[0].event) && expected(
        stepped(l, run[0]).0,
        run.skip(1),
    )
}

/// The loop at the end of the run.
pub open spec fn end_of<P, R>(l: RunLoop<P, R>, run: Seq<Moment<P, R>>) -> RunLoop<P, R>
    decreases run.len(),
{
    if run.len() == 0 {
        l
    } else {
        end_of(stepped(l, run[0]).0, run.skip(1))
    }
}

/// The request that comes with an event. One that the loop has waited for was
/// not in the queue before; one that it finds in the queue was.
pub open spec fn arrival<P, R>(event: RunEvent<P, R>) -> Seq<Arrival<P, R>> {
    match event {
        RunEvent::Received(Some(request)) => seq![Arrival { request, late: true }],
        RunEvent::Queued(Some(request)) => seq![Arrival { request, late: false }],
        _ => Seq::empty(),
    }
}

/// The requests that come in the course of the run.
pub open spec fn arrived<P, R>(run: Seq<Moment<P, R>>) -> Seq<Arrival<P, R>>
    decreases run.len(),
{
    if run.len() == 0 {
        Seq::empty()
    } else {
        arrival(run[0].event) + arrived(run.skip(1))
    }
}

/// What is done for requests in the course of the run.
pub open spec fn done<P, R>(l: RunLoop<P, R>, run: Seq<Moment<P, R>>) -> Seq<RunAction<P, R>>
    decreases run.len(),
{
    if run.len() == 0 {
        Seq::empty()
    } else {
        let (after, action) = stepped(l, run[0]);
        let rest = done(after, run.skip(1));
        if action is Command || action is Spawn {
            seq![action] + rest
        } else {
            rest
        }
    }
}

/// Whether the first request was late does not matter.
proof fn work_ignores_first_late<P, R>(first: Arrival<P, R>, late: bool, rest: Seq<Arrival<P, R>>)
    ensures
        work(seq![first] + rest) == work(seq![Arrival { late, ..first }] + rest),
{
    let a = seq![first] + rest;
    let b = seq![Arrival { late, ..first }] + rest;
    assert(a.skip(1) =~= rest);
    assert(b.skip(1) =~= rest);
    if rest.len() > 0 {
        assert(a[1] == rest[0] && b[1] == rest[0]);
    }
}

/// What comes to a loop that has taken up nothing was waited for.
proof fn first_arrival_was_waited_for<P, R>(l: RunLoop<P, R>, run: Seq<Moment<P, R>>)
    requires
        l.volume is None,
        l.deferred is None,
        expected(l, run),
    ensures
        arrived(run).len() > 0 ==> arrived(run)[0].late,
    decreases run.len(),
{
    if run.len() > 0 {
        let rest = run.skip(1);
        match run[0].event {
            RunEvent::Received(Some(_)) => {},
            RunEvent::Received(None) => {
                first_arrival_was_waited_for(stepped(l, run[0]).0, rest);
            },
            RunEvent::Queued(_) => {},
            _ => {
                first_arrival_was_waited_for(stepped(l, run[0]).0, rest);
            },
        }
        assert(Seq::<Arrival<P, R>>::empty() + arrived(rest) =~= arrived(rest));
    }
}

/// The loop dispatches all requests in the order in which they come, commands
/// and other requests alike, whatever ticks come in between and whatever the
/// clock says. Of volumes that wait in the queue one right behind the other, it
/// sets the last one only; a volume never overtakes another request, and nothing
/// else is dropped. What has been taken up last may be left to do.
pub proof fn loop_keeps_order_and_collapses_volumes<P, R>(
    l: RunLoop<P, R>,
    run: Seq<Moment<P, R>>,
)
    requires
        l.wf(),
        expected(l, run),
    ensures
        done(l, run) + work(taken_up(end_of(l, run))) == work(taken_up(l) + arrived(run)),
    decreases run.len(),
{
    let none = Seq::<Arrival<P, R>>::empty();
    if run.len() == 0 {
        assert(taken_up(l) + arrived(run) =~= taken_up(l));
        assert(done(l, run) + work(taken_up(l)) =~= work(taken_up(l)));
    } else {
        let m = run[0];
        let rest = run.skip(1);
        let (after, action) = stepped(l, m);
        loop_keeps_order_and_collapses_volumes(after, rest);
        let left = work(taken_up(end_of(l, run)));
        let later = arrived(rest);
        let all = taken_up(l) + arrived(run);
        assert(seq![action] + done(after, rest) + left =~= seq![action] + (done(after, rest)
            + left));
        assert(none + later =~= later);
        if m.event == RunEvent::<P, R>::Queued(None) {
            first_arrival_was_waited_for(after, rest);
        }
        match m.event {
            RunEvent::Received(Some(request)) => {
                work_ignores_first_late(Arrival { request, late: true }, false, later);
                assert(all =~= seq![Arrival { request, late: true }] + later);
            },
            RunEvent::Queued(Some(request)) => {
                assert(all.skip(1) =~= seq![Arrival { request, late: false }] + later);
            },
            _ => {
                assert(all =~= taken_up(l) + later);
            },
        }
        if all.len() > 0 {
            assert(taken_up(l).len() > 0 && arrival(m.event).len() == 0 ==> all.skip(1)
                =~= later);
            assert(taken_up(l).len() == 0 && arrival(m.event).len() > 0 ==> all.skip(1)
                =~= later);
        }
    }
}

/// The given work without the setting of volumes.
pub open spec fn without_volumes<P, R>(actions: Seq<RunAction<P, R>>) -> Seq<RunAction<P, R>>
    decreases actions.len(),
{
    if actions.len() == 0 {
        Seq::empty()
    } else if actions[0] matches RunAction::Command(PlayerRequest::Volume(_)) {
        without_volumes(actions.skip(1))
    } else {
        seq![actions[0]] + without_volumes(actions.skip(1))
    }
}

/// Apart from volumes nothing is dropped, and nothing changes places; and the
/// last request is carried out last, a volume too.
pub proof fn only_superseded_volumes_are_dropped<P, R>(arrivals: Seq<Arrival<P, R>>)
    ensures
        without_volumes(work(arrivals)) == without_volumes(
            arrivals.map_values(|a: Arrival<P, R>| work_of(a.request)),
        ),
        arrivals.len() > 0 ==> work(arrivals).len() > 0 && work(arrivals).last() == work_of(
            arrivals.last().request,
        ),
    decreases arrivals.len(),
{
    let all = arrivals.map_values(|a: Arrival<P, R>| work_of(a.request));
    if arrivals.len() > 0 {
        let rest = arrivals.skip(1);
        only_superseded_volumes_are_dropped(rest);
        assert(all.skip(1) =~= rest.map_values(|a: Arrival<P, R>| work_of(a.request)));
        let kept = seq![work_of(arrivals[0].request)] + work(rest);
        assert(kept.skip(1) =~= work(rest));
        if rest.len() > 0 {
            assert(rest.last() == arrivals.last());
            assert(kept.last() == work(rest).last());
        }
    } else {
        assert(all =~= Seq::empty());
    }
}

/// Whether the event answers the action: a wait ends with a request or a tick, a
/// look into the queue and a request for the playback each with their outcome,
/// and all else with the action having been carried out.
pub open spec fn answers<P, R>(event: RunEvent<P, R>, action: RunAction<P, R>) -> bool {
    match action {
        RunAction::Wait => event is Received || event is SessionTick || event is EventTick,
        RunAction::TryReceive => event is Queued,
        RunAction::SendRefresh => event is RefreshSent,
        _ => event is Ready,
    }
}

/// The loop expects every answer to its action, whatever a look at the player
/// has changed of what it remembers in between.
pub proof fn loop_expects_every_answer<P, R>(
    l: RunLoop<P, R>,
    event: RunEvent<P, R>,
    elapsed: nat,
    now: Instant,
    handler_state: PlayerEventHandlerState,
    answer: RunEvent<P, R>,
)
    requires
        l.wf(),
        l.expects(event),
        answers(answer, l.next(event, elapsed, now).1),
    ensures
        ({
            let after = RunLoop { handler_state, ..l.next(event, elapsed, now).0 };
            after.wf() && after.expects(answer)
        }),
{
}

/// Ticks leave the requests alone, and the loop ends only when no more requests
/// can come or the playback cannot be asked for.
pub proof fn ticks_leave_requests_alone<P, R>(
    l: RunLoop<P, R>,
    event: RunEvent<P, R>,
    elapsed: nat,
    now: Instant,
)
    ensures
        ({
            let (after, action) = l.next(event, elapsed, now);
            &&& event is SessionTick || event is EventTick || event is RefreshSent
                ==> after.volume == l.volume && after.deferred == l.deferred
            &&& action is Stop <==> event == RunEvent::<P, R>::Received(None) || event
                == RunEvent::<P, R>::RefreshSent(false)
        }),
{
}

} // verus!
