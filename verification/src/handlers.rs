//! What the client does when it looks at the player from time to time: it
//! keeps the page on screen up to date, and asks for what is missing or stale.
//!
//! Looking at the player alternates between decisions, which are made here, and
//! sending requests or looking things up, which the caller does. Each decision
//! takes a step and gives an action; the action names the step that follows it.

use crate::ids::{text, uri, uri_of};
use crate::model::{
    context_view, nanos, same_context, ContextId, ContextIdView, FullTrackView, PlayableId,
    PlayableIdView, PlayableItem, PlayableItemView, SimplifiedArtist,
};
use crate::player::{in_bounds, PlayerState};
use crate::request::{ClientRequest, ClientRequestView};
use crate::time::{passed, read, read_clock, time_since, Elapsed, TimeDelta};
use std::time::Instant;
use vstd::prelude::*;
use vstd::string::*;

verus! {

/// How long a context that could not be shown yet is not asked for again, in
/// seconds.
pub const CONTEXT_REFRESH_THROTTLE_SECS: u64 = 5;

/// How long the queue is not asked for again while the same item is played, in
/// seconds.
pub const QUEUE_REFRESH_THROTTLE_SECS: u64 = 5;

/// What has been asked for already, and when.
#[derive(Debug)]
pub struct PlayerEventHandlerState {
    /// The item whose end has been reported.
    pub ended_playable_uri: Option<String>,
    pub last_get_context: Instant,
    pub last_playback_refresh: Instant,
    /// The item for which the queue has been asked for last.
    pub last_queue_refresh: Option<(String, Instant)>,
}

/// The contents of a [`PlayerEventHandlerState`].
pub struct HandlerView {
    pub ended_playable_uri: Option<Seq<char>>,
    pub last_get_context: Instant,
    pub last_playback_refresh: Instant,
    pub last_queue_refresh: Option<(Seq<char>, Instant)>,
}

impl HandlerView {
    /// Whether the clock gives `elapsed` nanoseconds as the time since the queue
    /// was asked for, where it has been.
    pub open spec fn queue_age(self, elapsed: nat) -> bool {
        self.last_queue_refresh matches Some((_, at)) ==> passed(at, elapsed)
    }
}

impl View for PlayerEventHandlerState {
    type V = HandlerView;

    open spec fn view(&self) -> HandlerView {
        HandlerView {
            ended_playable_uri: text(self.ended_playable_uri),
            last_get_context: self.last_get_context,
            last_playback_refresh: self.last_playback_refresh,
            last_queue_refresh: match self.last_queue_refresh {
                Some((uri, at)) => Some((uri@, at)),
                None => None,
            },
        }
    }
}

/// What the caller does after a decision.
#[derive(Debug, PartialEq, Eq)]
pub enum Action<S, P, R> {
    /// Look up whether the data of the context `uri` is in memory.
    LookUp { uri: String, new_id: bool },
    /// Send a request. If that fails, all further steps are dropped.
    Send { request: ClientRequest<P, R>, then: Option<S> },
    /// Go on at once.
    Continue(S),
    Done,
}

/// The contents of an [`Action`].
pub enum ActionView<S, P, R> {
    LookUp { uri: Seq<char>, new_id: bool },
    Send { request: ClientRequestView<P, R>, then: Option<S> },
    Continue(S),
    Done,
}

impl<S, P, R> View for Action<S, P, R> {
    type V = ActionView<S, P, R>;

    open spec fn view(&self) -> ActionView<S, P, R> {
        match *self {
            Action::LookUp { uri, new_id } => ActionView::LookUp { uri: uri@, new_id },
            Action::Send { request, then } => ActionView::Send { request: request@, then },
            Action::Continue(step) => ActionView::Continue(step),
            Action::Done => ActionView::Done,
        }
    }
}

/// The steps of looking at the playback.
#[derive(Clone, Copy, Debug, PartialEq, Eq, Structural)]
pub enum PlaybackStep {
    /// Report that the item has ended.
    End,
    /// The current playback has been asked for, because the item has ended.
    Requested,
    /// Ask for the queue, if it belongs to another item.
    Queue,
}

/// The item that is played, with its duration, where the playback is known.
pub open spec fn playing<X>(player: PlayerState<X>) -> Option<(PlayableIdView, int)> {
    match (player.buffered_playback, player.playing_item()) {
        (Some(_), Some(PlayableItemView::Track(t))) => Some(
            (PlayableIdView::Track(t.id->0), t.duration),
        ),
        (Some(_), Some(PlayableItemView::Episode(e))) => Some(
            (PlayableIdView::Episode(e.id), e.duration),
        ),
        _ => None,
    }
}

/// Whether the item that is played, where the playback is known, has an ID.
pub open spec fn playing_id_known<X>(player: PlayerState<X>) -> bool {
    player.buffered_playback is Some && player.playing_item() is Some
        && player.playing_item()->0 is Track ==> player.playing_item()->0.id() is Some
}

/// Whether the item that is played according to the queue has an ID, where that
/// matters.
pub open spec fn queue_id_known<X>(player: PlayerState<X>) -> bool {
    playing(player) is Some && player.queue is Some
        && player.queue->0.currently_playing is Some
        ==> player.queue->0.currently_playing->0@.id() is Some
}

/// Whether an item has been played to its end.
pub open spec fn has_ended<X>(
    player: PlayerState<X>,
    duration: int,
    progress: Option<int>,
) -> bool {
    progress is Some && progress->0 >= duration && player.buffered_playback->0.is_playing
}

/// Whether the queue belongs to another item than `id`.
pub open spec fn queue_is_stale<X>(player: PlayerState<X>, id: PlayableIdView) -> bool {
    player.queue is None || player.queue->0.currently_playing is None
        || player.queue->0.currently_playing->0@.id() != Some(id)
}

/// Whether the queue may be asked for again for the item `uri`.
pub open spec fn queue_is_due(h: HandlerView, uri: Seq<char>, since_queue: nat) -> bool {
    h.last_queue_refresh is None || (h.last_queue_refresh->0).0 != uri || since_queue
        >= QUEUE_REFRESH_THROTTLE_SECS * 1_000_000_000
}

/// What looking at the playback does at each step, where the playback has made
/// the given progress, the queue was asked for `since_queue` nanoseconds ago,
/// and the clock reads `now`.
pub open spec fn playback_change<X, P, R>(
    player: PlayerState<X>,
    h: HandlerView,
    step: PlaybackStep,
    progress: Option<int>,
    since_queue: nat,
    now: Instant,
) -> (HandlerView, ActionView<PlaybackStep, P, R>) {
    match playing(player) {
        None => (h, ActionView::Done),
        Some((id, duration)) => match step {
            PlaybackStep::End => {
                if !has_ended(player, duration, progress) {
                    (
                        HandlerView { ended_playable_uri: None, ..h },
                        ActionView::Continue(PlaybackStep::Queue),
                    )
                } else if h.ended_playable_uri != Some(id.uri()) {
                    (
                        h,
                        ActionView::Send {
                            request: ClientRequestView::GetCurrentPlayback,
                            then: Some(PlaybackStep::Requested),
                        },
                    )
                } else {
                    (h, ActionView::Continue(PlaybackStep::Queue))
                }
            },
            PlaybackStep::Requested => (
                HandlerView { ended_playable_uri: Some(id.uri()), ..h },
                ActionView::Continue(PlaybackStep::Queue),
            ),
            PlaybackStep::Queue => {
                if !queue_is_stale(player, id) {
                    (HandlerView { last_queue_refresh: None, ..h }, ActionView::Done)
                } else if queue_is_due(h, id.uri(), since_queue) {
                    (
                        HandlerView { last_queue_refresh: Some((id.uri(), now)), ..h },
                        ActionView::Send {
                            request: ClientRequestView::GetCurrentUserQueue,
                            then: None,
                        },
                    )
                } else {
                    (h, ActionView::Done)
                }
            },
        },
    }
}

/// Looks at the playback, one step at a time. `progress` is the playback's
/// progress, `since_queue` the time since the queue was asked for last, and
/// `now` the current time.
pub fn handle_playback_change_event_at<X, P, R>(
    player: &PlayerState<X>,
    handler_state: &mut PlayerEventHandlerState,
    step: PlaybackStep,
    progress: Option<TimeDelta>,
    since_queue: Elapsed,
    now: Instant,
) -> (action: Action<PlaybackStep, P, R>)
    requires
        playing_id_known(*player),
        step is Queue ==> queue_id_known(*player),
    ensures
        (final(handler_state)@, action@) == playback_change::<X, P, R>(
            *player,
            old(handler_state)@,
            step,
            nanos(progress),
            since_queue@,
            now,
        ),
{
    let playback = match &player.buffered_playback {
        Some(playback) => playback,
        None => return Action::Done,
    };
    let (id, duration) = match player.currently_playing() {
        Some(PlayableItem::Track(track)) => match &track.id {
            Some(id) => (PlayableId::Track(id.clone()), track.duration),
            None => return Action::Done,
        },
        Some(PlayableItem::Episode(episode)) => {
            (PlayableId::Episode(episode.id.clone()), episode.duration)
        },
        _ => return Action::Done,
    };
    let playable_uri = id.uri();
    match step {
        PlaybackStep::End => {
            let playback_ended = match progress {
                Some(progress) => progress.at_least(&duration) && playback.is_playing,
                None => false,
            };
            if !playback_ended {
                handler_state.ended_playable_uri = None;
                return Action::Continue(PlaybackStep::Queue);
            }
            let reported = match &handler_state.ended_playable_uri {
                Some(uri) => *uri == playable_uri,
                None => false,
            };
            if reported {
                Action::Continue(PlaybackStep::Queue)
            } else {
                Action::Send {
                    request: ClientRequest::GetCurrentPlayback,
                    then: Some(PlaybackStep::Requested),
                }
            }
        },
        PlaybackStep::Requested => {
            handler_state.ended_playable_uri = Some(playable_uri);
            Action::Continue(PlaybackStep::Queue)
        },
        PlaybackStep::Queue => {
            let queue_needs_refresh = match &player.queue {
                Some(queue) => match &queue.currently_playing {
                    Some(item) => match item.id() {
                        Some(queue_id) => !queue_id.same(&id),
                        None => true,
                    },
                    None => true,
                },
                None => true,
            };
            if !queue_needs_refresh {
                handler_state.last_queue_refresh = None;
                return Action::Done;
            }
            let limit = Elapsed::from_secs(QUEUE_REFRESH_THROTTLE_SECS);
            let should_refresh = match &handler_state.last_queue_refresh {
                Some((last_uri, _)) => *last_uri != playable_uri || since_queue.at_least(&limit),
                None => true,
            };
            if should_refresh {
                handler_state.last_queue_refresh = Some((playable_uri, now));
                Action::Send { request: ClientRequest::GetCurrentUserQueue, then: None }
            } else {
                Action::Done
            }
        },
    }
}

/// Looks at the playback, one step at a time.
pub fn handle_playback_change_event<X, P, R>(
    player: &PlayerState<X>,
    handler_state: &mut PlayerEventHandlerState,
    step: PlaybackStep,
) -> (action: Action<PlaybackStep, P, R>)
    requires
        playing_id_known(*player),
        step is Queue ==> queue_id_known(*player),
    ensures
        exists|age: nat, since_queue: nat, now: Instant|
            player.snapshot_age(age) && old(handler_state)@.queue_age(since_queue) && read(now) && (
                final(handler_state)@,
                action@,
            ) == #[trigger] playback_change::<X, P, R>(
                *player,
                old(handler_state)@,
                step,
                in_bounds(player.progress_after(age)),
                since_queue,
                now,
            ),
{
    let progress = player.playback_progress();
    let since_queue = match &handler_state.last_queue_refresh {
        Some((_, timer)) => time_since(timer),
        None => Elapsed::zero(),
    };
    let at = read_clock();
    let ghost age = choose|age: nat|
        player.snapshot_age(age) && nanos(progress) == in_bounds(
            #[trigger] player.progress_after(age),
        );
    let ghost before = handler_state@;
    let action = handle_playback_change_event_at(
        player,
        handler_state,
        step,
        progress,
        since_queue,
        at,
    );
    assert((handler_state@, action@) == playback_change::<X, P, R>(
        *player,
        before,
        step,
        in_bounds(player.progress_after(age)),
        since_queue@,
        at,
    ));
    action
}

/// What a context page shows.
#[derive(Debug, PartialEq, Eq)]
pub enum ContextPageType {
    CurrentPlaying,
    Browsing(ContextId),
}

/// How a context page is laid out, and what the user has selected in it, which
/// is `U`.
#[derive(Debug, PartialEq, Eq)]
pub enum ContextPageUIState<U> {
    Playlist(U),
    Album(U),
    Artist(U),
    Tracks(U),
    Show(U),
}

/// The page on screen. `U` is what the user has selected in a context page.
#[derive(Debug, PartialEq, Eq)]
pub enum PageState<U> {
    Context {
        id: Option<ContextId>,
        context_page_type: ContextPageType,
        state: Option<ContextPageUIState<U>>,
    },
    Lyrics { track_uri: String, track: String, artists: String },
    /// A page that does not depend on the playback.
    Other,
}

/// The contents of a [`ContextPageType`].
pub enum ContextPageTypeView {
    CurrentPlaying,
    Browsing(ContextIdView),
}

/// The contents of a [`PageState`].
pub enum PageView<U> {
    Context {
        id: Option<ContextIdView>,
        context_page_type: ContextPageTypeView,
        state: Option<ContextPageUIState<U>>,
    },
    Lyrics { track_uri: Seq<char>, track: Seq<char>, artists: Seq<char> },
    Other,
}

impl View for ContextPageType {
    type V = ContextPageTypeView;

    open spec fn view(&self) -> ContextPageTypeView {
        match *self {
            ContextPageType::CurrentPlaying => ContextPageTypeView::CurrentPlaying,
            ContextPageType::Browsing(id) => ContextPageTypeView::Browsing(id@),
        }
    }
}

impl<U> View for PageState<U> {
    type V = PageView<U>;

    open spec fn view(&self) -> PageView<U> {
        match *self {
            PageState::Context { id, context_page_type, state } => PageView::Context {
                id: context_view(id),
                context_page_type: context_page_type@,
                state,
            },
            PageState::Lyrics { track_uri, track, artists } => PageView::Lyrics {
                track_uri: track_uri@,
                track: track@,
                artists: artists@,
            },
            PageState::Other => PageView::Other,
        }
    }
}

/// The layout of a page that shows the context `id`, with `selection` as what
/// is selected in it.
pub open spec fn layout<U>(id: ContextIdView, selection: U) -> ContextPageUIState<U> {
    match id {
        ContextIdView::Playlist(_) => ContextPageUIState::Playlist(selection),
        ContextIdView::Album(_) => ContextPageUIState::Album(selection),
        ContextIdView::Artist(_) => ContextPageUIState::Artist(selection),
        ContextIdView::Tracks(_) => ContextPageUIState::Tracks(selection),
        ContextIdView::Show(_) => ContextPageUIState::Show(selection),
    }
}

/// Whether `selection` is one in which nothing has been selected yet.
pub open spec fn is_fresh<U: Default>(selection: U) -> bool {
    call_ensures(U::default, (), selection)
}

impl<U> ContextPageUIState<U> {
    /// What is selected.
    pub open spec fn selection(self) -> U {
        match self {
            ContextPageUIState::Playlist(selection) => selection,
            ContextPageUIState::Album(selection) => selection,
            ContextPageUIState::Artist(selection) => selection,
            ContextPageUIState::Tracks(selection) => selection,
            ContextPageUIState::Show(selection) => selection,
        }
    }

    /// The layout of a page that shows the context `id`, with `selection` as
    /// what is selected in it.
    pub fn new(id: &ContextId, selection: U) -> (state: ContextPageUIState<U>)
        ensures
            state == layout(id@, selection),
    {
        match id {
            ContextId::Playlist(_) => ContextPageUIState::Playlist(selection),
            ContextId::Album(_) => ContextPageUIState::Album(selection),
            ContextId::Artist(_) => ContextPageUIState::Artist(selection),
            ContextId::Tracks(_) => ContextPageUIState::Tracks(selection),
            ContextId::Show(_) => ContextPageUIState::Show(selection),
        }
    }
}

/// The given texts one after the other, with `sep` between them.
pub open spec fn joined(parts: Seq<Seq<char>>, sep: Seq<char>) -> Seq<char>
    decreases parts.len(),
{
    if parts.len() == 0 {
        Seq::empty()
    } else if parts.len() == 1 {
        parts[0]
    } else {
        joined(parts.drop_last(), sep) + sep + parts.last()
    }
}

/// The names of the artists, with `sep` between them.
pub fn join_names(artists: &Vec<SimplifiedArtist>, sep: &str) -> (names: String)
    ensures
        names@ == joined(artists@.map_values(|a: SimplifiedArtist| a@), sep@),
{
    let ghost parts = artists@.map_values(|a: SimplifiedArtist| a@);
    let mut names = String::new();
    assert(parts.take(0) =~= Seq::empty());
    for i in 0..artists.len()
        invariant
            parts == artists@.map_values(|a: SimplifiedArtist| a@),
            names@ == joined(parts.take(i as int), sep@),
    {
        assert(parts.take(i + 1).drop_last() =~= parts.take(i as int));
        assert(parts.take(i + 1).last() == artists@[i as int].name@);
        if i > 0 {
            names.append(sep);
        }
        names.append(artists[i].name.as_str());
        proof {
            if i == 0 {
                assert(names@ =~= parts.take(1)[0]);
            } else {
                assert(names@ =~= joined(parts.take(i as int), sep@) + sep@ + parts[i as int]);
            }
        }
    }
    assert(parts.take(artists.len() as int) =~= parts);
    names
}

/// The steps of looking at the page.
#[derive(Clone, Copy, Debug, PartialEq, Eq, Structural)]
pub enum PageStep {
    /// Bring the page up to date.
    Change,
    /// The context on the page, which is a new one if `new_id` says so, has
    /// been looked up in memory.
    LookedUp { new_id: bool, cached: bool },
    /// The data of the context on the page has been asked for.
    Requested,
}

/// The context that a page of the given type is to show, where `playing` is
/// what is played from.
pub open spec fn expected_id(
    page_type: ContextPageTypeView,
    playing: Option<ContextIdView>,
) -> Option<ContextIdView> {
    match page_type {
        ContextPageTypeView::Browsing(id) => Some(id),
        ContextPageTypeView::CurrentPlaying => playing,
    }
}

/// Whether the page shows what is played from, whatever that is.
pub open spec fn follows_playback<U>(page: PageView<U>) -> bool {
    page is Context && page->context_page_type is CurrentPlaying
}

/// The track that a lyrics page is to show, if it is not the one that the page
/// shows by its name.
pub open spec fn next_lyrics(
    track: Seq<char>,
    item: Option<PlayableItemView>,
) -> Option<(Seq<char>, FullTrackView)> {
    match item {
        Some(PlayableItemView::Track(t)) if t.name != track && t.id is Some => Some((t.id->0, t)),
        _ => None,
    }
}

/// The page brought up to date, where `playing` is what is played from and
/// `item` is what is played. A page that is to show another context begins with
/// the selection `fresh`.
pub open spec fn updated_page<U>(
    page: PageView<U>,
    playing: Option<ContextIdView>,
    item: Option<PlayableItemView>,
    fresh: U,
) -> PageView<U> {
    match page {
        PageView::Context { id, context_page_type, state } => {
            let expected = expected_id(context_page_type, playing);
            if id == expected {
                page
            } else {
                PageView::Context {
                    id: expected,
                    context_page_type,
                    state: match expected {
                        Some(id) => Some(layout(id, fresh)),
                        None => None,
                    },
                }
            }
        },
        PageView::Lyrics { track_uri, track, artists } => match next_lyrics(track, item) {
            Some((id, t)) => PageView::Lyrics {
                track_uri: uri_of("track"@, id),
                track: t.name,
                artists: joined(t.artists, ", "@),
            },
            None => page,
        },
        PageView::Other => page,
    }
}

/// Whether the data of a context, which is not in memory, is asked for, where a
/// context was asked for `since_context` nanoseconds ago. It is asked for at
/// once where the context is new on the page.
pub open spec fn context_is_due(new_id: bool, since_context: nat) -> bool {
    new_id || since_context > CONTEXT_REFRESH_THROTTLE_SECS * 1_000_000_000
}

/// The context `id`, if its data is to be had from Spotify.
pub open spec fn remote(id: Option<ContextIdView>) -> Option<ContextIdView> {
    match id {
        Some(id) if !(id is Tracks) => Some(id),
        _ => None,
    }
}

/// The context on the page, if its data is to be had from Spotify.
pub open spec fn remote_context<U>(page: PageView<U>) -> Option<ContextIdView> {
    match page {
        PageView::Context { id, .. } => remote(id),
        _ => None,
    }
}

/// What is left to do once the page has been brought up to date.
pub open spec fn page_action<U, P, R>(
    page: PageView<U>,
    playing: Option<ContextIdView>,
    item: Option<PlayableItemView>,
) -> ActionView<PageStep, P, R> {
    match page {
        PageView::Context { id, context_page_type, .. } => {
            let expected = expected_id(context_page_type, playing);
            match remote(expected) {
                Some(shown) => ActionView::LookUp { uri: shown.uri(), new_id: id != expected },
                None => ActionView::Done,
            }
        },
        PageView::Lyrics { track, .. } => match next_lyrics(track, item) {
            Some((id, _)) => ActionView::Send {
                request: ClientRequestView::GetLyrics { track_id: id },
                then: None,
            },
            None => ActionView::Done,
        },
        PageView::Other => ActionView::Done,
    }
}

/// What looking at the page does at each step, where `playing` is what is
/// played from, `item` is what is played, `fresh` is the selection that a page
/// with another context begins with, a context was asked for `since_context`
/// nanoseconds ago, and the clock reads `now`.
pub open spec fn page_change<U, P, R>(
    page: PageView<U>,
    h: HandlerView,
    step: PageStep,
    playing: Option<ContextIdView>,
    item: Option<PlayableItemView>,
    fresh: U,
    since_context: nat,
    now: Instant,
) -> (PageView<U>, HandlerView, ActionView<PageStep, P, R>) {
    match step {
        PageStep::Change => (
            updated_page(page, playing, item, fresh),
            h,
            page_action::<U, P, R>(page, playing, item),
        ),
        PageStep::LookedUp { new_id, cached } => match remote_context(page) {
            Some(id) if !cached && context_is_due(new_id, since_context) => (
                page,
                h,
                ActionView::Send {
                    request: ClientRequestView::GetContext(id),
                    then: Some(PageStep::Requested),
                },
            ),
            _ => (page, h, ActionView::Done),
        },
        PageStep::Requested => (
            page,
            HandlerView { last_get_context: now, ..h },
            ActionView::Done,
        ),
    }
}

/// Looks at the page, one step at a time. `playing` is what is played from,
/// `fresh` the selection that a page with another context begins with,
/// `since_context` the time since a context was asked for last, and `now` the
/// current time.
pub fn handle_page_change_event_at<U, X, P, R>(
    page: &mut PageState<U>,
    player: &PlayerState<X>,
    handler_state: &mut PlayerEventHandlerState,
    step: PageStep,
    playing: Option<ContextId>,
    fresh: U,
    since_context: Elapsed,
    now: Instant,
) -> (action: Action<PageStep, P, R>)
    ensures
        (final(page)@, final(handler_state)@, action@) == page_change::<U, P, R>(
            old(page)@,
            old(handler_state)@,
            step,
            context_view(playing),
            player.playing_item(),
            fresh,
            since_context@,
            now,
        ),
{
    match step {
        PageStep::Change => match page {
            PageState::Context { id, context_page_type, state } => {
                let expected_id = match context_page_type {
                    ContextPageType::Browsing(context_id) => Some(context_id.clone()),
                    ContextPageType::CurrentPlaying => playing,
                };
                let new_id = !same_context(id, &expected_id);
                if new_id {
                    *state = match &expected_id {
                        Some(id) => Some(ContextPageUIState::new(id, fresh)),
                        None => None,
                    };
                    *id = expected_id;
                }
                match id {
                    Some(ContextId::Tracks(_)) => Action::Done,
                    Some(id) => Action::LookUp { uri: id.uri(), new_id },
                    None => Action::Done,
                }
            },
            PageState::Lyrics { track_uri, track, artists } => {
                let current_track = match player.currently_playing() {
                    Some(PlayableItem::Track(current_track)) => current_track,
                    _ => return Action::Done,
                };
                if current_track.name == *track {
                    return Action::Done;
                }
                let id = match &current_track.id {
                    Some(id) => id,
                    None => return Action::Done,
                };
                *track = current_track.name.clone();
                *artists = join_names(&current_track.artists, ", ");
                *track_uri = uri("track", id);
                Action::Send {
                    request: ClientRequest::GetLyrics { track_id: id.clone() },
                    then: None,
                }
            },
            PageState::Other => Action::Done,
        },
        PageStep::LookedUp { new_id, cached } => {
            let limit = Elapsed::from_secs(CONTEXT_REFRESH_THROTTLE_SECS);
            if cached || !(new_id || !limit.at_least(&since_context)) {
                return Action::Done;
            }
            match page {
                PageState::Context { id: Some(ContextId::Tracks(_)), .. } => Action::Done,
                PageState::Context { id: Some(id), .. } => Action::Send {
                    request: ClientRequest::GetContext(id.clone()),
                    then: Some(PageStep::Requested),
                },
                _ => Action::Done,
            }
        },
        PageStep::Requested => {
            handler_state.last_get_context = now;
            Action::Done
        },
    }
}

/// Whether bringing the page up to date takes what is played from.
pub open spec fn needs_playing<U>(page: PageView<U>, step: PageStep) -> bool {
    step is Change && follows_playback(page)
}

/// Looks at the page, one step at a time. `parse_uri` brings the URI of the
/// playing context into the form of an ID's URI. On a page that moves to another
/// context nothing is selected yet.
pub fn handle_page_change_event<F: Fn(&String) -> String, U: Default, X, P, R>(
    page: &mut PageState<U>,
    player: &PlayerState<X>,
    parse_uri: F,
    handler_state: &mut PlayerEventHandlerState,
    step: PageStep,
) -> (action: Action<PageStep, P, R>)
    requires
        needs_playing(old(page)@, step) ==> player.can_parse(parse_uri),
    ensures
        exists|playing: Option<ContextIdView>, fresh: U, since_context: nat, now: Instant|
            (needs_playing(old(page)@, step) ==> player.plays_from(parse_uri, playing))
                && is_fresh(fresh) && passed(old(handler_state).last_get_context, since_context)
                && read(now) && (
                final(page)@,
                final(handler_state)@,
                action@,
            ) == #[trigger] page_change::<U, P, R>(
                old(page)@,
                old(handler_state)@,
                step,
                playing,
                player.playing_item(),
                fresh,
                since_context,
                now,
            ),
{
    let playing = match (step, &*page) {
        (
            PageStep::Change,
            PageState::Context { context_page_type: ContextPageType::CurrentPlaying, .. },
        ) => player.playing_context_id(parse_uri),
        _ => None,
    };
    let fresh = U::default();
    let since_context = time_since(&handler_state.last_get_context);
    let at = read_clock();
    let ghost fresh_selection = fresh;
    let ghost playing_view = context_view(playing);
    let ghost page_before = page@;
    let ghost before = handler_state@;
    let action = handle_page_change_event_at(
        page,
        player,
        handler_state,
        step,
        playing,
        fresh,
        since_context,
        at,
    );
    assert((page@, handler_state@, action@) == page_change::<U, P, R>(
        page_before,
        before,
        step,
        playing_view,
        player.playing_item(),
        fresh_selection,
        since_context@,
        at,
    ));
    action
}

/// The steps of looking at the player: first at the page, then at the playback.
#[derive(Clone, Copy, Debug, PartialEq, Eq, Structural)]
pub enum EventStep {
    Page(PageStep),
    Playback(PlaybackStep),
}

impl EventStep {
    /// The step to begin with.
    pub fn first() -> (step: EventStep)
        ensures
            step == EventStep::Page(PageStep::Change),
    {
        EventStep::Page(PageStep::Change)
    }
}

/// What an action on the page is in the course of looking at the player: once
/// the page is done, it is the playback's turn.
pub open spec fn page_part<P, R>(action: ActionView<PageStep, P, R>) -> ActionView<
    EventStep,
    P,
    R,
> {
    match action {
        ActionView::LookUp { uri, new_id } => ActionView::LookUp { uri, new_id },
        ActionView::Send { request, then: Some(step) } => ActionView::Send {
            request,
            then: Some(EventStep::Page(step)),
        },
        ActionView::Send { request, then: None } => ActionView::Send {
            request,
            then: Some(EventStep::Playback(PlaybackStep::End)),
        },
        ActionView::Continue(step) => ActionView::Continue(EventStep::Page(step)),
        ActionView::Done => ActionView::Continue(EventStep::Playback(PlaybackStep::End)),
    }
}

/// What an action on the playback is in the course of looking at the player.
pub open spec fn playback_part<P, R>(action: ActionView<PlaybackStep, P, R>) -> ActionView<
    EventStep,
    P,
    R,
> {
    match action {
        ActionView::LookUp { uri, new_id } => ActionView::LookUp { uri, new_id },
        ActionView::Send { request, then: Some(step) } => ActionView::Send {
            request,
            then: Some(EventStep::Playback(step)),
        },
        ActionView::Send { request, then: None } => ActionView::Send { request, then: None },
        ActionView::Continue(step) => ActionView::Continue(EventStep::Playback(step)),
        ActionView::Done => ActionView::Done,
    }
}

/// Looks at the player, one step at a time.
pub fn handle_player_event<F: Fn(&String) -> String, U: Default, X, P, R>(
    page: &mut PageState<U>,
    player: &PlayerState<X>,
    parse_uri: F,
    handler_state: &mut PlayerEventHandlerState,
    step: EventStep,
) -> (action: Action<EventStep, P, R>)
    requires
        match step {
            EventStep::Page(step) => needs_playing(old(page)@, step) ==> player.can_parse(
                parse_uri,
            ),
            EventStep::Playback(step) => playing_id_known(*player) && (step is Queue
                ==> queue_id_known(*player)),
        },
    ensures
        step matches EventStep::Page(step) ==> exists|
            playing: Option<ContextIdView>,
            fresh: U,
            since_context: nat,
            now: Instant,
        |
            {
                let (page_after, after, page_action) = #[trigger] page_change::<U, P, R>(
                    old(page)@,
                    old(handler_state)@,
                    step,
                    playing,
                    player.playing_item(),
                    fresh,
                    since_context,
                    now,
                );
                &&& needs_playing(old(page)@, step) ==> player.plays_from(parse_uri, playing)
                &&& is_fresh(fresh)
                &&& passed(old(handler_state).last_get_context, since_context)
                &&& read(now)
                &&& final(page)@ == page_after
                &&& final(handler_state)@ == after
                &&& action@ == page_part(page_action)
            },
        step matches EventStep::Playback(step) ==> *final(page) == *old(page) && exists|
            age: nat,
            since_queue: nat,
            now: Instant,
        |
            {
                let (after, playback_action) = #[trigger] playback_change::<X, P, R>(
                    *player,
                    old(handler_state)@,
                    step,
                    in_bounds(player.progress_after(age)),
                    since_queue,
                    now,
                );
                &&& player.snapshot_age(age)
                &&& old(handler_state)@.queue_age(since_queue)
                &&& read(now)
                &&& final(handler_state)@ == after
                &&& action@ == playback_part(playback_action)
            },
{
    match step {
        EventStep::Page(step) => {
            match handle_page_change_event(page, player, parse_uri, handler_state, step) {
                Action::LookUp { uri, new_id } => Action::LookUp { uri, new_id },
                Action::Send { request, then: Some(step) } => Action::Send {
                    request,
                    then: Some(EventStep::Page(step)),
                },
                Action::Send { request, then: None } => Action::Send {
                    request,
                    then: Some(EventStep::Playback(PlaybackStep::End)),
                },
                Action::Continue(step) => Action::Continue(EventStep::Page(step)),
                Action::Done => Action::Continue(EventStep::Playback(PlaybackStep::End)),
            }
        },
        EventStep::Playback(step) => {
            match handle_playback_change_event(player, handler_state, step) {
                Action::LookUp { uri, new_id } => Action::LookUp { uri, new_id },
                Action::Send { request, then: Some(step) } => Action::Send {
                    request,
                    then: Some(EventStep::Playback(step)),
                },
                Action::Send { request, then: None } => Action::Send { request, then: None },
                Action::Continue(step) => Action::Continue(EventStep::Playback(step)),
                Action::Done => Action::Done,
            }
        },
    }
}

} // verus!
