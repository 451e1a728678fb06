//! What the player knows of the playback, of the items that are played, and of
//! the contexts that they are played from.

use crate::ids::{text, uri, uri_of};
use crate::time::TimeDelta;
use vstd::prelude::*;

verus! {

/// What is repeated once it has been played.
#[derive(Clone, Copy, Debug, PartialEq, Eq, Structural)]
pub enum RepeatState {
    Off,
    Track,
    Context,
}

/// The type of a Spotify object.
#[derive(Clone, Copy, Debug, PartialEq, Eq, Structural)]
pub enum Type {
    Artist,
    Album,
    Track,
    Playlist,
    User,
    Show,
    Episode,
    Collection,
    CollectionYourEpisodes,
    Unknown,
}

/// A device on which playback can be started.
#[derive(Debug, PartialEq, Eq)]
pub struct Device {
    pub id: String,
    pub name: String,
}

/// The ID of a list of tracks that Spotify does not know as a context, such as
/// the liked tracks.
#[derive(Debug, PartialEq, Eq)]
pub struct TracksId {
    pub uri: String,
    pub kind: String,
}

/// The text of a [`TracksId`].
pub struct TracksIdView {
    pub uri: Seq<char>,
    pub kind: Seq<char>,
}

impl View for TracksId {
    type V = TracksIdView;

    open spec fn view(&self) -> TracksIdView {
        TracksIdView { uri: self.uri@, kind: self.kind@ }
    }
}

impl Clone for TracksId {
    fn clone(&self) -> (c: TracksId)
        ensures
            c == *self,
    {
        TracksId { uri: self.uri.clone(), kind: self.kind.clone() }
    }
}

/// What is played from: a context of Spotify's with its ID, or a list of
/// tracks.
#[derive(Debug, PartialEq, Eq)]
pub enum ContextId {
    Playlist(String),
    Album(String),
    Artist(String),
    Tracks(TracksId),
    Show(String),
}

/// The text of a [`ContextId`].
pub enum ContextIdView {
    Playlist(Seq<char>),
    Album(Seq<char>),
    Artist(Seq<char>),
    Tracks(TracksIdView),
    Show(Seq<char>),
}

impl View for ContextId {
    type V = ContextIdView;

    open spec fn view(&self) -> ContextIdView {
        match *self {
            ContextId::Playlist(id) => ContextIdView::Playlist(id@),
            ContextId::Album(id) => ContextIdView::Album(id@),
            ContextId::Artist(id) => ContextIdView::Artist(id@),
            ContextId::Tracks(id) => ContextIdView::Tracks(id@),
            ContextId::Show(id) => ContextIdView::Show(id@),
        }
    }
}

impl ContextIdView {
    /// The URI by which the context is known.
    pub open spec fn uri(self) -> Seq<char> {
        match self {
            ContextIdView::Playlist(id) => uri_of("playlist"@, id),
            ContextIdView::Album(id) => uri_of("album"@, id),
            ContextIdView::Artist(id) => uri_of("artist"@, id),
            ContextIdView::Tracks(id) => id.uri,
            ContextIdView::Show(id) => uri_of("show"@, id),
        }
    }
}

/// The text of a context ID that may be absent.
pub open spec fn context_view(id: Option<ContextId>) -> Option<ContextIdView> {
    match id {
        Some(id) => Some(id@),
        None => None,
    }
}

impl Clone for ContextId {
    fn clone(&self) -> (c: ContextId)
        ensures
            c == *self,
    {
        match self {
            ContextId::Playlist(id) => ContextId::Playlist(id.clone()),
            ContextId::Album(id) => ContextId::Album(id.clone()),
            ContextId::Artist(id) => ContextId::Artist(id.clone()),
            ContextId::Tracks(id) => ContextId::Tracks(id.clone()),
            ContextId::Show(id) => ContextId::Show(id.clone()),
        }
    }
}

impl ContextId {
    /// The URI by which the context is known.
    pub fn uri(&self) -> (u: String)
        ensures
            u@ == self@.uri(),
    {
        match self {
            ContextId::Playlist(id) => uri("playlist", id),
            ContextId::Album(id) => uri("album", id),
            ContextId::Artist(id) => uri("artist", id),
            ContextId::Tracks(id) => id.uri.clone(),
            ContextId::Show(id) => uri("show", id),
        }
    }

    /// Whether this is the ID `other`.
    pub fn same(&self, other: &ContextId) -> (b: bool)
        ensures
            b == (self@ == other@),
    {
        match (self, other) {
            (ContextId::Playlist(a), ContextId::Playlist(b)) => *a == *b,
            (ContextId::Album(a), ContextId::Album(b)) => *a == *b,
            (ContextId::Artist(a), ContextId::Artist(b)) => *a == *b,
            (ContextId::Tracks(a), ContextId::Tracks(b)) => a.uri == b.uri && a.kind == b.kind,
            (ContextId::Show(a), ContextId::Show(b)) => *a == *b,
            _ => false,
        }
    }
}

/// Whether two context IDs that may be absent are the same.
pub fn same_context(a: &Option<ContextId>, b: &Option<ContextId>) -> (same: bool)
    ensures
        same == (context_view(*a) == context_view(*b)),
{
    match (a, b) {
        (Some(a), Some(b)) => a.same(b),
        (None, None) => true,
        _ => false,
    }
}

/// The ID of something that can be played.
#[derive(Debug, PartialEq, Eq)]
pub enum PlayableId {
    Track(String),
    Episode(String),
}

/// The text of a [`PlayableId`].
pub enum PlayableIdView {
    Track(Seq<char>),
    Episode(Seq<char>),
}

impl View for PlayableId {
    type V = PlayableIdView;

    open spec fn view(&self) -> PlayableIdView {
        match *self {
            PlayableId::Track(id) => PlayableIdView::Track(id@),
            PlayableId::Episode(id) => PlayableIdView::Episode(id@),
        }
    }
}

impl PlayableIdView {
    /// The URI by which the item is known.
    pub open spec fn uri(self) -> Seq<char> {
        match self {
            PlayableIdView::Track(id) => uri_of("track"@, id),
            PlayableIdView::Episode(id) => uri_of("episode"@, id),
        }
    }
}

impl Clone for PlayableId {
    fn clone(&self) -> (c: PlayableId)
        ensures
            c == *self,
    {
        match self {
            PlayableId::Track(id) => PlayableId::Track(id.clone()),
            PlayableId::Episode(id) => PlayableId::Episode(id.clone()),
        }
    }
}

impl PlayableId {
    /// The URI by which the item is known.
    pub fn uri(&self) -> (u: String)
        ensures
            u@ == self@.uri(),
    {
        match self {
            PlayableId::Track(id) => uri("track", id),
            PlayableId::Episode(id) => uri("episode", id),
        }
    }

    /// Whether this is the ID `other`.
    pub fn same(&self, other: &PlayableId) -> (b: bool)
        ensures
            b == (self@ == other@),
    {
        match (self, other) {
            (PlayableId::Track(a), PlayableId::Track(b)) => *a == *b,
            (PlayableId::Episode(a), PlayableId::Episode(b)) => *a == *b,
            _ => false,
        }
    }
}

/// An artist of a track.
#[derive(Debug, PartialEq, Eq)]
pub struct SimplifiedArtist {
    pub name: String,
}

impl View for SimplifiedArtist {
    type V = Seq<char>;

    open spec fn view(&self) -> Seq<char> {
        self.name@
    }
}

impl Clone for SimplifiedArtist {
    fn clone(&self) -> (c: SimplifiedArtist)
        ensures
            c == *self,
    {
        SimplifiedArtist { name: self.name.clone() }
    }
}

/// A track. A local file is a track without an ID.
#[derive(Debug, PartialEq, Eq)]
pub struct FullTrack {
    pub id: Option<String>,
    pub name: String,
    pub artists: Vec<SimplifiedArtist>,
    pub duration: TimeDelta,
}

/// The contents of a [`FullTrack`].
pub struct FullTrackView {
    pub id: Option<Seq<char>>,
    pub name: Seq<char>,
    pub artists: Seq<Seq<char>>,
    pub duration: int,
}

impl View for FullTrack {
    type V = FullTrackView;

    open spec fn view(&self) -> FullTrackView {
        FullTrackView {
            id: text(self.id),
            name: self.name@,
            artists: self.artists@.map_values(|a: SimplifiedArtist| a@),
            duration: self.duration@,
        }
    }
}

impl Clone for FullTrack {
    fn clone(&self) -> (c: FullTrack)
        ensures
            c@ == self@,
    {
        let artists = self.artists.clone();
        assert(artists@.map_values(|a: SimplifiedArtist| a@) =~= self.artists@.map_values(
            |a: SimplifiedArtist| a@,
        ));
        FullTrack {
            id: self.id.clone(),
            name: self.name.clone(),
            artists,
            duration: self.duration,
        }
    }
}

/// An episode of a show.
#[derive(Debug, PartialEq, Eq)]
pub struct FullEpisode {
    pub id: String,
    pub duration: TimeDelta,
}

/// The contents of a [`FullEpisode`].
pub struct FullEpisodeView {
    pub id: Seq<char>,
    pub duration: int,
}

impl View for FullEpisode {
    type V = FullEpisodeView;

    open spec fn view(&self) -> FullEpisodeView {
        FullEpisodeView { id: self.id@, duration: self.duration@ }
    }
}

impl Clone for FullEpisode {
    fn clone(&self) -> (c: FullEpisode)
        ensures
            c == *self,
    {
        FullEpisode { id: self.id.clone(), duration: self.duration }
    }
}

/// Something that is played or waits in the queue. An item of neither known
/// kind has at most an ID.
#[derive(Debug, PartialEq, Eq)]
pub enum PlayableItem {
    Track(FullTrack),
    Episode(FullEpisode),
    Unknown(Option<PlayableId>),
}

/// The contents of a [`PlayableItem`].
pub enum PlayableItemView {
    Track(FullTrackView),
    Episode(FullEpisodeView),
    Unknown(Option<PlayableIdView>),
}

impl View for PlayableItem {
    type V = PlayableItemView;

    open spec fn view(&self) -> PlayableItemView {
        match *self {
            PlayableItem::Track(t) => PlayableItemView::Track(t@),
            PlayableItem::Episode(e) => PlayableItemView::Episode(e@),
            PlayableItem::Unknown(Some(id)) => PlayableItemView::Unknown(Some(id@)),
            PlayableItem::Unknown(None) => PlayableItemView::Unknown(None),
        }
    }
}

impl PlayableItemView {
    /// The item's ID, where it has one.
    pub open spec fn id(self) -> Option<PlayableIdView> {
        match self {
            PlayableItemView::Track(t) => match t.id {
                Some(id) => Some(PlayableIdView::Track(id)),
                None => None,
            },
            PlayableItemView::Episode(e) => Some(PlayableIdView::Episode(e.id)),
            PlayableItemView::Unknown(id) => id,
        }
    }
}

impl Clone for PlayableItem {
    fn clone(&self) -> (c: PlayableItem)
        ensures
            c@ == self@,
    {
        match self {
            PlayableItem::Track(t) => PlayableItem::Track(t.clone()),
            PlayableItem::Episode(e) => PlayableItem::Episode(e.clone()),
            PlayableItem::Unknown(Some(id)) => PlayableItem::Unknown(Some(id.clone())),
            PlayableItem::Unknown(None) => PlayableItem::Unknown(None),
        }
    }
}

impl PlayableItem {
    /// The item's ID, where it has one.
    pub fn id(&self) -> (id: Option<PlayableId>)
        ensures
            match id {
                Some(id) => self@.id() == Some(id@),
                None => self@.id() is None,
            },
    {
        match self {
            PlayableItem::Track(t) => match &t.id {
                Some(id) => Some(PlayableId::Track(id.clone())),
                None => None,
            },
            PlayableItem::Episode(e) => Some(PlayableId::Episode(e.id.clone())),
            PlayableItem::Unknown(Some(id)) => Some(id.clone()),
            PlayableItem::Unknown(None) => None,
        }
    }
}

/// A playing context as the playback API reports it. Its URI may be of any
/// type.
#[derive(Debug, PartialEq, Eq)]
pub struct Context {
    pub uri: String,
    pub _type: Type,
}

impl Clone for Context {
    fn clone(&self) -> (c: Context)
        ensures
            c == *self,
    {
        Context { uri: self.uri.clone(), _type: self._type }
    }
}

/// The device that playback runs on, as the playback API reports it.
#[derive(Debug, PartialEq, Eq)]
pub struct PlaybackDevice {
    pub id: Option<String>,
    pub name: String,
    pub volume_percent: Option<u32>,
}

impl Clone for PlaybackDevice {
    fn clone(&self) -> (c: PlaybackDevice)
        ensures
            c == *self,
    {
        PlaybackDevice {
            id: self.id.clone(),
            name: self.name.clone(),
            volume_percent: self.volume_percent,
        }
    }
}

/// A snapshot of the playback, as the playback API reports it. `X` is what else
/// it reports, of the device, of the context and of the item too.
#[derive(Debug, PartialEq, Eq)]
pub struct CurrentPlaybackContext<X> {
    pub device: PlaybackDevice,
    pub repeat_state: RepeatState,
    pub shuffle_state: bool,
    pub context: Option<Context>,
    pub progress: Option<TimeDelta>,
    pub is_playing: bool,
    pub item: Option<PlayableItem>,
    pub rest: X,
}

/// The contents of a [`CurrentPlaybackContext`].
pub struct PlaybackView<X> {
    pub device_id: Option<Seq<char>>,
    pub device_name: Seq<char>,
    pub volume_percent: Option<u32>,
    pub repeat_state: RepeatState,
    pub shuffle_state: bool,
    pub context: Option<(Seq<char>, Type)>,
    pub progress: Option<int>,
    pub is_playing: bool,
    pub item: Option<PlayableItemView>,
    pub rest: X,
}

/// The nanoseconds of a duration that may be absent.
pub open spec fn nanos(d: Option<TimeDelta>) -> Option<int> {
    match d {
        Some(d) => Some(d@),
        None => None,
    }
}

impl<X> View for CurrentPlaybackContext<X> {
    type V = PlaybackView<X>;

    open spec fn view(&self) -> PlaybackView<X> {
        PlaybackView {
            device_id: text(self.device.id),
            device_name: self.device.name@,
            volume_percent: self.device.volume_percent,
            repeat_state: self.repeat_state,
            shuffle_state: self.shuffle_state,
            context: match self.context {
                Some(c) => Some((c.uri@, c._type)),
                None => None,
            },
            progress: nanos(self.progress),
            is_playing: self.is_playing,
            item: match self.item {
                Some(item) => Some(item@),
                None => None,
            },
            rest: self.rest,
        }
    }
}

impl<X: Clone> Clone for CurrentPlaybackContext<X> {
    fn clone(&self) -> (c: CurrentPlaybackContext<X>)
        ensures
            cloned(self.rest, c.rest),
            c@ == (PlaybackView { rest: c.rest, ..self@ }),
    {
        let context = match &self.context {
            Some(c) => Some(c.clone()),
            None => None,
        };
        let item = match &self.item {
            Some(item) => Some(item.clone()),
            None => None,
        };
        CurrentPlaybackContext {
            device: self.device.clone(),
            repeat_state: self.repeat_state,
            shuffle_state: self.shuffle_state,
            context,
            progress: self.progress,
            is_playing: self.is_playing,
            item,
            rest: self.rest.clone(),
        }
    }
}

/// The user's queue, as the playback API reports it.
#[derive(Debug, PartialEq, Eq)]
pub struct CurrentUserQueue {
    pub currently_playing: Option<PlayableItem>,
    pub queue: Vec<PlayableItem>,
}

/// The part of the playback that the user controls, as far as it is known
/// without asking the playback API.
#[derive(Debug, PartialEq, Eq)]
pub struct PlaybackMetadata {
    pub device_name: String,
    pub device_id: Option<String>,
    pub volume: Option<u32>,
    pub is_playing: bool,
    pub repeat_state: RepeatState,
    pub shuffle_state: bool,
    pub mute_state: Option<u32>,
}

/// The queue of the integrated player, with the context that it was made from.
#[derive(Debug, PartialEq, Eq)]
pub struct CustomQueue {
    pub source_context: Option<ContextId>,
}

impl CustomQueue {
    /// The context that the queue was made from.
    pub fn source_context(&self) -> (id: Option<&ContextId>)
        ensures
            match id {
                Some(id) => self.source_context == Some(*id),
                None => self.source_context is None,
            },
    {
        match &self.source_context {
            Some(id) => Some(id),
            None => None,
        }
    }
}

} // verus!
