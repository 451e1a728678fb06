//! The player's state: the last snapshot of the playback, and what the user has
//! asked for since.

use crate::ids::{
    album_id_from_uri, artist_id_from_uri, id_in_uri, playlist_id_from_uri, same_text,
    show_id_from_uri, text,
};
use crate::model::{
    context_view, nanos, Context, ContextId, ContextIdView, CurrentPlaybackContext,
    CurrentUserQueue, CustomQueue, Device, PlayableItem, PlayableItemView, PlaybackMetadata,
    PlaybackView, TracksId, Type,
};
use crate::time::{
    from_std, passed, read, read_clock, time_since, Elapsed, TimeDelta, MAX_DELTA_NANOS,
};
use std::time::Instant;
use vstd::prelude::*;

verus! {

/// For how long a volume that the user has asked for outweighs the volume that
/// the playback API reports, in seconds.
pub const PENDING_VOLUME_SECS: u64 = 2;

/// A volume that the user has asked for.
#[derive(Debug)]
pub struct PendingVolume {
    pub volume: u8,
    /// The device that played when the user asked.
    pub device_id: Option<String>,
    pub requested_at: Instant,
}

/// Player state. `X` is what a snapshot of the playback reports beyond what the
/// player reads.
#[derive(Debug)]
pub struct PlayerState<X> {
    pub devices: Vec<Device>,
    pub pending_volume: Option<PendingVolume>,
    pub playback: Option<CurrentPlaybackContext<X>>,
    pub playback_last_updated_time: Option<Instant>,
    /// A buffered state to speedup the feedback of playback metadata update to user
    pub buffered_playback: Option<PlaybackMetadata>,
    pub queue: Option<CurrentUserQueue>,
    /// The currently playing Tracks context (for contexts not tracked by
    /// Spotify's playback, e.g. liked/top tracks)
    pub currently_playing_tracks_id: Option<TracksId>,
    /// App-managed custom queue for full playlist/album playback.
    pub custom_queue: Option<CustomQueue>,
}

impl<X> Default for PlayerState<X> {
    fn default() -> (p: PlayerState<X>)
        ensures
            p.devices@ == Seq::<Device>::empty(),
            p.pending_volume is None,
            p.playback is None,
            p.playback_last_updated_time is None,
            p.buffered_playback is None,
            p.queue is None,
            p.currently_playing_tracks_id is None,
            p.custom_queue is None,
    {
        PlayerState {
            devices: Vec::new(),
            pending_volume: None,
            playback: None,
            playback_last_updated_time: None,
            buffered_playback: None,
            queue: None,
            currently_playing_tracks_id: None,
            custom_queue: None,
        }
    }
}

/// A volume moved by `offset`, kept between 0 and 100.
pub open spec fn moved_volume(volume: u32, offset: i32) -> int {
    let moved = volume + offset;
    if moved < 0 {
        0
    } else if moved > 100 {
        100
    } else {
        moved
    }
}

/// An estimate of the progress, as far as it can be told as a duration.
pub open spec fn in_bounds(progress: Option<int>) -> Option<int> {
    match progress {
        Some(n) if n <= MAX_DELTA_NANOS => Some(n),
        _ => None,
    }
}

/// A snapshot of the playback with another progress, and with the device and
/// the settings that the user has asked for since.
pub open spec fn overlaid<X>(
    snapshot: PlaybackView<X>,
    buffered: Option<PlaybackMetadata>,
    progress: Option<int>,
) -> PlaybackView<X> {
    match buffered {
        Some(p) => PlaybackView {
            device_name: p.device_name@,
            device_id: text(p.device_id),
            is_playing: p.is_playing,
            volume_percent: p.volume,
            repeat_state: p.repeat_state,
            shuffle_state: p.shuffle_state,
            progress,
            ..snapshot
        },
        None => PlaybackView { progress, ..snapshot },
    }
}

/// Whether `shown` is `snapshot` overlaid with `buffered` and `progress`, with
/// all else that the snapshot reports.
pub open spec fn shows<X: Clone>(
    shown: CurrentPlaybackContext<X>,
    snapshot: CurrentPlaybackContext<X>,
    buffered: Option<PlaybackMetadata>,
    progress: Option<int>,
) -> bool {
    &&& cloned(snapshot.rest, shown.rest)
    &&& shown@ == overlaid(
        PlaybackView { rest: shown.rest, ..snapshot@ },
        buffered,
        progress,
    )
}

/// The context of type `kind` whose URI is `uri`.
pub open spec fn context_in_uri(kind: Type, uri: Seq<char>) -> Option<ContextIdView> {
    match kind {
        Type::Playlist => match id_in_uri("playlist"@, uri) {
            Some(id) => Some(ContextIdView::Playlist(id)),
            None => None,
        },
        Type::Album => match id_in_uri("album"@, uri) {
            Some(id) => Some(ContextIdView::Album(id)),
            None => None,
        },
        Type::Artist => match id_in_uri("artist"@, uri) {
            Some(id) => Some(ContextIdView::Artist(id)),
            None => None,
        },
        Type::Show => match id_in_uri("show"@, uri) {
            Some(id) => Some(ContextIdView::Show(id)),
            None => None,
        },
        _ => None,
    }
}

impl<X> PlayerState<X> {
    /// The context that the snapshot reports.
    pub open spec fn snapshot_context(self) -> Option<Context> {
        match self.playback {
            Some(playback) => playback.context,
            None => None,
        }
    }

    /// What is being played, according to the snapshot.
    pub open spec fn playing_item(self) -> Option<PlayableItemView> {
        match self.playback {
            Some(playback) => match playback.item {
                Some(item) => Some(item@),
                None => None,
            },
            None => None,
        }
    }

    /// The volume that a change by `offset` asks for: none where the volume is
    /// not known, or is that volume already.
    pub open spec fn requested_volume(self, offset: i32) -> Option<u8> {
        match self.buffered_playback {
            Some(p) => match p.volume {
                Some(v) if moved_volume(v, offset) != v => Some(moved_volume(v, offset) as u8),
                _ => None,
            },
            None => None,
        }
    }

    /// The state in which `volume` has been asked for at `now`: the volume
    /// shown is the new one, nothing is muted, and the request is remembered
    /// together with the device.
    pub open spec fn with_pending_volume(self, volume: u8, now: Instant) -> PlayerState<X> {
        let p = self.buffered_playback->0;
        PlayerState {
            pending_volume: Some(
                PendingVolume { volume, device_id: p.device_id, requested_at: now },
            ),
            buffered_playback: Some(
                PlaybackMetadata { volume: Some(volume as u32), mute_state: None, ..p },
            ),
            ..self
        }
    }

    /// Moves the volume by `offset` percent, at the time `now`. Returns the
    /// volume to ask for, if it is another one than before.
    pub fn change_volume_at(&mut self, offset: i32, now: Instant) -> (volume: Option<u8>)
        ensures
            volume == old(self).requested_volume(offset),
            *final(self) == match volume {
                Some(v) => old(self).with_pending_volume(v, now),
                None => *old(self),
            },
    {
        let playback = match &mut self.buffered_playback {
            Some(playback) => playback,
            None => return None,
        };
        let current: u32 = match playback.volume {
            Some(volume) => volume,
            None => return None,
        };
        let moved: i64 = (current as i64) + (offset as i64);
        let volume: u8 = if moved < 0 {
            0
        } else if moved > 100 {
            100
        } else {
            moved as u8
        };
        if current == volume as u32 {
            return None;
        }
        playback.volume = Some(volume as u32);
        playback.mute_state = None;
        let device_id = playback.device_id.clone();
        self.pending_volume = Some(PendingVolume { volume, device_id, requested_at: now });
        Some(volume)
    }

    /// Moves the volume by `offset` percent, now. Returns the volume to ask
    /// for, if it is another one than before.
    pub fn change_volume(&mut self, offset: i32) -> (volume: Option<u8>)
        ensures
            volume == old(self).requested_volume(offset),
            volume is None ==> *final(self) == *old(self),
            volume matches Some(v) ==> exists|now: Instant|
                read(now) && *final(self) == #[trigger] old(self).with_pending_volume(v, now),
    {
        self.change_volume_at(offset, read_clock())
    }

    /// The state after a new report of the playback, where the volume that the
    /// user has asked for was asked for `elapsed` nanoseconds ago. The request
    /// outweighs the report for a while, on the device that it was meant for.
    pub open spec fn reconciled(self, elapsed: nat) -> PlayerState<X> {
        match (self.pending_volume, self.buffered_playback) {
            (Some(pending), Some(playback)) => {
                if text(playback.device_id) != text(pending.device_id) || elapsed
                    >= PENDING_VOLUME_SECS * 1_000_000_000 {
                    PlayerState { pending_volume: None, ..self }
                } else {
                    PlayerState {
                        buffered_playback: Some(
                            PlaybackMetadata { volume: Some(pending.volume as u32), ..playback },
                        ),
                        ..self
                    }
                }
            },
            _ => self,
        }
    }

    /// Weighs the volume that the user has asked for, `elapsed` ago, against
    /// the volume that has just been reported.
    pub fn reconcile_pending_volume_after(&mut self, elapsed: Elapsed)
        ensures
            *final(self) == old(self).reconciled(elapsed@),
    {
        let limit = Elapsed::from_secs(PENDING_VOLUME_SECS);
        let pending = match &self.pending_volume {
            Some(pending) => pending,
            None => return ,
        };
        let playback = match &mut self.buffered_playback {
            Some(playback) => playback,
            None => return ,
        };
        if !same_text(&playback.device_id, &pending.device_id) || elapsed.at_least(&limit) {
            self.pending_volume = None;
        } else {
            playback.volume = Some(pending.volume as u32);
        }
    }

    /// Weighs the volume that the user has asked for against the volume that
    /// has just been reported.
    pub fn reconcile_pending_volume(&mut self)
        ensures
            exists|elapsed: nat|
                (old(self).pending_volume matches Some(pending) ==> passed(
                    pending.requested_at,
                    elapsed,
                )) && *final(self) == #[trigger] old(self).reconciled(elapsed),
    {
        let elapsed = match &self.pending_volume {
            Some(pending) => time_since(&pending.requested_at),
            None => Elapsed::zero(),
        };
        self.reconcile_pending_volume_after(elapsed);
    }

    /// Whether the playback runs. What the user has asked for outweighs what
    /// the snapshot says.
    pub open spec fn runs(self) -> bool {
        match (self.buffered_playback, self.playback) {
            (Some(p), _) => p.is_playing,
            (None, Some(p)) => p.is_playing,
            (None, None) => false,
        }
    }

    /// Whether the clock gives `elapsed` nanoseconds as the time since the
    /// snapshot was taken, where that time is known.
    pub open spec fn snapshot_age(self, elapsed: nat) -> bool {
        self.playback_last_updated_time matches Some(t) ==> passed(t, elapsed)
    }

    /// The estimated progress in nanoseconds, where the snapshot was taken
    /// `elapsed` nanoseconds ago: the progress of the snapshot, and the time
    /// since then while the playback runs. A time that is too long for a
    /// duration, or not known, counts as none.
    pub open spec fn progress_after(self, elapsed: nat) -> Option<int> {
        match self.playback {
            Some(playback) => match playback.progress {
                Some(progress) => {
                    if self.runs() && self.playback_last_updated_time is Some && elapsed
                        <= MAX_DELTA_NANOS {
                        Some(progress@ + elapsed)
                    } else {
                        Some(progress@)
                    }
                },
                None => None,
            },
            None => None,
        }
    }

    /// By how much the progress has moved on, where the snapshot was taken
    /// `elapsed` ago.
    fn time_played(&self, elapsed: &Elapsed) -> (played: TimeDelta)
        ensures
            played@ == if self.runs() && self.playback_last_updated_time is Some && elapsed@
                <= MAX_DELTA_NANOS {
                elapsed@ as int
            } else {
                0
            },
    {
        let is_playing = match (&self.buffered_playback, &self.playback) {
            (Some(p), _) => p.is_playing,
            (None, Some(p)) => p.is_playing,
            (None, None) => false,
        };
        if !is_playing || self.playback_last_updated_time.is_none() {
            return TimeDelta::zero();
        }
        match from_std(elapsed) {
            Some(played) => played,
            None => TimeDelta::zero(),
        }
    }

    /// The estimated progress, where the snapshot was taken `elapsed` ago.
    pub fn playback_progress_after(&self, elapsed: Elapsed) -> (progress: Option<TimeDelta>)
        requires
            self.progress_after(elapsed@) matches Some(n) ==> n <= MAX_DELTA_NANOS,
        ensures
            nanos(progress) == self.progress_after(elapsed@),
    {
        let playback = match &self.playback {
            Some(playback) => playback,
            None => return None,
        };
        let progress = match playback.progress {
            Some(progress) => progress,
            None => return None,
        };
        proof {
            use_type_invariant(&progress);
            progress.lemma_bounds();
        }
        Some(progress.plus(&self.time_played(&elapsed)))
    }

    /// Whether the estimated progress can be told as a duration, where the
    /// snapshot was taken `elapsed` ago.
    fn progress_fits(&self, elapsed: &Elapsed) -> (fits: bool)
        ensures
            fits == (self.progress_after(elapsed@) matches Some(n) ==> n <= MAX_DELTA_NANOS),
    {
        let playback = match &self.playback {
            Some(playback) => playback,
            None => return true,
        };
        let progress: i128 = match playback.progress {
            Some(progress) => progress.num_nanoseconds(),
            None => return true,
        };
        let played: i128 = self.time_played(elapsed).num_nanoseconds();
        progress + played <= MAX_DELTA_NANOS
    }

    /// The estimated progress. There is none where the snapshot has none, or
    /// where the estimate is too long for a duration.
    pub fn playback_progress(&self) -> (progress: Option<TimeDelta>)
        ensures
            exists|elapsed: nat|
                self.snapshot_age(elapsed) && nanos(progress) == in_bounds(
                    #[trigger] self.progress_after(elapsed),
                ),
    {
        let elapsed = match &self.playback_last_updated_time {
            Some(t) => time_since(t),
            None => Elapsed::zero(),
        };
        if self.progress_fits(&elapsed) {
            self.playback_progress_after(elapsed)
        } else {
            None
        }
    }

    /// What is being played.
    pub fn currently_playing(&self) -> (item: Option<&PlayableItem>)
        ensures
            match item {
                Some(item) => self.playback matches Some(p) && p.item == Some(*item),
                None => self.playback matches Some(p) ==> p.item is None,
            },
    {
        match &self.playback {
            Some(playback) => match &playback.item {
                Some(item) => Some(item),
                None => None,
            },
            None => None,
        }
    }

    /// What is played from, where `uri` is the parsed URI of the context of the
    /// snapshot. A snapshot without a context tells nothing: then it is what
    /// the custom queue was made from, else the list of tracks that was
    /// started.
    pub open spec fn playing_context(self, uri: Seq<char>) -> Option<ContextIdView> {
        match self.playback {
            Some(playback) => match playback.context {
                Some(context) => context_in_uri(context._type, uri),
                None => {
                    if self.custom_queue is Some && self.custom_queue->0.source_context is Some {
                        Some(self.custom_queue->0.source_context->0@)
                    } else {
                        match self.currently_playing_tracks_id {
                            Some(id) => Some(ContextIdView::Tracks(id@)),
                            None => None,
                        }
                    }
                },
            },
            None => None,
        }
    }

    /// Whether `parse_uri` takes the URI of the snapshot's context.
    pub open spec fn can_parse<F: Fn(&String) -> String>(self, parse_uri: F) -> bool {
        self.snapshot_context() matches Some(context) ==> parse_uri.requires((&context.uri,))
    }

    /// Whether `id` is what is played from, where `parse_uri` parses the URI of
    /// the snapshot's context.
    pub open spec fn plays_from<F: Fn(&String) -> String>(
        self,
        parse_uri: F,
        id: Option<ContextIdView>,
    ) -> bool {
        match self.snapshot_context() {
            Some(context) => exists|uri: String|
                #[trigger] parse_uri.ensures((&context.uri,), uri) && id == self.playing_context(
                    uri@,
                ),
            None => id == self.playing_context(Seq::empty()),
        }
    }

    /// What is played from, where `uri` is the parsed URI of the context of the
    /// snapshot.
    pub fn playing_context_id_in(&self, uri: &String) -> (id: Option<ContextId>)
        ensures
            context_view(id) == self.playing_context(uri@),
    {
        let playback = match &self.playback {
            Some(playback) => playback,
            None => return None,
        };
        let context = match &playback.context {
            Some(context) => context,
            None => return self.local_context_id(),
        };
        match context._type {
            Type::Playlist => match playlist_id_from_uri(uri.as_str()) {
                Some(id) => Some(ContextId::Playlist(id)),
                None => None,
            },
            Type::Album => match album_id_from_uri(uri.as_str()) {
                Some(id) => Some(ContextId::Album(id)),
                None => None,
            },
            Type::Artist => match artist_id_from_uri(uri.as_str()) {
                Some(id) => Some(ContextId::Artist(id)),
                None => None,
            },
            Type::Show => match show_id_from_uri(uri.as_str()) {
                Some(id) => Some(ContextId::Show(id)),
                None => None,
            },
            _ => None,
        }
    }

    /// What is played from as far as this player knows by itself: what the
    /// custom queue was made from, else the list of tracks that was started.
    fn local_context_id(&self) -> (id: Option<ContextId>)
        ensures
            context_view(id) == if self.custom_queue is Some
                && self.custom_queue->0.source_context is Some {
                Some(self.custom_queue->0.source_context->0@)
            } else {
                match self.currently_playing_tracks_id {
                    Some(id) => Some(ContextIdView::Tracks(id@)),
                    None => None,
                }
            },
    {
        if let Some(queue) = &self.custom_queue {
            if let Some(id) = queue.source_context() {
                return Some(id.clone());
            }
        }
        match &self.currently_playing_tracks_id {
            Some(id) => Some(ContextId::Tracks(id.clone())),
            None => None,
        }
    }

    /// What is played from. `parse_uri` brings the URI of the snapshot's
    /// context into the form of an ID's URI.
    pub fn playing_context_id<F: Fn(&String) -> String>(&self, parse_uri: F) -> (id: Option<
        ContextId,
    >)
        requires
            self.can_parse(parse_uri),
        ensures
            self.plays_from(parse_uri, context_view(id)),
    {
        if let Some(playback) = &self.playback {
            if let Some(context) = &playback.context {
                let uri = parse_uri(&context.uri);
                return self.playing_context_id_in(&uri);
            }
        }
        let none = String::new();
        self.playing_context_id_in(&none)
    }
}

impl<X: Clone> PlayerState<X> {
    /// The current playback, with the given estimate of its progress: the
    /// snapshot, overlaid with what the user has asked for since.
    pub fn current_playback_with(&self, progress: Option<TimeDelta>) -> (playback: Option<
        CurrentPlaybackContext<X>,
    >)
        ensures
            match self.playback {
                Some(snapshot) => playback matches Some(p) && shows(
                    p,
                    snapshot,
                    self.buffered_playback,
                    nanos(progress),
                ),
                None => playback is None,
            },
    {
        let mut playback = match &self.playback {
            Some(playback) => playback.clone(),
            None => return None,
        };
        playback.progress = progress;
        if let Some(p) = &self.buffered_playback {
            playback.device.name = p.device_name.clone();
            playback.device.id = p.device_id.clone();
            playback.is_playing = p.is_playing;
            playback.device.volume_percent = p.volume;
            playback.repeat_state = p.repeat_state;
            playback.shuffle_state = p.shuffle_state;
        }
        Some(playback)
    }

    /// Get the current playback
    ///
    /// # Note
    /// Because playback metadata stored inside the player state is buffered,
    /// the returned playback is estimated based on the available data.
    pub fn current_playback(&self) -> (playback: Option<CurrentPlaybackContext<X>>)
        ensures
            match self.playback {
                Some(snapshot) => playback matches Some(p) && exists|elapsed: nat|
                    self.snapshot_age(elapsed) && shows(
                        p,
                        snapshot,
                        self.buffered_playback,
                        in_bounds(#[trigger] self.progress_after(elapsed)),
                    ),
                None => playback is None,
            },
    {
        self.current_playback_with(self.playback_progress())
    }
}

} // verus!
