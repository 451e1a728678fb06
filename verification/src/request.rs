//! The requests that the client works on.

use crate::model::{ContextId, ContextIdView};
use vstd::prelude::*;

verus! {

/// A command to the player. `P` is what the other commands carry.
#[derive(Debug, PartialEq, Eq)]
pub enum PlayerRequest<P> {
    /// Set the volume, in percent.
    Volume(u8),
    Other(P),
}

/// A request to the client. `R` is what the other requests carry.
#[derive(Debug, PartialEq, Eq)]
pub enum ClientRequest<P, R> {
    GetCurrentPlayback,
    GetCurrentUserQueue,
    GetContext(ContextId),
    GetLyrics { track_id: String },
    Player(PlayerRequest<P>),
    Other(R),
}

/// The contents of a [`ClientRequest`].
pub enum ClientRequestView<P, R> {
    GetCurrentPlayback,
    GetCurrentUserQueue,
    GetContext(ContextIdView),
    GetLyrics { track_id: Seq<char> },
    Player(PlayerRequest<P>),
    Other(R),
}

impl<P, R> View for ClientRequest<P, R> {
    type V = ClientRequestView<P, R>;

    open spec fn view(&self) -> ClientRequestView<P, R> {
        match *self {
            ClientRequest::GetCurrentPlayback => ClientRequestView::GetCurrentPlayback,
            ClientRequest::GetCurrentUserQueue => ClientRequestView::GetCurrentUserQueue,
            ClientRequest::GetContext(id) => ClientRequestView::GetContext(id@),
            ClientRequest::GetLyrics { track_id } => ClientRequestView::GetLyrics {
                track_id: track_id@,
            },
            ClientRequest::Player(request) => ClientRequestView::Player(request),
            ClientRequest::Other(request) => ClientRequestView::Other(request),
        }
    }
}

} // verus!
