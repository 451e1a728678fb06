//! Spotify IDs and URIs.

use vstd::prelude::*;
use vstd::string::*;

verus! {

/// The text of a string that may be absent.
pub open spec fn text(s: Option<String>) -> Option<Seq<char>> {
    match s {
        Some(s) => Some(s@),
        None => None,
    }
}

/// Whether two strings that may be absent hold the same text.
pub fn same_text(a: &Option<String>, b: &Option<String>) -> (same: bool)
    ensures
        same == (text(*a) == text(*b)),
{
    match (a, b) {
        (Some(a), Some(b)) => *a == *b,
        (None, None) => true,
        _ => false,
    }
}

pub open spec fn is_ascii_alphanumeric(c: char) -> bool {
    ('0' <= c && c <= '9') || ('A' <= c && c <= 'Z') || ('a' <= c && c <= 'z')
}

/// Whether `id` is made of ASCII letters and digits alone, as the IDs of
/// everything that can be played are.
pub open spec fn is_valid_id(id: Seq<char>) -> bool {
    forall|i: int| 0 <= i < id.len() ==> is_ascii_alphanumeric(#[trigger] id[i])
}

/// The URI of the object of type `kind` with the given ID:
/// `spotify:{kind}:{id}`.
pub open spec fn uri_of(kind: Seq<char>, id: Seq<char>) -> Seq<char> {
    "spotify:"@ + kind + ":"@ + id
}

/// What follows `prefix` in `s`, where `s` starts with it.
pub open spec fn after(prefix: Seq<char>, s: Seq<char>) -> Option<Seq<char>> {
    if prefix.len() <= s.len() && s.take(prefix.len() as int) == prefix {
        Some(s.skip(prefix.len() as int))
    } else {
        None
    }
}

/// The ID in `uri`, where `uri` has the form `spotify:{kind}:{id}` or
/// `spotify/{kind}/{id}` with a valid ID.
pub open spec fn id_in_uri(kind: Seq<char>, uri: Seq<char>) -> Option<Seq<char>> {
    let colons = after("spotify:"@ + kind + ":"@, uri);
    let slashes = after("spotify/"@ + kind + "/"@, uri);
    if colons is Some && is_valid_id(colons->0) {
        colons
    } else if slashes is Some && is_valid_id(slashes->0) {
        slashes
    } else {
        None
    }
}

/// `rspotify::model::PlaylistId::from_uri`: the ID in a playlist's URI. It
/// fails on everything that is no URI of a playlist.
#[verifier::external_body]
pub(crate) fn playlist_id_from_uri(uri: &str) -> (id: Option<String>)
    ensures
        text(id) == id_in_uri("playlist"@, uri@),
{
    match rspotify::model::PlaylistId::from_uri(uri) {
        Ok(id) => Some(rspotify::model::Id::id(&id).to_string()),
        Err(_) => None,
    }
}

/// `rspotify::model::AlbumId::from_uri`: the ID in an album's URI. It fails on
/// everything that is no URI of an album.
#[verifier::external_body]
pub(crate) fn album_id_from_uri(uri: &str) -> (id: Option<String>)
    ensures
        text(id) == id_in_uri("album"@, uri@),
{
    match rspotify::model::AlbumId::from_uri(uri) {
        Ok(id) => Some(rspotify::model::Id::id(&id).to_string()),
        Err(_) => None,
    }
}

/// `rspotify::model::ArtistId::from_uri`: the ID in an artist's URI. It fails
/// on everything that is no URI of an artist.
#[verifier::external_body]
pub(crate) fn artist_id_from_uri(uri: &str) -> (id: Option<String>)
    ensures
        text(id) == id_in_uri("artist"@, uri@),
{
    match rspotify::model::ArtistId::from_uri(uri) {
        Ok(id) => Some(rspotify::model::Id::id(&id).to_string()),
        Err(_) => None,
    }
}

/// `rspotify::model::ShowId::from_uri`: the ID in a show's URI. It fails on
/// everything that is no URI of a show.
#[verifier::external_body]
pub(crate) fn show_id_from_uri(uri: &str) -> (id: Option<String>)
    ensures
        text(id) == id_in_uri("show"@, uri@),
{
    match rspotify::model::ShowId::from_uri(uri) {
        Ok(id) => Some(rspotify::model::Id::id(&id).to_string()),
        Err(_) => None,
    }
}

/// The URI of an object of type `kind`.
pub(crate) fn uri(kind: &str, id: &String) -> (uri: String)
    ensures
        uri@ == uri_of(kind@, id@),
{
    let mut uri = "spotify:".to_owned();
    uri.append(kind);
    uri.append(":");
    uri.append(id.as_str());
    uri
}

} // verus!
