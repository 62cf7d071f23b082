//! Requests to the query worker and their state.
use vstd::prelude::*;

use crate::compid::CompID;
use crate::media::{Media, MediaID, PlaylistID};

verus! {

/// Which playlist to fetch.
#[derive(Clone, Debug)]
pub struct GetPlaylistParams {
    pub name: String,
    pub id: PlaylistID,
}

/// What to search lyrics for.
#[derive(Clone, Debug)]
pub struct GetLyricsParams {
    pub track_name: String,
    pub artist_name: Option<String>,
    pub album_name: Option<String>,
    /// Length in seconds.
    pub length: Option<u32>,
}

/// Changes to make to a playlist.
#[derive(Clone, Debug)]
pub struct UpdatePlaylistParams {
    pub playlist_id: PlaylistID,
    pub name: Option<String>,
    pub comment: Option<String>,
    pub public: Option<bool>,
    pub song_id_to_add: Option<Vec<MediaID>>,
    pub song_index_to_remove: Option<Vec<u32>>,
}

/// Password credentials to log in with.
#[derive(Clone, Debug)]
pub struct PasswordCredential {
    pub url: String,
    pub secure: bool,
    pub username: String,
    pub password: String,
    /// Send the password as it is rather than salted and hashed.
    pub legacy: bool,
}

/// A request to the query worker.
#[derive(Clone, Debug)]
pub enum HighLevelQuery {
    CheckCredentialValidity,
    SetCredential(PasswordCredential),
    ListPlaylists,
    /// List playlists for the playlist picker; the flag forces a refetch.
    ListPlaylistsPopup(bool),
    SelectPlaylist(GetPlaylistParams),
    AddPlaylistToQueue(GetPlaylistParams),
    PlayMusicFromURL(Media),
    SetStar { media: MediaID, star: bool },
    GetCover(String),
    GetLyrics(GetLyricsParams),
    UpdatePlaylist(UpdatePlaylistParams),
}

/// The variant of a request, as a number (requests of the same variant supersede each other
/// in the delayer).
pub open spec fn query_kind(q: HighLevelQuery) -> nat {
    match q {
        HighLevelQuery::CheckCredentialValidity => 0,
        HighLevelQuery::SetCredential(_) => 1,
        HighLevelQuery::ListPlaylists => 2,
        HighLevelQuery::ListPlaylistsPopup(_) => 3,
        HighLevelQuery::SelectPlaylist(_) => 4,
        HighLevelQuery::AddPlaylistToQueue(_) => 5,
        HighLevelQuery::PlayMusicFromURL(_) => 6,
        HighLevelQuery::SetStar { .. } => 7,
        HighLevelQuery::GetCover(_) => 8,
        HighLevelQuery::GetLyrics(_) => 9,
        HighLevelQuery::UpdatePlaylist(_) => 10,
    }
}

impl HighLevelQuery {
    /// The variant of the request, as a number.
    pub fn kind(&self) -> (k: u8)
        ensures
            k == query_kind(*self),
    {
        match self {
            HighLevelQuery::CheckCredentialValidity => 0,
            HighLevelQuery::SetCredential(_) => 1,
            HighLevelQuery::ListPlaylists => 2,
            HighLevelQuery::ListPlaylistsPopup(_) => 3,
            HighLevelQuery::SelectPlaylist(_) => 4,
            HighLevelQuery::AddPlaylistToQueue(_) => 5,
            HighLevelQuery::PlayMusicFromURL(_) => 6,
            HighLevelQuery::SetStar { .. } => 7,
            HighLevelQuery::GetCover(_) => 8,
            HighLevelQuery::GetLyrics(_) => 9,
            HighLevelQuery::UpdatePlaylist(_) => 10,
        }
    }
}

/// A request with the ticket that identifies it and the components its response is for.
#[derive(Clone, Debug)]
pub struct ToQueryWorker {
    pub dest: Vec<CompID>,
    pub ticket: usize,
    pub query: HighLevelQuery,
}

impl ToQueryWorker {
    /// A request with the given ticket, for the given components.
    pub fn new(ticket: usize, dest: Vec<CompID>, query: HighLevelQuery) -> (r: Self)
        ensures
            r.ticket == ticket,
            r.dest@ == dest@,
            r.query == query,
    {
        Self { dest, ticket, query }
    }
}

/// The state of a request, as the task viewer follows it.
#[derive(Clone, Debug)]
pub enum QueryStatus {
    /// The request was sent; `description` names it, and `show` says whether the task viewer
    /// lists it.
    Requested { description: String, show: bool },
    /// The request was answered.
    Finished,
    /// The request was given up: cancelled (true) or failed (false).
    Aborted(bool),
}

impl QueryStatus {
    /// A copy of the state.
    pub fn duplicate(&self) -> (r: QueryStatus)
        ensures
            r == *self,
    {
        match self {
            QueryStatus::Requested { description, show } => QueryStatus::Requested {
                description: description.clone(),
                show: *show,
            },
            QueryStatus::Finished => QueryStatus::Finished,
            QueryStatus::Aborted(b) => QueryStatus::Aborted(*b),
        }
    }
}

/// The query worker's answer to a request for a playlist.
#[derive(Clone, Debug)]
pub enum GetPlaylistResponse {
    /// The playlist and its entries.
    Success { id: PlaylistID, name: String, entry: Vec<Media> },
    /// The playlist could not be fetched.
    Failure { id: PlaylistID, name: String, msg: String },
    /// The playlist has no entries.
    Partial { id: PlaylistID, name: String },
}

} // verus!
