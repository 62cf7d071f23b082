//! The server's answer to a request for the list of playlists.
use vstd::prelude::*;

verus! {

/// A playlist without its entries.
#[derive(Clone, Debug, PartialEq, Eq)]
pub struct SimplePlaylist {
    pub id: String,
    pub name: String,
    pub owner: String,
    pub public: bool,
    pub created: String,
    pub changed: String,
    pub song_count: u32,
    /// Total length in seconds.
    pub duration: u32,
}

impl SimplePlaylist {
    /// A field-by-field copy.
    pub fn clone_playlist(&self) -> (r: Self)
        ensures
            r == *self,
    {
        Self {
            id: self.id.clone(),
            name: self.name.clone(),
            owner: self.owner.clone(),
            public: self.public,
            created: self.created.clone(),
            changed: self.changed.clone(),
            song_count: self.song_count,
            duration: self.duration,
        }
    }
}

/// The server's answer: the playlists, or why they could not be had.
#[derive(Clone, Debug, PartialEq, Eq)]
pub enum GetPlaylistsResponse {
    Success(Vec<SimplePlaylist>),
    Failure(String),
}

impl GetPlaylistsResponse {
    /// The name of the variant, as the response is displayed.
    pub fn to_string(&self) -> (s: String)
        ensures
            s@ == match *self {
                GetPlaylistsResponse::Success(_) => "Success"@,
                GetPlaylistsResponse::Failure(_) => "Failure"@,
            },
    {
        match self {
            GetPlaylistsResponse::Success(_) => "Success".to_string(),
            GetPlaylistsResponse::Failure(_) => "Failure".to_string(),
        }
    }
}

} // verus!
