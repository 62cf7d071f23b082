//! Identifiers of the components that send requests and receive their responses.
//!
//! A component sends a request that carries the identifiers of the components its response is
//! for; once the request is resolved, the response goes to those components only, so that two
//! components asking for the same data (the playlist list adding a playlist to the queue, the
//! playlist queue showing it) do not act on each other's responses.
use vstd::prelude::*;

verus! {

/// A component that sends requests and receives their responses.
#[derive(Clone, Copy, Debug, PartialEq, Eq, Structural)]
pub enum CompID {
    NoComponent,
    Home,
    Login,
    MainScreen,
    PlaylistList,
    PlaylistQueue,
    PlayQueue,
    Tasks,
    NowPlaying,
    All,
}

} // verus!
