//! The cover art of the track being played: fetched once per track, then shown.
use vstd::prelude::*;

use crate::compid::CompID;
use crate::components::centered::{one_line, shows, Centered};
use crate::query::{HighLevelQuery, ToQueryWorker};

verus! {

/// The state of the cover, `P` being the displayable image.
pub enum CoverState<P> {
    /// Waiting for the response to the request with this ticket.
    Loading(usize, Centered),
    Loaded(P),
    NotFound(Centered),
    Error(Centered),
}

/// `after` is the state that follows `before` when the response `d` to the request `ticket`
/// arrives: the image, or an error, when that response was awaited; else nothing changes.
pub open spec fn cover_after<P>(before: CoverState<P>, after: CoverState<P>, ticket: usize, d: Result<P, String>) -> bool {
    if before matches CoverState::Loading(t, _) && t == ticket {
        match d {
            Ok(image) => after == CoverState::Loaded(image),
            Err(_) => after matches CoverState::Error(c) && c.lines@.len() == 2 && c.lines@[0]@ == "Failed to"@
                && c.lines@[1]@ == "load image!"@,
        }
    } else {
        after == before
    }
}

/// The cover view.
pub struct ImageComp<P> {
    pub state: CoverState<P>,
}

impl<P> ImageComp<P> {
    /// The request for the cover `id`, with the given ticket.
    pub fn make_query(ticket: usize, id: String) -> (q: ToQueryWorker)
        ensures
            q.ticket == ticket,
            q.query == HighLevelQuery::GetCover(id),
    {
        let mut dest: Vec<CompID> = Vec::new();
        dest.push(CompID::NowPlaying);
        ToQueryWorker::new(ticket, dest, HighLevelQuery::GetCover(id))
    }

    /// The cover view for the cover `coverid`: loading it with a request under `ticket`, or
    /// saying there is none.
    pub fn new(coverid: Option<String>, ticket: usize) -> (r: (Self, Option<ToQueryWorker>))
        ensures
            match coverid {
                Some(id) => (r.0.state matches CoverState::Loading(t, c) && t == ticket && shows(c, "Loading cover..."@))
                    && (r.1 matches Some(q) && q.ticket == ticket && q.query == HighLevelQuery::GetCover(id)),
                None => (r.0.state matches CoverState::NotFound(c) && shows(c, "No cover art"@)) && r.1 is None,
            },
    {
        match coverid {
            Some(id) => {
                let query = Self::make_query(ticket, id);
                (
                    Self { state: CoverState::Loading(ticket, Centered::new(one_line("Loading cover..."))) },
                    Some(query),
                )
            },
            None => (Self { state: CoverState::NotFound(Centered::new(one_line("No cover art"))) }, None),
        }
    }

    /// Waits for the cover from the request `ticket`.
    pub fn wait_for(&mut self, ticket: usize)
        ensures
            final(self).state matches CoverState::Loading(t, c) && t == ticket && shows(c, "Loading cover..."@),
    {
        self.state = CoverState::Loading(ticket, Centered::new(one_line("Loading cover...")));
    }

    /// Forgets the cover.
    pub fn unset_image(&mut self)
        ensures
            final(self).state matches CoverState::NotFound(c) && shows(c, "No cover art"@),
    {
        self.state = CoverState::NotFound(Centered::new(one_line("No cover art")));
    }

    /// Takes the response to the request `ticket`: only the awaited response changes the view.
    pub fn set_image(&mut self, ticket: usize, d: Result<P, String>)
        ensures
            cover_after(old(self).state, final(self).state, ticket, d),
    {
        let awaited = match &self.state {
            CoverState::Loading(t, _) => *t == ticket,
            _ => false,
        };
        if !awaited {
            return;
        }
        match d {
            Ok(decoded) => {
                self.state = CoverState::Loaded(decoded);
            },
            Err(_) => {
                let mut v: Vec<String> = Vec::new();
                v.push(String::from_str("Failed to"));
                v.push(String::from_str("load image!"));
                self.state = CoverState::Error(Centered::new(v));
            },
        }
    }
}

/// Once the awaited cover has arrived, further responses change nothing: each request is
/// answered at most once.
pub proof fn lemma_cover_answered_once<P>(
    before: CoverState<P>,
    mid: CoverState<P>,
    after: CoverState<P>,
    ticket: usize,
    first: Result<P, String>,
    later_ticket: usize,
    later: Result<P, String>,
)
    requires
        before matches CoverState::Loading(t, _) && t == ticket,
        cover_after(before, mid, ticket, first),
        cover_after(mid, after, later_ticket, later),
    ensures
        after == mid,
{
}

} // verus!
