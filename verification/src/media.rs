//! The media items that playlists and the play queue hold.
use vstd::prelude::*;

use crate::action::Selection;
use crate::selection::{is_selected, picked, selects};

verus! {

/// Identifier of a media item on the server.
pub type MediaID = String;

/// Identifier of a playlist on the server.
pub type PlaylistID = String;

/// Where newly queued items go.
#[derive(Clone, Copy, Debug, PartialEq, Eq, Structural)]
pub enum QueueLocation {
    /// In place of the item being played, which starts playing the first new item.
    Front,
    /// Right after the item being played.
    Next,
    /// At the end of the queue.
    Last,
}

/// A playable media item and the metadata the interface shows of it.
#[derive(Clone, Debug)]
pub struct Media {
    pub id: MediaID,
    pub title: String,
    pub album: Option<String>,
    pub artist: Option<String>,
    pub track: Option<u32>,
    pub year: Option<u32>,
    pub genre: Option<String>,
    /// Length in seconds.
    pub duration: Option<u32>,
    pub play_count: Option<u32>,
    pub bpm: Option<u32>,
    pub content_type: Option<String>,
    pub path: Option<String>,
    pub bit_rate: Option<u32>,
    pub sampling_rate: Option<u32>,
    /// Size in bytes.
    pub size: Option<u64>,
    pub user_rating: Option<u32>,
    /// The average rating, as the server renders it.
    pub average_rating: Option<String>,
    /// When the item was starred, if it is.
    pub starred: Option<String>,
    pub cover_art: Option<String>,
}

/// The text of an optional string, empty when absent.
pub open spec fn opt_text(o: Option<String>) -> Seq<char> {
    match o {
        Some(s) => s@,
        None => Seq::empty(),
    }
}

/// The marker shown next to starred items.
pub open spec fn fav_marker(m: Media) -> Seq<char> {
    if m.starred is Some { seq!['★'] } else { Seq::empty() }
}

impl Media {
    /// The marker shown next to the item: a star when it is starred, nothing otherwise.
    pub fn get_fav_marker(&self) -> (s: String)
        ensures
            s@ == fav_marker(*self),
    {
        proof {
            reveal_strlit("★");
            reveal_strlit("");
        }
        if self.starred.is_some() {
            String::from_str("★")
        } else {
            String::from_str("")
        }
    }

    /// A copy of this item whose starred marker is set or cleared.
    pub fn with_star(&self, star: bool) -> (m: Media)
        ensures
            m == (Media { starred: m.starred, ..*self }),
            star ==> (m.starred matches Some(t) && t@ == "Starred"@),
            !star ==> m.starred is None,
    {
        let mut m = self.clone_media();
        m.starred = if star { Some(String::from_str("Starred")) } else { None };
        m
    }

    /// A field-by-field copy of this item.
    pub fn clone_media(&self) -> (m: Media)
        ensures
            m == *self,
    {
        Media {
            id: self.id.clone(),
            title: self.title.clone(),
            album: clone_opt(&self.album),
            artist: clone_opt(&self.artist),
            track: self.track,
            year: self.year,
            genre: clone_opt(&self.genre),
            duration: self.duration,
            play_count: self.play_count,
            bpm: self.bpm,
            content_type: clone_opt(&self.content_type),
            path: clone_opt(&self.path),
            bit_rate: self.bit_rate,
            sampling_rate: self.sampling_rate,
            size: self.size,
            user_rating: self.user_rating,
            average_rating: clone_opt(&self.average_rating),
            starred: clone_opt(&self.starred),
            cover_art: clone_opt(&self.cover_art),
        }
    }
}

/// A copy of an optional string.
pub fn clone_opt(o: &Option<String>) -> (r: Option<String>)
    ensures
        r == *o,
{
    match o {
        Some(s) => Some(s.clone()),
        None => None,
    }
}

} // verus!

verus! {

/// `new` is `old` with its starred marker set (to "Starred") or cleared, as `star` says.
pub open spec fn star_set(old: Media, new: Media, star: bool) -> bool {
    &&& new == (Media { starred: new.starred, ..old })
    &&& star ==> (new.starred matches Some(t) && t@ == "Starred"@)
    &&& !star ==> new.starred is None
}

/// The star value that the last request for `id` among `reqs` sets, if any request names it.
pub open spec fn last_star(reqs: Seq<(MediaID, bool)>, id: Seq<char>) -> Option<bool>
    decreases reqs.len(),
{
    if reqs.len() == 0 {
        None
    } else if reqs.last().0@ == id {
        Some(reqs.last().1)
    } else {
        last_star(reqs.drop_last(), id)
    }
}

/// `after` is `before` with the starred marker of every item whose identifier is `id` set or
/// cleared, as `star` says, and the other items unchanged.
pub open spec fn starred_in(before: Seq<Media>, after: Seq<Media>, id: Seq<char>, star: bool) -> bool {
    &&& after.len() == before.len()
    &&& forall|i: int|
        0 <= i < before.len() ==> if (#[trigger] before[i]).id@ == id {
            star_set(before[i], after[i], star)
        } else {
            after[i] == before[i]
        }
}

/// Sets or clears the starred marker of every item of `list` whose identifier is `id`.
pub fn set_star_in(list: &mut Vec<Media>, id: &MediaID, star: bool)
    ensures
        starred_in(old(list)@, final(list)@, id@, star),
{
    let ghost orig = list@;
    let len = list.len();
    let mut i: usize = 0;
    while i < len
        invariant
            len == orig.len(),
            list@.len() == len,
            i <= len,
            forall|k: int|
                0 <= k < len ==> if k < i && (#[trigger] orig[k]).id@ == id@ {
                    star_set(orig[k], list@[k], star)
                } else {
                    list@[k] == orig[k]
                },
        decreases len - i,
    {
        if list[i].id == *id {
            let m = list[i].with_star(star);
            list.set(i, m);
        }
        i = i + 1;
    }
}

/// `after` is `before` with the star requests `reqs` applied in order: each item takes the
/// marker of the last request that names it, and the items no request names are unchanged.
pub open spec fn stars_applied(before: Seq<Media>, after: Seq<Media>, reqs: Seq<(MediaID, bool)>) -> bool {
    &&& after.len() == before.len()
    &&& forall|i: int|
        0 <= i < before.len() ==> match last_star(reqs, (#[trigger] before[i]).id@) {
            None => after[i] == before[i],
            Some(b) => star_set(before[i], after[i], b),
        }
}

/// Applies the star requests in order to every item of `list` they name.
pub fn apply_star_requests(list: &mut Vec<Media>, reqs: &Vec<(MediaID, bool)>)
    ensures
        stars_applied(old(list)@, final(list)@, reqs@),
{
    let ghost orig = list@;
    let n = reqs.len();
    let mut k: usize = 0;
    while k < n
        invariant
            n == reqs@.len(),
            k <= n,
            list@.len() == orig.len(),
            forall|i: int|
                0 <= i < orig.len() ==> match last_star(reqs@.subrange(0, k as int), (#[trigger] orig[i]).id@) {
                    None => list@[i] == orig[i],
                    Some(b) => star_set(orig[i], list@[i], b),
                },
        decreases n - k,
    {
        let ghost before = list@;
        set_star_in(list, &reqs[k].0, reqs[k].1);
        proof {
            assert forall|i: int| 0 <= i < orig.len() implies match last_star(
                reqs@.subrange(0, k + 1),
                (#[trigger] orig[i]).id@,
            ) {
                None => list@[i] == orig[i],
                Some(b) => star_set(orig[i], list@[i], b),
            } by {
                let pre = reqs@.subrange(0, k as int);
                let post = reqs@.subrange(0, k + 1);
                assert(post.drop_last() =~= pre);
                assert(post.last() == reqs@[k as int]);
                assert(before[i].id == orig[i].id);
            }
        }
        k = k + 1;
    }
    assert(reqs@.subrange(0, n as int) =~= reqs@);
}

} // verus!

verus! {

/// The star requests that toggling the selected items of `s[..hi]` makes: for each selected
/// item in order, its identifier and whether it becomes starred (it is not starred yet).
pub open spec fn toggle_requests_of(s: Seq<Media>, sel: Selection, hi: int) -> Seq<(MediaID, bool)>
    decreases hi,
{
    if hi <= 0 {
        Seq::empty()
    } else if selects(sel, hi - 1) {
        toggle_requests_of(s, sel, hi - 1).push((s[hi - 1].id, s[hi - 1].starred is None))
    } else {
        toggle_requests_of(s, sel, hi - 1)
    }
}

/// The star requests that toggling the selected items of `list` makes.
pub fn toggle_requests(list: &Vec<Media>, sel: &Selection) -> (reqs: Vec<(MediaID, bool)>)
    ensures
        reqs@ == toggle_requests_of(list@, *sel, list@.len() as int),
{
    let len = list.len();
    let mut reqs: Vec<(MediaID, bool)> = Vec::new();
    let mut i: usize = 0;
    while i < len
        invariant
            len == list@.len(),
            i <= len,
            reqs@ == toggle_requests_of(list@, *sel, i as int),
        decreases len - i,
    {
        if is_selected(sel, i) {
            reqs.push((list[i].id.clone(), list[i].starred.is_none()));
        }
        i = i + 1;
    }
    reqs
}


/// Each toggle request is for a selected item, in list order, and asks for the star exactly
/// when that item is not starred, whatever the kind of selection.
pub proof fn lemma_toggle_requests_flip(s: Seq<Media>, sel: Selection, hi: int)
    requires
        0 <= hi <= s.len(),
    ensures
        toggle_requests_of(s, sel, hi) == picked(s, sel, hi).map_values(|m: Media| (m.id, m.starred is None)),
    decreases hi,
{
    if hi > 0 {
        lemma_toggle_requests_flip(s, sel, hi - 1);
        assert(toggle_requests_of(s, sel, hi) =~= picked(s, sel, hi).map_values(|m: Media| (m.id, m.starred is None)));
    } else {
        assert(toggle_requests_of(s, sel, hi) =~= picked(s, sel, hi).map_values(|m: Media| (m.id, m.starred is None)));
    }
}

} // verus!
