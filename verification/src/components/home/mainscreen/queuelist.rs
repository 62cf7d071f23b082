//! The queue list panel.
use vstd::prelude::*;

use crate::media::Media;

pub mod nothing;
pub mod something;

use nothing::Nothing;
use something::Something;

verus! {

/// What the queue list shows.
pub enum Comp {
    Nothing(Nothing),
    Something(Something),
}

/// The queue list panel.
pub struct QueueList {
    pub comp: Comp,
    pub enabled: bool,
}

impl QueueList {
    /// The empty queue list.
    pub fn new(enabled: bool) -> (r: Self)
        ensures
            r.enabled == enabled,
            r.comp is Nothing,
    {
        Self { enabled, comp: Comp::Nothing(Nothing::new()) }
    }

    /// Takes the queue that the player reports, `play`: an empty panel starts showing it,
    /// playing its first item; a panel that shows a queue already keeps it.
    pub fn handle_in_queue(&mut self, play: Vec<Media>)
        requires
            old(self).comp matches Comp::Something(s) ==> s.wf(),
        ensures
            final(self).enabled == old(self).enabled,
            old(self).comp is Something ==> final(self).comp == old(self).comp,
            old(self).comp is Nothing ==> (final(self).comp matches Comp::Something(s) && s.wf()
                && s.list@ == play@ && s.index == 0),
    {
        if let Comp::Nothing(_) = &self.comp {
            self.comp = Comp::Something(Something::new(play));
        }
    }

    /// The title of the panel's border.
    pub fn title(&self) -> (r: String)
        ensures
            r@ == "Queue"@,
    {
        String::from_str("Queue")
    }

    /// Shows the panel as focused or not.
    pub fn set_enabled(&mut self, enable: bool)
        ensures
            final(self).enabled == enable,
            final(self).comp == old(self).comp,
    {
        self.enabled = enable;
    }
}

} // verus!
