//! The play queue panel.
use vstd::prelude::*;

use crate::action::action::QueueAction;
use crate::action::Selection;
use crate::media::MediaID;

pub mod nothing;
pub mod something;

use nothing::Nothing;
use crate::media::starred_in;
use crate::selection::kept;
use something::{skip_fits, add_overflows, command_is, cursor_after_delete, jump_plays, queued, skip_target, CurrentItem, QueueCommand, Something};

verus! {

/// What the panel holds.
pub enum Comp {
    Nothing(Nothing),
    Something(Something),
}

/// The play queue panel.
pub struct PlayQueue {
    pub comp: Comp,
    pub enabled: bool,
}

impl PlayQueue {
    /// The panel is consistent.
    pub open spec fn wf(&self) -> bool {
        self.comp matches Comp::Something(s) ==> s.wf()
    }

    /// An empty queue.
    pub fn new(enabled: bool) -> (r: Self)
        ensures
            r.wf(),
            r.enabled == enabled,
            r.comp is Nothing,
    {
        Self { comp: Comp::Nothing(Nothing::new(enabled)), enabled }
    }

    /// Carries out a queue request. An empty queue takes only plain additions, which fill it
    /// with the items and play the first one wherever they were asked to go; it ignores
    /// shuffled additions.
    pub fn handle_queue_action(&mut self, action: QueueAction) -> (cmd: Option<QueueCommand>)
        requires
            old(self).wf(),
            old(self).comp is Nothing ==> (action matches QueueAction::Add(items, _) ==> items@.len() > 0),
            old(self).comp matches Comp::Something(s) ==> ({
                let (items, at) = match action {
                    QueueAction::Add(items, at) => (items, at),
                    QueueAction::RandomAdd(items, at) => (items, at),
                };
                &&& s.list.0@.len() + items@.len() <= usize::MAX
                &&& !add_overflows(s.now_playing, at, s.list.0@.len() as int, items@.len() as int)
            }),
        ensures
            final(self).wf(),
            final(self).enabled == old(self).enabled,
            old(self).comp is Nothing ==> match action {
                QueueAction::Add(items, _) => {
                    &&& final(self).comp matches Comp::Something(s) && s.list.0@ == items@
                        && s.now_playing == CurrentItem::InQueue(0)
                    &&& cmd == Some(QueueCommand::Play(items@[0]))
                },
                QueueAction::RandomAdd(_, _) => cmd is None && final(self).comp is Nothing,
            },
            old(self).comp matches Comp::Something(s) ==> (final(self).comp matches Comp::Something(s2)
                && queued(s, s2, action, cmd)),
    {
        match &mut self.comp {
            Comp::Something(s) => s.handle_queue_action(action),
            Comp::Nothing(_) => match action {
                QueueAction::Add(items, _) => {
                    let (comp, cmd) = Something::new(self.enabled, items);
                    self.comp = Comp::Something(comp);
                    Some(cmd)
                },
                _ => None,
            },
        }
    }

    /// Skips by `skip_by` items when the queue holds items.
    pub fn skip(&mut self, skip_by: i32) -> (cmd: Option<QueueCommand>)
        requires
            old(self).wf(),
            old(self).comp matches Comp::Something(s) ==> skip_fits(s.now_playing, skip_by as int, s.list.0@.len() as int),
        ensures
            final(self).wf(),
            old(self).comp is Nothing ==> cmd is None,
            old(self).comp matches Comp::Something(s) ==> (final(self).comp matches Comp::Something(s2)
                && s2.list == s.list && s2.now_playing == skip_target(s.now_playing, skip_by as int, s.list.0@.len() as int)
                && (cmd matches Some(c) && command_is(c, jump_plays(s2.now_playing, s.list.0@)))),
    {
        match &mut self.comp {
            Comp::Something(s) => Some(s.skip(skip_by)),
            Comp::Nothing(_) => None,
        }
    }

    /// Deletes the selected items when the queue holds items.
    pub fn delete(&mut self, sel: &Selection)
        requires
            old(self).wf(),
        ensures
            final(self).wf(),
            final(self).enabled == old(self).enabled,
            old(self).comp is Nothing ==> final(self).comp == old(self).comp,
            old(self).comp matches Comp::Something(s) ==> (final(self).comp matches Comp::Something(s2)
                && s2.list.0@ == kept(s.list.0@, *sel)
                && s2.now_playing == cursor_after_delete(s.list.0@, *sel, s.now_playing)),
    {
        if let Comp::Something(s) = &mut self.comp {
            s.delete(sel);
        }
    }

    /// Sets or clears the starred marker of the queued items with identifier `media`.
    pub fn set_star(&mut self, media: &MediaID, star: bool)
        requires
            old(self).wf(),
        ensures
            final(self).wf(),
            final(self).enabled == old(self).enabled,
            old(self).comp is Nothing ==> final(self).comp == old(self).comp,
            old(self).comp matches Comp::Something(s) ==> (final(self).comp matches Comp::Something(s2)
                && s2.now_playing == s.now_playing && starred_in(s.list.0@, s2.list.0@, media@, star)),
    {
        if let Comp::Something(s) = &mut self.comp {
            s.set_star(media, star);
        }
    }

    /// Shows the panel as focused or not.
    pub fn set_enabled(&mut self, enable: bool)
        requires
            old(self).wf(),
        ensures
            final(self).wf(),
            final(self).enabled == enable,
    {
        if self.enabled != enable {
            self.enabled = enable;
            match &mut self.comp {
                Comp::Nothing(comp) => comp.set_enabled(enable),
                Comp::Something(comp) => comp.set_enabled(enable),
            }
        }
    }
}

} // verus!
