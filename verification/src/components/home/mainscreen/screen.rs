//! The main screen with its panels and popups, and how it routes what it receives to them.
use vstd::prelude::*;

use crate::action::action::{Mode, QueueAction};
use crate::action::getplaylists::SimplePlaylist;
use crate::compid::CompID;
use crate::components::home::mainscreen::bpmtoy::{after_tap, after_tick, BPMToy, State as TapState};
use crate::components::home::mainscreen::help::Help;
use crate::components::home::mainscreen::mediainfo::{media_rows, rows_text, MediaInfo};
use crate::components::home::mainscreen::nowplaying::playing::track_requests;
use crate::components::home::mainscreen::nowplaying::{Comp as NowComp, NowPlaying};
use crate::components::home::mainscreen::playlistinfo::{playlist_rows, PlaylistInfo};
use crate::components::home::mainscreen::leftpanel::playlistlist::loaded::{pair_text, playlist_rows as list_rows};
use crate::components::home::mainscreen::playlistlist::{Comp as ListComp, PlaylistList};
use crate::components::home::mainscreen::playlistqueue::PlaylistQueue;
use crate::components::home::mainscreen::playqueue::something::{add_overflows, queued, CurrentItem, QueueCommand};
use crate::components::home::mainscreen::playqueue::{Comp as PlayComp, PlayQueue};
use crate::components::home::mainscreen::selectplaylistpopup::SelectPlaylistPopup;
use crate::components::home::mainscreen::tasks::{tasks_after, Tasks};
use crate::components::home::mainscreen::{
    focus_after, focus_flags, popup_after, welcome_message, welcome_text, CurrentlySelected, MainScreenState,
    Popup, ScreenAction,
};
use crate::keyhelp::ComponentKeyHelp;
use crate::media::{Media, MediaID};
use crate::query::{HighLevelQuery, QueryStatus, ToQueryWorker};
use crate::strings::{dec, push_dec, push_str};

verus! {

/// The main screen.
pub struct MainScreen<P> {
    pub screen: MainScreenState,
    pub pl_list: PlaylistList,
    pub pl_queue: PlaylistQueue,
    pub playqueue: PlayQueue,
    pub now_playing: NowPlaying<P>,
    pub tasks: Tasks,
    /// The tempo counter, when the feature is on.
    pub bpmtoy: Option<BPMToy>,
    pub help: Help,
    /// The content of the popup that is open, for the popups that have one.
    pub media_info: Option<MediaInfo>,
    pub playlist_info: Option<PlaylistInfo>,
    pub select_playlist: Option<SelectPlaylistPopup>,
    pub mode: Mode,
}

/// The panels show as focused exactly as the focus says.
pub open spec fn focus_shown<P>(m: MainScreen<P>) -> bool {
    (m.pl_list.enabled, m.pl_queue.enabled, m.playqueue.enabled, m.now_playing.enabled) == focus_flags(m.screen.state)
}

/// The title of the popup that adds `n` items to a playlist.
pub open spec fn add_title(n: nat) -> Seq<char> {
    "Add "@ + dec(n) + " items to a playlist"@
}

/// The screen, the playlist queue, the tempo counter, the help, the popups and the mode are
/// the same in `a` and `b`.
pub open spec fn others_unchanged<P>(a: MainScreen<P>, b: MainScreen<P>) -> bool {
    &&& b.screen == a.screen
    &&& b.pl_queue == a.pl_queue
    &&& b.bpmtoy == a.bpmtoy
    &&& b.help == a.help
    &&& b.media_info == a.media_info
    &&& b.playlist_info == a.playlist_info
    &&& b.select_playlist == a.select_playlist
    &&& b.mode == a.mode
}

impl<P> MainScreen<P> {
    /// The panels agree with the focus, the play queue is consistent, and so is the tempo
    /// counter.
    pub open spec fn wf(&self) -> bool {
        &&& focus_shown(*self)
        &&& self.playqueue.wf()
        &&& self.bpmtoy matches Some(t) ==> t.wf()
    }

    /// The screen as it opens, with the request for the playlists under `ticket`, and the mode
    /// it switches the program to. `tap_key` is `None` when the tempo counter is off, and
    /// otherwise the key that taps it, if bound; `help_key` is the key that opens the help, if
    /// bound.
    pub fn new(
        tap_key: Option<Option<String>>,
        show_internal_tasks: bool,
        help_key: Option<String>,
        global_help: ComponentKeyHelp,
        ticket: usize,
    ) -> (r: (Self, ToQueryWorker, Mode))
        ensures
            r.0.wf(),
            r.0.screen.state == CurrentlySelected::PlaylistList,
            r.0.screen.popup == Popup::NoPopup,
            r.0.screen.message.0 == false,
            r.0.screen.message.1@ == welcome_text(help_key),
            r.0.screen.key_stack@.len() == 0,
            r.0.mode == Mode::Normal,
            r.0.bpmtoy is Some == tap_key is Some,
            r.0.tasks.tasks@.len() == 0,
            r.0.tasks.show_internal == show_internal_tasks,
            r.0.pl_list.comp is Loading && r.0.pl_list.autofocus,
            r.0.pl_queue.comp is NotSelected,
            r.0.playqueue.comp is Nothing,
            r.0.now_playing.comp is Stopped,
            r.0.help.global == global_help,
            r.0.media_info is None && r.0.playlist_info is None && r.0.select_playlist is None,
            r.1.ticket == ticket,
            r.1.dest@ == seq![CompID::PlaylistList],
            r.1.query == HighLevelQuery::ListPlaylists,
            r.2 == Mode::Normal,
    {
        let bpmtoy = match tap_key {
            Some(k) => Some(BPMToy::new(k)),
            None => None,
        };
        let mut dest: Vec<CompID> = Vec::new();
        dest.push(CompID::PlaylistList);
        let query = ToQueryWorker::new(ticket, dest, HighLevelQuery::ListPlaylists);
        let screen = MainScreenState::new(welcome_message(help_key));
        let m = Self {
            screen,
            pl_list: PlaylistList::new(true, true),
            pl_queue: PlaylistQueue::new(false),
            playqueue: PlayQueue::new(false),
            now_playing: NowPlaying::new(false),
            tasks: Tasks::new(show_internal_tasks),
            bpmtoy,
            help: Help::new(global_help),
            media_info: None,
            playlist_info: None,
            select_playlist: None,
            mode: Mode::Normal,
        };
        (m, query, Mode::Normal)
    }

    /// Shows each panel as focused or not, as the focus says.
    fn update_focus(&mut self)
        requires
            old(self).playqueue.wf(),
        ensures
            focus_shown(*final(self)),
            final(self).playqueue.wf(),
            final(self).screen == old(self).screen,
            final(self).pl_list.comp == old(self).pl_list.comp,
            final(self).now_playing.comp == old(self).now_playing.comp,
            final(self).bpmtoy == old(self).bpmtoy,
            final(self).mode == old(self).mode,
            final(self).media_info == old(self).media_info,
            final(self).playlist_info == old(self).playlist_info,
            final(self).select_playlist == old(self).select_playlist,
    {
        let (a, b, c, d) = (
            self.screen.state == CurrentlySelected::PlaylistList,
            self.screen.state == CurrentlySelected::PlaylistQueue,
            self.screen.state == CurrentlySelected::PlayQueue,
            match self.screen.state {
                CurrentlySelected::NowPlaying(_) => true,
                _ => false,
            },
        );
        self.pl_list.set_enabled(a);
        self.pl_queue.set_enabled(b);
        self.playqueue.set_enabled(c);
        self.now_playing.set_enabled(d);
    }

    /// Carries out an action of the screen itself (focus, popups, message) and shows the
    /// panels focused as the new focus says.
    pub fn handle_screen_action(&mut self, action: ScreenAction)
        requires
            old(self).wf(),
        ensures
            final(self).wf(),
            final(self).screen.state == focus_after(old(self).screen.state, action),
            final(self).screen.popup == popup_after(old(self).screen.popup, action),
            final(self).screen.key_stack@.len() == 0,
            match action {
                ScreenAction::Info(msg) => final(self).screen.message == (false, msg),
                ScreenAction::Error(msg) => final(self).screen.message == (true, msg),
                _ => final(self).screen.message == old(self).screen.message,
            },
            final(self).mode == old(self).mode,
            final(self).media_info == old(self).media_info,
            final(self).playlist_info == old(self).playlist_info,
            final(self).select_playlist == old(self).select_playlist,
            final(self).bpmtoy == old(self).bpmtoy,
    {
        self.screen.handle_action(action);
        self.update_focus();
    }

    /// Opens the details of `media`.
    pub fn view_media_info(&mut self, media: Media)
        requires
            old(self).wf(),
        ensures
            final(self).wf(),
            final(self).screen.popup == Popup::MediaInfo,
            final(self).media_info matches Some(i) && rows_text(i.rows@) == media_rows(media) && i.cursor == Some(0usize),
            final(self).screen.state == old(self).screen.state,
    {
        self.media_info = Some(MediaInfo::new(media));
        self.handle_screen_action(ScreenAction::ViewMediaInfo);
    }

    /// Opens the details of `playlist`.
    pub fn view_playlist_info(&mut self, playlist: SimplePlaylist)
        requires
            old(self).wf(),
        ensures
            final(self).wf(),
            final(self).screen.popup == Popup::PlaylistInfo,
            final(self).playlist_info matches Some(i) && rows_text(i.rows@) == playlist_rows(playlist) && i.cursor
                == Some(0usize),
            final(self).screen.state == old(self).screen.state,
    {
        self.playlist_info = Some(PlaylistInfo::new(playlist));
        self.handle_screen_action(ScreenAction::ViewPlaylistInfo);
    }

    /// Opens the popup that adds `items` to a playlist, titled with their number, and returns
    /// its request for the playlists, under `ticket`.
    pub fn prepare_add_to_playlist(&mut self, items: Vec<MediaID>, binds: Vec<(String, String)>, ticket: usize) -> (q: ToQueryWorker)
        requires
            old(self).wf(),
        ensures
            final(self).wf(),
            final(self).screen.popup == Popup::SelectPlaylist,
            final(self).select_playlist matches Some(p) && p.items@ == items@ && p.title@ == add_title(items@.len())
                && p.state is None,
            q.ticket == ticket,
            q.query == HighLevelQuery::ListPlaylistsPopup(false),
    {
        let mut title = String::from_str("Add ");
        push_dec(&mut title, items.len() as u64);
        push_str(&mut title, " items to a playlist");
        let (popup, q) = SelectPlaylistPopup::new(items, binds, title, ticket);
        self.select_playlist = Some(popup);
        self.handle_screen_action(ScreenAction::PrepareAddToPlaylist);
        q
    }

    /// Records the progress `status` of the request `ticket` in the task list; the main screen
    /// does so for every report before passing it to the panel it is for.
    pub fn record_status(&mut self, ticket: usize, status: &QueryStatus)
        requires
            old(self).wf(),
        ensures
            final(self).wf(),
            final(self).tasks.tasks@ == tasks_after(old(self).tasks.tasks@, ticket, *status),
            final(self).tasks.show_internal == old(self).tasks.show_internal,
            final(self).screen == old(self).screen,
    {
        self.tasks.update_task(&ticket, status);
    }

    /// Takes the playlists that the playlist popup asked for: they fill the popup while it is
    /// open; on failure the popup closes and the reason shows as an error.
    pub fn handle_popup_playlists(&mut self, res: Result<Vec<SimplePlaylist>, String>)
        requires
            old(self).wf(),
        ensures
            final(self).wf(),
            final(self).screen.state == old(self).screen.state,
            match res {
                Ok(p) => {
                    &&& final(self).screen == old(self).screen
                    &&& (old(self).screen.popup == Popup::SelectPlaylist && old(self).select_playlist is Some) ==> (
                    final(self).select_playlist matches Some(s) && (s.state matches Some(st) && st.playlists@ == p@
                        && st.selected == Some(0usize)))
                    &&& !(old(self).screen.popup == Popup::SelectPlaylist && old(self).select_playlist is Some)
                        ==> final(self).select_playlist == old(self).select_playlist
                },
                Err(e) => final(self).screen.popup == Popup::NoPopup && final(self).screen.message == (true, e),
            },
    {
        match res {
            Ok(p) => {
                if self.screen.popup == Popup::SelectPlaylist {
                    if let Some(popup) = &mut self.select_playlist {
                        popup.update_playlist(p);
                    }
                }
            },
            Err(err) => {
                self.screen.message = (true, err);
                self.screen.popup = Popup::NoPopup;
            },
        }
    }

    /// Takes the playlists for the playlist list, or the reason they could not be had.
    pub fn handle_list_playlists(&mut self, res: Result<Vec<SimplePlaylist>, String>)
        requires
            old(self).wf(),
        ensures
            final(self).wf(),
            final(self).pl_list.enabled == old(self).pl_list.enabled,
            final(self).pl_list.autofocus == old(self).pl_list.autofocus,
            match res {
                Ok(list) => final(self).pl_list.comp matches ListComp::Loaded(l) && pair_text(l.rows@) == list_rows(list@)
                    && (!(old(self).pl_list.comp is Loaded) ==> l.list@ == list@),
                Err(e) => final(self).pl_list.comp matches ListComp::Error(x) && x.error == e,
            },
            others_unchanged(*old(self), *final(self)),
            final(self).playqueue == old(self).playqueue,
            final(self).now_playing == old(self).now_playing,
            final(self).tasks == old(self).tasks,
    {
        self.pl_list.handle_playlists(res);
    }

    /// Passes a queue request on to the play queue.
    pub fn handle_queue(&mut self, action: QueueAction) -> (cmd: Option<QueueCommand>)
        requires
            old(self).wf(),
            old(self).playqueue.comp is Nothing ==> (action matches QueueAction::Add(items, _) ==> items@.len() > 0),
            old(self).playqueue.comp matches PlayComp::Something(s) ==> ({
                let (items, at) = match action {
                    QueueAction::Add(items, at) => (items, at),
                    QueueAction::RandomAdd(items, at) => (items, at),
                };
                &&& s.list.0@.len() + items@.len() <= usize::MAX
                &&& !add_overflows(s.now_playing, at, s.list.0@.len() as int, items@.len() as int)
            }),
        ensures
            final(self).wf(),
            final(self).playqueue.enabled == old(self).playqueue.enabled,
            old(self).playqueue.comp is Nothing ==> match action {
                QueueAction::Add(items, _) => {
                    &&& final(self).playqueue.comp matches PlayComp::Something(s) && s.list.0@ == items@
                        && s.now_playing == CurrentItem::InQueue(0)
                    &&& cmd == Some(QueueCommand::Play(items@[0]))
                },
                QueueAction::RandomAdd(_, _) => cmd is None && final(self).playqueue.comp is Nothing,
            },
            old(self).playqueue.comp matches PlayComp::Something(s) ==> (final(self).playqueue.comp matches PlayComp::Something(
                s2,
            ) && queued(s, s2, action, cmd)),
            others_unchanged(*old(self), *final(self)),
            final(self).pl_list == old(self).pl_list,
            final(self).now_playing == old(self).now_playing,
            final(self).tasks == old(self).tasks,
    {
        self.playqueue.handle_queue_action(action)
    }

    /// The player moved to `media`, or stopped: the now-playing panel shows it, and the
    /// requests for its cover and lyrics are returned.
    pub fn handle_now_playing(
        &mut self,
        media: Option<Media>,
        playing: bool,
        cover_enabled: bool,
        lyrics_enabled: bool,
        cover_ticket: usize,
        lyrics_ticket: usize,
    ) -> (requests: Vec<ToQueryWorker>)
        requires
            old(self).wf(),
        ensures
            final(self).wf(),
            final(self).screen == old(self).screen,
            match media {
                Some(m) => (final(self).now_playing.comp matches NowComp::Playing(p) && p.music == m && p.pos == 0
                    && p.playing == playing) && track_requests(
                    requests@,
                    m,
                    cover_enabled,
                    lyrics_enabled,
                    cover_ticket,
                    lyrics_ticket,
                ),
                None => final(self).now_playing.comp is Stopped && requests@.len() == 0,
            },
    {
        self.now_playing.handle_now_playing(media, playing, cover_enabled, lyrics_enabled, cover_ticket, lyrics_ticket)
    }

    /// The program switched to `mode`.
    pub fn handle_mode(&mut self, mode: Mode)
        ensures
            final(self).mode == mode,
            final(self).screen == old(self).screen,
    {
        self.mode = mode;
    }

    /// A tap of the tempo counter, `elapsed` nanoseconds after the previous one; nothing when
    /// the counter is off.
    pub fn tap(&mut self, elapsed: u64)
        requires
            old(self).wf(),
            old(self).bpmtoy matches Some(t) ==> (t.state matches TapState::Running { interval_count, .. }
                ==> interval_count < u32::MAX),
        ensures
            final(self).wf(),
            final(self).screen == old(self).screen,
            match old(self).bpmtoy {
                Some(t) => final(self).bpmtoy matches Some(t2) && (t2.state, t2.display) == after_tap(t.state, elapsed),
                None => final(self).bpmtoy is None,
            },
    {
        if let Some(t) = &mut self.bpmtoy {
            t.tap(elapsed);
        }
    }

    /// A tick, `elapsed` nanoseconds after the last tap, for the tempo counter.
    pub fn on_tick(&mut self, elapsed: u64)
        requires
            old(self).wf(),
        ensures
            final(self).wf(),
            final(self).screen == old(self).screen,
            match old(self).bpmtoy {
                Some(t) => final(self).bpmtoy matches Some(t2) && (t2.state, t2.display) == after_tick(
                    t.state,
                    t.display,
                    elapsed,
                ),
                None => final(self).bpmtoy is None,
            },
    {
        if let Some(t) = &mut self.bpmtoy {
            t.on_tick(elapsed);
        }
    }
}

} // verus!
