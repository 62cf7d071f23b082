use ampterm::action::localaction::{ListAction, LyricsAction, PopupAction};
use ampterm::action::action::Mode as ScreenMode;
use ampterm::components::home::{choose_credential, PlainAuth};
use ampterm::components::home::mainscreen::screen::MainScreen;
use ampterm::components::home::mainscreen::nowplaying::playing::unsynced::Unsynced;
use ampterm::components::home::mainscreen::search::{handle_raw as search_key, SearchType};
use ampterm::components::home::mainscreen::playlistqueue::loaded::filter::{handle_raw as filter_key, FilterResult};
use ampterm::components::home::mainscreen::playlistqueue::loaded::search::{handle_raw as queue_search_key, SearchResult};
use ampterm::action::getplaylists::SimplePlaylist;
use ampterm::action::localaction::HelpAction;
use ampterm::action::Selection;
use ampterm::app::delayer::Delayer;
use ampterm::compid::CompID;
use ampterm::components::home::login::{KeyOutcome, Login, Mode as Field, Status};
use ampterm::components::home::mainscreen::bpmtoy::{BPMToy, Display, State as Bpm};
use ampterm::components::home::mainscreen::help::{Help, Index};
use ampterm::components::home::mainscreen::leftpanel::{Comp as LeftComp, LeftPanel};
use ampterm::components::home::mainscreen::queuelist::{Comp as QueueComp, QueueList};
use ampterm::components::home::mainscreen::mediainfo::MediaInfo;
use ampterm::components::home::mainscreen::nowplaying::playing::imagecomp::{CoverState, ImageComp};
use ampterm::components::home::mainscreen::nowplaying::playing::lyrics::{GetLyricsResponse, Lyrics, LyricsState};
use ampterm::components::home::mainscreen::playlistinfo::PlaylistInfo;
use ampterm::components::home::mainscreen::nowplaying::playing::Playing;
use ampterm::components::home::mainscreen::tasks::{Status as TaskStatus, Tasks};
use ampterm::components::home::mainscreen::{welcome_message, CurrentlySelected, LastSelected, MainScreenState, Popup, ScreenAction};
use ampterm::components::home::{Comp as HomeComp, Home};
use ampterm::keyhelp::ComponentKeyHelp;
use ampterm::keys::KeyInput;
use ampterm::media::Media;
use ampterm::query::{HighLevelQuery, PasswordCredential, QueryStatus, ToQueryWorker};

fn media(id: &str, title: &str) -> Media {
    Media {
        id: id.to_string(),
        title: title.to_string(),
        album: None,
        artist: None,
        track: None,
        year: None,
        genre: None,
        duration: None,
        play_count: None,
        bpm: None,
        content_type: None,
        path: None,
        bit_rate: None,
        sampling_rate: None,
        size: None,
        user_rating: None,
        average_rating: None,
        starred: None,
        cover_art: None,
    }
}

fn query(ticket: usize, q: HighLevelQuery) -> ToQueryWorker {
    ToQueryWorker::new(ticket, vec![CompID::MainScreen], q)
}

#[test]
fn delayer_supersedes_and_counts_down() {
    let mut d = Delayer::new();
    assert!(d.queue_query(query(1, HighLevelQuery::ListPlaylists), 2).is_none());
    assert!(d.queue_query(query(2, HighLevelQuery::CheckCredentialValidity), 0).is_none());
    let old = d.queue_query(query(3, HighLevelQuery::ListPlaylists), 1).unwrap();
    assert_eq!(old.ticket, 1);
    assert_eq!(d.queries.len(), 2);
    assert_eq!(d.on_tick().unwrap().ticket, 2);
    assert!(d.on_tick().is_none());
    assert_eq!(d.queries[0].1, 0);
    assert_eq!(d.on_tick().unwrap().ticket, 3);
    assert!(d.on_tick().is_none());
    assert!(d.queries.is_empty());
}

fn page(name: &str) -> ComponentKeyHelp {
    ComponentKeyHelp { name: name.to_string(), bindings: vec![] }
}

#[test]
fn help_pages_form_a_ring() {
    let mut h = Help::new(page("Global"));
    assert_eq!(h.title, "Help for ");
    h.display(vec![page("PlayQueue"), page("Lyrics")]);
    assert_eq!(h.current, Index::Local(0));
    assert_eq!(h.title, "(1/3) Help for ← PlayQueue →");
    assert!(!h.handle_local_action(HelpAction::Right));
    assert_eq!(h.title, "(2/3) Help for ← Lyrics →");
    assert!(!h.handle_local_action(HelpAction::Right));
    assert_eq!(h.current, Index::Global);
    assert_eq!(h.title, "(3/3) Help for ← Global →");
    assert!(!h.handle_local_action(HelpAction::Left));
    assert_eq!(h.current, Index::Local(1));
    assert!(h.handle_local_action(HelpAction::Close));
    h.display(vec![]);
    assert_eq!(h.current, Index::Global);
    assert_eq!(h.title, "Help for Global");
}

#[test]
fn focus_moves() {
    let mut s = MainScreenState::new(welcome_message(Some("?".to_string())));
    assert_eq!(s.message.1, "Welcome to Ampterm. Press ? at any point to see all of its keybindings.");
    s.handle_action(ScreenAction::WindowUp);
    assert_eq!(s.state, CurrentlySelected::NowPlaying(LastSelected::PlaylistList));
    s.handle_action(ScreenAction::WindowLeft);
    assert_eq!(s.state, CurrentlySelected::NowPlaying(LastSelected::PlaylistList));
    s.handle_action(ScreenAction::WindowDown);
    assert_eq!(s.state, CurrentlySelected::PlaylistList);
    s.handle_action(ScreenAction::WindowLeft);
    assert_eq!(s.state, CurrentlySelected::PlayQueue);
    s.handle_action(ScreenAction::WindowRight);
    assert_eq!(s.state, CurrentlySelected::PlaylistList);
    assert_eq!(s.update_focus(), (true, false, false, false));
    s.handle_action(ScreenAction::ToggleHelp);
    assert_eq!(s.popup, Popup::Help);
    s.handle_action(ScreenAction::ToggleHelp);
    assert_eq!(s.popup, Popup::NoPopup);
    s.handle_action(ScreenAction::Error("bad".to_string()));
    assert_eq!(s.message, (true, "bad".to_string()));
    assert_eq!(welcome_message(None), "Welcome to Ampterm.");
}

#[test]
fn key_sequence_recording() {
    let mut s = MainScreenState::new(String::new());
    s.record_keys(vec!["g".to_string()]);
    assert!(s.key_stack.is_empty());
    s.record_keys(vec!["g".to_string(), "g".to_string()]);
    assert_eq!(s.key_stack, vec!["g", "g"]);
    s.record_keys(vec!["g".to_string(), "g".to_string(), "x".to_string()]);
    assert_eq!(s.key_stack, vec!["g", "g", "x"]);
    s.clear_keys();
    assert!(s.key_stack.is_empty());
}

#[test]
fn login_form() {
    let mut l = Login::new(None);
    assert_eq!(l.handle_raw(KeyInput::Up), KeyOutcome::Nothing);
    assert_eq!(l.mode, Field::LegacyToggle);
    assert_eq!(l.handle_raw(KeyInput::Tab), KeyOutcome::Nothing);
    assert_eq!(l.mode, Field::Url);
    assert_eq!(l.handle_raw(KeyInput::Other), KeyOutcome::Input(Field::Url));
    assert_eq!(l.handle_raw(KeyInput::Enter), KeyOutcome::Submit);
    let q = l.submit(7, "https://x".to_string(), "me".to_string(), "pw".to_string(), false);
    assert_eq!(q.ticket, 7);
    assert_eq!(l.status, Status::Pending(7));
    assert_eq!(l.update_style(), (false, false, false, false));
    assert_eq!(l.handle_raw(KeyInput::Down), KeyOutcome::Nothing);
    assert_eq!(l.mode, Field::Url);
    assert_eq!(l.handle_raw(KeyInput::Enter), KeyOutcome::Nothing);
    l.handle_ping(8, Err("no".to_string()));
    assert_eq!(l.status, Status::Pending(7));
    l.handle_ping(7, Err("no".to_string()));
    assert_eq!(l.status, Status::Error);
    assert_eq!(l.status_msg, Some(vec!["Failed to log in! Error:".to_string(), "no".to_string()]));
    assert_eq!(l.handle_raw(KeyInput::Esc), KeyOutcome::Quit);
}

#[test]
fn lyrics_answered_once() {
    let (mut l, q) = Lyrics::new(media("a", "Song"), 4);
    assert_eq!(q.ticket, 4);
    match &l.state {
        LyricsState::Fetching(t, c) => {
            assert_eq!(*t, 4);
            assert_eq!(c.lines, vec!["Searching for lyrics for Song..."]);
        }
        _ => panic!("expected fetching"),
    }
    l.handle_lyrics(5, Ok(None));
    assert!(matches!(l.state, LyricsState::Fetching(4, _)));
    l.handle_lyrics(4, Ok(Some(GetLyricsResponse { synced_lyrics: None, plain_lyrics: Some("x\ny".to_string()) })));
    match &l.state {
        LyricsState::Plain(u) => assert_eq!(u.lines, vec!["x", "y"]),
        _ => panic!("expected plain lyrics"),
    }
    l.handle_lyrics(4, Err("late".to_string()));
    assert!(matches!(l.state, LyricsState::Plain(_)));
    l.wait_for(9, "T".to_string());
    l.handle_lyrics(9, Err("down".to_string()));
    match &l.state {
        LyricsState::Error(c) => assert_eq!(c.lines, vec!["Failed to find lyrics! Reason: down"]),
        _ => panic!("expected error"),
    }
}

#[test]
fn cover_loading() {
    let (mut c, q) = ImageComp::<u8>::new(Some("cov".to_string()), 3);
    assert_eq!(q.unwrap().ticket, 3);
    c.set_image(2, Ok(1));
    assert!(matches!(c.state, CoverState::Loading(3, _)));
    c.set_image(3, Ok(9));
    assert!(matches!(c.state, CoverState::Loaded(9)));
    c.wait_for(5);
    c.set_image(5, Err("x".to_string()));
    match &c.state {
        CoverState::Error(m) => assert_eq!(m.lines, vec!["Failed to", "load image!"]),
        _ => panic!("expected error"),
    }
    let (none, q) = ImageComp::<u8>::new(None, 3);
    assert!(q.is_none());
    assert!(matches!(none.state, CoverState::NotFound(_)));
}

#[test]
fn tasks_follow_requests() {
    let mut t = Tasks::new(false);
    t.update_task(&1, &QueryStatus::Requested { description: "List playlists".to_string(), show: true });
    t.update_task(&2, &QueryStatus::Requested { description: "Play".to_string(), show: false });
    t.update_task(&3, &QueryStatus::Requested { description: "Star".to_string(), show: true });
    assert_eq!(t.get_task_count(), 2);
    t.update_task(&3, &QueryStatus::Aborted(false));
    assert_eq!(t.tasks.get(&3), Some(&("Star".to_string(), TaskStatus::Failed)));
    let mut rows = t.gen_rows();
    assert_eq!(rows[0], ("ID".to_string(), "Task".to_string(), "Status".to_string()));
    rows.sort();
    assert_eq!(rows[0], ("1".to_string(), "List playlists".to_string(), "Running".to_string()));
    assert_eq!(rows[1], ("3".to_string(), "Star".to_string(), "Failed!".to_string()));
    t.update_task(&1, &QueryStatus::Finished);
    t.update_task(&3, &QueryStatus::Aborted(true));
    assert_eq!(t.get_task_count(), 0);
}

#[test]
fn tap_tempo() {
    let mut b = BPMToy::new(Some("b".to_string()));
    assert_eq!(b.init_msg, "Tap b for BPM");
    b.tap(0);
    assert_eq!(b.state, Bpm::NeedToTapMore);
    b.tap(500_000_000);
    assert_eq!(b.state, Bpm::Running { interval_count: 1, total_len: 500_000_000 });
    b.tap(500_000_000);
    assert_eq!(b.display, Display::Bpm { interval_count: 2, total_len: 1_000_000_000 });
    b.on_tick(1_000_000_000);
    assert_eq!(b.state, Bpm::Running { interval_count: 2, total_len: 1_000_000_000 });
    b.on_tick(3_000_000_001);
    assert_eq!(b.state, Bpm::Init);
    assert_eq!(b.display, Display::Bpm { interval_count: 2, total_len: 1_000_000_000 });
    b.tap(0);
    b.tap(4_000_000_000);
    assert_eq!(b.state, Bpm::NeedToTapMore);
    assert_eq!(BPMToy::new(None).init_msg, "Tap to BPM not bound!");
}

#[test]
fn media_details() {
    let mut m = media("id1", "Title");
    m.duration = Some(3725);
    m.size = Some(2_000_000);
    m.track = Some(3);
    let info = MediaInfo::new(m);
    assert_eq!(info.rows.len(), 19);
    assert_eq!(info.rows[0], ("Title".to_string(), "Title".to_string()));
    assert_eq!(info.rows[2], ("Album".to_string(), String::new()));
    assert_eq!(info.rows[4], ("Track".to_string(), "3".to_string()));
    assert_eq!(info.rows[9], ("Duration".to_string(), "01:02:05".to_string()));
    assert_eq!(info.rows[14], ("File Size".to_string(), "2 MB".to_string()));
}

#[test]
fn playlist_details() {
    let p = SimplePlaylist {
        id: "p".to_string(),
        name: "Mix".to_string(),
        owner: "me".to_string(),
        public: false,
        created: "c".to_string(),
        changed: "d".to_string(),
        song_count: 12,
        duration: 3725,
    };
    let info = PlaylistInfo::new(p);
    assert_eq!(info.rows[2], ("Public".to_string(), "No".to_string()));
    assert_eq!(info.rows[3], ("Song Count".to_string(), "12".to_string()));
    // Over an hour the middle field counts all minutes.
    assert_eq!(info.rows[4], ("Duration".to_string(), "01:62:05".to_string()));
}

#[test]
fn home_login_flow() {
    let creds = PasswordCredential {
        url: "https://s".to_string(),
        secure: true,
        username: "u".to_string(),
        password: "p".to_string(),
        legacy: false,
    };
    let (mut h, qs) = Home::new(Some(creds), "/cfg".to_string(), 10);
    assert_eq!(qs.len(), 2);
    assert_eq!(qs[1].ticket, 11);
    match &h.component {
        HomeComp::Loading(l) => assert_eq!(l.comp.lines[1], "URL: https://s"),
        _ => panic!("expected loading"),
    }
    assert!(!h.handle_ping(Err("refused".to_string())));
    match &h.component {
        HomeComp::Login(l) => assert_eq!(
            l.status_msg,
            Some(vec!["Failed to query the server with the given credentials!".to_string(), "Error: refused".to_string()])
        ),
        _ => panic!("expected login"),
    }
    assert!(h.handle_ping(Ok(())));
    assert!(matches!(h.component, HomeComp::Main));
    let (h2, qs2) = Home::new(None, "/cfg".to_string(), 10);
    assert!(qs2.is_empty());
    match &h2.component {
        HomeComp::Login(l) => assert_eq!(l.status_msg.as_ref().unwrap()[1], "(Loaded config from /cfg)"),
        _ => panic!("expected login"),
    }
}

#[test]
fn selection_variants() {
    assert_eq!(Selection::Single(1), Selection::Single(1));
}

#[test]
fn queue_list_takes_the_first_queue_only() {
    let mut q = QueueList::new(false);
    assert!(matches!(q.comp, QueueComp::Nothing(_)));
    assert_eq!(q.title(), "Queue");
    q.handle_in_queue(vec![media("1", "one"), media("2", "two")]);
    match &q.comp {
        QueueComp::Something(s) => {
            assert_eq!(s.list.len(), 2);
            assert_eq!(s.index, 0);
            assert_eq!(s.rows[0].cursor, "▶");
            assert!(s.rows[0].bold);
        }
        QueueComp::Nothing(_) => panic!("the queue should be shown"),
    }
    q.handle_in_queue(vec![media("3", "three")]);
    match &q.comp {
        QueueComp::Something(s) => assert_eq!(s.list[0].title, "one"),
        QueueComp::Nothing(_) => panic!("the queue should be kept"),
    }
    q.set_enabled(true);
    assert!(q.enabled);
}

#[test]
fn left_panel_starts_loading_playlists() {
    let (mut p, query) = LeftPanel::new(true, false, 7);
    assert_eq!(query.ticket, 7);
    assert!(matches!(query.query, HighLevelQuery::ListPlaylists));
    assert_eq!(p.title(), "Playlist View");
    let LeftComp::PlaylistList(pl) = &p.comp;
    assert!(pl.enabled);
    p.set_enabled(false);
    assert!(!p.enabled);
}

#[test]
fn now_playing_lines() {
    let mut m = media("1", "Song");
    let (p, reqs): (Playing<u8>, _) = Playing::new(true, m.clone(), false, false, 1, 2);
    assert!(reqs.is_empty());
    assert_eq!(p.headline(), "Unknown - Song");
    assert_eq!(p.album_line(), "Unknown");
    m.artist = Some("Band".to_string());
    m.album = Some("Record".to_string());
    let (mut p, _): (Playing<u8>, _) = Playing::new(false, m, false, false, 1, 2);
    assert_eq!(p.headline(), "Band - Song");
    assert_eq!(p.album_line(), "Record");
    p.set_pos(61_500);
    assert_eq!(p.label(), "01:01 ⏸ ??:??");
}

#[test]
fn search_and_filter_fields() {
    let saved = "old".to_string();
    assert_eq!(search_key(KeyInput::Esc, &saved, &"ab".to_string(), "ab".to_string()), ("old".to_string(), SearchType::Revert));
    assert_eq!(search_key(KeyInput::Enter, &saved, &"ab".to_string(), "ab".to_string()), ("ab".to_string(), SearchType::Confirm));
    assert_eq!(search_key(KeyInput::Backspace, &saved, &"".to_string(), "".to_string()), ("old".to_string(), SearchType::Revert));
    assert_eq!(search_key(KeyInput::Backspace, &saved, &"ab".to_string(), "a".to_string()), ("a".to_string(), SearchType::Normal));
    assert_eq!(search_key(KeyInput::Other, &saved, &"ab".to_string(), "abc".to_string()), ("abc".to_string(), SearchType::Normal));
    assert!(matches!(queue_search_key(KeyInput::Esc, &saved, "x".to_string()), SearchResult::ConfirmSearch(s) if s == "old"));
    assert!(matches!(queue_search_key(KeyInput::Enter, &saved, "x".to_string()), SearchResult::ConfirmSearch(s) if s == "x"));
    assert!(matches!(queue_search_key(KeyInput::Other, &saved, "xy".to_string()), SearchResult::ApplySearch(s) if s == "xy"));
    assert!(matches!(filter_key(KeyInput::Esc, "f".to_string()), FilterResult::Exit));
    assert!(matches!(filter_key(KeyInput::Enter, "".to_string()), FilterResult::ClearFilter));
    assert!(matches!(filter_key(KeyInput::Enter, "f".to_string()), FilterResult::ApplyFilter(f) if f == "f"));
    assert!(matches!(filter_key(KeyInput::Other, "f".to_string()), FilterResult::NoChange));
}

#[test]
fn delayed_request_released_after_its_delay() {
    let mut d = Delayer::new();
    assert!(d.queue_query(query(4, HighLevelQuery::ListPlaylists), 3).is_none());
    for _ in 0..3 {
        assert!(d.on_tick().is_none());
    }
    assert_eq!(d.on_tick().unwrap().ticket, 4);
    assert!(d.on_tick().is_none());
    assert!(d.on_tick().is_none());
}

#[test]
fn help_full_round() {
    let mut h = Help::new(page("Global"));
    h.display(vec![page("A"), page("B"), page("C")]);
    h.handle_local_action(HelpAction::Right);
    let start = h.current;
    for _ in 0..4 {
        h.handle_local_action(HelpAction::Right);
    }
    assert_eq!(h.current, start);
}

#[test]
fn popup_cursors() {
    let mut info = MediaInfo::new(media("1", "Song"));
    assert_eq!(info.cursor, Some(0));
    assert!(!info.handle_local_action(PopupAction::Down));
    assert_eq!(info.cursor, Some(1));
    assert!(!info.handle_local_action(PopupAction::Up));
    assert!(!info.handle_local_action(PopupAction::Up));
    assert_eq!(info.cursor, Some(0));
    assert!(!info.handle_local_action(PopupAction::Bottom));
    assert_eq!(info.cursor, Some(usize::MAX));
    assert!(info.handle_local_action(PopupAction::Close));
    let mut lyr = Unsynced::new("a\nb".to_string());
    lyr.handle_local_action(LyricsAction::Down);
    assert_eq!(lyr.cursor, Some(1));
    lyr.handle_local_action(LyricsAction::Top);
    assert_eq!(lyr.cursor, Some(0));
}

#[test]
fn playlist_info_cursor() {
    let pl = SimplePlaylist {
        id: "p".to_string(),
        name: "Mix".to_string(),
        owner: "me".to_string(),
        public: true,
        created: "c".to_string(),
        changed: "d".to_string(),
        song_count: 2,
        duration: 100,
    };
    let mut info = PlaylistInfo::new(pl);
    assert_eq!(info.cursor, Some(0));
    info.handle_local_action(ListAction::Down);
    assert_eq!(info.cursor, Some(1));
    info.handle_local_action(ListAction::ResetSelection);
    assert_eq!(info.cursor, Some(1));
}

#[test]
fn start_credentials() {
    let plain = PlainAuth { url: "u".to_string(), username: "n".to_string(), password: "p".to_string() };
    let c = choose_credential(None, Some(plain.clone()), true).unwrap();
    assert_eq!((c.url.as_str(), c.username.as_str(), c.password.as_str(), c.legacy), ("u", "n", "p", true));
    let c = choose_credential(Some(Some(("U".to_string(), "N".to_string(), "P".to_string()))), Some(plain.clone()), false).unwrap();
    assert_eq!(c.url, "U");
    assert!(choose_credential(Some(None), Some(plain), false).is_none());
    assert!(choose_credential(None, None, false).is_none());
}

#[test]
fn main_screen_composition() {
    let (mut m, q, mode): (MainScreen<u8>, _, _) = MainScreen::new(Some(None), false, Some("?".to_string()), page("Global"), 11);
    assert_eq!(q.ticket, 11);
    assert!(matches!(q.query, HighLevelQuery::ListPlaylists));
    assert_eq!(mode, ScreenMode::Normal);
    assert!(m.bpmtoy.is_some());
    assert_eq!(m.screen.message.1, "Welcome to Ampterm. Press ? at any point to see all of its keybindings.");
    assert!(m.pl_list.enabled && !m.pl_queue.enabled && !m.playqueue.enabled && !m.now_playing.enabled);
    m.handle_screen_action(ScreenAction::WindowRight);
    assert!(!m.pl_list.enabled && m.pl_queue.enabled);
    m.handle_screen_action(ScreenAction::WindowDown);
    assert!(m.now_playing.enabled && !m.pl_queue.enabled);
    let q = m.prepare_add_to_playlist(vec!["a".to_string(), "b".to_string()], vec![], 12);
    assert_eq!(q.ticket, 12);
    assert_eq!(m.screen.popup, Popup::SelectPlaylist);
    assert_eq!(m.select_playlist.as_ref().unwrap().title, "Add 2 items to a playlist");
    m.handle_popup_playlists(Err("down".to_string()));
    assert_eq!(m.screen.popup, Popup::NoPopup);
    assert_eq!(m.screen.message, (true, "down".to_string()));
    m.view_media_info(media("1", "Song"));
    assert_eq!(m.screen.popup, Popup::MediaInfo);
    m.handle_mode(ScreenMode::Insert);
    assert_eq!(m.mode, ScreenMode::Insert);
    let pl = SimplePlaylist {
        id: "p".to_string(),
        name: "Mix".to_string(),
        owner: "me".to_string(),
        public: true,
        created: "c".to_string(),
        changed: "d".to_string(),
        song_count: 2,
        duration: 100,
    };
    m.handle_list_playlists(Ok(vec![pl]));
    match &m.pl_list.comp {
        ampterm::components::home::mainscreen::playlistlist::Comp::Loaded(l) => assert_eq!(l.list[0].name, "Mix"),
        _ => panic!("the list should be loaded"),
    }
    let cmd = m.handle_queue(ampterm::action::action::QueueAction::Add(vec![media("x", "X")], ampterm::media::QueueLocation::Last));
    assert!(cmd.is_some());
    assert!(matches!(m.playqueue.comp, ampterm::components::home::mainscreen::playqueue::Comp::Something(_)));
    let (plain, _, _): (MainScreen<u8>, _, _) = MainScreen::new(None, true, None, page("Global"), 1);
    assert!(plain.bpmtoy.is_none());
    assert_eq!(plain.screen.message.1, "Welcome to Ampterm.");
}
