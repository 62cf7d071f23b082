use ampterm::action::action::QueueAction;
use ampterm::action::localaction::{PlayQueueAction, PlaylistQueueAction};
use ampterm::components::home::mainscreen::playlistqueue::loaded::{Loaded, PlaylistOutcome};
use ampterm::action::Selection;
use ampterm::components::home::mainscreen::playqueue::something::{CurrentItem, LocalOutcome, QueueCommand, Something};
use ampterm::components::home::mainscreen::playqueue::{Comp, PlayQueue};
use ampterm::media::{Media, QueueLocation};
use ampterm::selection::ModifiableList;

fn media(id: &str, title: &str) -> Media {
    Media {
        id: id.to_string(),
        title: title.to_string(),
        album: None,
        artist: None,
        track: None,
        year: None,
        genre: None,
        duration: None,
        play_count: None,
        bpm: None,
        content_type: None,
        path: None,
        bit_rate: None,
        sampling_rate: None,
        size: None,
        user_rating: None,
        average_rating: None,
        starred: None,
        cover_art: None,
    }
}

fn ids(list: &[Media]) -> Vec<String> {
    list.iter().map(|m| m.id.clone()).collect()
}

fn played(cmd: &QueueCommand) -> Option<String> {
    match cmd {
        QueueCommand::Play(m) => Some(m.id.clone()),
        QueueCommand::Stop => None,
    }
}

fn queue_of(n: usize) -> Something {
    let list: Vec<Media> = (0..n).map(|i| media(&format!("m{i}"), &format!("Music {i}"))).collect();
    Something::new(true, list).0
}

#[test]
fn new_queue_plays_first_item() {
    let (q, cmd) = Something::new(false, vec![media("a", "A"), media("b", "B")]);
    assert_eq!(played(&cmd), Some("a".to_string()));
    assert_eq!(q.now_playing, CurrentItem::InQueue(0));
    assert_eq!(q.rows.len(), 2);
    assert_eq!(q.rows[0].cursor, "▶");
    assert!(q.rows[0].bold && !q.rows[0].played);
    assert_eq!(q.rows[1].cursor, " ");
    assert!(!q.rows[1].played && !q.rows[1].bold);
}

#[test]
fn next_then_previous_returns_to_same_item() {
    let mut q = queue_of(3);
    assert_eq!(played(&q.skip(1)), Some("m1".to_string()));
    assert_eq!(q.now_playing, CurrentItem::InQueue(1));
    assert_eq!(played(&q.skip(-1)), Some("m0".to_string()));
    assert_eq!(q.now_playing, CurrentItem::InQueue(0));
}

#[test]
fn skipping_past_either_end_stops() {
    let mut q = queue_of(2);
    assert_eq!(played(&q.skip(-1)), None);
    assert_eq!(q.now_playing, CurrentItem::BeforeFirst);
    assert!(q.rows.iter().all(|r| !r.played && r.cursor == " "));
    assert_eq!(played(&q.skip(1)), Some("m0".to_string()));
    q.skip(1);
    assert_eq!(played(&q.skip(1)), None);
    assert_eq!(q.now_playing, CurrentItem::AfterLast);
    assert!(q.rows.iter().all(|r| r.played));
    assert_eq!(played(&q.skip(-1)), Some("m1".to_string()));
}

#[test]
fn delete_other_items_keeps_playing_item() {
    let mut q = queue_of(5);
    q.play_selected(3);
    q.delete(&Selection::Range(0, 1));
    assert_eq!(ids(&q.list.0), vec!["m2", "m3", "m4"]);
    assert_eq!(q.now_playing, CurrentItem::InQueue(1));
    assert_eq!(q.list.0[1].id, "m3");
    assert_eq!(q.rows[1].cursor, "▶");
}

#[test]
fn delete_playing_item_marks_last_played() {
    // Items three to five are deleted while item four plays.
    let mut q = queue_of(7);
    q.play_selected(3);
    q.delete(&Selection::Range(2, 4));
    assert_eq!(ids(&q.list.0), vec!["m0", "m1", "m5", "m6"]);
    assert_eq!(q.now_playing, CurrentItem::NotInQueue(1));
    assert_eq!(q.rows[1].cursor, "▷");
    assert!(q.rows[1].played && q.rows[1].bold);
    // Skipping backward plays the last played item, skipping forward the next one.
    let mut back = Something::new(true, q.list.0.clone()).0;
    back.now_playing = q.now_playing;
    assert_eq!(played(&back.skip(-1)), Some("m1".to_string()));
    assert_eq!(played(&q.skip(1)), Some("m5".to_string()));
}

#[test]
fn delete_everything_before_goes_before_first() {
    let mut q = queue_of(3);
    q.delete(&Selection::Multiple(vec![true, false, false]));
    assert_eq!(q.now_playing, CurrentItem::BeforeFirst);
    assert_eq!(ids(&q.list.0), vec!["m1", "m2"]);
}

#[test]
fn queue_next_and_last_positions() {
    let mut q = queue_of(3);
    q.play_selected(1);
    assert!(q.add_to_queue(vec![media("n", "N")], QueueLocation::Next).is_none());
    assert_eq!(ids(&q.list.0), vec!["m0", "m1", "n", "m2"]);
    assert_eq!(q.now_playing, CurrentItem::InQueue(1));
    assert!(q.add_to_queue(vec![media("l", "L")], QueueLocation::Last).is_none());
    assert_eq!(ids(&q.list.0), vec!["m0", "m1", "n", "m2", "l"]);
}

#[test]
fn queue_front_plays_first_added() {
    let mut q = queue_of(3);
    q.play_selected(1);
    let cmd = q.add_to_queue(vec![media("f", "F"), media("g", "G")], QueueLocation::Front).unwrap();
    assert_eq!(played(&cmd), Some("f".to_string()));
    assert_eq!(ids(&q.list.0), vec!["m0", "f", "g", "m1", "m2"]);
    assert_eq!(q.now_playing, CurrentItem::InQueue(1));
}

#[test]
fn queue_front_before_first_plays_it() {
    let mut q = queue_of(2);
    q.skip(-1);
    let cmd = q.add_to_queue(vec![media("f", "F")], QueueLocation::Front).unwrap();
    assert_eq!(played(&cmd), Some("f".to_string()));
    assert_eq!(q.now_playing, CurrentItem::InQueue(0));
    assert_eq!(ids(&q.list.0), vec!["f", "m0", "m1"]);
    q.skip(5);
    assert_eq!(q.now_playing, CurrentItem::AfterLast);
    let cmd = q.add_to_queue(vec![media("g", "G")], QueueLocation::Front).unwrap();
    assert_eq!(played(&cmd), Some("g".to_string()));
    assert_eq!(q.now_playing, CurrentItem::InQueue(3));
}

#[test]
fn random_add_is_a_permutation() {
    let mut q = queue_of(1);
    let items: Vec<Media> = (0..20).map(|i| media(&format!("r{i}"), "R")).collect();
    q.handle_queue_action(QueueAction::RandomAdd(items, QueueLocation::Last));
    let mut added = ids(&q.list.0[1..]);
    added.sort();
    let mut expected: Vec<String> = (0..20).map(|i| format!("r{i}")).collect();
    expected.sort();
    assert_eq!(added, expected);
    assert_eq!(q.list.0[0].id, "m0");
}

#[test]
fn empty_play_queue_takes_plain_additions_only() {
    let mut pq = PlayQueue::new(true);
    assert!(pq.handle_queue_action(QueueAction::RandomAdd(vec![media("a", "A")], QueueLocation::Last)).is_none());
    assert!(matches!(pq.comp, Comp::Nothing(_)));
    let cmd = pq.handle_queue_action(QueueAction::Add(vec![media("a", "A"), media("b", "B")], QueueLocation::Last));
    assert_eq!(played(&cmd.unwrap()), Some("a".to_string()));
    assert!(matches!(pq.comp, Comp::Something(_)));
}

#[test]
fn modifiable_list_operations() {
    let mut l = ModifiableList::new(vec![1, 2, 3, 4]);
    l.add_rows_at(vec![9, 8], 1);
    assert_eq!(l.0, vec![1, 9, 8, 2, 3, 4]);
    assert_eq!(l.move_item_to(&Selection::Single(1), 3), Some((2, false)));
    assert_eq!(l.move_item_to(&Selection::Single(3), 3), Some((2, true)));
    assert_eq!(l.move_item_to(&Selection::Range(0, 3), 3), None);
    l.delete(&Selection::Multiple(vec![false, true, true]));
    assert_eq!(l.0, vec![1, 2, 3, 4]);
}

#[test]
fn toggle_star_requests_and_applies() {
    let mut list: Vec<Media> = (0..3).map(|i| media(&format!("m{i}"), "M")).collect();
    list[1].starred = Some("2024-01-01".to_string());
    let mut q = Something::new(true, list).0;
    let reqs = q.toggle_star(&Selection::Range(0, 1));
    assert_eq!(reqs, vec![("m0".to_string(), true), ("m1".to_string(), false)]);
    assert_eq!(q.list.0[0].starred, Some("Starred".to_string()));
    assert_eq!(q.list.0[1].starred, None);
    assert_eq!(q.list.0[2].starred, None);
    assert_eq!(q.rows[0].marker, "★");
    assert_eq!(q.rows[1].marker, "");
}

#[test]
fn set_star_marks_every_copy() {
    let mut q = Something::new(true, vec![media("x", "X"), media("y", "Y"), media("x", "X")]).0;
    q.set_star(&"x".to_string(), true);
    assert!(q.list.0[0].starred.is_some());
    assert!(q.list.0[1].starred.is_none());
    assert!(q.list.0[2].starred.is_some());
}

#[test]
fn queue_key_actions() {
    let mut q = queue_of(4);
    match q.handle_local_action(PlayQueueAction::PlaySelected, None, Some(2)) {
        LocalOutcome::Player(cmd) => assert_eq!(played(&cmd), Some("m2".to_string())),
        _ => panic!("playing the row under the cursor"),
    }
    assert_eq!(q.now_playing, CurrentItem::InQueue(2));
    assert!(matches!(q.handle_local_action(PlayQueueAction::Delete, Some(Selection::Single(0)), None), LocalOutcome::Done));
    assert_eq!(ids(&q.list.0), vec!["m1", "m2", "m3"]);
    assert_eq!(q.now_playing, CurrentItem::InQueue(1));
    match q.handle_local_action(PlayQueueAction::ToggleStar, Some(Selection::Range(0, 1)), None) {
        LocalOutcome::Stars(reqs) => assert_eq!(reqs, vec![("m1".to_string(), true), ("m2".to_string(), true)]),
        _ => panic!("star requests expected"),
    }
    assert!(q.list.0[0].starred.is_some() && q.list.0[2].starred.is_none());
    match q.handle_local_action(PlayQueueAction::ToggleStar, None, None) {
        LocalOutcome::Stars(reqs) => assert!(reqs.is_empty()),
        _ => panic!("star requests expected"),
    }
    assert!(matches!(q.handle_local_action(PlayQueueAction::PlaySelected, None, None), LocalOutcome::Done));
    assert_eq!(q.now_playing, CurrentItem::InQueue(1));
}

#[test]
fn playlist_key_actions() {
    let l = Loaded::new("Mix".to_string(), "p1".to_string(), vec![media("a", "A"), media("b", "B"), media("c", "C")], true);
    match l.handle_local_action(PlaylistQueueAction::Add(QueueLocation::Last), Some(Selection::Range(1, 2)), 3) {
        PlaylistOutcome::Queue(QueueAction::Add(items, at)) => {
            assert_eq!(ids(&items), vec!["b", "c"]);
            assert_eq!(at, QueueLocation::Last);
        }
        _ => panic!("a queue change expected"),
    }
    match l.handle_local_action(PlaylistQueueAction::RandomAdd(QueueLocation::Next), Some(Selection::Single(0)), 3) {
        PlaylistOutcome::Queue(QueueAction::RandomAdd(items, at)) => {
            assert_eq!(ids(&items), vec!["a"]);
            assert_eq!(at, QueueLocation::Next);
        }
        _ => panic!("a shuffled queue change expected"),
    }
    assert!(matches!(l.handle_local_action(PlaylistQueueAction::Add(QueueLocation::Front), None, 3), PlaylistOutcome::Done));
    match l.handle_local_action(PlaylistQueueAction::Refresh, None, 9) {
        PlaylistOutcome::Reload(q) => assert_eq!(q.ticket, 9),
        _ => panic!("a reload expected"),
    }
    match l.handle_local_action(PlaylistQueueAction::ToggleStar, Some(Selection::Multiple(vec![true, false, true])), 3) {
        PlaylistOutcome::Stars(reqs) => assert_eq!(reqs, vec![("a".to_string(), true), ("c".to_string(), true)]),
        _ => panic!("star requests expected"),
    }
}

#[test]
fn skip_far_back_stops_before_first() {
    let mut q = queue_of(3);
    let cmd = q.skip(i32::MIN + 1);
    assert_eq!(played(&cmd), None);
    assert_eq!(q.now_playing, CurrentItem::BeforeFirst);
    let cmd = q.skip(i32::MAX);
    assert_eq!(played(&cmd), None);
    assert_eq!(q.now_playing, CurrentItem::AfterLast);
}
