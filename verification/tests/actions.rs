use ampterm::app::{route, to_player, Effect, LoopAction, MainLoop, PlayerRequest, Route};
use ampterm::compid::CompID;
use ampterm::query::{HighLevelQuery, QueryStatus, ToQueryWorker};
use ampterm::action::action::{Amount, Mode, QueueAction, TargetedAction};
use ampterm::action::getplaylists::GetPlaylistsResponse;
use ampterm::action::localaction::{HelpAction, ListAction, LyricsAction, PlayQueueAction, PlaylistListAction, PlaylistQueueAction};
use ampterm::action::login::{Credentials, LoginQuery, LoginResponse};
use ampterm::action::useraction::{Common, Global, Visual};
use ampterm::cli::Cli;
use ampterm::client::{Client, Credential};
use ampterm::media::QueueLocation;

#[test]
fn action_descriptions() {
    assert_eq!(Mode::Insert.to_string(), "INSERT");
    assert_eq!(ampterm::action::globalaction::Mode::Visual.to_string(), "VISUAL");
    assert_eq!(QueueAction::Add(vec![], QueueLocation::Next).to_string(), "Play selected items next");
    assert_eq!(
        QueueAction::RandomAdd(vec![], QueueLocation::Last).to_string(),
        "Shuffle the selected items and add them to the end of the queue"
    );
    assert_eq!(ListAction::DeselectMode.to_string(), "Enter deselection mode");
    assert_eq!(PlayQueueAction::PlaySelected.to_string(), "Jump to the cursor's position");
    assert_eq!(LyricsAction::Bottom.to_string(), "Move to bottom");
    assert_eq!(PlaylistListAction::RandomAdd(QueueLocation::Front).to_string(), "Shuffle the playlist and play it immediately");
    assert_eq!(PlaylistQueueAction::Refresh.to_string(), "Fetch playlist from the server again");
    assert_eq!(HelpAction::Close.to_string(), "Close");
    assert_eq!(Global::Previous.to_string(), "Go back to previous music");
    assert_eq!(Common::Add(QueueLocation::Last).to_string(), "Add items to the end of queue");
    assert_eq!(Visual::ExitSave.to_string(), "Exit visual mode, saving selection");
    assert_eq!(LoginResponse::Other("x".to_string()).to_string(), "Other");
    assert_eq!(GetPlaylistsResponse::Failure("x".to_string()).to_string(), "Failure");
    let c = Credentials::new("u".to_string(), "n".to_string(), "p".to_string());
    assert_eq!(LoginQuery::Login(c.clone()).to_string(), "Login");
    assert_eq!(c.password, "p");
}

#[test]
fn clients() {
    let c = Client::password("u".to_string(), "n".to_string(), "p".to_string(), true, true).unwrap();
    assert_eq!(c.auth, Credential::Password("p".to_string(), true));
    let t = Client::token("u".to_string(), "n".to_string(), "k".to_string(), true).unwrap();
    assert_eq!(t.auth, Credential::APIKey("k".to_string()));
    assert_eq!(t.url, "u");
    assert!(Client::password("u".to_string(), "n".to_string(), "bad".to_string(), false, false).is_err());
    assert!(Client::token("u".to_string(), "n".to_string(), "bad".to_string(), false).is_err());
}

#[test]
fn incompatible_flags() {
    let mut cli = Cli { config: Some("dir".to_string()), data: Some("d".to_string()), no_config: true, no_data: true };
    assert_eq!(cli.is_valid(), Some("Incompatible flags set: --config and --no-config".to_string()));
    cli.no_config = false;
    assert_eq!(cli.is_valid(), Some("Incompatible flags set: --data and --no-data".to_string()));
    cli.no_data = false;
    assert_eq!(cli.is_valid(), None);
}

#[test]
fn targeted_action_descriptions() {
    let down = Amount { negative: true, magnitude: "0.1".to_string() };
    let up = Amount { negative: false, magnitude: "5".to_string() };
    assert_eq!(TargetedAction::ChangeVolume(down.clone()).to_string(), "Decrease volume by 0.1");
    assert_eq!(TargetedAction::ChangeSpeed(up.clone()).to_string(), "Increase playback speed by 5");
    assert_eq!(TargetedAction::ChangePosition(up).to_string(), "Seek forward 5 seconds");
    assert_eq!(TargetedAction::ChangePosition(down).to_string(), "Seek backwards 0.1 seconds");
    assert_eq!(TargetedAction::SetVolume("0.5".to_string()).to_string(), "Set volume to 0.5");
    assert_eq!(TargetedAction::SetPosition("30".to_string()).to_string(), "Set current position to 30s");
    assert_eq!(TargetedAction::ClosePopup.to_string(), "Close help menu");
    assert_eq!(TargetedAction::Error("x".to_string()).to_string(), "Display error message");
    assert_eq!(
        TargetedAction::Queue(QueueAction::Add(vec![], QueueLocation::Front)).to_string(),
        "Play selected items immediately"
    );
}

#[test]
fn main_loop_routes() {
    assert_eq!(route(&TargetedAction::Quit), Route::Quit);
    assert_eq!(route(&TargetedAction::Play), Route::Player);
    assert_eq!(route(&TargetedAction::SetPosition("3".to_string())), Route::ComponentsThenPlayer);
    assert_eq!(route(&TargetedAction::EndKeySeq), Route::ClearKeysThenComponents);
    assert_eq!(route(&TargetedAction::ToggleHelp), Route::Components);
    assert!(matches!(to_player(TargetedAction::Play), Some(PlayerRequest::Resume)));
    match to_player(TargetedAction::ChangeVolume(Amount { negative: true, magnitude: "0.1".to_string() })) {
        Some(PlayerRequest::ChangeVolume(a)) => assert!(a.negative && a.magnitude == "0.1"),
        _ => panic!("a volume change expected"),
    }
    assert!(to_player(TargetedAction::OpenHelp).is_none());
}

#[test]
fn main_loop_steps() {
    let mut l = MainLoop::new();
    let q = ToQueryWorker::new(3, vec![CompID::PlaylistList, CompID::MainScreen], HighLevelQuery::ListPlaylists);
    let e = l.step(LoopAction::ToQuery(q));
    assert_eq!(e.len(), 3);
    assert!(matches!(e[0], Effect::Requested(CompID::PlaylistList, 3)));
    assert!(matches!(e[1], Effect::Requested(CompID::MainScreen, 3)));
    assert!(matches!(&e[2], Effect::SendQuery(q) if q.ticket == 3));
    let e = l.step(LoopAction::Multiple(vec![LoopAction::Resize(1, 2), LoopAction::ChangeMode(Mode::Insert)]));
    assert!(matches!(e[0], Effect::Resend(LoopAction::Resize(1, 2))));
    assert!(matches!(e[1], Effect::Resend(LoopAction::ChangeMode(Mode::Insert))));
    let e = l.step(LoopAction::ChangeMode(Mode::Visual));
    assert_eq!(l.mode, Mode::Visual);
    assert!(matches!(e[0], Effect::Mode(Mode::Visual)));
    let e = l.step(LoopAction::Targeted(TargetedAction::SetPosition("7".to_string())));
    assert!(matches!(&e[0], Effect::Components(TargetedAction::SetPosition(s)) if s == "7"));
    assert!(matches!(&e[1], Effect::Player(PlayerRequest::SetPosition(s)) if s == "7"));
    let e = l.step(LoopAction::Targeted(TargetedAction::EndKeySeq));
    assert!(matches!(e[0], Effect::ClearKeys));
    assert!(matches!(e[1], Effect::Components(TargetedAction::EndKeySeq)));
    assert!(l.step(LoopAction::Targeted(TargetedAction::Suspend)).is_empty());
    assert!(l.should_suspend);
    assert!(l.step(LoopAction::Targeted(TargetedAction::Quit)).is_empty());
    assert!(l.should_quit);
    let e = l.step(LoopAction::FromQuery { dest: vec![CompID::NowPlaying], ticket: 9, res: QueryStatus::Finished });
    assert!(matches!(e[0], Effect::Deliver(CompID::NowPlaying, 9, QueryStatus::Finished)));
    let d = ToQueryWorker::new(5, vec![CompID::MainScreen], HighLevelQuery::ListPlaylists);
    let e = l.step(LoopAction::ToQueryDelayed(d, 1));
    assert_eq!(e.len(), 1);
    assert!(l.on_tick().is_empty());
    let out = l.on_tick();
    assert_eq!(out.len(), 1);
    assert_eq!(out[0].ticket, 5);
    assert!(l.on_tick().is_empty());
}
