//! The logic of the program's main loop.
use vstd::prelude::*;

use crate::action::action::{Amount, Mode, TargetedAction};
use crate::compid::CompID;
use crate::query::{QueryStatus, ToQueryWorker};

use delayer::{hold, release_all, Delayer};

pub mod delayer;

verus! {

/// Where the main loop sends an action addressed to a part of the program.
#[derive(Clone, Copy, Debug, PartialEq, Eq, Structural)]
pub enum Route {
    /// Stop drawing until resumed.
    Suspend,
    /// Draw again.
    Resume,
    /// Clear the terminal, to draw everything again.
    ClearScreen,
    /// Leave the program.
    Quit,
    /// Send its request (`to_player`) to the player.
    Player,
    /// Hand it to the components, then send its request to the player.
    ComponentsThenPlayer,
    /// Drop the keys typed so far, then hand it to the components.
    ClearKeysThenComponents,
    /// Hand it to the components.
    Components,
}

/// A request for the player.
#[derive(Clone, Debug)]
pub enum PlayerRequest {
    Resume,
    Pause,
    Stop,
    ResumeOrPause,
    ChangeVolume(Amount),
    SetVolume(String),
    ChangeSpeed(Amount),
    SetSpeed(String),
    ChangePosition(Amount),
    SetPosition(String),
    GoToStart,
}

/// Where the action `a` goes.
pub open spec fn route_of(a: TargetedAction) -> Route {
    match a {
        TargetedAction::Suspend => Route::Suspend,
        TargetedAction::Resume => Route::Resume,
        TargetedAction::ClearScreen => Route::ClearScreen,
        TargetedAction::Quit => Route::Quit,
        TargetedAction::Play | TargetedAction::Pause | TargetedAction::Stop | TargetedAction::PlayOrPause
        | TargetedAction::ChangeVolume(_) | TargetedAction::SetVolume(_) | TargetedAction::ChangeSpeed(_)
        | TargetedAction::SetSpeed(_) | TargetedAction::GoToStart => Route::Player,
        TargetedAction::ChangePosition(_) | TargetedAction::SetPosition(_) => Route::ComponentsThenPlayer,
        TargetedAction::EndKeySeq => Route::ClearKeysThenComponents,
        _ => Route::Components,
    }
}

/// The player request that the action `a` makes, for the actions that make one.
pub open spec fn player_request_of(a: TargetedAction) -> Option<PlayerRequest> {
    match a {
        TargetedAction::Play => Some(PlayerRequest::Resume),
        TargetedAction::Pause => Some(PlayerRequest::Pause),
        TargetedAction::Stop => Some(PlayerRequest::Stop),
        TargetedAction::PlayOrPause => Some(PlayerRequest::ResumeOrPause),
        TargetedAction::ChangeVolume(d) => Some(PlayerRequest::ChangeVolume(d)),
        TargetedAction::SetVolume(v) => Some(PlayerRequest::SetVolume(v)),
        TargetedAction::ChangeSpeed(d) => Some(PlayerRequest::ChangeSpeed(d)),
        TargetedAction::SetSpeed(v) => Some(PlayerRequest::SetSpeed(v)),
        TargetedAction::ChangePosition(d) => Some(PlayerRequest::ChangePosition(d)),
        TargetedAction::SetPosition(v) => Some(PlayerRequest::SetPosition(v)),
        TargetedAction::GoToStart => Some(PlayerRequest::GoToStart),
        _ => None,
    }
}

/// Where the main loop sends the action `a`.
pub fn route(a: &TargetedAction) -> (r: Route)
    ensures
        r == route_of(*a),
{
    match a {
        TargetedAction::Suspend => Route::Suspend,
        TargetedAction::Resume => Route::Resume,
        TargetedAction::ClearScreen => Route::ClearScreen,
        TargetedAction::Quit => Route::Quit,
        TargetedAction::Play | TargetedAction::Pause | TargetedAction::Stop | TargetedAction::PlayOrPause
        | TargetedAction::ChangeVolume(_) | TargetedAction::SetVolume(_) | TargetedAction::ChangeSpeed(_)
        | TargetedAction::SetSpeed(_) | TargetedAction::GoToStart => Route::Player,
        TargetedAction::ChangePosition(_) | TargetedAction::SetPosition(_) => Route::ComponentsThenPlayer,
        TargetedAction::EndKeySeq => Route::ClearKeysThenComponents,
        _ => Route::Components,
    }
}

/// The player request that the action `a` makes, if it makes one.
pub fn to_player(a: TargetedAction) -> (r: Option<PlayerRequest>)
    ensures
        r == player_request_of(a),
{
    match a {
        TargetedAction::Play => Some(PlayerRequest::Resume),
        TargetedAction::Pause => Some(PlayerRequest::Pause),
        TargetedAction::Stop => Some(PlayerRequest::Stop),
        TargetedAction::PlayOrPause => Some(PlayerRequest::ResumeOrPause),
        TargetedAction::ChangeVolume(d) => Some(PlayerRequest::ChangeVolume(d)),
        TargetedAction::SetVolume(v) => Some(PlayerRequest::SetVolume(v)),
        TargetedAction::ChangeSpeed(d) => Some(PlayerRequest::ChangeSpeed(d)),
        TargetedAction::SetSpeed(v) => Some(PlayerRequest::SetSpeed(v)),
        TargetedAction::ChangePosition(d) => Some(PlayerRequest::ChangePosition(d)),
        TargetedAction::SetPosition(v) => Some(PlayerRequest::SetPosition(v)),
        TargetedAction::GoToStart => Some(PlayerRequest::GoToStart),
        _ => None,
    }
}

/// The actions that the main loop sends to the player carry a player request.
pub proof fn lemma_player_routes_have_requests(a: TargetedAction)
    requires
        route_of(a) == Route::Player || route_of(a) == Route::ComponentsThenPlayer,
    ensures
        player_request_of(a) is Some,
{
}

/// An action passed along the main loop.
pub enum LoopAction {
    /// Several actions, to be sent again one by one.
    Multiple(Vec<LoopAction>),
    /// An action addressed to a part of the program.
    Targeted(TargetedAction),
    /// The terminal has this new size.
    Resize(u16, u16),
    /// The program switches to this mode.
    ChangeMode(Mode),
    /// This request, to be sent once this many ticks have passed.
    ToQueryDelayed(ToQueryWorker, usize),
    /// This request, to be sent now.
    ToQuery(ToQueryWorker),
    /// This request for the player.
    ToPlayer(PlayerRequest),
    /// The query worker reports the state `res` of the request `ticket` made for `dest`.
    FromQuery { dest: Vec<CompID>, ticket: usize, res: QueryStatus },
}

/// What the main loop does, in order, for an action.
pub enum Effect {
    /// Send this action on the loop's channel again.
    Resend(LoopAction),
    /// Clear the terminal.
    ClearScreen,
    /// Send this to the player.
    Player(PlayerRequest),
    /// Hand this action to the components.
    Components(TargetedAction),
    /// Drop the keys typed so far.
    ClearKeys,
    /// Lay the screen out for this size.
    Resize(u16, u16),
    /// Tell the components that the program is in this mode.
    Mode(Mode),
    /// Tell this component that the request with this ticket was sent.
    Requested(CompID, usize),
    /// Send this request to the query worker.
    SendQuery(ToQueryWorker),
    /// Give this component the state of the request with this ticket.
    Deliver(CompID, usize, QueryStatus),
}

/// The main loop's own state.
pub struct MainLoop {
    pub should_quit: bool,
    pub should_suspend: bool,
    pub mode: Mode,
    pub delayer: Delayer,
}

/// The effects for the actions `v` that arrived together: each is sent again, in order.
pub open spec fn resent(v: Seq<LoopAction>) -> Seq<Effect> {
    v.map_values(|a: LoopAction| Effect::Resend(a))
}

/// The notices that request `ticket` was sent, for each of `dest` in order.
pub open spec fn notices(dest: Seq<CompID>, ticket: usize) -> Seq<Effect> {
    dest.map_values(|d: CompID| Effect::Requested(d, ticket))
}

/// The deliveries of the state `res` of request `ticket`, to each of `dest` in order.
pub open spec fn deliveries(dest: Seq<CompID>, ticket: usize, res: QueryStatus) -> Seq<Effect> {
    dest.map_values(|d: CompID| Effect::Deliver(d, ticket, res))
}

/// The effects of the targeted action `a`, as `route_of` sends it.
pub open spec fn targeted_effects(a: TargetedAction) -> Seq<Effect> {
    match route_of(a) {
        Route::Suspend | Route::Resume | Route::Quit => Seq::empty(),
        Route::ClearScreen => seq![Effect::ClearScreen],
        Route::Player => seq![Effect::Player(player_request_of(a)->0)],
        Route::ComponentsThenPlayer => seq![Effect::Components(a), Effect::Player(player_request_of(a)->0)],
        Route::ClearKeysThenComponents => seq![Effect::ClearKeys, Effect::Components(a)],
        Route::Components => seq![Effect::Components(a)],
    }
}

/// Appends a notice for each destination of a request.
fn push_notices(out: &mut Vec<Effect>, dest: &Vec<CompID>, ticket: usize)
    ensures
        final(out)@ == old(out)@ + notices(dest@, ticket),
{
    let ghost start = out@;
    let mut i: usize = 0;
    while i < dest.len()
        invariant
            i <= dest@.len(),
            out@ == start + notices(dest@.subrange(0, i as int), ticket),
        decreases dest@.len() - i,
    {
        out.push(Effect::Requested(dest[i], ticket));
        proof {
            assert(notices(dest@.subrange(0, i + 1), ticket) =~= notices(dest@.subrange(0, i as int), ticket).push(
                Effect::Requested(dest@[i as int], ticket),
            ));
        }
        i = i + 1;
    }
    assert(dest@.subrange(0, dest@.len() as int) =~= dest@);
}

/// The effects of a targeted action.
fn targeted(a: TargetedAction) -> (out: Vec<Effect>)
    ensures
        out@ == targeted_effects(a),
{
    let r = route(&a);
    let mut out: Vec<Effect> = Vec::new();
    match r {
        Route::Suspend | Route::Resume | Route::Quit => {},
        Route::ClearScreen => out.push(Effect::ClearScreen),
        Route::Player => {
            proof { lemma_player_routes_have_requests(a); }
            match to_player(a) {
                Some(req) => out.push(Effect::Player(req)),
                None => {},
            }
        },
        Route::ComponentsThenPlayer => match a {
            TargetedAction::ChangePosition(by) => {
                let copy = by.duplicate();
                out.push(Effect::Components(TargetedAction::ChangePosition(copy)));
                out.push(Effect::Player(PlayerRequest::ChangePosition(by)));
            },
            TargetedAction::SetPosition(to) => {
                let copy = to.clone();
                out.push(Effect::Components(TargetedAction::SetPosition(copy)));
                out.push(Effect::Player(PlayerRequest::SetPosition(to)));
            },
            _ => {},
        },
        Route::ClearKeysThenComponents => {
            out.push(Effect::ClearKeys);
            out.push(Effect::Components(a));
        },
        Route::Components => out.push(Effect::Components(a)),
    }
    assert(out@ =~= targeted_effects(a));
    out
}

impl MainLoop {
    /// The loop at start: running, in normal mode, holding no request.
    pub fn new() -> (r: Self)
        ensures
            !r.should_quit,
            !r.should_suspend,
            r.mode == Mode::Normal,
            r.delayer.wf(),
            r.delayer.queries@.len() == 0,
    {
        Self { should_quit: false, should_suspend: false, mode: Mode::Normal, delayer: Delayer::new() }
    }

    /// Handles one action: changes the loop's own state and returns what is to be done, in
    /// order.
    pub fn step(&mut self, action: LoopAction) -> (effects: Vec<Effect>)
        ensures
            old(self).delayer.wf() ==> final(self).delayer.wf(),
            match action {
                LoopAction::Multiple(v) => effects@ == resent(v@),
                LoopAction::Targeted(a) => effects@ == targeted_effects(a),
                LoopAction::Resize(w, h) => effects@ == seq![Effect::Resize(w, h)],
                LoopAction::ChangeMode(m) => effects@ == seq![Effect::Mode(m)],
                LoopAction::ToQueryDelayed(q, n) => effects@ == notices(q.dest@, q.ticket),
                LoopAction::ToQuery(q) => effects@ == notices(q.dest@, q.ticket) + seq![Effect::SendQuery(q)],
                LoopAction::ToPlayer(r) => effects@ == seq![Effect::Player(r)],
                LoopAction::FromQuery { dest, ticket, res } => effects@ == deliveries(dest@, ticket, res),
            },
            final(self).should_quit == (old(self).should_quit || action matches LoopAction::Targeted(
                TargetedAction::Quit,
            )),
            final(self).should_suspend == match action {
                LoopAction::Targeted(TargetedAction::Suspend) => true,
                LoopAction::Targeted(TargetedAction::Resume) => false,
                _ => old(self).should_suspend,
            },
            final(self).mode == match action {
                LoopAction::ChangeMode(m) => m,
                _ => old(self).mode,
            },
            final(self).delayer.queries@ == match action {
                LoopAction::ToQueryDelayed(q, n) => hold(old(self).delayer.queries@, q, n),
                _ => old(self).delayer.queries@,
            },
    {
        let mut out: Vec<Effect> = Vec::new();
        match action {
            LoopAction::Multiple(v) => {
                let ghost all = v@;
                let mut v = v;
                while v.len() > 0
                    invariant
                        out@.len() + v@.len() == all.len(),
                        v@ == all.subrange(out@.len() as int, all.len() as int),
                        out@ == resent(all.subrange(0, out@.len() as int)),
                    decreases v@.len(),
                {
                    let ghost k = out@.len() as int;
                    let a = v.remove(0);
                    proof {
                        assert(a == all[k]);
                        assert(v@ =~= all.subrange(k + 1, all.len() as int));
                        assert(resent(all.subrange(0, k + 1)) =~= resent(all.subrange(0, k)).push(Effect::Resend(all[k])));
                    }
                    out.push(Effect::Resend(a));
                }
                proof { assert(all.subrange(0, all.len() as int) =~= all); }
            },
            LoopAction::Targeted(a) => {
                match a {
                    TargetedAction::Suspend => self.should_suspend = true,
                    TargetedAction::Resume => self.should_suspend = false,
                    TargetedAction::Quit => self.should_quit = true,
                    _ => {},
                }
                out = targeted(a);
            },
            LoopAction::Resize(w, h) => out.push(Effect::Resize(w, h)),
            LoopAction::ChangeMode(m) => {
                self.mode = m;
                out.push(Effect::Mode(m));
            },
            LoopAction::ToQueryDelayed(q, n) => {
                push_notices(&mut out, &q.dest, q.ticket);
                let _superseded = self.delayer.queue_query(q, n);
            },
            LoopAction::ToQuery(q) => {
                push_notices(&mut out, &q.dest, q.ticket);
                out.push(Effect::SendQuery(q));
            },
            LoopAction::ToPlayer(r) => out.push(Effect::Player(r)),
            LoopAction::FromQuery { dest, ticket, res } => {
                let ghost start = out@;
                let mut i: usize = 0;
                while i < dest.len()
                    invariant
                        i <= dest@.len(),
                        out@ == deliveries(dest@.subrange(0, i as int), ticket, res),
                    decreases dest@.len() - i,
                {
                    out.push(Effect::Deliver(dest[i], ticket, res.duplicate()));
                    proof {
                        assert(deliveries(dest@.subrange(0, i + 1), ticket, res) =~= deliveries(
                            dest@.subrange(0, i as int),
                            ticket,
                            res,
                        ).push(Effect::Deliver(dest@[i as int], ticket, res)));
                    }
                    i = i + 1;
                }
                proof { assert(dest@.subrange(0, dest@.len() as int) =~= dest@); }
            },
        }
        out
    }

    /// A tick: the requests whose delay has run out, to send in order.
    pub fn on_tick(&mut self) -> (out: Vec<ToQueryWorker>)
        ensures
            old(self).delayer.wf() ==> final(self).delayer.wf(),
            (out@, final(self).delayer.queries@) == release_all(old(self).delayer.queries@),
            final(self).should_quit == old(self).should_quit,
            final(self).should_suspend == old(self).should_suspend,
            final(self).mode == old(self).mode,
    {
        self.delayer.release_due()
    }
}

} // verus!
