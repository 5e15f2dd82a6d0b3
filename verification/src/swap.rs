//! The course of the swap of two test instances.
//!
//! A [`Swap`] names one command at a time. Whoever runs it carries the command
//! out and hands the outcome back.

use crate::fade::{fade_wait_ms, FADE_DURATION_MS, FADE_MARGIN_MS};
use crate::geometry::Rect;
use crate::overlay::OverlayCmd;
use crate::transition::{
    initial_instance_rect, spec_initial_instance_rect, Who, DRAIN_TIMEOUT_SECS,
    POST_TRANSITION_HOLD_SECS, READY_TIMEOUT_SECS, SETTLE_MS, SHUTDOWN_TIMEOUT_SECS,
};
use vstd::prelude::*;
use vstd::string::*;

verus! {

/// Where the swap stands.
#[derive(Debug, Clone, Copy, PartialEq, Eq, Structural)]
pub enum Stage {
    LaunchA,
    ReadyA,
    Hotkey,
    FindA,
    ShowOverlay,
    FadeIn,
    ShutdownA,
    DrainA,
    ExitA,
    LaunchB,
    ReadyB,
    RevealB,
    Settle,
    HideOverlay,
    FadeOut,
    Hold,
    ShutdownB,
    DrainB,
    ExitB,
    QuitOverlay,
    JoinOverlay,
    Done,
    Aborted(SwapError),
}

/// Why a swap was given up.
#[derive(Debug, Clone, Copy, PartialEq, Eq, Structural)]
pub enum SwapError {
    /// The instance could not be launched.
    Launch(Who),
    /// The instance did not become ready.
    Ready(Who),
    HotkeyClosed,
    /// The overlay thread is gone.
    OverlayGone,
    /// The instance could not be sent a message.
    Disconnected(Who),
    /// Instance A did not exit in time.
    ExitA,
    /// Instance A could not be waited for.
    WaitA,
}

/// What is to be done next.
#[derive(Debug, Clone, Copy, PartialEq, Eq, Structural)]
pub enum Command {
    /// Launch the instance at this rectangle, and accept its connection.
    Launch { who: Who, rect: Rect, hidden: bool },
    AwaitReady { who: Who, timeout_secs: u64 },
    AwaitHotkey,
    /// Find the instance's window by its title and read its rectangle.
    FindRect { who: Who },
    Overlay(OverlayCmd),
    Sleep { ms: u64 },
    /// Tell the instance to shut down.
    Shutdown { who: Who },
    /// Wait for a last message, whatever it is.
    Drain { who: Who, timeout_secs: u64 },
    AwaitExit { who: Who, timeout_secs: u64 },
    /// Tell the instance to show its window.
    Reveal { who: Who },
    JoinOverlay,
    Finish,
    Abort(SwapError),
}

/// How a command went.
#[derive(Debug, Clone, Copy, PartialEq, Eq, Structural)]
pub enum Outcome {
    Done,
    /// It failed; of a wait: the time allowed has passed.
    Failed,
    /// The instance could not be waited for.
    WaitFailed,
    /// The rectangle looked for, where it could be read.
    Rect(Option<Rect>),
}

/// The course of a swap.
#[derive(Debug, Clone, Copy, PartialEq, Eq, Structural)]
pub struct Swap {
    pub stage: Stage,
    /// Where A stands, as far as known.
    pub a_rect: Rect,
}

impl Stage {
    /// The swap is over.
    pub open spec fn spec_over(self) -> bool {
        self is Done || self is Aborted
    }

    /// The stage that follows where all goes well.
    pub open spec fn spec_next(self) -> Stage {
        match self {
            Stage::LaunchA => Stage::ReadyA,
            Stage::ReadyA => Stage::Hotkey,
            Stage::Hotkey => Stage::FindA,
            Stage::FindA => Stage::ShowOverlay,
            Stage::ShowOverlay => Stage::FadeIn,
            Stage::FadeIn => Stage::ShutdownA,
            Stage::ShutdownA => Stage::DrainA,
            Stage::DrainA => Stage::ExitA,
            Stage::ExitA => Stage::LaunchB,
            Stage::LaunchB => Stage::ReadyB,
            Stage::ReadyB => Stage::RevealB,
            Stage::RevealB => Stage::Settle,
            Stage::Settle => Stage::HideOverlay,
            Stage::HideOverlay => Stage::FadeOut,
            Stage::FadeOut => Stage::Hold,
            Stage::Hold => Stage::ShutdownB,
            Stage::ShutdownB => Stage::DrainB,
            Stage::DrainB => Stage::ExitB,
            Stage::ExitB => Stage::QuitOverlay,
            Stage::QuitOverlay => Stage::JoinOverlay,
            Stage::JoinOverlay => Stage::Done,
            Stage::Done => Stage::Done,
            Stage::Aborted(error) => Stage::Aborted(error),
        }
    }

    /// The error that a failure at this stage is; none where a failure is passed
    /// over.
    pub open spec fn spec_failure(self) -> Option<SwapError> {
        match self {
            Stage::LaunchA => Some(SwapError::Launch(Who::A)),
            Stage::ReadyA => Some(SwapError::Ready(Who::A)),
            Stage::Hotkey => Some(SwapError::HotkeyClosed),
            Stage::ShowOverlay => Some(SwapError::OverlayGone),
            Stage::ShutdownA => Some(SwapError::Disconnected(Who::A)),
            Stage::ExitA => Some(SwapError::ExitA),
            Stage::LaunchB => Some(SwapError::Launch(Who::B)),
            Stage::ReadyB => Some(SwapError::Ready(Who::B)),
            Stage::RevealB => Some(SwapError::Disconnected(Who::B)),
            Stage::HideOverlay => Some(SwapError::OverlayGone),
            Stage::ShutdownB => Some(SwapError::Disconnected(Who::B)),
            _ => None,
        }
    }

    fn next(self) -> (res: Stage)
        ensures
            res == self.spec_next(),
    {
        match self {
            Stage::LaunchA => Stage::ReadyA,
            Stage::ReadyA => Stage::Hotkey,
            Stage::Hotkey => Stage::FindA,
            Stage::FindA => Stage::ShowOverlay,
            Stage::ShowOverlay => Stage::FadeIn,
            Stage::FadeIn => Stage::ShutdownA,
            Stage::ShutdownA => Stage::DrainA,
            Stage::DrainA => Stage::ExitA,
            Stage::ExitA => Stage::LaunchB,
            Stage::LaunchB => Stage::ReadyB,
            Stage::ReadyB => Stage::RevealB,
            Stage::RevealB => Stage::Settle,
            Stage::Settle => Stage::HideOverlay,
            Stage::HideOverlay => Stage::FadeOut,
            Stage::FadeOut => Stage::Hold,
            Stage::Hold => Stage::ShutdownB,
            Stage::ShutdownB => Stage::DrainB,
            Stage::DrainB => Stage::ExitB,
            Stage::ExitB => Stage::QuitOverlay,
            Stage::QuitOverlay => Stage::JoinOverlay,
            Stage::JoinOverlay => Stage::Done,
            Stage::Done => Stage::Done,
            Stage::Aborted(error) => Stage::Aborted(error),
        }
    }

    fn failure(self) -> (res: Option<SwapError>)
        ensures
            res == self.spec_failure(),
    {
        match self {
            Stage::LaunchA => Some(SwapError::Launch(Who::A)),
            Stage::ReadyA => Some(SwapError::Ready(Who::A)),
            Stage::Hotkey => Some(SwapError::HotkeyClosed),
            Stage::ShowOverlay => Some(SwapError::OverlayGone),
            Stage::ShutdownA => Some(SwapError::Disconnected(Who::A)),
            Stage::ExitA => Some(SwapError::ExitA),
            Stage::LaunchB => Some(SwapError::Launch(Who::B)),
            Stage::ReadyB => Some(SwapError::Ready(Who::B)),
            Stage::RevealB => Some(SwapError::Disconnected(Who::B)),
            Stage::HideOverlay => Some(SwapError::OverlayGone),
            Stage::ShutdownB => Some(SwapError::Disconnected(Who::B)),
            _ => None,
        }
    }
}

impl Swap {
    /// A swap at its start.
    pub open spec fn start() -> Swap {
        Swap { stage: Stage::LaunchA, a_rect: spec_initial_instance_rect() }
    }

    /// What is to be done at this point.
    pub open spec fn spec_command(self) -> Command {
        match self.stage {
            Stage::LaunchA => Command::Launch {
                who: Who::A,
                rect: spec_initial_instance_rect(),
                hidden: false,
            },
            Stage::ReadyA => Command::AwaitReady {
                who: Who::A,
                timeout_secs: READY_TIMEOUT_SECS,
            },
            Stage::Hotkey => Command::AwaitHotkey,
            Stage::FindA => Command::FindRect { who: Who::A },
            Stage::ShowOverlay => Command::Overlay(OverlayCmd::ShowAt { rect: self.a_rect }),
            Stage::FadeIn => Command::Sleep { ms: (FADE_DURATION_MS + FADE_MARGIN_MS) as u64 },
            Stage::ShutdownA => Command::Shutdown { who: Who::A },
            Stage::DrainA => Command::Drain { who: Who::A, timeout_secs: DRAIN_TIMEOUT_SECS },
            Stage::ExitA => Command::AwaitExit {
                who: Who::A,
                timeout_secs: SHUTDOWN_TIMEOUT_SECS,
            },
            Stage::LaunchB => Command::Launch { who: Who::B, rect: self.a_rect, hidden: true },
            Stage::ReadyB => Command::AwaitReady {
                who: Who::B,
                timeout_secs: READY_TIMEOUT_SECS,
            },
            Stage::RevealB => Command::Reveal { who: Who::B },
            Stage::Settle => Command::Sleep { ms: SETTLE_MS },
            Stage::HideOverlay => Command::Overlay(OverlayCmd::Hide),
            Stage::FadeOut => Command::Sleep { ms: (FADE_DURATION_MS + FADE_MARGIN_MS) as u64 },
            Stage::Hold => Command::Sleep { ms: (POST_TRANSITION_HOLD_SECS * 1000) as u64 },
            Stage::ShutdownB => Command::Shutdown { who: Who::B },
            Stage::DrainB => Command::Drain { who: Who::B, timeout_secs: DRAIN_TIMEOUT_SECS },
            Stage::ExitB => Command::AwaitExit {
                who: Who::B,
                timeout_secs: SHUTDOWN_TIMEOUT_SECS,
            },
            Stage::QuitOverlay => Command::Overlay(OverlayCmd::Quit),
            Stage::JoinOverlay => Command::JoinOverlay,
            Stage::Done => Command::Finish,
            Stage::Aborted(error) => Command::Abort(error),
        }
    }

    /// An outcome of the kind that this point's command has. A sleep does not
    /// fail.
    pub open spec fn fits(self, outcome: Outcome) -> bool {
        &&& !self.stage.spec_over()
        &&& outcome is Rect <==> self.stage is FindA
        &&& outcome is Failed ==> !(self.spec_command() is Sleep)
        &&& outcome is WaitFailed ==> self.spec_command() is AwaitExit
    }

    /// The swap after an outcome.
    pub open spec fn after(self, outcome: Outcome) -> Swap {
        match outcome {
            Outcome::Rect(found) => Swap {
                stage: self.stage.spec_next(),
                a_rect: match found {
                    Some(rect) => rect,
                    None => spec_initial_instance_rect(),
                },
            },
            Outcome::Done => Swap { stage: self.stage.spec_next(), ..self },
            Outcome::Failed => Swap {
                stage: match self.stage.spec_failure() {
                    Some(error) => Stage::Aborted(error),
                    None => self.stage.spec_next(),
                },
                ..self
            },
            Outcome::WaitFailed => Swap {
                stage: if self.stage is ExitA {
                    Stage::Aborted(SwapError::WaitA)
                } else {
                    self.stage.spec_next()
                },
                ..self
            },
        }
    }

    /// A swap at its start.
    pub fn new() -> (res: Swap)
        ensures
            res == Swap::start(),
    {
        Swap { stage: Stage::LaunchA, a_rect: initial_instance_rect() }
    }

    /// What is to be done at this point.
    pub fn command(&self) -> (res: Command)
        ensures
            res == self.spec_command(),
    {
        match self.stage {
            Stage::LaunchA => Command::Launch {
                who: Who::A,
                rect: initial_instance_rect(),
                hidden: false,
            },
            Stage::ReadyA => Command::AwaitReady {
                who: Who::A,
                timeout_secs: READY_TIMEOUT_SECS,
            },
            Stage::Hotkey => Command::AwaitHotkey,
            Stage::FindA => Command::FindRect { who: Who::A },
            Stage::ShowOverlay => Command::Overlay(OverlayCmd::ShowAt { rect: self.a_rect }),
            Stage::FadeIn => Command::Sleep { ms: fade_wait_ms() },
            Stage::ShutdownA => Command::Shutdown { who: Who::A },
            Stage::DrainA => Command::Drain { who: Who::A, timeout_secs: DRAIN_TIMEOUT_SECS },
            Stage::ExitA => Command::AwaitExit {
                who: Who::A,
                timeout_secs: SHUTDOWN_TIMEOUT_SECS,
            },
            Stage::LaunchB => Command::Launch { who: Who::B, rect: self.a_rect, hidden: true },
            Stage::ReadyB => Command::AwaitReady {
                who: Who::B,
                timeout_secs: READY_TIMEOUT_SECS,
            },
            Stage::RevealB => Command::Reveal { who: Who::B },
            Stage::Settle => Command::Sleep { ms: SETTLE_MS },
            Stage::HideOverlay => Command::Overlay(OverlayCmd::Hide),
            Stage::FadeOut => Command::Sleep { ms: fade_wait_ms() },
            Stage::Hold => Command::Sleep { ms: POST_TRANSITION_HOLD_SECS * 1000 },
            Stage::ShutdownB => Command::Shutdown { who: Who::B },
            Stage::DrainB => Command::Drain { who: Who::B, timeout_secs: DRAIN_TIMEOUT_SECS },
            Stage::ExitB => Command::AwaitExit {
                who: Who::B,
                timeout_secs: SHUTDOWN_TIMEOUT_SECS,
            },
            Stage::QuitOverlay => Command::Overlay(OverlayCmd::Quit),
            Stage::JoinOverlay => Command::JoinOverlay,
            Stage::Done => Command::Finish,
            Stage::Aborted(error) => Command::Abort(error),
        }
    }

    /// Takes the swap further by the outcome of its command.
    pub fn advance(&mut self, outcome: Outcome)
        requires
            old(self).fits(outcome),
        ensures
            *final(self) == old(self).after(outcome),
    {
        match outcome {
            Outcome::Rect(found) => {
                self.a_rect = match found {
                    Some(rect) => rect,
                    None => initial_instance_rect(),
                };
                self.stage = self.stage.next();
            },
            Outcome::Done => {
                self.stage = self.stage.next();
            },
            Outcome::Failed => {
                self.stage = match self.stage.failure() {
                    Some(error) => Stage::Aborted(error),
                    None => self.stage.next(),
                };
            },
            Outcome::WaitFailed => {
                self.stage = match self.stage {
                    Stage::ExitA => Stage::Aborted(SwapError::WaitA),
                    _ => self.stage.next(),
                };
            },
        }
    }
}

impl SwapError {
    /// How the error reads, where `shown` is how the system's own error reads.
    pub open spec fn spec_message(self, shown: Seq<char>) -> Seq<char> {
        match self {
            SwapError::Launch(who) => "launching Instance "@ + who.spec_name(),
            SwapError::Ready(who) => "waiting for "@ + who.spec_name() + " ready"@,
            SwapError::HotkeyClosed => "hotkey channel closed"@,
            SwapError::OverlayGone => "sending on a closed channel"@,
            SwapError::Disconnected(who) => "instance "@ + who.spec_name() + " disconnected"@,
            SwapError::ExitA => "A failed to exit within timeout"@,
            SwapError::WaitA => shown,
        }
    }

    /// How the error reads, where `shown` is how the system's own error reads.
    pub fn message(&self, shown: &str) -> (res: String)
        ensures
            res@ == self.spec_message(shown@),
    {
        match self {
            SwapError::Launch(who) => String::from_str("launching Instance ").concat(who.name()),
            SwapError::Ready(who) => String::from_str("waiting for ").concat(who.name()).concat(
                " ready",
            ),
            SwapError::HotkeyClosed => String::from_str("hotkey channel closed"),
            SwapError::OverlayGone => String::from_str("sending on a closed channel"),
            SwapError::Disconnected(who) => String::from_str("instance ").concat(
                who.name(),
            ).concat(" disconnected"),
            SwapError::ExitA => String::from_str("A failed to exit within timeout"),
            SwapError::WaitA => String::from_str(shown),
        }
    }
}

/// What the player's screen and machine look like, as far as the swap decides.
pub struct World {
    /// A was launched at some time.
    pub a_launched: bool,
    pub a_running: bool,
    pub b_running: bool,
    /// B has been told to show its window.
    pub b_shown: bool,
    /// What the overlay covers.
    pub covered: Option<Rect>,
    /// The overlay has finished fading in.
    pub opaque: bool,
}

impl World {
    /// Before the swap.
    pub open spec fn start() -> World {
        World {
            a_launched: false,
            a_running: false,
            b_running: false,
            b_shown: false,
            covered: None,
            opaque: false,
        }
    }

    /// What a command that went like this changes. An instance whose launch fails
    /// does not run, and a fade is over once the launcher has slept through it.
    pub open spec fn after(self, command: Command, outcome: Outcome) -> World {
        if outcome is Failed || outcome is WaitFailed {
            self
        } else {
            match command {
                Command::Launch { who: Who::A, .. } => World {
                    a_launched: true,
                    a_running: true,
                    ..self
                },
                Command::Launch { who: Who::B, hidden, .. } => World {
                    b_running: true,
                    b_shown: !hidden,
                    ..self
                },
                Command::Overlay(OverlayCmd::ShowAt { rect }) => World {
                    covered: Some(rect),
                    opaque: false,
                    ..self
                },
                Command::Overlay(OverlayCmd::Hide) => World {
                    covered: None,
                    opaque: false,
                    ..self
                },
                Command::Sleep { ms } => World {
                    opaque: self.opaque || (self.covered is Some && ms >= FADE_DURATION_MS
                        + FADE_MARGIN_MS),
                    ..self
                },
                Command::AwaitExit { who: Who::A, .. } => World { a_running: false, ..self },
                Command::AwaitExit { who: Who::B, .. } => World { b_running: false, ..self },
                Command::Reveal { who: Who::B } => World { b_shown: true, ..self },
                _ => self,
            }
        }
    }
}

/// The swap after these outcomes.
pub open spec fn swap_after(outcomes: Seq<Outcome>) -> Swap
    decreases outcomes.len(),
{
    if outcomes.len() == 0 {
        Swap::start()
    } else {
        swap_after(outcomes.drop_last()).after(outcomes.last())
    }
}

/// The world after these outcomes.
pub open spec fn world_after(outcomes: Seq<Outcome>) -> World
    decreases outcomes.len(),
{
    if outcomes.len() == 0 {
        World::start()
    } else {
        world_after(outcomes.drop_last()).after(
            swap_after(outcomes.drop_last()).spec_command(),
            outcomes.last(),
        )
    }
}

/// Outcomes that a swap can have: each is of its command's kind.
pub open spec fn possible(outcomes: Seq<Outcome>) -> bool
    decreases outcomes.len(),
{
    outcomes.len() == 0 || (possible(outcomes.drop_last()) && swap_after(outcomes.drop_last()).fits(
        outcomes.last(),
    ))
}

/// The overlay hides everything at A's place.
pub open spec fn hidden_behind_overlay(swap: Swap, w: World) -> bool {
    w.covered == Some(swap.a_rect) && w.opaque
}

/// What holds of the world at each stage.
spec fn consistent(swap: Swap, w: World) -> bool {
    match swap.stage {
        Stage::LaunchA => w == World::start(),
        Stage::ReadyA | Stage::Hotkey | Stage::FindA | Stage::ShowOverlay => {
            w.a_launched && w.a_running && !w.b_running && !w.b_shown && w.covered is None
        },
        Stage::FadeIn => {
            w.a_launched && w.a_running && !w.b_running && !w.b_shown && w.covered == Some(
                swap.a_rect,
            )
        },
        Stage::ShutdownA | Stage::DrainA | Stage::ExitA => {
            w.a_launched && w.a_running && !w.b_running && !w.b_shown && hidden_behind_overlay(
                swap,
                w,
            )
        },
        Stage::LaunchB => {
            w.a_launched && !w.a_running && !w.b_running && !w.b_shown && hidden_behind_overlay(
                swap,
                w,
            )
        },
        Stage::ReadyB | Stage::RevealB => {
            w.a_launched && !w.a_running && w.b_running && !w.b_shown && hidden_behind_overlay(
                swap,
                w,
            )
        },
        Stage::Settle | Stage::HideOverlay => {
            w.a_launched && !w.a_running && w.b_running && w.b_shown && hidden_behind_overlay(
                swap,
                w,
            )
        },
        Stage::FadeOut | Stage::Hold | Stage::ShutdownB | Stage::DrainB | Stage::ExitB => {
            w.a_launched && !w.a_running && w.b_running && w.b_shown && w.covered is None
        },
        Stage::QuitOverlay | Stage::JoinOverlay | Stage::Done => {
            w.a_launched && !w.a_running && w.b_shown && w.covered is None
        },
        Stage::Aborted(_) => {
            &&& !(w.a_running && w.b_running)
            &&& w.a_launched && !w.a_running && !w.b_shown ==> hidden_behind_overlay(swap, w)
        },
    }
}

proof fn stays_consistent(outcomes: Seq<Outcome>)
    requires
        possible(outcomes),
    ensures
        consistent(swap_after(outcomes), world_after(outcomes)),
    decreases outcomes.len(),
{
    if outcomes.len() > 0 {
        stays_consistent(outcomes.drop_last());
    }
}

/// At no time do both instances run.
pub proof fn one_instance_at_a_time(outcomes: Seq<Outcome>)
    requires
        possible(outcomes),
    ensures
        !(world_after(outcomes).a_running && world_after(outcomes).b_running),
{
    stays_consistent(outcomes);
}

/// From the moment A is gone until B shows its window, the overlay hides A's
/// place: nothing else is seen there.
pub proof fn the_gap_is_never_seen(outcomes: Seq<Outcome>)
    requires
        possible(outcomes),
    ensures
        ({
            let w = world_after(outcomes);
            w.a_launched && !w.a_running && !w.b_shown ==> hidden_behind_overlay(
                swap_after(outcomes),
                w,
            )
        }),
{
    stays_consistent(outcomes);
}

/// A is told to shut down, B is launched and B is revealed only behind the
/// overlay, and the overlay is taken away only once B runs and is shown.
pub proof fn the_swap_happens_behind_the_overlay(outcomes: Seq<Outcome>)
    requires
        possible(outcomes),
    ensures
        ({
            let swap = swap_after(outcomes);
            let w = world_after(outcomes);
            let command = swap.spec_command();
            &&& command == Command::Shutdown { who: Who::A } ==> hidden_behind_overlay(swap, w)
            &&& command matches Command::Launch { who: Who::B, .. } ==> hidden_behind_overlay(
                swap,
                w,
            ) && !w.a_running
            &&& command == Command::Reveal { who: Who::B } ==> hidden_behind_overlay(swap, w)
            &&& command == Command::Overlay(OverlayCmd::Hide) ==> w.b_running && w.b_shown
        }),
{
    stays_consistent(outcomes);
}

/// B is launched hidden, at the very rectangle that the overlay covers.
pub proof fn b_takes_the_place_of_a(outcomes: Seq<Outcome>)
    requires
        possible(outcomes),
    ensures
        swap_after(outcomes).spec_command() matches Command::Launch {
            who: Who::B,
            rect,
            hidden,
        } ==> hidden && world_after(outcomes).covered == Some(rect),
{
    stays_consistent(outcomes);
}

/// How many commands may still follow.
pub open spec fn rank(stage: Stage) -> nat {
    match stage {
        Stage::LaunchA => 21,
        Stage::ReadyA => 20,
        Stage::Hotkey => 19,
        Stage::FindA => 18,
        Stage::ShowOverlay => 17,
        Stage::FadeIn => 16,
        Stage::ShutdownA => 15,
        Stage::DrainA => 14,
        Stage::ExitA => 13,
        Stage::LaunchB => 12,
        Stage::ReadyB => 11,
        Stage::RevealB => 10,
        Stage::Settle => 9,
        Stage::HideOverlay => 8,
        Stage::FadeOut => 7,
        Stage::Hold => 6,
        Stage::ShutdownB => 5,
        Stage::DrainB => 4,
        Stage::ExitB => 3,
        Stage::QuitOverlay => 2,
        Stage::JoinOverlay => 1,
        Stage::Done => 0,
        Stage::Aborted(_) => 0,
    }
}

/// Every outcome brings the swap closer to its end, so that it ends after at most
/// twenty-one commands; one that is not given up takes them all.
pub proof fn the_swap_ends(outcomes: Seq<Outcome>)
    requires
        possible(outcomes),
    ensures
        outcomes.len() + rank(swap_after(outcomes).stage) <= 21,
        swap_after(outcomes).stage.spec_over() <==> rank(swap_after(outcomes).stage) == 0,
        !(swap_after(outcomes).stage is Aborted) ==> outcomes.len() + rank(
            swap_after(outcomes).stage,
        ) == 21,
    decreases outcomes.len(),
{
    if outcomes.len() > 0 {
        the_swap_ends(outcomes.drop_last());
    }
}

/// A swap that ends well has taken the overlay away, and B had been shown.
pub proof fn a_finished_swap_leaves_b(outcomes: Seq<Outcome>)
    requires
        possible(outcomes),
        swap_after(outcomes).stage is Done,
    ensures
        !world_after(outcomes).a_running,
        world_after(outcomes).b_shown,
        world_after(outcomes).covered is None,
{
    stays_consistent(outcomes);
}

/// Where A stands, by what was found of its window: the rectangle found, or the
/// one it was launched at where none was.
pub open spec fn found_place(outcome: Outcome) -> Rect {
    match outcome {
        Outcome::Rect(Some(rect)) => rect,
        _ => Rect { left: 240, top: 120, right: 1200, bottom: 760 },
    }
}

/// The commands of a swap in which A stands at `place`.
pub open spec fn script(place: Rect) -> Seq<Command> {
    seq![
        Command::Launch {
            who: Who::A,
            rect: Rect { left: 240, top: 120, right: 1200, bottom: 760 },
            hidden: false,
        },
        Command::AwaitReady { who: Who::A, timeout_secs: 30 },
        Command::AwaitHotkey,
        Command::FindRect { who: Who::A },
        Command::Overlay(OverlayCmd::ShowAt { rect: place }),
        Command::Sleep { ms: 350 },
        Command::Shutdown { who: Who::A },
        Command::Drain { who: Who::A, timeout_secs: 2 },
        Command::AwaitExit { who: Who::A, timeout_secs: 10 },
        Command::Launch { who: Who::B, rect: place, hidden: true },
        Command::AwaitReady { who: Who::B, timeout_secs: 30 },
        Command::Reveal { who: Who::B },
        Command::Sleep { ms: 150 },
        Command::Overlay(OverlayCmd::Hide),
        Command::Sleep { ms: 350 },
        Command::Sleep { ms: 5000 },
        Command::Shutdown { who: Who::B },
        Command::Drain { who: Who::B, timeout_secs: 2 },
        Command::AwaitExit { who: Who::B, timeout_secs: 10 },
        Command::Overlay(OverlayCmd::Quit),
        Command::JoinOverlay,
        Command::Finish,
    ]
}

/// The swap remembers what was found of A's window, which is the fourth outcome.
proof fn the_place_is_remembered(outcomes: Seq<Outcome>)
    requires
        possible(outcomes),
    ensures
        outcomes.len() > 3 ==> outcomes[3] is Rect && swap_after(outcomes).a_rect == found_place(
            outcomes[3],
        ),
        forall|i: int| 0 <= i < outcomes.len() && (#[trigger] outcomes[i]) is Rect ==> i == 3,
    decreases outcomes.len(),
{
    if outcomes.len() > 0 {
        let before = outcomes.drop_last();
        the_place_is_remembered(before);
        the_swap_ends(before);
        assert(forall|i: int| 0 <= i < before.len() ==> before[i] == outcomes[i]);
    }
}

/// A swap that is not given up follows its script, whatever the outcomes; what it
/// covers and where it launches B is what was found of A's window.
pub proof fn the_swap_follows_its_script(outcomes: Seq<Outcome>)
    requires
        possible(outcomes),
        !(swap_after(outcomes).stage is Aborted),
    ensures
        outcomes.len() <= 21,
        swap_after(outcomes).spec_command() == script(found_place(outcomes[3]))[outcomes.len() as int],
{
    the_swap_ends(outcomes);
    the_place_is_remembered(outcomes);
}

/// Once A's window was looked for, the overlay is shown over the very rectangle
/// found, and B launched there; over the one A was launched at only where none was
/// found.
pub proof fn the_rect_found_is_covered_and_taken(outcomes: Seq<Outcome>, at: int)
    requires
        possible(outcomes),
        0 <= at < outcomes.len(),
        outcomes[at] is Rect,
    ensures
        swap_after(outcomes).spec_command() matches Command::Overlay(OverlayCmd::ShowAt { rect })
            ==> match outcomes[at] {
            Outcome::Rect(Some(found)) => rect == found,
            _ => rect == (Rect { left: 240, top: 120, right: 1200, bottom: 760 }),
        },
        swap_after(outcomes).spec_command() matches Command::Launch { who: Who::B, rect, .. }
            ==> match outcomes[at] {
            Outcome::Rect(Some(found)) => rect == found,
            _ => rect == (Rect { left: 240, top: 120, right: 1200, bottom: 760 }),
        },
{
    the_place_is_remembered(outcomes);
}

/// The overlay is shown, and B launched, only after A's window was looked for, and
/// at what that found.
pub proof fn nothing_is_covered_before_a_is_found(outcomes: Seq<Outcome>)
    requires
        possible(outcomes),
    ensures
        swap_after(outcomes).spec_command() matches Command::Overlay(OverlayCmd::ShowAt { rect })
            ==> outcomes.len() > 3 && outcomes[3] is Rect && rect == found_place(outcomes[3]),
        swap_after(outcomes).spec_command() matches Command::Launch { who: Who::B, rect, .. }
            ==> outcomes.len() > 3 && outcomes[3] is Rect && rect == found_place(outcomes[3]),
{
    the_place_is_remembered(outcomes);
    the_swap_ends(outcomes);
}

/// Which failures end a swap, and as which error: only those of a launch, of
/// getting ready, of the hotkey, of showing or hiding the overlay, of telling an
/// instance something, and of A's exit.
pub proof fn these_failures_end_it(swap: Swap, outcome: Outcome)
    requires
        swap.fits(outcome),
    ensures
        ({
            let command = swap.spec_command();
            let stage = swap.after(outcome).stage;
            &&& outcome is Done || outcome is Rect ==> !(stage is Aborted)
            &&& outcome is Failed ==> match command {
                Command::Launch { who, .. } => stage == Stage::Aborted(SwapError::Launch(who)),
                Command::AwaitReady { who, .. } => stage == Stage::Aborted(SwapError::Ready(who)),
                Command::AwaitHotkey => stage == Stage::Aborted(SwapError::HotkeyClosed),
                Command::Overlay(OverlayCmd::Quit) => !(stage is Aborted),
                Command::Overlay(_) => stage == Stage::Aborted(SwapError::OverlayGone),
                Command::Shutdown { who } => stage == Stage::Aborted(SwapError::Disconnected(who)),
                Command::Reveal { who } => stage == Stage::Aborted(SwapError::Disconnected(who)),
                Command::AwaitExit { who: Who::A, .. } => stage == Stage::Aborted(
                    SwapError::ExitA,
                ),
                _ => !(stage is Aborted),
            }
            &&& outcome is WaitFailed ==> match command {
                Command::AwaitExit { who: Who::A, .. } => stage == Stage::Aborted(
                    SwapError::WaitA,
                ),
                _ => !(stage is Aborted),
            }
        }),
{
}

/// A swap that was given up says so, with the error.
pub proof fn a_swap_given_up_says_why(swap: Swap, error: SwapError)
    ensures
        swap.stage == Stage::Aborted(error) <==> swap.spec_command() == Command::Abort(error),
        swap.stage == Stage::Done <==> swap.spec_command() == Command::Finish,
{
}

/// Which outcomes a swap takes depends on its command alone: none once it is over,
/// a rectangle or none from a look, no failure from a sleep.
pub proof fn outcomes_fit_by_their_kind(swap: Swap, outcome: Outcome)
    ensures
        swap.fits(outcome) <==> match swap.spec_command() {
            Command::Finish => false,
            Command::Abort(_) => false,
            Command::FindRect { .. } => outcome is Rect,
            Command::Sleep { .. } => outcome is Done,
            Command::AwaitExit { .. } => outcome is Done || outcome is Failed
                || outcome is WaitFailed,
            _ => outcome is Done || outcome is Failed,
        },
{
}

/// A swap that is run is the history of its outcomes: it starts with none, each
/// advance adds one, and its command is the one that history asks for.
pub proof fn advances_make_history(
    fresh: Swap,
    swap: &mut Swap,
    outcomes: Seq<Outcome>,
    outcome: Outcome,
    command: Command,
)
    requires
        call_ensures(Swap::new, (), fresh),
        *swap == swap_after(outcomes),
        call_ensures(Swap::advance, (swap, outcome), ()),
        call_ensures(Swap::command, (&swap_after(outcomes),), command),
    ensures
        fresh == swap_after(seq![]),
        *final(swap) == swap_after(outcomes.push(outcome)),
        command == swap_after(outcomes).spec_command(),
{
    assert(outcomes.push(outcome).drop_last() =~= outcomes);
}

/// The error of a wait that failed reads as the system's own, in full; no other
/// error depends on it.
pub proof fn only_a_failed_wait_shows_the_system(
    error: SwapError,
    shown: &str,
    nothing: &str,
    res: String,
    bare: String,
)
    requires
        call_ensures(SwapError::message, (&error, shown), res),
        call_ensures(SwapError::message, (&error, nothing), bare),
    ensures
        error == SwapError::WaitA ==> res@ == shown@,
        error != SwapError::WaitA ==> res@ == bare@,
{
}

/// A swap can be advanced by any outcome of its command's kind: by any rectangle
/// found, and by none.
pub proof fn any_outcome_of_its_kind_can_be_handed_in(swap: &mut Swap, outcome: Outcome)
    requires
        match swap.spec_command() {
            Command::Finish => false,
            Command::Abort(_) => false,
            Command::FindRect { .. } => outcome is Rect,
            Command::Sleep { .. } => outcome is Done,
            Command::AwaitExit { .. } => outcome is Done || outcome is Failed
                || outcome is WaitFailed,
            _ => outcome is Done || outcome is Failed,
        },
    ensures
        call_requires(Swap::advance, (swap, outcome)),
{
}

/// How the errors read, of either instance.
pub proof fn errors_have_their_texts(error: SwapError, shown: &str, res: String)
    requires
        call_ensures(SwapError::message, (&error, shown), res),
    ensures
        error == SwapError::Launch(Who::A) ==> res@ == "launching Instance A"@,
        error == SwapError::Launch(Who::B) ==> res@ == "launching Instance B"@,
        error == SwapError::Ready(Who::A) ==> res@ == "waiting for A ready"@,
        error == SwapError::Ready(Who::B) ==> res@ == "waiting for B ready"@,
        error == SwapError::HotkeyClosed ==> res@ == "hotkey channel closed"@,
        error == SwapError::OverlayGone ==> res@ == "sending on a closed channel"@,
        error == SwapError::Disconnected(Who::A) ==> res@ == "instance A disconnected"@,
        error == SwapError::Disconnected(Who::B) ==> res@ == "instance B disconnected"@,
        error == SwapError::ExitA ==> res@ == "A failed to exit within timeout"@,
        error == SwapError::WaitA ==> res@ == shown@,
{
    reveal_strlit("A");
    reveal_strlit("B");
    reveal_strlit("launching Instance ");
    reveal_strlit("launching Instance A");
    reveal_strlit("launching Instance B");
    reveal_strlit("waiting for ");
    reveal_strlit(" ready");
    reveal_strlit("waiting for A ready");
    reveal_strlit("waiting for B ready");
    reveal_strlit("instance ");
    reveal_strlit(" disconnected");
    reveal_strlit("instance A disconnected");
    reveal_strlit("instance B disconnected");
    assert("launching Instance "@ + "A"@ =~= "launching Instance A"@);
    assert("launching Instance "@ + "B"@ =~= "launching Instance B"@);
    assert("waiting for "@ + "A"@ + " ready"@ =~= "waiting for A ready"@);
    assert("waiting for "@ + "B"@ + " ready"@ =~= "waiting for B ready"@);
    assert("instance "@ + "A"@ + " disconnected"@ =~= "instance A disconnected"@);
    assert("instance "@ + "B"@ + " disconnected"@ =~= "instance B disconnected"@);
}

} // verus!
