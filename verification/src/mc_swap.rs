//! The course of the swap of two Minecraft instances, which know nothing of the
//! launcher: they are told by their windows and ended by force.
//!
//! A [`McSwap`] names one command at a time. Whoever runs it carries the command
//! out and hands the outcome back.

use crate::discovery::{
    MINECRAFT_STARTUP_TIMEOUT_SECS, NANOS_PER_SEC, WINDOW_CLOSE_TIMEOUT_SECS,
};
use crate::fade::{fade_wait_ms, FADE_DURATION_MS, FADE_MARGIN_MS};
use crate::geometry::{primary_monitor_rect, Rect};
use crate::overlay::OverlayCmd;
use crate::progress::{hold_progress, FULL_BPS, HOLD_PROGRESS_END, HOLD_PROGRESS_START};
use crate::text::{
    decimal, decimal_reads_back, push_decimal, reads_as, texts, texts_are_the_strings, to_decimal,
};
use crate::transition::Who;
use vstd::prelude::*;
use vstd::string::*;

verus! {

/// How long the overlay is held up after B's window has appeared.
pub const POST_WORLD_LOAD_DELAY_SECS: u64 = 20;

/// Pause between two looks at B's window during the hold.
pub const HOLD_POLL_MS: u64 = 250;

/// Progress once the overlay has been asked for.
pub const SHOWING_BPS: i32 = 500;

/// Progress once the overlay is up.
pub const COVERED_BPS: i32 = 1000;

/// Progress once A is gone.
pub const GONE_BPS: i32 = 2500;

/// Progress once B's launch has begun.
pub const LAUNCHED_BPS: i32 = 3000;

/// Progress once B's window is up.
pub const WINDOW_BPS: i32 = 5000;

/// The Prism instance of one of the two.
pub open spec fn instance_name(who: Who) -> Seq<char> {
    match who {
        Who::A => "athion"@,
        Who::B => "1.21.11"@,
    }
}

/// The server that one of the two joins.
pub open spec fn server_address(who: Who) -> Seq<char> {
    match who {
        Who::A => "localhost:25565"@,
        Who::B => "localhost:25566"@,
    }
}

/// The Prism instance of one of the two.
pub fn instance_of(who: Who) -> (res: &'static str)
    ensures
        res@ == instance_name(who),
{
    match who {
        Who::A => "athion",
        Who::B => "1.21.11",
    }
}

/// The server that one of the two joins.
pub fn server_of(who: Who) -> (res: &'static str)
    ensures
        res@ == server_address(who),
{
    match who {
        Who::A => "localhost:25565",
        Who::B => "localhost:25566",
    }
}

/// Arguments by which Prism launches an instance into its server.
pub fn prism_args(who: Who) -> (res: Vec<String>)
    ensures
        texts(res@) == seq!["--launch"@, instance_name(who), "--server"@, server_address(who)],
{
    let mut out: Vec<String> = Vec::new();
    out.push(String::from_str("--launch"));
    out.push(String::from_str(instance_of(who)));
    out.push(String::from_str("--server"));
    out.push(String::from_str(server_of(who)));
    out
}

/// Arguments by which `taskkill` ends a process and all its descendants.
pub fn taskkill_args(pid: u32) -> (res: Vec<String>)
    ensures
        texts(res@) == seq!["/F"@, "/T"@, "/PID"@, decimal(pid as nat)],
{
    let mut out: Vec<String> = Vec::new();
    out.push(String::from_str("/F"));
    out.push(String::from_str("/T"));
    out.push(String::from_str("/PID"));
    out.push(to_decimal(pid as u64));
    out
}

/// Where the swap stands.
#[derive(Debug, Clone, Copy, PartialEq, Eq, Structural)]
pub enum McStage {
    LaunchA,
    WindowA,
    Hotkey,
    RectA,
    /// A's rectangle could not be read.
    Monitor,
    ShowOverlay,
    MarkShowing,
    FadeIn,
    MarkCovered,
    KillA,
    GoneA,
    MarkGone,
    ReapA,
    LaunchB,
    MarkLaunched,
    WindowB,
    MarkWindow,
    PlaceB,
    BlockClicks,
    HoldCheck,
    HoldLook,
    HoldMove,
    HoldMeasure,
    HoldMark,
    HoldRest,
    MarkFull,
    HideOverlay,
    FadeOut,
    QuitOverlay,
    JoinOverlay,
    Done,
    Aborted(McError),
}

/// Why a swap was given up.
#[derive(Debug, Clone, Copy, PartialEq, Eq, Structural)]
pub enum McError {
    /// Prism could not be started.
    Launch(Who),
    /// No Minecraft window appeared.
    NoWindow,
    HotkeyClosed,
    /// The overlay thread is gone.
    OverlayGone,
    KillA,
    /// A's window did not close.
    StillThere,
}

/// What is to be done next.
#[derive(Debug, Clone, Copy, PartialEq, Eq, Structural)]
pub enum McCommand {
    LaunchPrism { who: Who },
    AwaitWindow { timeout_secs: u64 },
    AwaitHotkey,
    ReadRect { window: isize },
    ReadScreen,
    Overlay(OverlayCmd),
    SetProgress { bps: i32 },
    Sleep { ms: u64 },
    /// End the process and all its descendants.
    Kill { pid: u32 },
    AwaitGone { window: isize, timeout_secs: u64 },
    /// Make sure that the Prism process that launched A is gone.
    ReapPrismA,
    /// Move and size a window; neither activate it nor change its z-order.
    Place { window: isize, rect: Rect },
    /// Read how long the hold has lasted.
    ReadHoldClock,
    /// Work out how much progress the hold has gained.
    MeasureHold,
    JoinOverlay,
    Finish,
    Abort(McError),
}

/// How a command went.
#[derive(Debug, Clone, Copy, PartialEq, Eq, Structural)]
pub enum McOutcome {
    Done,
    Failed,
    Window { handle: isize, pid: u32 },
    /// The rectangle looked for, where it could be read.
    Rect(Option<Rect>),
    Screen { width: i32, height: i32 },
    Elapsed { nanos: u128 },
    Gained { bps: i32 },
}

/// The course of a swap.
#[derive(Debug, Clone, Copy, PartialEq, Eq, Structural)]
pub struct McSwap {
    pub stage: McStage,
    pub a_window: isize,
    pub a_pid: u32,
    pub a_rect: Rect,
    pub b_window: isize,
    /// Where B was last seen; before that, where A stood.
    pub last_rect: Rect,
    /// Progress worked out last during the hold.
    pub hold_bps: i32,
}

impl McStage {
    /// The swap is over.
    pub open spec fn spec_over(self) -> bool {
        self is Done || self is Aborted
    }

    /// The stage that follows where all goes well and nothing is to be decided.
    pub open spec fn spec_next(self) -> McStage {
        match self {
            McStage::LaunchA => McStage::WindowA,
            McStage::WindowA => McStage::Hotkey,
            McStage::Hotkey => McStage::RectA,
            McStage::RectA => McStage::ShowOverlay,
            McStage::Monitor => McStage::ShowOverlay,
            McStage::ShowOverlay => McStage::MarkShowing,
            McStage::MarkShowing => McStage::FadeIn,
            McStage::FadeIn => McStage::MarkCovered,
            McStage::MarkCovered => McStage::KillA,
            McStage::KillA => McStage::GoneA,
            McStage::GoneA => McStage::MarkGone,
            McStage::MarkGone => McStage::ReapA,
            McStage::ReapA => McStage::LaunchB,
            McStage::LaunchB => McStage::MarkLaunched,
            McStage::MarkLaunched => McStage::WindowB,
            McStage::WindowB => McStage::MarkWindow,
            McStage::MarkWindow => McStage::PlaceB,
            McStage::PlaceB => McStage::BlockClicks,
            McStage::BlockClicks => McStage::HoldCheck,
            McStage::HoldCheck => McStage::HoldLook,
            McStage::HoldLook => McStage::HoldMeasure,
            McStage::HoldMove => McStage::HoldMeasure,
            McStage::HoldMeasure => McStage::HoldMark,
            McStage::HoldMark => McStage::HoldRest,
            McStage::HoldRest => McStage::HoldCheck,
            McStage::MarkFull => McStage::HideOverlay,
            McStage::HideOverlay => McStage::FadeOut,
            McStage::FadeOut => McStage::QuitOverlay,
            McStage::QuitOverlay => McStage::JoinOverlay,
            McStage::JoinOverlay => McStage::Done,
            McStage::Done => McStage::Done,
            McStage::Aborted(error) => McStage::Aborted(error),
        }
    }

    /// The error that a failure at this stage is; none where a failure is passed
    /// over.
    pub open spec fn spec_failure(self) -> Option<McError> {
        match self {
            McStage::LaunchA => Some(McError::Launch(Who::A)),
            McStage::WindowA => Some(McError::NoWindow),
            McStage::Hotkey => Some(McError::HotkeyClosed),
            McStage::ShowOverlay => Some(McError::OverlayGone),
            McStage::KillA => Some(McError::KillA),
            McStage::GoneA => Some(McError::StillThere),
            McStage::LaunchB => Some(McError::Launch(Who::B)),
            McStage::WindowB => Some(McError::NoWindow),
            McStage::BlockClicks => Some(McError::OverlayGone),
            McStage::HideOverlay => Some(McError::OverlayGone),
            _ => None,
        }
    }

    /// A stage whose command may fail.
    pub open spec fn may_fail(self) -> bool {
        ||| self.spec_failure() is Some
        ||| self is ReapA
        ||| self is PlaceB
        ||| self is HoldMove
        ||| self is QuitOverlay
        ||| self is JoinOverlay
    }

    fn next(self) -> (res: McStage)
        ensures
            res == self.spec_next(),
    {
        match self {
            McStage::LaunchA => McStage::WindowA,
            McStage::WindowA => McStage::Hotkey,
            McStage::Hotkey => McStage::RectA,
            McStage::RectA => McStage::ShowOverlay,
            McStage::Monitor => McStage::ShowOverlay,
            McStage::ShowOverlay => McStage::MarkShowing,
            McStage::MarkShowing => McStage::FadeIn,
            McStage::FadeIn => McStage::MarkCovered,
            McStage::MarkCovered => McStage::KillA,
            McStage::KillA => McStage::GoneA,
            McStage::GoneA => McStage::MarkGone,
            McStage::MarkGone => McStage::ReapA,
            McStage::ReapA => McStage::LaunchB,
            McStage::LaunchB => McStage::MarkLaunched,
            McStage::MarkLaunched => McStage::WindowB,
            McStage::WindowB => McStage::MarkWindow,
            McStage::MarkWindow => McStage::PlaceB,
            McStage::PlaceB => McStage::BlockClicks,
            McStage::BlockClicks => McStage::HoldCheck,
            McStage::HoldCheck => McStage::HoldLook,
            McStage::HoldLook => McStage::HoldMeasure,
            McStage::HoldMove => McStage::HoldMeasure,
            McStage::HoldMeasure => McStage::HoldMark,
            McStage::HoldMark => McStage::HoldRest,
            McStage::HoldRest => McStage::HoldCheck,
            McStage::MarkFull => McStage::HideOverlay,
            McStage::HideOverlay => McStage::FadeOut,
            McStage::FadeOut => McStage::QuitOverlay,
            McStage::QuitOverlay => McStage::JoinOverlay,
            McStage::JoinOverlay => McStage::Done,
            McStage::Done => McStage::Done,
            McStage::Aborted(error) => McStage::Aborted(error),
        }
    }

    fn failure(self) -> (res: Option<McError>)
        ensures
            res == self.spec_failure(),
    {
        match self {
            McStage::LaunchA => Some(McError::Launch(Who::A)),
            McStage::WindowA => Some(McError::NoWindow),
            McStage::Hotkey => Some(McError::HotkeyClosed),
            McStage::ShowOverlay => Some(McError::OverlayGone),
            McStage::KillA => Some(McError::KillA),
            McStage::GoneA => Some(McError::StillThere),
            McStage::LaunchB => Some(McError::Launch(Who::B)),
            McStage::WindowB => Some(McError::NoWindow),
            McStage::BlockClicks => Some(McError::OverlayGone),
            McStage::HideOverlay => Some(McError::OverlayGone),
            _ => None,
        }
    }
}

/// The hold goes on while its time is not up.
pub open spec fn holding(elapsed_nanos: u128) -> bool {
    elapsed_nanos < POST_WORLD_LOAD_DELAY_SECS * NANOS_PER_SEC
}

/// No rectangle yet.
pub open spec fn no_rect() -> Rect {
    Rect { left: 0, top: 0, right: 0, bottom: 0 }
}

impl McSwap {
    /// A swap at its start.
    pub open spec fn start() -> McSwap {
        McSwap {
            stage: McStage::LaunchA,
            a_window: 0,
            a_pid: 0,
            a_rect: no_rect(),
            b_window: 0,
            last_rect: no_rect(),
            hold_bps: 0,
        }
    }

    /// What is to be done at this point.
    pub open spec fn spec_command(self) -> McCommand {
        match self.stage {
            McStage::LaunchA => McCommand::LaunchPrism { who: Who::A },
            McStage::WindowA => McCommand::AwaitWindow {
                timeout_secs: MINECRAFT_STARTUP_TIMEOUT_SECS,
            },
            McStage::Hotkey => McCommand::AwaitHotkey,
            McStage::RectA => McCommand::ReadRect { window: self.a_window },
            McStage::Monitor => McCommand::ReadScreen,
            McStage::ShowOverlay => McCommand::Overlay(OverlayCmd::ShowAt { rect: self.a_rect }),
            McStage::MarkShowing => McCommand::SetProgress { bps: SHOWING_BPS },
            McStage::FadeIn => McCommand::Sleep { ms: (FADE_DURATION_MS + FADE_MARGIN_MS) as u64 },
            McStage::MarkCovered => McCommand::SetProgress { bps: COVERED_BPS },
            McStage::KillA => McCommand::Kill { pid: self.a_pid },
            McStage::GoneA => McCommand::AwaitGone {
                window: self.a_window,
                timeout_secs: WINDOW_CLOSE_TIMEOUT_SECS,
            },
            McStage::MarkGone => McCommand::SetProgress { bps: GONE_BPS },
            McStage::ReapA => McCommand::ReapPrismA,
            McStage::LaunchB => McCommand::LaunchPrism { who: Who::B },
            McStage::MarkLaunched => McCommand::SetProgress { bps: LAUNCHED_BPS },
            McStage::WindowB => McCommand::AwaitWindow {
                timeout_secs: MINECRAFT_STARTUP_TIMEOUT_SECS,
            },
            McStage::MarkWindow => McCommand::SetProgress { bps: WINDOW_BPS },
            McStage::PlaceB => McCommand::Place { window: self.b_window, rect: self.a_rect },
            McStage::BlockClicks => McCommand::Overlay(
                OverlayCmd::SetClickThrough { value: false },
            ),
            McStage::HoldCheck => McCommand::ReadHoldClock,
            McStage::HoldLook => McCommand::ReadRect { window: self.b_window },
            McStage::HoldMove => McCommand::Overlay(
                OverlayCmd::Reposition { rect: self.last_rect },
            ),
            McStage::HoldMeasure => McCommand::MeasureHold,
            McStage::HoldMark => McCommand::SetProgress { bps: self.hold_bps },
            McStage::HoldRest => McCommand::Sleep { ms: HOLD_POLL_MS },
            McStage::MarkFull => McCommand::SetProgress { bps: FULL_BPS },
            McStage::HideOverlay => McCommand::Overlay(OverlayCmd::Hide),
            McStage::FadeOut => McCommand::Sleep { ms: (FADE_DURATION_MS + FADE_MARGIN_MS) as u64 },
            McStage::QuitOverlay => McCommand::Overlay(OverlayCmd::Quit),
            McStage::JoinOverlay => McCommand::JoinOverlay,
            McStage::Done => McCommand::Finish,
            McStage::Aborted(error) => McCommand::Abort(error),
        }
    }

    /// An outcome of the kind that this point's command has.
    pub open spec fn fits(self, outcome: McOutcome) -> bool {
        match outcome {
            McOutcome::Window { .. } => self.stage is WindowA || self.stage is WindowB,
            McOutcome::Rect(_) => self.stage is RectA || self.stage is HoldLook,
            McOutcome::Screen { .. } => self.stage is Monitor,
            McOutcome::Elapsed { .. } => self.stage is HoldCheck,
            McOutcome::Gained { bps } => self.stage is HoldMeasure && 0 <= bps
                <= HOLD_PROGRESS_END - HOLD_PROGRESS_START,
            McOutcome::Failed => self.stage.may_fail(),
            McOutcome::Done => {
                &&& !self.stage.spec_over()
                &&& !(self.stage is WindowA) && !(self.stage is WindowB)
                &&& !(self.stage is RectA) && !(self.stage is HoldLook)
                &&& !(self.stage is Monitor) && !(self.stage is HoldCheck)
                &&& !(self.stage is HoldMeasure)
            },
        }
    }

    /// The swap after an outcome.
    pub open spec fn after(self, outcome: McOutcome) -> McSwap {
        let on = McSwap { stage: self.stage.spec_next(), ..self };
        match outcome {
            McOutcome::Done => on,
            McOutcome::Failed => match self.stage.spec_failure() {
                Some(error) => McSwap { stage: McStage::Aborted(error), ..self },
                None => on,
            },
            McOutcome::Window { handle, pid } => if self.stage is WindowA {
                McSwap { a_window: handle, a_pid: pid, ..on }
            } else {
                McSwap { b_window: handle, ..on }
            },
            McOutcome::Rect(found) => if self.stage is RectA {
                match found {
                    Some(rect) => McSwap { a_rect: rect, last_rect: rect, ..on },
                    None => McSwap { stage: McStage::Monitor, ..self },
                }
            } else {
                match found {
                    Some(rect) => if rect == self.last_rect {
                        on
                    } else {
                        McSwap { stage: McStage::HoldMove, last_rect: rect, ..self }
                    },
                    None => on,
                }
            },
            McOutcome::Screen { width, height } => {
                let rect = Rect { left: 0, top: 0, right: width, bottom: height };
                McSwap { a_rect: rect, last_rect: rect, ..on }
            },
            McOutcome::Elapsed { nanos } => if holding(nanos) {
                on
            } else {
                McSwap { stage: McStage::MarkFull, ..self }
            },
            McOutcome::Gained { bps } => McSwap {
                hold_bps: (HOLD_PROGRESS_START + bps) as i32,
                ..on
            },
        }
    }

    /// A swap at its start.
    pub fn new() -> (res: McSwap)
        ensures
            res == McSwap::start(),
    {
        let none = Rect { left: 0, top: 0, right: 0, bottom: 0 };
        McSwap {
            stage: McStage::LaunchA,
            a_window: 0,
            a_pid: 0,
            a_rect: none,
            b_window: 0,
            last_rect: none,
            hold_bps: 0,
        }
    }

    /// What is to be done at this point.
    pub fn command(&self) -> (res: McCommand)
        ensures
            res == self.spec_command(),
    {
        match self.stage {
            McStage::LaunchA => McCommand::LaunchPrism { who: Who::A },
            McStage::WindowA => McCommand::AwaitWindow {
                timeout_secs: MINECRAFT_STARTUP_TIMEOUT_SECS,
            },
            McStage::Hotkey => McCommand::AwaitHotkey,
            McStage::RectA => McCommand::ReadRect { window: self.a_window },
            McStage::Monitor => McCommand::ReadScreen,
            McStage::ShowOverlay => McCommand::Overlay(OverlayCmd::ShowAt { rect: self.a_rect }),
            McStage::MarkShowing => McCommand::SetProgress { bps: SHOWING_BPS },
            McStage::FadeIn => McCommand::Sleep { ms: fade_wait_ms() },
            McStage::MarkCovered => McCommand::SetProgress { bps: COVERED_BPS },
            McStage::KillA => McCommand::Kill { pid: self.a_pid },
            McStage::GoneA => McCommand::AwaitGone {
                window: self.a_window,
                timeout_secs: WINDOW_CLOSE_TIMEOUT_SECS,
            },
            McStage::MarkGone => McCommand::SetProgress { bps: GONE_BPS },
            McStage::ReapA => McCommand::ReapPrismA,
            McStage::LaunchB => McCommand::LaunchPrism { who: Who::B },
            McStage::MarkLaunched => McCommand::SetProgress { bps: LAUNCHED_BPS },
            McStage::WindowB => McCommand::AwaitWindow {
                timeout_secs: MINECRAFT_STARTUP_TIMEOUT_SECS,
            },
            McStage::MarkWindow => McCommand::SetProgress { bps: WINDOW_BPS },
            McStage::PlaceB => McCommand::Place { window: self.b_window, rect: self.a_rect },
            McStage::BlockClicks => McCommand::Overlay(
                OverlayCmd::SetClickThrough { value: false },
            ),
            McStage::HoldCheck => McCommand::ReadHoldClock,
            McStage::HoldLook => McCommand::ReadRect { window: self.b_window },
            McStage::HoldMove => McCommand::Overlay(
                OverlayCmd::Reposition { rect: self.last_rect },
            ),
            McStage::HoldMeasure => McCommand::MeasureHold,
            McStage::HoldMark => McCommand::SetProgress { bps: self.hold_bps },
            McStage::HoldRest => McCommand::Sleep { ms: HOLD_POLL_MS },
            McStage::MarkFull => McCommand::SetProgress { bps: FULL_BPS },
            McStage::HideOverlay => McCommand::Overlay(OverlayCmd::Hide),
            McStage::FadeOut => McCommand::Sleep { ms: fade_wait_ms() },
            McStage::QuitOverlay => McCommand::Overlay(OverlayCmd::Quit),
            McStage::JoinOverlay => McCommand::JoinOverlay,
            McStage::Done => McCommand::Finish,
            McStage::Aborted(error) => McCommand::Abort(error),
        }
    }

    /// Takes the swap further by the outcome of its command.
    pub fn advance(&mut self, outcome: McOutcome)
        requires
            old(self).fits(outcome),
        ensures
            *final(self) == old(self).after(outcome),
    {
        let stage = self.stage;
        match outcome {
            McOutcome::Done => {
                self.stage = stage.next();
            },
            McOutcome::Failed => {
                self.stage = match stage.failure() {
                    Some(error) => McStage::Aborted(error),
                    None => stage.next(),
                };
            },
            McOutcome::Window { handle, pid } => {
                if stage == McStage::WindowA {
                    self.a_window = handle;
                    self.a_pid = pid;
                } else {
                    self.b_window = handle;
                }
                self.stage = stage.next();
            },
            McOutcome::Rect(found) => {
                if stage == McStage::RectA {
                    match found {
                        Some(rect) => {
                            self.a_rect = rect;
                            self.last_rect = rect;
                            self.stage = stage.next();
                        },
                        None => {
                            self.stage = McStage::Monitor;
                        },
                    }
                } else {
                    match found {
                        Some(rect) => {
                            if rect.left != self.last_rect.left || rect.top != self.last_rect.top
                                || rect.right != self.last_rect.right || rect.bottom
                                != self.last_rect.bottom {
                                self.last_rect = rect;
                                self.stage = McStage::HoldMove;
                            } else {
                                self.stage = stage.next();
                            }
                        },
                        None => {
                            self.stage = stage.next();
                        },
                    }
                }
            },
            McOutcome::Screen { width, height } => {
                let rect = primary_monitor_rect(width, height);
                self.a_rect = rect;
                self.last_rect = rect;
                self.stage = stage.next();
            },
            McOutcome::Elapsed { nanos } => {
                self.stage = if nanos < POST_WORLD_LOAD_DELAY_SECS as u128 * NANOS_PER_SEC {
                    stage.next()
                } else {
                    McStage::MarkFull
                };
            },
            McOutcome::Gained { bps } => {
                self.hold_bps = hold_progress(bps);
                self.stage = stage.next();
            },
        }
    }
}

impl McError {
    /// How the error reads, where `shown` is how the window at hand reads.
    pub open spec fn spec_message(self, shown: Seq<char>) -> Seq<char> {
        match self {
            McError::Launch(who) => "spawn Prism with --launch "@ + instance_name(who)
                + " --server \""@ + server_address(who) + "\""@,
            McError::NoWindow => "Minecraft window did not appear within "@ + decimal(
                MINECRAFT_STARTUP_TIMEOUT_SECS as nat,
            ) + "s"@,
            McError::HotkeyClosed => "hotkey channel closed"@,
            McError::OverlayGone => "sending on a closed channel"@,
            McError::KillA => "killing Minecraft A"@,
            McError::StillThere => "window "@ + shown + " did not close within timeout"@,
        }
    }

    /// How the error reads, where `shown` is how the window at hand reads.
    pub fn message(&self, shown: &str) -> (res: String)
        ensures
            res@ == self.spec_message(shown@),
    {
        match self {
            McError::Launch(who) => String::from_str("spawn Prism with --launch ").concat(
                instance_of(*who),
            ).concat(" --server \"").concat(server_of(*who)).concat("\""),
            McError::NoWindow => {
                let mut out = String::from_str("Minecraft window did not appear within ");
                push_decimal(&mut out, MINECRAFT_STARTUP_TIMEOUT_SECS);
                out.append("s");
                out
            },
            McError::HotkeyClosed => String::from_str("hotkey channel closed"),
            McError::OverlayGone => String::from_str("sending on a closed channel"),
            McError::KillA => String::from_str("killing Minecraft A"),
            McError::StillThere => String::from_str("window ").concat(shown).concat(
                " did not close within timeout",
            ),
        }
    }
}

/// What the player's screen and machine look like, as far as the swap decides.
pub struct McWorld {
    /// A was launched at some time.
    pub a_launched: bool,
    /// A runs: it was launched and its window has not been seen to go.
    pub a_running: bool,
    pub b_launched: bool,
    /// What the overlay covers.
    pub covered: Option<Rect>,
    /// The overlay has finished fading in.
    pub opaque: bool,
    /// The overlay has been taken away to reveal B.
    pub revealed: bool,
    /// Clicks pass through the overlay.
    pub clicks_pass: bool,
    /// Progress shown, in basis points.
    pub progress: int,
}

impl McWorld {
    /// Before the swap.
    pub open spec fn start() -> McWorld {
        McWorld {
            a_launched: false,
            a_running: false,
            b_launched: false,
            covered: None,
            opaque: false,
            revealed: false,
            clicks_pass: true,
            progress: 0,
        }
    }

    /// What a command that went like this changes. A fade is over once the
    /// launcher has slept through it.
    pub open spec fn after(self, command: McCommand, outcome: McOutcome) -> McWorld {
        if outcome is Failed {
            self
        } else {
            match command {
                McCommand::LaunchPrism { who: Who::A } => McWorld {
                    a_launched: true,
                    a_running: true,
                    ..self
                },
                McCommand::LaunchPrism { who: Who::B } => McWorld { b_launched: true, ..self },
                McCommand::AwaitGone { .. } => McWorld { a_running: false, ..self },
                McCommand::Overlay(OverlayCmd::ShowAt { rect }) => McWorld {
                    covered: Some(rect),
                    opaque: false,
                    ..self
                },
                McCommand::Overlay(OverlayCmd::Reposition { rect }) => McWorld {
                    covered: Some(rect),
                    ..self
                },
                McCommand::Overlay(OverlayCmd::Hide) => McWorld {
                    covered: None,
                    opaque: false,
                    revealed: true,
                    ..self
                },
                McCommand::Overlay(OverlayCmd::SetClickThrough { value }) => McWorld {
                    clicks_pass: value,
                    ..self
                },
                McCommand::Sleep { ms } => McWorld {
                    opaque: self.opaque || (self.covered is Some && ms >= FADE_DURATION_MS
                        + FADE_MARGIN_MS),
                    ..self
                },
                McCommand::SetProgress { bps } => McWorld { progress: bps as int, ..self },
                _ => self,
            }
        }
    }
}

/// The swap after these outcomes.
pub open spec fn swap_after(outcomes: Seq<McOutcome>) -> McSwap
    decreases outcomes.len(),
{
    if outcomes.len() == 0 {
        McSwap::start()
    } else {
        swap_after(outcomes.drop_last()).after(outcomes.last())
    }
}

/// The world after these outcomes.
pub open spec fn world_after(outcomes: Seq<McOutcome>) -> McWorld
    decreases outcomes.len(),
{
    if outcomes.len() == 0 {
        McWorld::start()
    } else {
        world_after(outcomes.drop_last()).after(
            swap_after(outcomes.drop_last()).spec_command(),
            outcomes.last(),
        )
    }
}

/// Outcomes that a swap can have: each is of its command's kind.
pub open spec fn possible(outcomes: Seq<McOutcome>) -> bool
    decreases outcomes.len(),
{
    outcomes.len() == 0 || (possible(outcomes.drop_last()) && swap_after(outcomes.drop_last()).fits(
        outcomes.last(),
    ))
}

/// How far the two games and the overlay are before A is covered.
spec fn before_cover(w: McWorld) -> bool {
    w.a_launched && w.a_running && !w.b_launched && w.covered is None && !w.revealed
        && w.clicks_pass && w.progress == 0
}

/// A runs behind the overlay.
spec fn a_covered(swap: McSwap, w: McWorld) -> bool {
    w.a_launched && w.a_running && !w.b_launched && w.covered == Some(swap.a_rect) && !w.revealed
        && w.clicks_pass
}

/// A is gone, and the overlay hides where it was.
spec fn a_gone(swap: McSwap, w: McWorld) -> bool {
    w.a_launched && !w.a_running && w.covered == Some(swap.a_rect) && w.opaque && !w.revealed
        && w.clicks_pass
}

/// B loads behind the overlay, which swallows clicks.
spec fn b_loading(w: McWorld) -> bool {
    w.a_launched && !w.a_running && w.b_launched && w.covered is Some && w.opaque && !w.revealed
        && !w.clicks_pass
}

/// What holds of the world at each stage.
spec fn consistent(swap: McSwap, w: McWorld) -> bool {
    match swap.stage {
        McStage::LaunchA => w == McWorld::start(),
        McStage::WindowA | McStage::Hotkey | McStage::RectA | McStage::Monitor
        | McStage::ShowOverlay => before_cover(w),
        McStage::MarkShowing => a_covered(swap, w) && w.progress == 0,
        McStage::FadeIn => a_covered(swap, w) && w.progress == SHOWING_BPS,
        McStage::MarkCovered => a_covered(swap, w) && w.opaque && w.progress == SHOWING_BPS,
        McStage::KillA | McStage::GoneA => a_covered(swap, w) && w.opaque && w.progress
            == COVERED_BPS,
        McStage::MarkGone => a_gone(swap, w) && !w.b_launched && w.progress == COVERED_BPS,
        McStage::ReapA | McStage::LaunchB => a_gone(swap, w) && !w.b_launched && w.progress
            == GONE_BPS,
        McStage::MarkLaunched => a_gone(swap, w) && w.b_launched && w.progress == GONE_BPS,
        McStage::WindowB | McStage::MarkWindow => a_gone(swap, w) && w.b_launched && w.progress
            == LAUNCHED_BPS,
        McStage::PlaceB | McStage::BlockClicks => a_gone(swap, w) && w.b_launched && w.progress
            == WINDOW_BPS,
        McStage::HoldCheck | McStage::HoldLook | McStage::HoldMove | McStage::HoldMeasure
        | McStage::HoldRest | McStage::MarkFull => b_loading(w) && HOLD_PROGRESS_START
            <= w.progress <= HOLD_PROGRESS_END,
        McStage::HoldMark => b_loading(w) && HOLD_PROGRESS_START <= w.progress
            <= HOLD_PROGRESS_END && HOLD_PROGRESS_START <= swap.hold_bps <= HOLD_PROGRESS_END,
        McStage::HideOverlay => b_loading(w) && w.progress == FULL_BPS,
        McStage::FadeOut | McStage::QuitOverlay | McStage::JoinOverlay | McStage::Done =>
            w.a_launched && !w.a_running && w.b_launched && w.revealed && w.covered is None
            && !w.clicks_pass && w.progress == FULL_BPS,
        McStage::Aborted(_) => {
            &&& !(w.a_running && w.b_launched)
            &&& w.a_launched && !w.a_running && !w.revealed ==> w.covered is Some && w.opaque
            &&& !w.clicks_pass ==> !w.a_running
            &&& 0 <= w.progress <= FULL_BPS
        },
    }
}

proof fn stays_consistent(outcomes: Seq<McOutcome>)
    requires
        possible(outcomes),
    ensures
        consistent(swap_after(outcomes), world_after(outcomes)),
    decreases outcomes.len(),
{
    if outcomes.len() > 0 {
        stays_consistent(outcomes.drop_last());
    }
}

/// B is not launched before A is gone.
pub proof fn one_game_at_a_time(outcomes: Seq<McOutcome>)
    requires
        possible(outcomes),
    ensures
        !(world_after(outcomes).a_running && world_after(outcomes).b_launched),
{
    stays_consistent(outcomes);
}

/// From the moment A is gone until B is revealed, the overlay is up and opaque.
pub proof fn the_gap_is_never_seen(outcomes: Seq<McOutcome>)
    requires
        possible(outcomes),
    ensures
        ({
            let w = world_after(outcomes);
            w.a_launched && !w.a_running && !w.revealed ==> w.covered is Some && w.opaque
        }),
{
    stays_consistent(outcomes);
}

/// The overlay swallows clicks only once A is gone, and does so for as long as B
/// loads behind it.
pub proof fn clicks_reach_a_but_not_the_loading_b(outcomes: Seq<McOutcome>)
    requires
        possible(outcomes),
    ensures
        ({
            let stage = swap_after(outcomes).stage;
            let w = world_after(outcomes);
            &&& !w.clicks_pass ==> !w.a_running
            &&& stage is HoldCheck || stage is HoldLook || stage is HoldMove || stage is HoldMeasure
                || stage is HoldMark || stage is HoldRest ==> !w.clicks_pass
        }),
{
    stays_consistent(outcomes);
}

/// B is put exactly where the overlay lies: over what A covered.
pub proof fn b_takes_the_place_of_a(outcomes: Seq<McOutcome>)
    requires
        possible(outcomes),
    ensures
        swap_after(outcomes).spec_command() matches McCommand::Place { window, rect } ==> {
            &&& window == swap_after(outcomes).b_window
            &&& rect == swap_after(outcomes).a_rect
            &&& world_after(outcomes).covered == Some(rect) && world_after(outcomes).opaque
        },
{
    stays_consistent(outcomes);
}

/// Only A is ever ended by force, and only behind an opaque overlay at its place.
pub proof fn only_a_is_killed(outcomes: Seq<McOutcome>)
    requires
        possible(outcomes),
    ensures
        swap_after(outcomes).spec_command() matches McCommand::Kill { pid } ==> {
            &&& pid == swap_after(outcomes).a_pid
            &&& world_after(outcomes).a_running
            &&& world_after(outcomes).covered == Some(swap_after(outcomes).a_rect)
            &&& world_after(outcomes).opaque
        },
{
    stays_consistent(outcomes);
}

/// Progress stays within the bar, and is full exactly once the hold is over.
pub proof fn full_only_when_loaded(outcomes: Seq<McOutcome>)
    requires
        possible(outcomes),
        !(swap_after(outcomes).stage is Aborted),
    ensures
        0 <= world_after(outcomes).progress <= FULL_BPS,
        world_after(outcomes).progress == FULL_BPS <==> {
            let stage = swap_after(outcomes).stage;
            stage is HideOverlay || stage is FadeOut || stage is QuitOverlay || stage is JoinOverlay
                || stage is Done
        },
{
    stays_consistent(outcomes);
}

/// What the hold was last found to have gained.
pub open spec fn last_gain(outcomes: Seq<McOutcome>) -> int
    decreases outcomes.len(),
{
    if outcomes.len() == 0 {
        0
    } else {
        match outcomes.last() {
            McOutcome::Gained { bps } => bps as int,
            _ => last_gain(outcomes.drop_last()),
        }
    }
}

/// The hold is never found to have gained less than before.
pub open spec fn gains_never_fall(outcomes: Seq<McOutcome>) -> bool
    decreases outcomes.len(),
{
    outcomes.len() == 0 || {
        &&& gains_never_fall(outcomes.drop_last())
        &&& last_gain(outcomes.drop_last()) <= last_gain(outcomes)
    }
}

/// Progress during the hold is what was gained last.
spec fn progress_is_gain(swap: McSwap, w: McWorld, gain: int) -> bool {
    match swap.stage {
        McStage::HoldCheck | McStage::HoldLook | McStage::HoldMove | McStage::HoldMeasure
        | McStage::HoldRest => w.progress == HOLD_PROGRESS_START + gain,
        McStage::HoldMark => w.progress <= swap.hold_bps && swap.hold_bps == HOLD_PROGRESS_START
            + gain,
        McStage::MarkFull | McStage::HideOverlay | McStage::FadeOut | McStage::QuitOverlay
        | McStage::JoinOverlay | McStage::Done | McStage::Aborted(_) => true,
        _ => gain == 0,
    }
}

proof fn progress_follows_gains(outcomes: Seq<McOutcome>)
    requires
        possible(outcomes),
        gains_never_fall(outcomes),
    ensures
        progress_is_gain(swap_after(outcomes), world_after(outcomes), last_gain(outcomes)),
    decreases outcomes.len(),
{
    if outcomes.len() > 0 {
        progress_follows_gains(outcomes.drop_last());
        stays_consistent(outcomes.drop_last());
    }
}

/// Progress never goes back, as long as what the hold has gained does not.
pub proof fn progress_never_goes_back(outcomes: Seq<McOutcome>)
    requires
        possible(outcomes),
        gains_never_fall(outcomes),
        outcomes.len() > 0,
    ensures
        world_after(outcomes).progress >= world_after(outcomes.drop_last()).progress,
{
    stays_consistent(outcomes.drop_last());
    progress_follows_gains(outcomes.drop_last());
}

/// During the hold the overlay follows B: a look that finds B elsewhere is
/// followed by the command to move the overlay to the very rectangle seen, and a
/// look that finds it in place, or does not find it, by none.
pub proof fn the_overlay_follows_b(swap: McSwap, seen: Option<Rect>)
    requires
        swap.stage is HoldLook,
    ensures
        ({
            let after = swap.after(McOutcome::Rect(seen));
            &&& seen matches Some(rect) ==> after.last_rect == rect
            &&& seen is None ==> after.last_rect == swap.last_rect
            &&& seen is Some && seen->0 != swap.last_rect ==> after.spec_command()
                == McCommand::Overlay(OverlayCmd::Reposition { rect: seen->0 })
            &&& seen is None || seen->0 == swap.last_rect ==> after.spec_command()
                == McCommand::MeasureHold
        }),
{
}

/// The hold ends exactly at the first look at the clock that finds its time up.
pub proof fn the_hold_lasts_its_time(swap: McSwap, nanos: u128)
    requires
        swap.stage is HoldCheck,
    ensures
        swap.after(McOutcome::Elapsed { nanos }).stage == McStage::MarkFull <==> nanos
            >= POST_WORLD_LOAD_DELAY_SECS * NANOS_PER_SEC,
        swap.after(McOutcome::Elapsed { nanos }).stage == McStage::HoldLook <==> nanos
            < POST_WORLD_LOAD_DELAY_SECS * NANOS_PER_SEC,
{
}

/// The hold is on.
pub open spec fn in_hold(stage: McStage) -> bool {
    match stage {
        McStage::HoldCheck | McStage::HoldLook | McStage::HoldMove | McStage::HoldMeasure
        | McStage::HoldMark | McStage::HoldRest => true,
        _ => false,
    }
}

/// How far from the end a stage is. The stages of the hold share one rank.
pub open spec fn rank(stage: McStage) -> nat {
    match stage {
        McStage::LaunchA => 25,
        McStage::WindowA => 24,
        McStage::Hotkey => 23,
        McStage::RectA => 22,
        McStage::Monitor => 21,
        McStage::ShowOverlay => 20,
        McStage::MarkShowing => 19,
        McStage::FadeIn => 18,
        McStage::MarkCovered => 17,
        McStage::KillA => 16,
        McStage::GoneA => 15,
        McStage::MarkGone => 14,
        McStage::ReapA => 13,
        McStage::LaunchB => 12,
        McStage::MarkLaunched => 11,
        McStage::WindowB => 10,
        McStage::MarkWindow => 9,
        McStage::PlaceB => 8,
        McStage::BlockClicks => 7,
        McStage::HoldCheck | McStage::HoldLook | McStage::HoldMove | McStage::HoldMeasure
        | McStage::HoldMark | McStage::HoldRest => 6,
        McStage::MarkFull => 5,
        McStage::HideOverlay => 4,
        McStage::FadeOut => 3,
        McStage::QuitOverlay => 2,
        McStage::JoinOverlay => 1,
        McStage::Done => 0,
        McStage::Aborted(_) => 0,
    }
}

/// How many commands of the hold may still come before the clock is read.
pub open spec fn until_clock(stage: McStage) -> nat {
    match stage {
        McStage::HoldLook => 5,
        McStage::HoldMove => 4,
        McStage::HoldMeasure => 3,
        McStage::HoldMark => 2,
        McStage::HoldRest => 1,
        _ => 0,
    }
}

/// Outside the hold, every outcome brings the swap closer to its end.
pub proof fn outside_the_hold_the_end_comes_closer(swap: McSwap, outcome: McOutcome)
    requires
        swap.fits(outcome),
        !in_hold(swap.stage),
    ensures
        rank(swap.after(outcome).stage) < rank(swap.stage),
{
}

/// Inside the hold, every outcome but a reading of the clock stays in the hold and
/// brings the next reading closer; where it is due, nothing else can come.
pub proof fn inside_the_hold_the_clock_comes_closer(swap: McSwap, outcome: McOutcome)
    requires
        swap.fits(outcome),
        in_hold(swap.stage),
    ensures
        until_clock(swap.stage) <= 5,
        until_clock(swap.stage) == 0 <==> swap.spec_command() == McCommand::ReadHoldClock,
        outcome is Elapsed <==> swap.spec_command() == McCommand::ReadHoldClock,
        !(outcome is Elapsed) ==> in_hold(swap.after(outcome).stage) && until_clock(
            swap.after(outcome).stage,
        ) < until_clock(swap.stage),
{
}

/// How often the clock was read.
pub open spec fn readings(outcomes: Seq<McOutcome>) -> nat
    decreases outcomes.len(),
{
    if outcomes.len() == 0 {
        0
    } else {
        readings(outcomes.drop_last()) + if outcomes.last() is Elapsed {
            1nat
        } else {
            0nat
        }
    }
}

/// How many outcomes came after the last reading of the clock, or came at all.
pub open spec fn since_reading(outcomes: Seq<McOutcome>) -> nat
    decreases outcomes.len(),
{
    if outcomes.len() == 0 || outcomes.last() is Elapsed {
        0
    } else {
        since_reading(outcomes.drop_last()) + 1
    }
}

/// As long as the hold is on, the clock is read again after at most five other
/// outcomes, and it is the first thing that the hold does.
pub proof fn the_clock_is_read_again(outcomes: Seq<McOutcome>)
    requires
        possible(outcomes),
    ensures
        rank(swap_after(outcomes).stage) > 6 ==> readings(outcomes) == 0,
        in_hold(swap_after(outcomes).stage) && readings(outcomes) == 0 ==> swap_after(
            outcomes,
        ).spec_command() == McCommand::ReadHoldClock,
        in_hold(swap_after(outcomes).stage) && readings(outcomes) > 0 ==> since_reading(outcomes)
            + until_clock(swap_after(outcomes).stage) <= 5,
    decreases outcomes.len(),
{
    if outcomes.len() > 0 {
        the_clock_is_read_again(outcomes.drop_last());
    }
}

/// A reading of the clock that finds the time up ends the hold for good: it is
/// never on again, and at most five outcomes follow.
pub proof fn the_hold_ends_for_good(outcomes: Seq<McOutcome>, at: int)
    requires
        possible(outcomes),
        0 <= at < outcomes.len(),
        outcomes[at] matches McOutcome::Elapsed { nanos } && nanos >= POST_WORLD_LOAD_DELAY_SECS
            * NANOS_PER_SEC,
    ensures
        !in_hold(swap_after(outcomes).stage),
        outcomes.len() - at - 1 + rank(swap_after(outcomes).stage) <= 5,
    decreases outcomes.len(),
{
    if at < outcomes.len() - 1 {
        the_hold_ends_for_good(outcomes.drop_last(), at);
    }
}

/// How many commands may still come before the clock is read or, where the hold
/// is over, before the end.
spec fn stretch(stage: McStage) -> int {
    if rank(stage) > 6 {
        rank(stage) - 6
    } else if in_hold(stage) {
        until_clock(stage) as int
    } else {
        rank(stage) as int
    }
}

proof fn stretches_add_up(outcomes: Seq<McOutcome>)
    requires
        possible(outcomes),
    ensures
        outcomes.len() + stretch(swap_after(outcomes).stage) <= 19 + 6 * readings(outcomes),
    decreases outcomes.len(),
{
    if outcomes.len() > 0 {
        stretches_add_up(outcomes.drop_last());
        the_clock_is_read_again(outcomes.drop_last());
    }
}

/// A swap is as long as its hold: nineteen commands at most, and six for every
/// reading of the clock.
pub proof fn only_the_hold_takes_long(outcomes: Seq<McOutcome>)
    requires
        possible(outcomes),
    ensures
        outcomes.len() <= 19 + 6 * readings(outcomes),
        swap_after(outcomes).stage.spec_over() <==> rank(swap_after(outcomes).stage) == 0,
{
    stretches_add_up(outcomes);
}

/// The clock counts the rests of the hold: a reading shows no less than the rests
/// taken before it.
pub open spec fn clock_counts_rests(outcomes: Seq<McOutcome>) -> bool
    decreases outcomes.len(),
{
    outcomes.len() == 0 || {
        &&& clock_counts_rests(outcomes.drop_last())
        &&& outcomes.last() matches McOutcome::Elapsed { nanos } ==> nanos >= readings(
            outcomes.drop_last(),
        ) * HOLD_POLL_MS * 1_000_000
    }
}

proof fn readings_are_few(outcomes: Seq<McOutcome>)
    requires
        possible(outcomes),
        clock_counts_rests(outcomes),
    ensures
        readings(outcomes) <= 81,
        in_hold(swap_after(outcomes).stage) ==> readings(outcomes) <= 80,
    decreases outcomes.len(),
{
    if outcomes.len() > 0 {
        readings_are_few(outcomes.drop_last());
        the_clock_is_read_again(outcomes.drop_last());
    }
}

/// The swap ends: with a clock that counts the rests of the hold, it takes at most
/// 505 commands, whatever their outcomes.
pub proof fn the_swap_ends(outcomes: Seq<McOutcome>)
    requires
        possible(outcomes),
        clock_counts_rests(outcomes),
    ensures
        outcomes.len() <= 505,
{
    only_the_hold_takes_long(outcomes);
    readings_are_few(outcomes);
}

/// A swap that ends well leaves B running, revealed, with A gone.
pub proof fn a_finished_swap_leaves_b(outcomes: Seq<McOutcome>)
    requires
        possible(outcomes),
        swap_after(outcomes).stage is Done,
    ensures
        !world_after(outcomes).a_running,
        world_after(outcomes).b_launched,
        world_after(outcomes).revealed,
        world_after(outcomes).covered is None,
{
    stays_consistent(outcomes);
}

/// A's window could not be measured, so that the screen was.
pub open spec fn screen_measured(outcomes: Seq<McOutcome>) -> bool {
    outcomes.len() > 3 && outcomes[3] == McOutcome::Rect(None)
}

/// The place of the outcome that brought B's window.
pub open spec fn b_window_at(outcomes: Seq<McOutcome>) -> int {
    if screen_measured(outcomes) {
        15
    } else {
        14
    }
}

/// The window that an outcome brought.
pub open spec fn window_handed_in(outcome: McOutcome) -> isize {
    match outcome {
        McOutcome::Window { handle, .. } => handle,
        _ => 0,
    }
}

/// The process that an outcome brought.
pub open spec fn pid_handed_in(outcome: McOutcome) -> u32 {
    match outcome {
        McOutcome::Window { pid, .. } => pid,
        _ => 0,
    }
}

/// Where A stands, by the outcomes: its window's rectangle, or the whole screen.
pub open spec fn place_handed_in(outcomes: Seq<McOutcome>) -> Rect {
    match outcomes[3] {
        McOutcome::Rect(Some(rect)) => rect,
        _ => match outcomes[4] {
            McOutcome::Screen { width, height } => Rect {
                left: 0,
                top: 0,
                right: width,
                bottom: height,
            },
            _ => no_rect(),
        },
    }
}

/// The commands of a swap up to the hold.
pub open spec fn opening(
    a_window: isize,
    a_pid: u32,
    measure_screen: bool,
    place: Rect,
    b_window: isize,
) -> Seq<McCommand> {
    seq![
        McCommand::LaunchPrism { who: Who::A },
        McCommand::AwaitWindow { timeout_secs: 180 },
        McCommand::AwaitHotkey,
        McCommand::ReadRect { window: a_window },
    ] + if measure_screen {
        seq![McCommand::ReadScreen]
    } else {
        seq![]
    } + seq![
        McCommand::Overlay(OverlayCmd::ShowAt { rect: place }),
        McCommand::SetProgress { bps: 500 },
        McCommand::Sleep { ms: 350 },
        McCommand::SetProgress { bps: 1000 },
        McCommand::Kill { pid: a_pid },
        McCommand::AwaitGone { window: a_window, timeout_secs: 15 },
        McCommand::SetProgress { bps: 2500 },
        McCommand::ReapPrismA,
        McCommand::LaunchPrism { who: Who::B },
        McCommand::SetProgress { bps: 3000 },
        McCommand::AwaitWindow { timeout_secs: 180 },
        McCommand::SetProgress { bps: 5000 },
        McCommand::Place { window: b_window, rect: place },
        McCommand::Overlay(OverlayCmd::SetClickThrough { value: false }),
    ]
}

/// What the swap remembers of the outcomes, and how far they have brought it.
spec fn remembers(swap: McSwap, outcomes: Seq<McOutcome>) -> bool {
    let n = outcomes.len() as int;
    let at = b_window_at(outcomes);
    !(swap.stage is Aborted) ==> {
        &&& rank(swap.stage) > 6 && n <= 3 ==> n + rank(swap.stage) == 25
        &&& rank(swap.stage) > 6 && n > 3 ==> n + rank(swap.stage) == 10 + at
        &&& rank(swap.stage) <= 6 ==> n >= at + 4
        &&& n > 1 ==> outcomes[1] == (McOutcome::Window {
            handle: swap.a_window,
            pid: swap.a_pid,
        })
        &&& n > 3 ==> outcomes[3] is Rect
        &&& n > 3 && outcomes[3] != McOutcome::Rect(None) ==> outcomes[3] == McOutcome::Rect(
            Some(swap.a_rect),
        )
        &&& n > 4 && screen_measured(outcomes) ==> outcomes[4] is Screen && swap.a_rect
            == place_handed_in(outcomes)
        &&& n > at ==> outcomes[at] is Window && window_handed_in(outcomes[at]) == swap.b_window
    }
}

proof fn outcomes_are_remembered(outcomes: Seq<McOutcome>)
    requires
        possible(outcomes),
    ensures
        remembers(swap_after(outcomes), outcomes),
    decreases outcomes.len(),
{
    if outcomes.len() > 0 {
        let before = outcomes.drop_last();
        outcomes_are_remembered(before);
        assert(forall|i: int| 0 <= i < before.len() ==> before[i] == outcomes[i]);
        if outcomes.len() > 4 {
            assert(before[3] == outcomes[3]);
        }
        if outcomes.len() > 5 {
            assert(before[4] == outcomes[4]);
        }
    }
}

/// Up to the hold, a swap that is not given up follows its script, whatever the
/// outcomes. The windows and the process it names are the ones handed in: A's by
/// the second outcome, B's by the one after its launch. It covers and fills the
/// place of A that was handed in.
pub proof fn the_opening_follows_its_script(outcomes: Seq<McOutcome>)
    requires
        possible(outcomes),
        !(swap_after(outcomes).stage is Aborted),
        outcomes.len() < b_window_at(outcomes) + 4,
    ensures
        swap_after(outcomes).spec_command() == opening(
            window_handed_in(outcomes[1]),
            pid_handed_in(outcomes[1]),
            screen_measured(outcomes),
            place_handed_in(outcomes),
            window_handed_in(outcomes[b_window_at(outcomes)]),
        )[outcomes.len() as int],
{
    outcomes_are_remembered(outcomes);
}

/// The hold begins with the opening's end.
pub proof fn the_hold_follows_the_opening(outcomes: Seq<McOutcome>)
    requires
        possible(outcomes),
        !(swap_after(outcomes).stage is Aborted),
    ensures
        rank(swap_after(outcomes).stage) > 6 <==> outcomes.len() < b_window_at(outcomes) + 4,
        outcomes.len() == b_window_at(outcomes) + 4 ==> swap_after(outcomes).spec_command()
            == McCommand::ReadHoldClock,
{
    outcomes_are_remembered(outcomes);
    if outcomes.len() == b_window_at(outcomes) + 4 {
        outcomes_are_remembered(outcomes.drop_last());
        assert(outcomes.drop_last()[3] == outcomes[3]);
    }
}

/// In whatever order things come: the process killed is the one that was handed in
/// with A's window, and it is that window whose going is waited for; B's window is
/// placed, over A's place, by the handle that was handed in for it; the overlay is
/// shown at A's place, and moved only to a rectangle just seen.
pub proof fn commands_name_what_was_handed_in(outcomes: Seq<McOutcome>)
    requires
        possible(outcomes),
    ensures
        match swap_after(outcomes).spec_command() {
            McCommand::Kill { pid } => {
                &&& outcomes.len() > 1
                &&& outcomes[1] matches McOutcome::Window { pid: owner, .. } && pid == owner
            },
            McCommand::AwaitGone { window, .. } => {
                &&& outcomes.len() > 1
                &&& outcomes[1] matches McOutcome::Window { handle, .. } && window == handle
            },
            McCommand::ReadRect { window } => if outcomes.len() == 3 {
                outcomes[1] matches McOutcome::Window { handle, .. } && window == handle
            } else {
                let at = b_window_at(outcomes);
                &&& outcomes.len() > at
                &&& outcomes[at] matches McOutcome::Window { handle, .. } && window == handle
            },
            McCommand::Place { window, rect } => {
                let at = b_window_at(outcomes);
                &&& outcomes.len() > at
                &&& outcomes[at] matches McOutcome::Window { handle, .. } && window == handle
                &&& rect == place_handed_in(outcomes)
            },
            McCommand::Overlay(OverlayCmd::ShowAt { rect }) => {
                &&& outcomes.len() > 3
                &&& match outcomes[3] {
                    McOutcome::Rect(Some(found)) => rect == found,
                    McOutcome::Rect(None) => {
                        &&& outcomes.len() > 4
                        &&& outcomes[4] matches McOutcome::Screen { width, height } && rect == (Rect {
                            left: 0,
                            top: 0,
                            right: width,
                            bottom: height,
                        })
                    },
                    _ => false,
                }
            },
            McCommand::Overlay(OverlayCmd::Reposition { rect }) => {
                &&& outcomes.len() > 0
                &&& outcomes.last() == McOutcome::Rect(Some(rect))
            },
            _ => true,
        },
{
    outcomes_are_remembered(outcomes);
    if outcomes.len() > 0 {
        outcomes_are_remembered(outcomes.drop_last());
    }
}

/// Exactly two windows are handed in, A's and then B's, so that neither can be
/// taken for the other.
pub proof fn two_windows_are_handed_in(outcomes: Seq<McOutcome>, at: int)
    requires
        possible(outcomes),
        0 <= at < outcomes.len(),
        outcomes[at] is Window,
    ensures
        at == 1 || at == b_window_at(outcomes),
    decreases outcomes.len(),
{
    let before = outcomes.drop_last();
    outcomes_are_remembered(before);
    assert(forall|i: int| 0 <= i < before.len() ==> before[i] == outcomes[i]);
    if at < before.len() {
        two_windows_are_handed_in(before, at);
        if before.len() > 3 {
            assert(before[3] == outcomes[3]);
        } else {
            assert(at == 1);
        }
    } else if outcomes.len() > 4 {
        assert(before[3] == outcomes[3]);
    }
}

/// Where B was seen last, by the outcomes; before that, A's place.
pub open spec fn last_seen(outcomes: Seq<McOutcome>) -> Rect
    decreases outcomes.len(),
{
    if outcomes.len() == 0 {
        no_rect()
    } else {
        match outcomes.last() {
            McOutcome::Rect(Some(rect)) => rect,
            McOutcome::Screen { width, height } => Rect {
                left: 0,
                top: 0,
                right: width,
                bottom: height,
            },
            _ => last_seen(outcomes.drop_last()),
        }
    }
}

proof fn last_seen_is_remembered(outcomes: Seq<McOutcome>)
    requires
        possible(outcomes),
    ensures
        swap_after(outcomes).last_rect == last_seen(outcomes),
    decreases outcomes.len(),
{
    if outcomes.len() > 0 {
        last_seen_is_remembered(outcomes.drop_last());
    }
}

/// What follows what in the hold, by the outcomes alone: while its time is not up
/// B's window is looked at; the overlay is moved to what is seen exactly where that
/// is not what was seen before; then the gain is measured, shown on top of half a
/// bar, and rested on. When the time is up the bar is filled.
pub proof fn the_hold_follows_its_course(outcomes: Seq<McOutcome>)
    requires
        possible(outcomes),
        outcomes.len() > 0,
        in_hold(swap_after(outcomes.drop_last()).stage),
    ensures
        ({
            let before = swap_after(outcomes.drop_last()).spec_command();
            let next = swap_after(outcomes).spec_command();
            match outcomes.last() {
                McOutcome::Elapsed { nanos } => {
                    &&& before == McCommand::ReadHoldClock
                    &&& nanos >= 20_000_000_000 ==> next == (McCommand::SetProgress { bps: 10000 })
                    &&& nanos < 20_000_000_000 ==> next == (McCommand::ReadRect {
                        window: window_handed_in(outcomes[b_window_at(outcomes)]),
                    })
                },
                McOutcome::Rect(Some(seen)) => {
                    &&& before is ReadRect
                    &&& seen != last_seen(outcomes.drop_last()) ==> next == McCommand::Overlay(
                        OverlayCmd::Reposition { rect: seen },
                    )
                    &&& seen == last_seen(outcomes.drop_last()) ==> next == McCommand::MeasureHold
                },
                McOutcome::Rect(None) => before is ReadRect && next == McCommand::MeasureHold,
                McOutcome::Gained { bps } => {
                    &&& before == McCommand::MeasureHold
                    &&& next == (McCommand::SetProgress { bps: (5000 + bps) as i32 })
                },
                _ => match before {
                    McCommand::Overlay(_) => next == McCommand::MeasureHold,
                    McCommand::SetProgress { .. } => next == (McCommand::Sleep { ms: 250 }),
                    McCommand::Sleep { .. } => next == McCommand::ReadHoldClock,
                    _ => false,
                },
            }
        }),
{
    let before = outcomes.drop_last();
    last_seen_is_remembered(before);
    outcomes_are_remembered(before);
    outcomes_are_remembered(outcomes);
    assert(forall|i: int| 0 <= i < before.len() ==> before[i] == outcomes[i]);
    assert(before[3] == outcomes[3]);
    assert(before[b_window_at(before)] == outcomes[b_window_at(before)]);
}

/// What follows the hold, whatever came before: the bar is filled, the overlay
/// taken away, its fade waited for, its thread ended.
pub proof fn the_ending_follows_its_script(outcomes: Seq<McOutcome>, at: int)
    requires
        possible(outcomes),
        0 <= at < outcomes.len(),
        outcomes[at] matches McOutcome::Elapsed { nanos } && nanos >= 20_000_000_000,
        !(swap_after(outcomes).stage is Aborted),
    ensures
        outcomes.len() - at <= 6,
        swap_after(outcomes).spec_command() == seq![
            McCommand::SetProgress { bps: 10000 },
            McCommand::Overlay(OverlayCmd::Hide),
            McCommand::Sleep { ms: 350 },
            McCommand::Overlay(OverlayCmd::Quit),
            McCommand::JoinOverlay,
            McCommand::Finish,
        ][outcomes.len() - at - 1],
    decreases outcomes.len(),
{
    if at < outcomes.len() - 1 {
        the_ending_follows_its_script(outcomes.drop_last(), at);
    }
    the_hold_ends_for_good(outcomes, at);
}

/// Which failures end a swap, and as which error: only those of a launch, of a
/// window that does not come or go, of the hotkey, of the kill, and of showing,
/// blocking or hiding the overlay.
pub proof fn these_failures_end_it(swap: McSwap, outcome: McOutcome)
    requires
        swap.fits(outcome),
    ensures
        ({
            let stage = swap.after(outcome).stage;
            &&& !(outcome is Failed) ==> !(stage is Aborted)
            &&& outcome is Failed ==> match swap.spec_command() {
                McCommand::LaunchPrism { who } => stage == McStage::Aborted(McError::Launch(who)),
                McCommand::AwaitWindow { .. } => stage == McStage::Aborted(McError::NoWindow),
                McCommand::AwaitHotkey => stage == McStage::Aborted(McError::HotkeyClosed),
                McCommand::Overlay(OverlayCmd::Quit) => !(stage is Aborted),
                McCommand::Overlay(OverlayCmd::Reposition { .. }) => !(stage is Aborted),
                McCommand::Overlay(_) => stage == McStage::Aborted(McError::OverlayGone),
                McCommand::Kill { .. } => stage == McStage::Aborted(McError::KillA),
                McCommand::AwaitGone { .. } => stage == McStage::Aborted(McError::StillThere),
                _ => !(stage is Aborted),
            }
        }),
{
}

/// A swap that was given up says so, with the error.
pub proof fn a_swap_given_up_says_why(swap: McSwap, error: McError)
    ensures
        swap.stage == McStage::Aborted(error) <==> swap.spec_command() == McCommand::Abort(error),
        swap.stage == McStage::Done <==> swap.spec_command() == McCommand::Finish,
{
}

/// Which outcomes a swap takes depends on its command alone: what was asked for,
/// and a failure where that can be.
pub proof fn outcomes_fit_by_their_kind(swap: McSwap, outcome: McOutcome)
    ensures
        swap.fits(outcome) <==> match swap.spec_command() {
            McCommand::Finish => false,
            McCommand::Abort(_) => false,
            McCommand::AwaitWindow { .. } => outcome is Window || outcome is Failed,
            McCommand::ReadRect { .. } => outcome is Rect,
            McCommand::ReadScreen => outcome is Screen,
            McCommand::ReadHoldClock => outcome is Elapsed,
            McCommand::MeasureHold => outcome matches McOutcome::Gained { bps } && 0 <= bps <= 4500,
            McCommand::SetProgress { .. } => outcome is Done,
            McCommand::Sleep { .. } => outcome is Done,
            _ => outcome is Done || outcome is Failed,
        },
{
}

/// A swap that is run is the history of its outcomes: it starts with none, each
/// advance adds one, and its command is the one that history asks for.
pub proof fn advances_make_history(
    fresh: McSwap,
    swap: &mut McSwap,
    outcomes: Seq<McOutcome>,
    outcome: McOutcome,
    command: McCommand,
)
    requires
        call_ensures(McSwap::new, (), fresh),
        *swap == swap_after(outcomes),
        call_ensures(McSwap::advance, (swap, outcome), ()),
        call_ensures(McSwap::command, (&swap_after(outcomes),), command),
    ensures
        fresh == swap_after(seq![]),
        *final(swap) == swap_after(outcomes.push(outcome)),
        command == swap_after(outcomes).spec_command(),
{
    assert(outcomes.push(outcome).drop_last() =~= outcomes);
}

/// A process is killed by its number, which reads back as it, with all its
/// descendants and by force.
pub proof fn a_kill_names_the_process(pid: u32, res: Vec<String>)
    requires
        call_ensures(taskkill_args, (pid,), res),
    ensures
        res@.len() == 4,
        res@[0]@ == "/F"@,
        res@[1]@ == "/T"@,
        res@[2]@ == "/PID"@,
        reads_as(res@[3]@, pid as int),
{
    texts_are_the_strings(res@);
    decimal_reads_back(pid as nat);
    assert(texts(res@).len() == 4);
    assert(texts(res@)[0] == res@[0]@);
    assert(texts(res@)[1] == res@[1]@);
    assert(texts(res@)[2] == res@[2]@);
    assert(texts(res@)[3] == res@[3]@);
}

/// The error of a window that is still there shows it in full; no other error
/// depends on it.
pub proof fn a_window_still_there_is_shown(
    error: McError,
    shown: &str,
    nothing: &str,
    res: String,
    bare: String,
)
    requires
        call_ensures(McError::message, (&error, shown), res),
        call_ensures(McError::message, (&error, nothing), bare),
        nothing@.len() == 0,
    ensures
        error == McError::StillThere ==> bare@ == "window  did not close within timeout"@ && res@
            == bare@.take(7) + shown@ + bare@.skip(7),
        error != McError::StillThere ==> res@ == bare@,
{
    if error == McError::StillThere {
        reveal_strlit("window ");
        reveal_strlit(" did not close within timeout");
        reveal_strlit("window  did not close within timeout");
        assert(bare@ =~= "window  did not close within timeout"@);
        assert(bare@.take(7) =~= "window "@);
        assert(bare@.skip(7) =~= " did not close within timeout"@);
    }
}

/// A swap can be advanced by any outcome of its command's kind: by any window and
/// process, any rectangle and none, any screen, any reading of the clock, and any
/// gain within the hold's span.
pub proof fn any_outcome_of_its_kind_can_be_handed_in(swap: &mut McSwap, outcome: McOutcome)
    requires
        match swap.spec_command() {
            McCommand::Finish => false,
            McCommand::Abort(_) => false,
            McCommand::AwaitWindow { .. } => outcome is Window || outcome is Failed,
            McCommand::ReadRect { .. } => outcome is Rect,
            McCommand::ReadScreen => outcome is Screen,
            McCommand::ReadHoldClock => outcome is Elapsed,
            McCommand::MeasureHold => outcome matches McOutcome::Gained { bps } && 0 <= bps <= 4500,
            McCommand::SetProgress { .. } => outcome is Done,
            McCommand::Sleep { .. } => outcome is Done,
            _ => outcome is Done || outcome is Failed,
        },
    ensures
        call_requires(McSwap::advance, (swap, outcome)),
{
}

/// Each game is launched by its instance into its server.
pub proof fn each_game_has_its_server(
    who: Who,
    instance: &'static str,
    server: &'static str,
    args: Vec<String>,
)
    requires
        call_ensures(instance_of, (who,), instance),
        call_ensures(server_of, (who,), server),
        call_ensures(prism_args, (who,), args),
    ensures
        who == Who::A ==> instance@ == "athion"@ && server@ == "localhost:25565"@,
        who == Who::B ==> instance@ == "1.21.11"@ && server@ == "localhost:25566"@,
        args@.len() == 4,
        args@[0]@ == "--launch"@,
        args@[1]@ == instance@,
        args@[2]@ == "--server"@,
        args@[3]@ == server@,
{
    texts_are_the_strings(args@);
    assert(texts(args@).len() == 4);
    assert(texts(args@)[0] == args@[0]@);
    assert(texts(args@)[1] == args@[1]@);
    assert(texts(args@)[2] == args@[2]@);
    assert(texts(args@)[3] == args@[3]@);
}

/// How the errors read, of either game.
pub proof fn errors_have_their_texts(error: McError, shown: &str, res: String)
    requires
        call_ensures(McError::message, (&error, shown), res),
    ensures
        error == McError::Launch(Who::A) ==> res@ == "spawn Prism with --launch "@ + "athion"@
            + " --server \""@ + "localhost:25565"@ + "\""@,
        error == McError::Launch(Who::B) ==> res@ == "spawn Prism with --launch "@ + "1.21.11"@
            + " --server \""@ + "localhost:25566"@ + "\""@,
        error == McError::NoWindow ==> res@ == "Minecraft window did not appear within 180s"@,
        error == McError::HotkeyClosed ==> res@ == "hotkey channel closed"@,
        error == McError::OverlayGone ==> res@ == "sending on a closed channel"@,
        error == McError::KillA ==> res@ == "killing Minecraft A"@,
        error == McError::StillThere ==> res@ == "window "@ + shown@
            + " did not close within timeout"@,
{
    reveal_strlit("Minecraft window did not appear within ");
    reveal_strlit("s");
    reveal_strlit("Minecraft window did not appear within 180s");
    assert(decimal(1) =~= seq!['1']);
    assert(decimal(18) =~= seq!['1', '8']);
    assert(decimal(180) =~= seq!['1', '8', '0']);
    assert("Minecraft window did not appear within "@ + decimal(180) + "s"@
        =~= "Minecraft window did not appear within 180s"@);
}

} // verus!
