//! The overlay window: how it is made, how it answers commands and window
//! messages.

use crate::fade::{fade_after_ticks, Fade, FadeTick, FADE_TICK_MS, OPAQUE};
use crate::geometry::{Placement, Rect};
use crate::progress::{
    advance_sweep, clamp_bps, clamped_bps, next_sweep, sweep_after, sweep_follows_ticks,
    sweep_repeats, FULL_BPS, PROGRESS_CYCLE_MS, STAGE_TICK_MS, SWEEP_TICK_MS,
};
use vstd::prelude::*;

verus! {

/// Identifier of the overlay's global hotkey.
pub const HOTKEY_ID: i32 = 1;

/// Identifier of the fade timer.
pub const TIMER_ID_FADE: usize = 1;

/// Identifier of the progress timer.
pub const TIMER_ID_PROGRESS: usize = 2;

/// How long the overlay thread rests between two rounds.
pub const OVERLAY_LOOP_SLEEP_MS: u64 = 5;

// Window messages, by their Win32 numbers.
pub const WM_DESTROY: u32 = 0x0002;

pub const WM_PAINT: u32 = 0x000F;

pub const WM_QUIT: u32 = 0x0012;

pub const WM_TIMER: u32 = 0x0113;

pub const WM_HOTKEY: u32 = 0x0312;

/// A borderless window.
pub const WS_POPUP: u32 = 0x8000_0000;

/// Stays above normal windows.
pub const WS_EX_TOPMOST: u32 = 0x0000_0008;

/// Mouse input falls through to what lies below.
pub const WS_EX_TRANSPARENT: u32 = 0x0000_0020;

/// No taskbar entry, no place in the task switcher.
pub const WS_EX_TOOLWINDOW: u32 = 0x0000_0080;

/// Can be shown with an opacity.
pub const WS_EX_LAYERED: u32 = 0x0008_0000;

/// Never takes the focus.
pub const WS_EX_NOACTIVATE: u32 = 0x0800_0000;

// Modifier keys of a hotkey, by their Win32 numbers.
pub const MOD_ALT: u32 = 0x0001;

pub const MOD_CONTROL: u32 = 0x0002;

pub const MOD_SHIFT: u32 = 0x0004;

pub const MOD_NOREPEAT: u32 = 0x4000;

/// The program that an overlay belongs to.
#[derive(Debug, Clone, Copy, PartialEq, Eq, Structural)]
pub enum Program {
    /// The overlay alone, toggled by a hotkey.
    Toggle,
    /// The swap of two test instances.
    Transition,
    /// The swap of two Minecraft instances.
    MinecraftTransition,
}

/// Everything that is fixed about an overlay window when it is made.
#[derive(Debug, Clone, Copy)]
pub struct WindowPlan {
    pub class_name: &'static str,
    pub title: &'static str,
    pub ex_style: u32,
    pub style: u32,
    pub placement: Placement,
    pub alpha: u8,
    pub hotkey_id: i32,
    pub hotkey_modifiers: u32,
    pub hotkey_key: u32,
    pub progress_tick_ms: u32,
}

/// The extended style of an overlay.
pub open spec fn overlay_ex_style() -> u32 {
    WS_EX_LAYERED | WS_EX_TRANSPARENT | WS_EX_TOPMOST | WS_EX_TOOLWINDOW | WS_EX_NOACTIVATE
}

/// The window that a program's overlay starts with: invisible, over the whole
/// primary monitor.
pub fn window_plan(program: Program, monitor: &Rect) -> (res: WindowPlan)
    requires
        monitor.spec_measurable(),
    ensures
        res.ex_style == overlay_ex_style(),
        res.style == WS_POPUP,
        res.placement == monitor.spec_placement(),
        res.alpha == 0,
        res.hotkey_id == HOTKEY_ID,
        program == Program::Toggle ==> {
            &&& res.class_name@ == "LiminalOverlaySpike"@
            &&& res.title@ == "Liminal Overlay Spike"@
            &&& res.hotkey_modifiers == MOD_CONTROL | MOD_SHIFT | MOD_NOREPEAT
            &&& res.hotkey_key == 'L' as u32
            &&& res.progress_tick_ms == SWEEP_TICK_MS
        },
        program == Program::Transition ==> {
            &&& res.class_name@ == "LiminalSpike3Overlay"@
            &&& res.title@ == "Liminal Overlay"@
            &&& res.hotkey_modifiers == MOD_CONTROL | MOD_SHIFT | MOD_NOREPEAT
            &&& res.hotkey_key == 'T' as u32
            &&& res.progress_tick_ms == SWEEP_TICK_MS
        },
        program == Program::MinecraftTransition ==> {
            &&& res.class_name@ == "LiminalMcOverlay"@
            &&& res.title@ == "Liminal MC Overlay"@
            &&& res.hotkey_modifiers == MOD_CONTROL | MOD_ALT | MOD_NOREPEAT
            &&& res.hotkey_key == 'L' as u32
            &&& res.progress_tick_ms == STAGE_TICK_MS
        },
{
    let (class_name, title) = match program {
        Program::Toggle => ("LiminalOverlaySpike", "Liminal Overlay Spike"),
        Program::Transition => ("LiminalSpike3Overlay", "Liminal Overlay"),
        Program::MinecraftTransition => ("LiminalMcOverlay", "Liminal MC Overlay"),
    };
    let hotkey_modifiers: u32 = match program {
        Program::MinecraftTransition => MOD_CONTROL | MOD_ALT | MOD_NOREPEAT,
        _ => MOD_CONTROL | MOD_SHIFT | MOD_NOREPEAT,
    };
    let hotkey_key: u32 = match program {
        Program::Transition => 'T' as u32,
        _ => 'L' as u32,
    };
    let progress_tick_ms: u32 = match program {
        Program::MinecraftTransition => STAGE_TICK_MS,
        _ => SWEEP_TICK_MS,
    };
    WindowPlan {
        class_name,
        title,
        ex_style: WS_EX_LAYERED | WS_EX_TRANSPARENT | WS_EX_TOPMOST | WS_EX_TOOLWINDOW
            | WS_EX_NOACTIVATE,
        style: WS_POPUP,
        placement: monitor.placement(),
        alpha: 0,
        hotkey_id: HOTKEY_ID,
        hotkey_modifiers,
        hotkey_key,
        progress_tick_ms,
    }
}

/// What the launcher tells its overlay.
#[derive(Debug, Clone, Copy, PartialEq, Eq, Structural)]
pub enum OverlayCmd {
    /// Move to this rectangle, then fade in.
    ShowAt { rect: Rect },
    /// Move to this rectangle, without touching the fade.
    Reposition { rect: Rect },
    /// Let clicks pass through, or swallow them.
    SetClickThrough { value: bool },
    /// Fade out where it stands.
    Hide,
    /// Take the window down and end the overlay thread.
    Quit,
}

/// What a look at the command channel brings.
#[derive(Debug, Clone, Copy, PartialEq, Eq, Structural)]
pub enum CommandPoll {
    Command(OverlayCmd),
    Empty,
    /// The launcher is gone.
    Disconnected,
}

/// What is done to the overlay window.
#[derive(Debug, Clone, Copy, PartialEq, Eq, Structural)]
pub enum OverlayAction {
    /// Move and size the window; neither activate it nor change its z-order.
    Place(Placement),
    /// Start the fade timer with this interval.
    StartFadeTimer { period_ms: u32 },
    /// Rewrite the extended style for click-through, then have the frame redone.
    ApplyClickThrough { value: bool },
    UnregisterHotkey,
    DestroyWindow,
}

/// What the overlay thread does after a look at the command channel.
#[derive(Debug, Clone, Copy, PartialEq, Eq, Structural)]
pub enum Flow {
    NextCommand,
    PumpMessages,
    Exit,
}

impl CommandPoll {
    /// The rectangle of a command is one that a window can be placed at.
    pub open spec fn placeable(self) -> bool {
        match self {
            CommandPoll::Command(OverlayCmd::ShowAt { rect }) => rect.spec_measurable(),
            CommandPoll::Command(OverlayCmd::Reposition { rect }) => rect.spec_measurable(),
            _ => true,
        }
    }

    /// The fade after this look at the command channel.
    pub open spec fn retarget(self, fade: Fade) -> Fade {
        match self {
            CommandPoll::Command(OverlayCmd::ShowAt { .. }) => Fade { target: OPAQUE, ..fade },
            CommandPoll::Command(OverlayCmd::Hide) => Fade { target: 0, ..fade },
            _ => fade,
        }
    }

    /// What is done to the window.
    pub open spec fn actions(self) -> Seq<OverlayAction> {
        match self {
            CommandPoll::Command(OverlayCmd::ShowAt { rect }) => seq![
                OverlayAction::Place(rect.spec_placement()),
                OverlayAction::StartFadeTimer { period_ms: FADE_TICK_MS },
            ],
            CommandPoll::Command(OverlayCmd::Reposition { rect }) => seq![
                OverlayAction::Place(rect.spec_placement()),
            ],
            CommandPoll::Command(OverlayCmd::SetClickThrough { value }) => seq![
                OverlayAction::ApplyClickThrough { value },
            ],
            CommandPoll::Command(OverlayCmd::Hide) => seq![
                OverlayAction::StartFadeTimer { period_ms: FADE_TICK_MS },
            ],
            CommandPoll::Command(OverlayCmd::Quit) => seq![
                OverlayAction::UnregisterHotkey,
                OverlayAction::DestroyWindow,
            ],
            CommandPoll::Empty => seq![],
            CommandPoll::Disconnected => seq![
                OverlayAction::UnregisterHotkey,
                OverlayAction::DestroyWindow,
            ],
        }
    }

    /// Where the overlay thread goes on.
    pub open spec fn flow(self) -> Flow {
        match self {
            CommandPoll::Command(OverlayCmd::Quit) => Flow::Exit,
            CommandPoll::Command(_) => Flow::NextCommand,
            CommandPoll::Empty => Flow::PumpMessages,
            CommandPoll::Disconnected => Flow::Exit,
        }
    }
}

/// Answers a look at the command channel.
pub fn on_command_poll(fade: &mut Fade, poll: CommandPoll) -> (res: (Vec<OverlayAction>, Flow))
    requires
        old(fade).well_formed(),
        poll.placeable(),
    ensures
        *final(fade) == poll.retarget(*old(fade)),
        final(fade).well_formed(),
        res.0@ == poll.actions(),
        res.1 == poll.flow(),
{
    let mut actions: Vec<OverlayAction> = Vec::new();
    match poll {
        CommandPoll::Command(cmd) => match cmd {
            OverlayCmd::ShowAt { rect } => {
                actions.push(OverlayAction::Place(rect.placement()));
                fade.fade_in();
                actions.push(OverlayAction::StartFadeTimer { period_ms: FADE_TICK_MS });
                (actions, Flow::NextCommand)
            },
            OverlayCmd::Reposition { rect } => {
                actions.push(OverlayAction::Place(rect.placement()));
                (actions, Flow::NextCommand)
            },
            OverlayCmd::SetClickThrough { value } => {
                actions.push(OverlayAction::ApplyClickThrough { value });
                (actions, Flow::NextCommand)
            },
            OverlayCmd::Hide => {
                fade.fade_out();
                actions.push(OverlayAction::StartFadeTimer { period_ms: FADE_TICK_MS });
                (actions, Flow::NextCommand)
            },
            OverlayCmd::Quit => {
                actions.push(OverlayAction::UnregisterHotkey);
                actions.push(OverlayAction::DestroyWindow);
                (actions, Flow::Exit)
            },
        },
        CommandPoll::Empty => (actions, Flow::PumpMessages),
        CommandPoll::Disconnected => {
            actions.push(OverlayAction::UnregisterHotkey);
            actions.push(OverlayAction::DestroyWindow);
            (actions, Flow::Exit)
        },
    }
}

/// Whether a message taken from the queue ends the overlay thread.
pub fn ends_message_loop(message: u32) -> (res: bool)
    ensures
        res == (message == WM_QUIT),
{
    message == WM_QUIT
}

/// How the window procedure answers a message.
#[derive(Debug, Clone, Copy, PartialEq, Eq, Structural)]
pub enum MessageRoute {
    Hotkey,
    FadeTick,
    ProgressTick,
    /// A timer that is not the overlay's: taken, without effect.
    Swallow,
    Paint,
    PostQuit,
    /// Left to the system.
    Default,
}

/// How the window procedure answers a message. A hotkey is told by the low half
/// of its parameter, a timer by the whole.
pub open spec fn message_route(message: u32, wparam: usize) -> MessageRoute {
    if message == WM_HOTKEY && wparam as int % 0x1_0000_0000 == HOTKEY_ID {
        MessageRoute::Hotkey
    } else if message == WM_TIMER {
        if wparam == TIMER_ID_FADE {
            MessageRoute::FadeTick
        } else if wparam == TIMER_ID_PROGRESS {
            MessageRoute::ProgressTick
        } else {
            MessageRoute::Swallow
        }
    } else if message == WM_PAINT {
        MessageRoute::Paint
    } else if message == WM_DESTROY {
        MessageRoute::PostQuit
    } else {
        MessageRoute::Default
    }
}

/// Routes a message of the overlay window.
pub fn route_message(message: u32, wparam: usize) -> (res: MessageRoute)
    ensures
        res == message_route(message, wparam),
{
    let wide: u64 = wparam as u64;
    let low: u64 = wide % 0x1_0000_0000;
    if message == WM_HOTKEY && low == HOTKEY_ID as u64 {
        MessageRoute::Hotkey
    } else if message == WM_TIMER {
        if wparam == TIMER_ID_FADE {
            MessageRoute::FadeTick
        } else if wparam == TIMER_ID_PROGRESS {
            MessageRoute::ProgressTick
        } else {
            MessageRoute::Swallow
        }
    } else if message == WM_PAINT {
        MessageRoute::Paint
    } else if message == WM_DESTROY {
        MessageRoute::PostQuit
    } else {
        MessageRoute::Default
    }
}

/// The extended style with click-through switched on or off.
pub open spec fn with_click_through(style: isize, value: bool) -> isize {
    if value {
        style | (WS_EX_TRANSPARENT as isize)
    } else {
        style & !(WS_EX_TRANSPARENT as isize)
    }
}

/// Switches click-through on or off in an extended style.
pub fn click_through_style(style: isize, value: bool) -> (res: isize)
    ensures
        res == with_click_through(style, value),
{
    if value {
        style | (WS_EX_TRANSPARENT as isize)
    } else {
        style & !(WS_EX_TRANSPARENT as isize)
    }
}

/// An overlay that a hotkey shows and hides.
#[derive(Debug, Clone, Copy, PartialEq, Eq, Structural)]
pub struct ToggledOverlay {
    pub visible: bool,
    pub fade: Fade,
}

/// What a toggle asks of the window.
#[derive(Debug, Clone, Copy, PartialEq, Eq, Structural)]
pub struct ToggleActions {
    /// Move the window over its target first.
    pub snap: bool,
    /// Then start the fade timer with this interval.
    pub fade_period_ms: u32,
}

impl ToggledOverlay {
    /// The overlay is shown exactly when it fades in or has faded in.
    pub open spec fn well_formed(self) -> bool {
        &&& self.fade.well_formed()
        &&& self.visible <==> self.fade.target == OPAQUE
    }

    /// The overlay after its hotkey was pressed.
    pub open spec fn toggled(self) -> ToggledOverlay {
        ToggledOverlay {
            visible: !self.visible,
            fade: Fade {
                target: if self.visible {
                    0
                } else {
                    OPAQUE
                },
                ..self.fade
            },
        }
    }

    /// A hidden overlay.
    pub fn new() -> (res: ToggledOverlay)
        ensures
            res == (ToggledOverlay { visible: false, fade: Fade { current: 0, target: 0 } }),
            res.well_formed(),
    {
        ToggledOverlay { visible: false, fade: Fade::new() }
    }

    /// Answers the hotkey. The window is moved only while it is about to be
    /// shown.
    pub fn toggle(&mut self) -> (res: ToggleActions)
        requires
            old(self).well_formed(),
        ensures
            *final(self) == old(self).toggled(),
            final(self).well_formed(),
            res == (ToggleActions { snap: !old(self).visible, fade_period_ms: FADE_TICK_MS }),
    {
        let now_visible = self.visible;
        self.visible = !now_visible;
        if now_visible {
            self.fade.fade_out();
        } else {
            self.fade.fade_in();
        }
        ToggleActions { snap: !now_visible, fade_period_ms: FADE_TICK_MS }
    }
}

/// What an overlay window knows between two messages.
#[derive(Debug, Clone, Copy, PartialEq, Eq, Structural)]
pub struct WindowState {
    pub overlay: ToggledOverlay,
    /// Position of the sweep.
    pub sweep_ms: i32,
    /// Progress of the transition as the launcher set it last, in basis points.
    pub stage_bps: i32,
}

/// What a message asks of the window's owner.
#[derive(Debug, Clone, Copy, PartialEq, Eq, Structural)]
pub enum MessageAction {
    /// Move the window where asked, then start the fade timer.
    Toggle(ToggleActions),
    /// Tell the launcher that the hotkey was pressed.
    Signal,
    Fade(FadeTick),
    /// Have the window painted anew.
    Redraw,
    Ignore,
    Paint,
    PostQuit,
    /// Leave the message to the system.
    Default,
}

impl WindowState {
    /// The fade and the sweep are within their ranges; where the hotkey toggles the
    /// overlay, it is shown exactly when it fades in or has faded in.
    pub open spec fn well_formed(self, program: Program) -> bool {
        &&& self.overlay.fade.well_formed()
        &&& 0 <= self.sweep_ms < PROGRESS_CYCLE_MS
        &&& program == Program::Toggle ==> self.overlay.well_formed()
    }

    /// The state after a message that is answered like this.
    pub open spec fn after(self, program: Program, route: MessageRoute) -> WindowState {
        match route {
            MessageRoute::Hotkey => if program == Program::Toggle {
                WindowState { overlay: self.overlay.toggled(), ..self }
            } else {
                self
            },
            MessageRoute::FadeTick => WindowState {
                overlay: ToggledOverlay { fade: self.overlay.fade.spec_tick(), ..self.overlay },
                ..self
            },
            MessageRoute::ProgressTick => if program == Program::MinecraftTransition {
                self
            } else {
                WindowState { sweep_ms: next_sweep(self.sweep_ms as int) as i32, ..self }
            },
            _ => self,
        }
    }

    /// What a message that is answered like this asks of the window's owner.
    pub open spec fn action(self, program: Program, route: MessageRoute) -> MessageAction {
        match route {
            MessageRoute::Hotkey => if program == Program::Toggle {
                MessageAction::Toggle(
                    ToggleActions { snap: !self.overlay.visible, fade_period_ms: FADE_TICK_MS },
                )
            } else {
                MessageAction::Signal
            },
            MessageRoute::FadeTick => MessageAction::Fade(
                if self.overlay.fade.current == self.overlay.fade.target {
                    FadeTick::StopTimer
                } else {
                    FadeTick::ShowAlpha(self.overlay.fade.spec_tick().current as u8)
                },
            ),
            MessageRoute::ProgressTick => MessageAction::Redraw,
            MessageRoute::Swallow => MessageAction::Ignore,
            MessageRoute::Paint => MessageAction::Paint,
            MessageRoute::PostQuit => MessageAction::PostQuit,
            MessageRoute::Default => MessageAction::Default,
        }
    }

    /// The state after these messages and their parameters.
    pub open spec fn after_messages(
        self,
        program: Program,
        messages: Seq<(u32, usize)>,
    ) -> WindowState
        decreases messages.len(),
    {
        if messages.len() == 0 {
            self
        } else {
            self.after_messages(program, messages.drop_last()).after(
                program,
                message_route(messages.last().0, messages.last().1),
            )
        }
    }

    /// A window with a hidden overlay and no progress.
    pub fn new() -> (res: WindowState)
        ensures
            res == (WindowState {
                overlay: ToggledOverlay { visible: false, fade: Fade { current: 0, target: 0 } },
                sweep_ms: 0,
                stage_bps: 0,
            }),
            forall|program: Program| #[trigger] res.well_formed(program),
    {
        WindowState { overlay: ToggledOverlay::new(), sweep_ms: 0, stage_bps: 0 }
    }
}

/// Answers a message of a program's overlay window. The hotkey toggles the overlay
/// where it stands alone and is passed on to the launcher otherwise; the progress
/// timer drives the sweep, but only has the stage progress painted anew.
pub fn on_message(program: Program, state: &mut WindowState, message: u32, wparam: usize) -> (res:
    MessageAction)
    requires
        old(state).well_formed(program),
    ensures
        *final(state) == old(state).after(program, message_route(message, wparam)),
        res == old(state).action(program, message_route(message, wparam)),
        final(state).well_formed(program),
{
    match route_message(message, wparam) {
        MessageRoute::Hotkey => match program {
            Program::Toggle => MessageAction::Toggle(state.overlay.toggle()),
            _ => MessageAction::Signal,
        },
        MessageRoute::FadeTick => MessageAction::Fade(state.overlay.fade.tick()),
        MessageRoute::ProgressTick => {
            match program {
                Program::MinecraftTransition => {},
                _ => {
                    state.sweep_ms = advance_sweep(state.sweep_ms);
                },
            }
            MessageAction::Redraw
        },
        MessageRoute::Swallow => MessageAction::Ignore,
        MessageRoute::Paint => MessageAction::Paint,
        MessageRoute::PostQuit => MessageAction::PostQuit,
        MessageRoute::Default => MessageAction::Default,
    }
}

/// How much of the bar is done, out of how much.
#[derive(Debug, Clone, Copy, PartialEq, Eq, Structural)]
pub struct ShownProgress {
    pub done: i32,
    pub whole: i32,
}

/// The progress that a program's overlay shows: the stage progress of a Minecraft
/// transition, else the sweep.
pub fn shown_progress(program: Program, state: &WindowState) -> (res: ShownProgress)
    requires
        0 <= state.sweep_ms < PROGRESS_CYCLE_MS,
    ensures
        res == if program == Program::MinecraftTransition {
            ShownProgress { done: clamped_bps(state.stage_bps), whole: FULL_BPS }
        } else {
            ShownProgress { done: state.sweep_ms, whole: PROGRESS_CYCLE_MS }
        },
        0 <= res.done <= res.whole,
{
    match program {
        Program::MinecraftTransition => ShownProgress {
            done: clamp_bps(state.stage_bps),
            whole: FULL_BPS,
        },
        _ => ShownProgress { done: state.sweep_ms, whole: PROGRESS_CYCLE_MS },
    }
}

/// Whatever messages come, the window stays well formed, and none of them touches
/// the stage progress: that is the launcher's alone.
pub proof fn messages_leave_the_stage_progress(
    program: Program,
    state: WindowState,
    messages: Seq<(u32, usize)>,
)
    requires
        state.well_formed(program),
    ensures
        state.after_messages(program, messages).well_formed(program),
        state.after_messages(program, messages).stage_bps == state.stage_bps,
    decreases messages.len(),
{
    if messages.len() > 0 {
        messages_leave_the_stage_progress(program, state, messages.drop_last());
    }
}

/// This many ticks of the progress timer.
pub open spec fn progress_ticks(n: nat) -> Seq<(u32, usize)> {
    Seq::new(n, |i: int| (WM_TIMER, TIMER_ID_PROGRESS))
}

/// From wherever the sweep stands, ticks of the progress timer move it by one
/// interval each, starting over at the end of the bar, and 625 of them bring it
/// back. In a Minecraft transition they change nothing at all. In no program do
/// they touch the opacities or the stage progress.
pub proof fn progress_ticks_move_only_the_sweep(program: Program, state: WindowState, n: nat)
    requires
        state.well_formed(program),
    ensures
        ({
            let after = state.after_messages(program, progress_ticks(n));
            &&& after.overlay == state.overlay
            &&& after.stage_bps == state.stage_bps
            &&& 0 <= after.sweep_ms < PROGRESS_CYCLE_MS
            &&& program == Program::MinecraftTransition ==> after == state
            &&& program != Program::MinecraftTransition ==> after.sweep_ms == (state.sweep_ms + n
                * SWEEP_TICK_MS) % (PROGRESS_CYCLE_MS as int)
            &&& n == 625 ==> after == state
        }),
{
    sweep_under_ticks(program, state, n);
    sweep_follows_ticks(state.sweep_ms as int, n);
    sweep_repeats(state.sweep_ms as int, 0);
}

proof fn sweep_under_ticks(program: Program, state: WindowState, n: nat)
    requires
        state.well_formed(program),
    ensures
        state.after_messages(program, progress_ticks(n)) == if program
            == Program::MinecraftTransition {
            state
        } else {
            WindowState { sweep_ms: sweep_after(state.sweep_ms as int, n) as i32, ..state }
        },
    decreases n,
{
    if n > 0 {
        let before = (n - 1) as nat;
        assert(progress_ticks(n).drop_last() =~= progress_ticks(before));
        sweep_under_ticks(program, state, before);
        sweep_follows_ticks(state.sweep_ms as int, before);
        sweep_follows_ticks(state.sweep_ms as int, n);
    }
}

/// The overlay takes no focus, no clicks, no taskbar entry, stays on top and can
/// fade.
pub proof fn overlay_style_holds_every_flag()
    ensures
        overlay_ex_style() & WS_EX_LAYERED == WS_EX_LAYERED,
        overlay_ex_style() & WS_EX_TRANSPARENT == WS_EX_TRANSPARENT,
        overlay_ex_style() & WS_EX_TOPMOST == WS_EX_TOPMOST,
        overlay_ex_style() & WS_EX_TOOLWINDOW == WS_EX_TOOLWINDOW,
        overlay_ex_style() & WS_EX_NOACTIVATE == WS_EX_NOACTIVATE,
{
    assert({
        let s = 0x80000u32 | 0x20u32 | 0x8u32 | 0x80u32 | 0x8000000u32;
        &&& s & 0x80000u32 == 0x80000u32
        &&& s & 0x20u32 == 0x20u32
        &&& s & 0x8u32 == 0x8u32
        &&& s & 0x80u32 == 0x80u32
        &&& s & 0x8000000u32 == 0x8000000u32
    }) by (bit_vector);
}

/// Switching click-through sets or clears that flag and leaves every other bit as
/// it was; the last switch alone counts.
pub proof fn click_through_touches_one_flag(style: isize, value: bool, before: bool)
    ensures
        (with_click_through(style, value) & (WS_EX_TRANSPARENT as isize) != 0) == value,
        with_click_through(style, value) & !(WS_EX_TRANSPARENT as isize) == style & !(
        WS_EX_TRANSPARENT as isize),
        with_click_through(with_click_through(style, before), value) == with_click_through(
            style,
            value,
        ),
{
    assert((style | 0x20) & 0x20 != 0) by (bit_vector);
    assert((style & !0x20isize) & 0x20 == 0) by (bit_vector);
    assert((style | 0x20) & !0x20isize == style & !0x20isize) by (bit_vector);
    assert((style & !0x20isize) & !0x20isize == style & !0x20isize) by (bit_vector);
    assert((style | 0x20) | 0x20 == style | 0x20) by (bit_vector);
    assert((style & !0x20isize) | 0x20 == style | 0x20) by (bit_vector);
}

/// Pressing the hotkey twice leaves the overlay as it was.
pub proof fn toggling_twice_restores(o: ToggledOverlay)
    requires
        o.well_formed(),
    ensures
        o.toggled().toggled() == o,
{
}

/// Whatever commands come, the overlay moves towards opaque after a show and
/// towards transparent after a hide; moving it or switching its clicks does not
/// disturb a fade.
pub proof fn only_show_and_hide_touch_the_fade(poll: CommandPoll, fade: Fade)
    ensures
        poll.retarget(fade).current == fade.current,
        poll matches CommandPoll::Command(OverlayCmd::ShowAt { .. }) ==> poll.retarget(fade).target
            == OPAQUE,
        poll matches CommandPoll::Command(OverlayCmd::Hide) ==> poll.retarget(fade).target == 0,
        !(poll matches CommandPoll::Command(OverlayCmd::ShowAt { .. })) && !(poll
            matches CommandPoll::Command(OverlayCmd::Hide)) ==> poll.retarget(fade) == fade,
{
}

/// What commands change about the overlay window.
pub ghost struct OverlayLook {
    pub fade: Fade,
    pub place: Placement,
    pub ex_style: isize,
}

impl OverlayLook {
    /// The window after an action.
    pub open spec fn performed(self, action: OverlayAction) -> OverlayLook {
        match action {
            OverlayAction::Place(place) => OverlayLook { place, ..self },
            OverlayAction::ApplyClickThrough { value } => OverlayLook {
                ex_style: with_click_through(self.ex_style, value),
                ..self
            },
            _ => self,
        }
    }

    /// The window after these actions.
    pub open spec fn performed_all(self, actions: Seq<OverlayAction>) -> OverlayLook
        decreases actions.len(),
    {
        if actions.len() == 0 {
            self
        } else {
            self.performed_all(actions.drop_last()).performed(actions.last())
        }
    }

    /// The window after a look at the command channel.
    pub open spec fn obeyed(self, poll: CommandPoll) -> OverlayLook {
        OverlayLook { fade: poll.retarget(self.fade), ..self.performed_all(poll.actions()) }
    }

    /// The window after these looks at the command channel.
    pub open spec fn after_polls(self, polls: Seq<CommandPoll>) -> OverlayLook
        decreases polls.len(),
    {
        if polls.len() == 0 {
            self
        } else {
            self.after_polls(polls.drop_last()).obeyed(polls.last())
        }
    }
}

impl CommandPoll {
    /// The opacity that a show or a hide aims at.
    pub open spec fn aim(self) -> Option<i32> {
        match self {
            CommandPoll::Command(OverlayCmd::ShowAt { .. }) => Some(OPAQUE),
            CommandPoll::Command(OverlayCmd::Hide) => Some(0),
            _ => None,
        }
    }

    /// The rectangle that a show or a move puts the overlay at.
    pub open spec fn destination(self) -> Option<Rect> {
        match self {
            CommandPoll::Command(OverlayCmd::ShowAt { rect }) => Some(rect),
            CommandPoll::Command(OverlayCmd::Reposition { rect }) => Some(rect),
            _ => None,
        }
    }

    /// What a switch of click-through asks for.
    pub open spec fn clicks(self) -> Option<bool> {
        match self {
            CommandPoll::Command(OverlayCmd::SetClickThrough { value }) => Some(value),
            _ => None,
        }
    }
}

/// What one look at the command channel changes.
proof fn obeyed_changes(look: OverlayLook, poll: CommandPoll)
    ensures
        look.obeyed(poll) == (OverlayLook {
            fade: match poll.aim() {
                Some(target) => Fade { target, ..look.fade },
                None => look.fade,
            },
            place: match poll.destination() {
                Some(rect) => rect.spec_placement(),
                None => look.place,
            },
            ex_style: match poll.clicks() {
                Some(value) => with_click_through(look.ex_style, value),
                None => look.ex_style,
            },
        }),
{
    reveal_with_fuel(OverlayLook::performed_all, 3);
}

/// Commands leave the opacity shown as it is: only ticks of the fade timer change
/// it.
pub proof fn commands_leave_the_alpha(look: OverlayLook, polls: Seq<CommandPoll>)
    ensures
        look.after_polls(polls).fade.current == look.fade.current,
    decreases polls.len(),
{
    if polls.len() > 0 {
        commands_leave_the_alpha(look, polls.drop_last());
        obeyed_changes(look.after_polls(polls.drop_last()), polls.last());
    }
}

/// However many commands come, the last show or hide alone decides what the
/// overlay fades to; without one it goes on as before.
pub proof fn the_last_show_or_hide_decides(
    look: OverlayLook,
    polls: Seq<CommandPoll>,
    last: Option<int>,
)
    requires
        match last {
            Some(i) => 0 <= i < polls.len() && polls[i].aim() is Some && forall|j: int|
                i < j < polls.len() ==> (#[trigger] polls[j]).aim() is None,
            None => forall|j: int|
                0 <= j < polls.len() ==> (#[trigger] polls[j]).aim() is None,
        },
    ensures
        look.after_polls(polls).fade.target == match last {
            Some(i) => polls[i].aim()->0,
            None => look.fade.target,
        },
    decreases polls.len(),
{
    if polls.len() > 0 {
        let before = polls.drop_last();
        obeyed_changes(look.after_polls(before), polls.last());
        if last == Some(polls.len() - 1) {
        } else {
            assert(forall|k: int| 0 <= k < before.len() ==> before[k] == polls[k]);
            assert(polls[polls.len() - 1].aim() is None);
            the_last_show_or_hide_decides(look, before, last);
        }
    }
}

/// However many commands come, the last show or move alone decides where the
/// overlay stands; without one it stays where it was.
pub proof fn the_last_show_or_move_decides(
    look: OverlayLook,
    polls: Seq<CommandPoll>,
    last: Option<int>,
)
    requires
        match last {
            Some(i) => 0 <= i < polls.len() && polls[i].destination() is Some && forall|j: int|
                i < j < polls.len() ==> (#[trigger] polls[j]).destination() is None,
            None => forall|j: int|
                0 <= j < polls.len() ==> (#[trigger] polls[j]).destination() is None,
        },
    ensures
        look.after_polls(polls).place == match last {
            Some(i) => polls[i].destination()->0.spec_placement(),
            None => look.place,
        },
    decreases polls.len(),
{
    if polls.len() > 0 {
        let before = polls.drop_last();
        obeyed_changes(look.after_polls(before), polls.last());
        if last == Some(polls.len() - 1) {
        } else {
            assert(forall|k: int| 0 <= k < before.len() ==> before[k] == polls[k]);
            assert(polls[polls.len() - 1].destination() is None);
            the_last_show_or_move_decides(look, before, last);
        }
    }
}

/// The extended style after commands is the one before, with click-through
/// switched at most once.
proof fn style_under_commands(look: OverlayLook, polls: Seq<CommandPoll>)
    ensures
        ({
            let style = look.after_polls(polls).ex_style;
            ||| style == look.ex_style
            ||| style == with_click_through(look.ex_style, true)
            ||| style == with_click_through(look.ex_style, false)
        }),
    decreases polls.len(),
{
    if polls.len() > 0 {
        let before = polls.drop_last();
        style_under_commands(look, before);
        obeyed_changes(look.after_polls(before), polls.last());
        click_through_touches_one_flag(look.ex_style, true, true);
        click_through_touches_one_flag(look.ex_style, true, false);
        click_through_touches_one_flag(look.ex_style, false, true);
        click_through_touches_one_flag(look.ex_style, false, false);
    }
}

/// However many commands come, the last switch of click-through alone decides
/// whether clicks pass; every other bit of the style stays.
pub proof fn the_last_switch_decides(
    look: OverlayLook,
    polls: Seq<CommandPoll>,
    last: Option<int>,
)
    requires
        match last {
            Some(i) => 0 <= i < polls.len() && polls[i].clicks() is Some && forall|j: int|
                i < j < polls.len() ==> (#[trigger] polls[j]).clicks() is None,
            None => forall|j: int|
                0 <= j < polls.len() ==> (#[trigger] polls[j]).clicks() is None,
        },
    ensures
        look.after_polls(polls).ex_style == match last {
            Some(i) => with_click_through(look.ex_style, polls[i].clicks()->0),
            None => look.ex_style,
        },
    decreases polls.len(),
{
    if polls.len() > 0 {
        let before = polls.drop_last();
        obeyed_changes(look.after_polls(before), polls.last());
        if last == Some(polls.len() - 1) {
            let value = polls.last().clicks()->0;
            style_under_commands(look, before);
            click_through_touches_one_flag(look.ex_style, value, true);
            click_through_touches_one_flag(look.ex_style, value, false);
        } else {
            assert(forall|k: int| 0 <= k < before.len() ==> before[k] == polls[k]);
            assert(polls[polls.len() - 1].clicks() is None);
            the_last_switch_decides(look, before, last);
        }
    }
}

/// The overlay thread ends on a quit command and when the launcher is gone, and
/// takes its hotkey and window down first.
pub proof fn overlay_exit_is_clean(poll: CommandPoll)
    ensures
        poll.flow() == Flow::Exit <==> (poll == CommandPoll::Command(OverlayCmd::Quit) || poll
            == CommandPoll::Disconnected),
        poll.flow() == Flow::Exit <==> poll.actions() == seq![
            OverlayAction::UnregisterHotkey,
            OverlayAction::DestroyWindow,
        ],
{
    let exit = seq![OverlayAction::UnregisterHotkey, OverlayAction::DestroyWindow];
    if poll.actions() == exit {
        assert(poll.actions().len() == 2);
        assert(poll.actions()[0] == OverlayAction::UnregisterHotkey);
    }
}

/// An overlay starts over the whole monitor, whichever it is, and nothing else
/// about it depends on the monitor.
pub proof fn only_the_place_depends_on_the_monitor(
    program: Program,
    one: Rect,
    other: Rect,
    res: WindowPlan,
    res_other: WindowPlan,
)
    requires
        call_ensures(window_plan, (program, &one), res),
        call_ensures(window_plan, (program, &other), res_other),
        one.spec_measurable(),
        other.spec_measurable(),
    ensures
        res.placement.x == one.left,
        res.placement.y == one.top,
        res.placement.x + res.placement.width == one.right,
        res.placement.y + res.placement.height == one.bottom,
        res.class_name@ == res_other.class_name@,
        res.title@ == res_other.title@,
        res.ex_style == res_other.ex_style,
        res.style == res_other.style,
        res.alpha == res_other.alpha,
        res.hotkey_id == res_other.hotkey_id,
        res.hotkey_modifiers == res_other.hotkey_modifiers,
        res.hotkey_key == res_other.hotkey_key,
        res.progress_tick_ms == res_other.progress_tick_ms,
{
}

/// What each command does. A show puts the window over its rectangle, then fades
/// it in; a move only puts it there; a hide fades it out; a switch of clicks is
/// applied; a quit, and a launcher that is gone, take hotkey and window down. What
/// is shown never jumps.
pub proof fn a_command_is_obeyed(
    fade: &mut Fade,
    poll: CommandPoll,
    res: (Vec<OverlayAction>, Flow),
)
    requires
        call_ensures(on_command_poll, (fade, poll), res),
        fade.well_formed(),
        poll.placeable(),
    ensures
        final(fade).current == old(fade).current,
        poll matches CommandPoll::Command(OverlayCmd::ShowAt { rect }) ==> {
            &&& final(fade).target == 255
            &&& res.0@.len() == 2
            &&& res.0@[0] matches OverlayAction::Place(place) && place.covers(rect)
            &&& res.0@[1] == (OverlayAction::StartFadeTimer { period_ms: 10 })
            &&& res.1 == Flow::NextCommand
        },
        poll matches CommandPoll::Command(OverlayCmd::Reposition { rect }) ==> {
            &&& final(fade).target == old(fade).target
            &&& res.0@.len() == 1
            &&& res.0@[0] matches OverlayAction::Place(place) && place.covers(rect)
            &&& res.1 == Flow::NextCommand
        },
        poll matches CommandPoll::Command(OverlayCmd::SetClickThrough { value }) ==> {
            &&& final(fade).target == old(fade).target
            &&& res.0@.len() == 1
            &&& res.0@[0] == (OverlayAction::ApplyClickThrough { value })
            &&& res.1 == Flow::NextCommand
        },
        poll matches CommandPoll::Command(OverlayCmd::Hide) ==> {
            &&& final(fade).target == 0
            &&& res.0@.len() == 1
            &&& res.0@[0] == (OverlayAction::StartFadeTimer { period_ms: 10 })
            &&& res.1 == Flow::NextCommand
        },
        poll == CommandPoll::Command(OverlayCmd::Quit) || poll == CommandPoll::Disconnected ==> {
            &&& final(fade).target == old(fade).target
            &&& res.0@.len() == 2
            &&& res.0@[0] == OverlayAction::UnregisterHotkey
            &&& res.0@[1] == OverlayAction::DestroyWindow
            &&& res.1 == Flow::Exit
        },
        poll == CommandPoll::Empty ==> {
            &&& final(fade).target == old(fade).target
            &&& res.0@.len() == 0
            &&& res.1 == Flow::PumpMessages
        },
{
    let taken: Seq<OverlayAction> = res.0@;
    assert(taken == poll.actions());
}

/// A show aims at full opacity and a hide at none; a show and a move have a
/// destination; only a switch of clicks asks for one. No other command does.
pub proof fn commands_mean_what_they_say(poll: CommandPoll, rect: Rect, value: bool)
    ensures
        poll.aim() == Some(255i32) <==> poll matches CommandPoll::Command(OverlayCmd::ShowAt { .. }),
        poll.aim() == Some(0i32) <==> poll == CommandPoll::Command(OverlayCmd::Hide),
        poll.aim() is Some ==> poll.aim() == Some(255i32) || poll.aim() == Some(0i32),
        poll.destination() == Some(rect) <==> {
            ||| poll == CommandPoll::Command(OverlayCmd::ShowAt { rect })
            ||| poll == CommandPoll::Command(OverlayCmd::Reposition { rect })
        },
        poll.clicks() == Some(value) <==> poll == CommandPoll::Command(
            OverlayCmd::SetClickThrough { value },
        ),
{
}

/// After any commands, the overlay lies over the rectangle of the last show or
/// move, and aims at what the last show or hide asked for.
pub proof fn the_overlay_lies_where_it_was_put(
    look: OverlayLook,
    before: Seq<CommandPoll>,
    rect: Rect,
    behind: Seq<CommandPoll>,
)
    requires
        rect.spec_measurable(),
        forall|i: int|
            0 <= i < behind.len() ==> {
                &&& !(#[trigger] behind[i] matches CommandPoll::Command(OverlayCmd::ShowAt { .. }))
                &&& !(behind[i] matches CommandPoll::Command(OverlayCmd::Reposition { .. }))
            },
    ensures
        look.after_polls(
            before.push(CommandPoll::Command(OverlayCmd::ShowAt { rect })) + behind,
        ).place.covers(rect),
        look.after_polls(
            before.push(CommandPoll::Command(OverlayCmd::Reposition { rect })) + behind,
        ).place.covers(rect),
{
    let n = before.len() as int;
    let shown = before.push(CommandPoll::Command(OverlayCmd::ShowAt { rect })) + behind;
    let moved = before.push(CommandPoll::Command(OverlayCmd::Reposition { rect })) + behind;
    assert forall|j: int| n < j < shown.len() implies (#[trigger] shown[j]).destination() is None by {
        assert(shown[j] == behind[j - n - 1]);
    }
    assert forall|j: int| n < j < moved.len() implies (#[trigger] moved[j]).destination() is None by {
        assert(moved[j] == behind[j - n - 1]);
    }
    the_last_show_or_move_decides(look, shown, Some(n));
    the_last_show_or_move_decides(look, moved, Some(n));
}

/// Which messages end the overlay thread, and which are answered how: by the
/// numbers of the messages and timers, and for the hotkey by the low half of its
/// parameter.
pub proof fn messages_are_told_by_their_numbers(
    message: u32,
    wparam: usize,
    ends: bool,
    res: MessageRoute,
)
    requires
        call_ensures(ends_message_loop, (message,), ends),
        call_ensures(route_message, (message, wparam), res),
    ensures
        ends <==> message == 0x0012,
        res == MessageRoute::Hotkey <==> message == 0x0312 && wparam as int % 0x1_0000_0000 == 1,
        res == MessageRoute::FadeTick <==> message == 0x0113 && wparam == 1,
        res == MessageRoute::ProgressTick <==> message == 0x0113 && wparam == 2,
        res == MessageRoute::Swallow <==> message == 0x0113 && wparam != 1 && wparam != 2,
        res == MessageRoute::Paint <==> message == 0x000F,
        res == MessageRoute::PostQuit <==> message == 0x0002,
{
}

/// Switching click-through gives exactly the style that has the flag as asked and
/// every other bit as before.
pub proof fn a_switch_sets_the_flag(style: isize, value: bool, res: isize)
    requires
        call_ensures(click_through_style, (style, value), res),
    ensures
        (res & 0x20 == 0x20) == value,
        (res & 0x20 == 0) == !value,
        res & !0x20isize == style & !0x20isize,
{
    click_through_touches_one_flag(style, value, value);
    assert(res & 0x20 == 0 || res & 0x20 == 0x20) by (bit_vector);
}

/// A press of the hotkey turns a toggled overlay round: shown becomes hidden and
/// hidden shown, from the opacity it has; it is moved only when it is to be shown.
pub proof fn a_toggle_turns_round(o: &mut ToggledOverlay, res: ToggleActions)
    requires
        call_ensures(ToggledOverlay::toggle, (o,), res),
        o.well_formed(),
    ensures
        final(o).visible == !old(o).visible,
        final(o).fade.target == if final(o).visible {
            255int
        } else {
            0
        },
        final(o).fade.current == old(o).fade.current,
        res.snap == final(o).visible,
        res.fade_period_ms == 10,
{
}

/// A message does to the window what a history of that one message does.
pub proof fn messages_make_history(
    program: Program,
    state: &mut WindowState,
    message: u32,
    wparam: usize,
    res: MessageAction,
)
    requires
        call_ensures(on_message, (program, state, message, wparam), res),
        state.well_formed(program),
    ensures
        *final(state) == old(state).after_messages(program, seq![(message, wparam)]),
{
    reveal_with_fuel(WindowState::after_messages, 2);
    assert(seq![(message, wparam)].drop_last() =~= seq![]);
}

/// What each message does. The fade timer closes the gap to the target by eight
/// alpha units in every program; the progress timer moves the sweep, but not in a
/// Minecraft transition; the hotkey turns the overlay round where it stands alone
/// and is passed on otherwise. No other message changes the window.
pub proof fn a_message_is_answered(
    program: Program,
    state: &mut WindowState,
    message: u32,
    wparam: usize,
    res: MessageAction,
)
    requires
        call_ensures(on_message, (program, state, message, wparam), res),
        state.well_formed(program),
    ensures
        final(state).stage_bps == old(state).stage_bps,
        message == 0x0113 && wparam == 1 ==> {
            let was = old(state).overlay.fade;
            let now = final(state).overlay.fade;
            &&& now.target == was.target
            &&& was.current <= was.target ==> now.current == if was.target - was.current <= 8 {
                was.target as int
            } else {
                was.current + 8
            }
            &&& was.current >= was.target ==> now.current == if was.current - was.target <= 8 {
                was.target as int
            } else {
                was.current - 8
            }
            &&& res == MessageAction::Fade(FadeTick::StopTimer) <==> was.current == was.target
            &&& was.current != was.target ==> (res matches MessageAction::Fade(
                FadeTick::ShowAlpha(alpha),
            ) && alpha == now.current)
            &&& final(state).overlay.visible == old(state).overlay.visible
            &&& final(state).sweep_ms == old(state).sweep_ms
        },
        message == 0x0113 && wparam == 2 ==> {
            &&& final(state).overlay == old(state).overlay
            &&& program == Program::MinecraftTransition ==> final(state).sweep_ms == old(
                state,
            ).sweep_ms
            &&& program != Program::MinecraftTransition ==> 0 <= final(state).sweep_ms < 5000 && (
            final(state).sweep_ms == old(state).sweep_ms + 16 || final(state).sweep_ms == old(
                state,
            ).sweep_ms + 16 - 5000)
            &&& res == MessageAction::Redraw
        },
        message == 0x0113 && wparam != 1 && wparam != 2 ==> *final(state) == *old(state) && res
            == MessageAction::Ignore,
        message == 0x0312 && wparam as int % 0x1_0000_0000 == 1 && program == Program::Toggle ==> {
            &&& final(state).overlay.visible == !old(state).overlay.visible
            &&& final(state).overlay.fade.target == if old(state).overlay.visible {
                0int
            } else {
                255
            }
            &&& final(state).overlay.fade.current == old(state).overlay.fade.current
            &&& final(state).sweep_ms == old(state).sweep_ms
            &&& res == MessageAction::Toggle(
                ToggleActions { snap: !old(state).overlay.visible, fade_period_ms: 10 },
            )
        },
        message == 0x0312 && wparam as int % 0x1_0000_0000 == 1 && program != Program::Toggle
            ==> *final(state) == *old(state) && res == MessageAction::Signal,
        message == 0x0312 && wparam as int % 0x1_0000_0000 != 1 ==> *final(state) == *old(state)
            && res == MessageAction::Default,
        message == 0x000F ==> *final(state) == *old(state) && res == MessageAction::Paint,
        message == 0x0002 ==> *final(state) == *old(state) && res == MessageAction::PostQuit,
        message != 0x0113 && message != 0x0312 && message != 0x000F && message != 0x0002
            ==> *final(state) == *old(state) && res == MessageAction::Default,
{
    assert(crate::fade::fade_step() == 8);
}

/// This many ticks of the fade timer.
pub open spec fn fade_ticks(n: nat) -> Seq<(u32, usize)> {
    Seq::new(n, |i: int| (0x0113u32, 1usize))
}

/// In every program, ticks of the fade timer run the fade, in whichever direction,
/// and change nothing else; thirty-two of them have brought it to its target, from
/// wherever it was.
pub proof fn fade_ticks_run_the_fade(program: Program, state: WindowState, n: nat)
    requires
        state.well_formed(program),
    ensures
        ({
            let after = state.after_messages(program, fade_ticks(n));
            &&& after.overlay.fade == state.overlay.fade.after(n)
            &&& n >= 32 ==> after.overlay.fade.current == state.overlay.fade.target
            &&& after.overlay.fade.target == state.overlay.fade.target
            &&& after.overlay.visible == state.overlay.visible
            &&& after.sweep_ms == state.sweep_ms
            &&& after.stage_bps == state.stage_bps
        }),
    decreases n,
{
    if n > 0 {
        let before = (n - 1) as nat;
        assert(fade_ticks(n).drop_last() =~= fade_ticks(before));
        fade_ticks_run_the_fade(program, state, before);
        assert(fade_ticks(n).last() == (0x0113u32, 1usize));
        assert(message_route(0x0113, 1) == MessageRoute::FadeTick);
        assert(state.after_messages(program, fade_ticks(n)) == state.after_messages(
            program,
            fade_ticks(before),
        ).after(program, MessageRoute::FadeTick));
        assert(state.overlay.fade.after(n) == state.overlay.fade.after(before).spec_tick());
    }
    fade_after_ticks(state.overlay.fade, n);
    assert(crate::fade::fade_step() == 8);
    assert(n * crate::fade::fade_step() == 8 * n) by (nonlinear_arith)
        requires
            crate::fade::fade_step() == 8,
    ;
}

/// A tick of the fade timer asks to stop the timer exactly where the target is
/// reached, and to show the new opacity everywhere else.
pub proof fn fade_ticks_show_the_fade(program: Program, state: WindowState)
    requires
        state.well_formed(program),
    ensures
        ({
            let now = state.after_messages(program, fade_ticks(1)).overlay.fade.current;
            let action = state.action(program, message_route(0x0113, 1));
            &&& action == MessageAction::Fade(FadeTick::StopTimer) <==> state.overlay.fade.current
                == state.overlay.fade.target
            &&& state.overlay.fade.current != state.overlay.fade.target ==> (
            action matches MessageAction::Fade(FadeTick::ShowAlpha(alpha)) && alpha == now)
        }),
{
    reveal_with_fuel(WindowState::after_messages, 2);
    assert(fade_ticks(1).drop_last() =~= seq![]);
    assert(crate::fade::fade_step() == 8);
}

/// What is painted: of a Minecraft transition its stage progress, brought into the
/// bar; else the sweep.
pub proof fn progress_is_shown(program: Program, state: WindowState, res: ShownProgress)
    requires
        call_ensures(shown_progress, (program, &state), res),
        0 <= state.sweep_ms < 5000,
    ensures
        program != Program::MinecraftTransition ==> res.done == state.sweep_ms && res.whole == 5000,
        program == Program::MinecraftTransition ==> {
            &&& res.whole == 10000
            &&& 0 <= res.done <= 10000
            &&& 0 <= state.stage_bps <= 10000 ==> res.done == state.stage_bps
            &&& state.stage_bps <= 0 ==> res.done == 0
            &&& state.stage_bps >= 10000 ==> res.done == 10000
        },
{
}

/// What is fixed about each program's overlay: it is invisible, borderless, on top,
/// without focus, taskbar entry or clicks; its name, title, hotkey and progress
/// timer are the program's own.
pub proof fn each_program_has_its_window(program: Program, monitor: Rect, res: WindowPlan)
    requires
        call_ensures(window_plan, (program, &monitor), res),
    ensures
        res.alpha == 0,
        res.style == 0x8000_0000,
        res.ex_style == 0x0808_00A8,
        res.hotkey_id == 1,
        program == Program::Toggle ==> {
            &&& res.class_name@ == "LiminalOverlaySpike"@
            &&& res.title@ == "Liminal Overlay Spike"@
            &&& res.hotkey_modifiers == 0x4006
            &&& res.hotkey_key == 76
            &&& res.progress_tick_ms == 16
        },
        program == Program::Transition ==> {
            &&& res.class_name@ == "LiminalSpike3Overlay"@
            &&& res.title@ == "Liminal Overlay"@
            &&& res.hotkey_modifiers == 0x4006
            &&& res.hotkey_key == 84
            &&& res.progress_tick_ms == 16
        },
        program == Program::MinecraftTransition ==> {
            &&& res.class_name@ == "LiminalMcOverlay"@
            &&& res.title@ == "Liminal MC Overlay"@
            &&& res.hotkey_modifiers == 0x4003
            &&& res.hotkey_key == 76
            &&& res.progress_tick_ms == 50
        },
{
    assert(0x80000u32 | 0x20u32 | 0x8u32 | 0x80u32 | 0x8000000u32 == 0x080800A8u32) by (bit_vector);
    assert(0x2u32 | 0x4u32 | 0x4000u32 == 0x4006u32) by (bit_vector);
    assert(0x2u32 | 0x1u32 | 0x4000u32 == 0x4003u32) by (bit_vector);
}

/// An overlay can be made for any monitor whose extents fit, and can obey any
/// command whose rectangle does.
pub proof fn any_fitting_command_can_be_obeyed(
    program: Program,
    rect: Rect,
    fade: &mut Fade,
    value: bool,
)
    requires
        i32::MIN <= rect.right - rect.left <= i32::MAX,
        i32::MIN <= rect.bottom - rect.top <= i32::MAX,
        0 <= fade.current <= 255,
        fade.target == 0 || fade.target == 255,
    ensures
        call_requires(window_plan, (program, &rect)),
        call_requires(on_command_poll, (fade, CommandPoll::Command(OverlayCmd::ShowAt { rect }))),
        call_requires(
            on_command_poll,
            (fade, CommandPoll::Command(OverlayCmd::Reposition { rect })),
        ),
        call_requires(
            on_command_poll,
            (fade, CommandPoll::Command(OverlayCmd::SetClickThrough { value })),
        ),
        call_requires(on_command_poll, (fade, CommandPoll::Command(OverlayCmd::Hide))),
        call_requires(on_command_poll, (fade, CommandPoll::Command(OverlayCmd::Quit))),
        call_requires(on_command_poll, (fade, CommandPoll::Empty)),
        call_requires(on_command_poll, (fade, CommandPoll::Disconnected)),
{
}

/// Any message can be answered in any state of the window: at any opacity, towards
/// either end, with the sweep anywhere on the bar and any stage progress.
pub proof fn any_message_can_be_answered(
    program: Program,
    state: &mut WindowState,
    message: u32,
    wparam: usize,
)
    requires
        0 <= state.overlay.fade.current <= 255,
        state.overlay.fade.target == 0 || state.overlay.fade.target == 255,
        0 <= state.sweep_ms < 5000,
        program == Program::Toggle ==> (state.overlay.visible <==> state.overlay.fade.target == 255),
    ensures
        call_requires(on_message, (program, state, message, wparam)),
{
}

/// An overlay that a hotkey shows and hides can be turned round at any opacity, and
/// any progress of any window can be shown.
pub proof fn any_overlay_can_be_turned_round(
    o: &mut ToggledOverlay,
    program: Program,
    state: WindowState,
)
    requires
        0 <= o.fade.current <= 255,
        o.fade.target == if o.visible {
            255int
        } else {
            0
        },
        0 <= state.sweep_ms < 5000,
    ensures
        call_requires(ToggledOverlay::toggle, (o,)),
        call_requires(shown_progress, (program, &state)),
{
}

} // verus!
