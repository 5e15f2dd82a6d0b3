use liminal_launcher::geometry::Rect;
use liminal_launcher::mc_swap::{
    prism_args, taskkill_args, McCommand, McError, McOutcome, McStage, McSwap,
};
use liminal_launcher::overlay::OverlayCmd;
use liminal_launcher::swap::{Command, Outcome, Stage, Swap, SwapError};
use liminal_launcher::transition::{initial_instance_rect, Who};

fn moved() -> Rect {
    Rect { left: 10, top: 20, right: 810, bottom: 620 }
}

fn outcome_of(command: Command) -> Outcome {
    match command {
        Command::FindRect { .. } => Outcome::Rect(Some(moved())),
        _ => Outcome::Done,
    }
}

#[test]
fn a_swap_runs_its_course() {
    let mut swap = Swap::new();
    let mut course: Vec<Command> = Vec::new();
    loop {
        let command = swap.command();
        course.push(command);
        if command == Command::Finish {
            break;
        }
        swap.advance(outcome_of(command));
    }
    assert_eq!(
        course,
        vec![
            Command::Launch { who: Who::A, rect: initial_instance_rect(), hidden: false },
            Command::AwaitReady { who: Who::A, timeout_secs: 30 },
            Command::AwaitHotkey,
            Command::FindRect { who: Who::A },
            Command::Overlay(OverlayCmd::ShowAt { rect: moved() }),
            Command::Sleep { ms: 350 },
            Command::Shutdown { who: Who::A },
            Command::Drain { who: Who::A, timeout_secs: 2 },
            Command::AwaitExit { who: Who::A, timeout_secs: 10 },
            Command::Launch { who: Who::B, rect: moved(), hidden: true },
            Command::AwaitReady { who: Who::B, timeout_secs: 30 },
            Command::Reveal { who: Who::B },
            Command::Sleep { ms: 150 },
            Command::Overlay(OverlayCmd::Hide),
            Command::Sleep { ms: 350 },
            Command::Sleep { ms: 5000 },
            Command::Shutdown { who: Who::B },
            Command::Drain { who: Who::B, timeout_secs: 2 },
            Command::AwaitExit { who: Who::B, timeout_secs: 10 },
            Command::Overlay(OverlayCmd::Quit),
            Command::JoinOverlay,
            Command::Finish,
        ]
    );
}

#[test]
fn a_window_that_is_not_found_is_taken_to_stand_where_it_was_launched() {
    let mut swap = Swap { stage: Stage::FindA, a_rect: moved() };
    swap.advance(Outcome::Rect(None));
    assert_eq!(swap.stage, Stage::ShowOverlay);
    assert_eq!(swap.a_rect, initial_instance_rect());
}

#[test]
fn failures_give_the_swap_up_or_are_passed_over() {
    let at = |stage: Stage| {
        let mut swap = Swap { stage, a_rect: moved() };
        swap.advance(Outcome::Failed);
        swap.stage
    };
    assert_eq!(at(Stage::LaunchA), Stage::Aborted(SwapError::Launch(Who::A)));
    assert_eq!(at(Stage::ReadyA), Stage::Aborted(SwapError::Ready(Who::A)));
    assert_eq!(at(Stage::Hotkey), Stage::Aborted(SwapError::HotkeyClosed));
    assert_eq!(at(Stage::ShowOverlay), Stage::Aborted(SwapError::OverlayGone));
    assert_eq!(at(Stage::ShutdownA), Stage::Aborted(SwapError::Disconnected(Who::A)));
    assert_eq!(at(Stage::DrainA), Stage::ExitA);
    assert_eq!(at(Stage::ExitA), Stage::Aborted(SwapError::ExitA));
    assert_eq!(at(Stage::LaunchB), Stage::Aborted(SwapError::Launch(Who::B)));
    assert_eq!(at(Stage::ReadyB), Stage::Aborted(SwapError::Ready(Who::B)));
    assert_eq!(at(Stage::RevealB), Stage::Aborted(SwapError::Disconnected(Who::B)));
    assert_eq!(at(Stage::HideOverlay), Stage::Aborted(SwapError::OverlayGone));
    assert_eq!(at(Stage::ShutdownB), Stage::Aborted(SwapError::Disconnected(Who::B)));
    assert_eq!(at(Stage::DrainB), Stage::ExitB);
    assert_eq!(at(Stage::ExitB), Stage::QuitOverlay);
    assert_eq!(at(Stage::QuitOverlay), Stage::JoinOverlay);
    assert_eq!(at(Stage::JoinOverlay), Stage::Done);
}

#[test]
fn swap_errors_read_well() {
    assert_eq!(SwapError::Launch(Who::A).message(""), "launching Instance A");
    assert_eq!(SwapError::Ready(Who::B).message(""), "waiting for B ready");
    assert_eq!(SwapError::HotkeyClosed.message(""), "hotkey channel closed");
    assert_eq!(SwapError::OverlayGone.message(""), "sending on a closed channel");
    assert_eq!(SwapError::Disconnected(Who::B).message(""), "instance B disconnected");
    assert_eq!(SwapError::ExitA.message(""), "A failed to exit within timeout");
    assert_eq!(SwapError::WaitA.message("no such process"), "no such process");
}

#[test]
fn an_instance_that_cannot_be_waited_for_matters_only_for_a() {
    let mut swap = Swap { stage: Stage::ExitA, a_rect: moved() };
    swap.advance(Outcome::WaitFailed);
    assert_eq!(swap.stage, Stage::Aborted(SwapError::WaitA));
    let mut swap = Swap { stage: Stage::ExitB, a_rect: moved() };
    swap.advance(Outcome::WaitFailed);
    assert_eq!(swap.stage, Stage::QuitOverlay);
}

#[test]
fn a_minecraft_swap_runs_its_course() {
    let drifted = Rect { left: 0, top: 0, right: 854, bottom: 480 };
    let mut swap = McSwap::new();
    let mut course: Vec<McCommand> = Vec::new();
    let mut windows = vec![(22isize, 2200u32), (11, 1100)];
    let mut rects = vec![None, Some(drifted), Some(drifted), Some(moved())];
    let mut clocks: Vec<u128> = vec![20_000_000_000, 19_999_999_999, 5_000_000_000, 0];
    let mut gains = vec![4500, 1125, 0];
    loop {
        let command = swap.command();
        course.push(command);
        let outcome = match command {
            McCommand::Finish => break,
            McCommand::AwaitWindow { .. } => {
                let (handle, pid) = windows.pop().unwrap();
                McOutcome::Window { handle, pid }
            }
            McCommand::ReadRect { .. } => McOutcome::Rect(rects.pop().unwrap()),
            McCommand::ReadHoldClock => McOutcome::Elapsed { nanos: clocks.pop().unwrap() },
            McCommand::MeasureHold => McOutcome::Gained { bps: gains.pop().unwrap() },
            _ => McOutcome::Done,
        };
        swap.advance(outcome);
    }
    assert_eq!(
        course,
        vec![
            McCommand::LaunchPrism { who: Who::A },
            McCommand::AwaitWindow { timeout_secs: 180 },
            McCommand::AwaitHotkey,
            McCommand::ReadRect { window: 11 },
            McCommand::Overlay(OverlayCmd::ShowAt { rect: moved() }),
            McCommand::SetProgress { bps: 500 },
            McCommand::Sleep { ms: 350 },
            McCommand::SetProgress { bps: 1000 },
            McCommand::Kill { pid: 1100 },
            McCommand::AwaitGone { window: 11, timeout_secs: 15 },
            McCommand::SetProgress { bps: 2500 },
            McCommand::ReapPrismA,
            McCommand::LaunchPrism { who: Who::B },
            McCommand::SetProgress { bps: 3000 },
            McCommand::AwaitWindow { timeout_secs: 180 },
            McCommand::SetProgress { bps: 5000 },
            McCommand::Place { window: 22, rect: moved() },
            McCommand::Overlay(OverlayCmd::SetClickThrough { value: false }),
            McCommand::ReadHoldClock,
            McCommand::ReadRect { window: 22 },
            McCommand::Overlay(OverlayCmd::Reposition { rect: drifted }),
            McCommand::MeasureHold,
            McCommand::SetProgress { bps: 5000 },
            McCommand::Sleep { ms: 250 },
            McCommand::ReadHoldClock,
            McCommand::ReadRect { window: 22 },
            McCommand::MeasureHold,
            McCommand::SetProgress { bps: 6125 },
            McCommand::Sleep { ms: 250 },
            McCommand::ReadHoldClock,
            McCommand::ReadRect { window: 22 },
            McCommand::MeasureHold,
            McCommand::SetProgress { bps: 9500 },
            McCommand::Sleep { ms: 250 },
            McCommand::ReadHoldClock,
            McCommand::SetProgress { bps: 10000 },
            McCommand::Overlay(OverlayCmd::Hide),
            McCommand::Sleep { ms: 350 },
            McCommand::Overlay(OverlayCmd::Quit),
            McCommand::JoinOverlay,
            McCommand::Finish,
        ]
    );
}

#[test]
fn the_monitor_stands_in_for_an_unreadable_window() {
    let mut swap = McSwap::new();
    swap.stage = McStage::RectA;
    swap.advance(McOutcome::Rect(None));
    assert_eq!(swap.command(), McCommand::ReadScreen);
    swap.advance(McOutcome::Screen { width: 1920, height: 1080 });
    let monitor = Rect { left: 0, top: 0, right: 1920, bottom: 1080 };
    assert_eq!(swap.command(), McCommand::Overlay(OverlayCmd::ShowAt { rect: monitor }));
}

#[test]
fn minecraft_failures_give_the_swap_up_or_are_passed_over() {
    let at = |stage: McStage| {
        let mut swap = McSwap::new();
        swap.stage = stage;
        swap.advance(McOutcome::Failed);
        swap.stage
    };
    assert_eq!(at(McStage::LaunchA), McStage::Aborted(McError::Launch(Who::A)));
    assert_eq!(at(McStage::WindowA), McStage::Aborted(McError::NoWindow));
    assert_eq!(at(McStage::Hotkey), McStage::Aborted(McError::HotkeyClosed));
    assert_eq!(at(McStage::ShowOverlay), McStage::Aborted(McError::OverlayGone));
    assert_eq!(at(McStage::KillA), McStage::Aborted(McError::KillA));
    assert_eq!(at(McStage::GoneA), McStage::Aborted(McError::StillThere));
    assert_eq!(at(McStage::ReapA), McStage::LaunchB);
    assert_eq!(at(McStage::LaunchB), McStage::Aborted(McError::Launch(Who::B)));
    assert_eq!(at(McStage::WindowB), McStage::Aborted(McError::NoWindow));
    assert_eq!(at(McStage::PlaceB), McStage::BlockClicks);
    assert_eq!(at(McStage::BlockClicks), McStage::Aborted(McError::OverlayGone));
    assert_eq!(at(McStage::HoldMove), McStage::HoldMeasure);
    assert_eq!(at(McStage::HideOverlay), McStage::Aborted(McError::OverlayGone));
    assert_eq!(at(McStage::QuitOverlay), McStage::JoinOverlay);
    assert_eq!(at(McStage::JoinOverlay), McStage::Done);
}

#[test]
fn minecraft_errors_read_well() {
    assert_eq!(
        McError::Launch(Who::A).message(""),
        "spawn Prism with --launch athion --server \"localhost:25565\""
    );
    assert_eq!(McError::NoWindow.message(""), "Minecraft window did not appear within 180s");
    assert_eq!(McError::HotkeyClosed.message(""), "hotkey channel closed");
    assert_eq!(McError::OverlayGone.message(""), "sending on a closed channel");
    assert_eq!(McError::KillA.message(""), "killing Minecraft A");
    assert_eq!(McError::StillThere.message("0x5"), "window 0x5 did not close within timeout");
}

#[test]
fn outside_programs_get_their_arguments() {
    assert_eq!(prism_args(Who::A), vec!["--launch", "athion", "--server", "localhost:25565"]);
    assert_eq!(prism_args(Who::B), vec!["--launch", "1.21.11", "--server", "localhost:25566"]);
    assert_eq!(taskkill_args(4294967295), vec!["/F", "/T", "/PID", "4294967295"]);
    assert_eq!(taskkill_args(0), vec!["/F", "/T", "/PID", "0"]);
}

#[test]
fn the_longest_minecraft_swap_ends() {
    let mut swap = McSwap::new();
    let mut count: usize = 0;
    let mut readings: u128 = 0;
    let mut shift: i32 = 0;
    loop {
        let outcome = match swap.command() {
            McCommand::Finish => break,
            McCommand::AwaitWindow { .. } => McOutcome::Window { handle: 3, pid: 4 },
            McCommand::ReadRect { .. } if swap.stage == McStage::RectA => McOutcome::Rect(None),
            McCommand::ReadRect { .. } => {
                shift += 1;
                McOutcome::Rect(Some(Rect { left: shift, top: 0, right: 800, bottom: 600 }))
            }
            McCommand::ReadScreen => McOutcome::Screen { width: 1920, height: 1080 },
            McCommand::ReadHoldClock => {
                let nanos = readings * 250_000_000;
                readings += 1;
                McOutcome::Elapsed { nanos }
            }
            McCommand::MeasureHold => McOutcome::Gained { bps: 0 },
            _ => McOutcome::Done,
        };
        swap.advance(outcome);
        count += 1;
    }
    assert_eq!(readings, 81);
    assert_eq!(count, 505);
}

#[test]
fn a_hold_whose_time_is_up_is_over_for_good() {
    let mut swap = McSwap::new();
    swap.stage = McStage::HoldCheck;
    swap.advance(McOutcome::Elapsed { nanos: 20_000_000_000 });
    let mut count: usize = 0;
    while swap.command() != McCommand::Finish {
        assert_ne!(swap.command(), McCommand::ReadHoldClock);
        swap.advance(McOutcome::Done);
        count += 1;
    }
    assert_eq!(count, 5);
}
