use liminal_launcher::fade::{fade_wait_ms, Fade, FadeTick, FADE_TICK_MS};
use liminal_launcher::geometry::{primary_monitor_rect, Placement, Rect};
use liminal_launcher::overlay::{
    click_through_style, ends_message_loop, on_command_poll, on_message, route_message,
    shown_progress, window_plan, CommandPoll, Flow, MessageAction, MessageRoute, OverlayAction,
    OverlayCmd, Program, ShownProgress, ToggleActions, ToggledOverlay, WindowState,
};
use liminal_launcher::paint::{can_lay_out, lay_out_frame, Fill};
use liminal_launcher::progress::{advance_sweep, clamp_bps, hold_progress, hold_span};

fn rect(left: i32, top: i32, right: i32, bottom: i32) -> Rect {
    Rect { left, top, right, bottom }
}

#[test]
fn a_full_fade_takes_thirty_two_ticks() {
    let mut fade = Fade::new();
    fade.fade_in();
    let mut alphas: Vec<u8> = Vec::new();
    loop {
        match fade.tick() {
            FadeTick::StopTimer => break,
            FadeTick::ShowAlpha(a) => alphas.push(a),
        }
    }
    assert_eq!(alphas.len(), 32);
    assert_eq!(alphas[0], 8);
    assert_eq!(alphas[30], 248);
    assert_eq!(alphas[31], 255);
    assert!(alphas.windows(2).all(|w| w[0] < w[1]));
}

#[test]
fn a_fade_is_over_when_the_launcher_goes_on() {
    let mut fade = Fade { current: 255, target: 0 };
    let ticks = fade_wait_ms() / FADE_TICK_MS as u64;
    assert_eq!(ticks, 35);
    for _ in 0..ticks {
        fade.tick();
    }
    assert_eq!(fade.current, 0);
}

#[test]
fn a_fade_turns_round_half_way() {
    let mut fade = Fade::new();
    fade.fade_in();
    for _ in 0..10 {
        fade.tick();
    }
    assert_eq!(fade.current, 80);
    fade.fade_out();
    assert_eq!(fade.tick(), FadeTick::ShowAlpha(72));
}

#[test]
fn a_fade_at_rest_stops_its_timer() {
    let mut fade = Fade::new();
    assert_eq!(fade.tick(), FadeTick::StopTimer);
    assert_eq!(fade, Fade { current: 0, target: 0 });
}

#[test]
fn toggling_snaps_only_when_showing() {
    let mut overlay = ToggledOverlay::new();
    assert_eq!(overlay.toggle(), ToggleActions { snap: true, fade_period_ms: 10 });
    assert!(overlay.visible);
    assert_eq!(overlay.fade.target, 255);
    assert_eq!(overlay.toggle(), ToggleActions { snap: false, fade_period_ms: 10 });
    assert_eq!(overlay, ToggledOverlay::new());
}

#[test]
fn commands_move_and_fade_the_window() {
    let mut fade = Fade::new();
    let r = rect(-100, 50, 700, 650);
    let placed = OverlayAction::Place(Placement { x: -100, y: 50, width: 800, height: 600 });
    let timer = OverlayAction::StartFadeTimer { period_ms: 10 };

    let (actions, flow) =
        on_command_poll(&mut fade, CommandPoll::Command(OverlayCmd::ShowAt { rect: r }));
    assert_eq!(actions, vec![placed, timer]);
    assert_eq!(flow, Flow::NextCommand);
    assert_eq!(fade.target, 255);

    let (actions, flow) =
        on_command_poll(&mut fade, CommandPoll::Command(OverlayCmd::Reposition { rect: r }));
    assert_eq!(actions, vec![placed]);
    assert_eq!(flow, Flow::NextCommand);
    assert_eq!(fade.target, 255);

    let (actions, _) = on_command_poll(
        &mut fade,
        CommandPoll::Command(OverlayCmd::SetClickThrough { value: false }),
    );
    assert_eq!(actions, vec![OverlayAction::ApplyClickThrough { value: false }]);

    let (actions, _) = on_command_poll(&mut fade, CommandPoll::Command(OverlayCmd::Hide));
    assert_eq!(actions, vec![timer]);
    assert_eq!(fade.target, 0);

    let (actions, flow) = on_command_poll(&mut fade, CommandPoll::Empty);
    assert!(actions.is_empty());
    assert_eq!(flow, Flow::PumpMessages);
}

#[test]
fn quitting_and_losing_the_launcher_take_the_window_down() {
    let down = vec![OverlayAction::UnregisterHotkey, OverlayAction::DestroyWindow];
    let mut fade = Fade::new();
    let (actions, flow) = on_command_poll(&mut fade, CommandPoll::Command(OverlayCmd::Quit));
    assert_eq!(actions, down);
    assert_eq!(flow, Flow::Exit);
    let (actions, flow) = on_command_poll(&mut fade, CommandPoll::Disconnected);
    assert_eq!(actions, down);
    assert_eq!(flow, Flow::Exit);
}

#[test]
fn window_messages_are_routed() {
    assert_eq!(route_message(0x0312, 1), MessageRoute::Hotkey);
    assert_eq!(route_message(0x0312, 2), MessageRoute::Default);
    assert_eq!(route_message(0x0113, 1), MessageRoute::FadeTick);
    assert_eq!(route_message(0x0113, 2), MessageRoute::ProgressTick);
    assert_eq!(route_message(0x0113, 3), MessageRoute::Swallow);
    assert_eq!(route_message(0x000F, 0), MessageRoute::Paint);
    assert_eq!(route_message(0x0002, 0), MessageRoute::PostQuit);
    assert_eq!(route_message(0x0005, 0), MessageRoute::Default);
    assert!(ends_message_loop(0x0012));
    assert!(!ends_message_loop(0x0113));
}

#[test]
fn a_hotkey_is_told_by_the_low_half_of_its_parameter() {
    let wide: usize = if usize::BITS == 64 { (7usize << 31 << 1) | 1 } else { 1 };
    assert_eq!(route_message(0x0312, wide), MessageRoute::Hotkey);
}

#[test]
fn click_through_is_one_flag() {
    assert_eq!(click_through_style(0x080800A8, false), 0x08080088);
    assert_eq!(click_through_style(0x08080088, true), 0x080800A8);
    assert_eq!(click_through_style(0x080800A8, true), 0x080800A8);
    assert_eq!(click_through_style(-1, false), -33);
}

#[test]
fn windows_are_made_as_their_program_wants() {
    let monitor = primary_monitor_rect(1920, 1080);
    let toggle = window_plan(Program::Toggle, &monitor);
    assert_eq!(toggle.class_name, "LiminalOverlaySpike");
    assert_eq!(toggle.ex_style, 0x080800A8);
    assert_eq!(toggle.style, 0x8000_0000);
    assert_eq!(toggle.placement, Placement { x: 0, y: 0, width: 1920, height: 1080 });
    assert_eq!(toggle.alpha, 0);
    assert_eq!(toggle.hotkey_modifiers, 0x4006);
    assert_eq!(toggle.hotkey_key, 76);
    assert_eq!(toggle.progress_tick_ms, 16);

    let swap = window_plan(Program::Transition, &monitor);
    assert_eq!(swap.title, "Liminal Overlay");
    assert_eq!(swap.hotkey_modifiers, 0x4006);
    assert_eq!(swap.hotkey_key, 84);

    let game = window_plan(Program::MinecraftTransition, &monitor);
    assert_eq!(game.class_name, "LiminalMcOverlay");
    assert_eq!(game.hotkey_modifiers, 0x4003);
    assert_eq!(game.hotkey_key, 76);
    assert_eq!(game.progress_tick_ms, 50);
}

#[test]
fn rects_know_their_size() {
    assert_eq!(rect(-5, 3, 10, 7).width(), 15);
    assert_eq!(rect(-5, 3, 10, 7).height(), 4);
    assert!(rect(-5, 3, 10, 7).measurable());
    assert!(!rect(i32::MIN, 0, i32::MAX, 1).measurable());
    assert!(!rect(0, -1, 1, i32::MAX).measurable());
}

#[test]
fn a_frame_is_laid_out_round_its_bar() {
    let client = rect(0, 0, 1001, 801);
    assert!(can_lay_out(&client));
    let layout = lay_out_frame(&client).unwrap();
    assert_eq!(layout.bar, rect(200, 600, 800, 624));
    assert_eq!(layout.bar_width(), 600);
    assert_eq!(
        layout.fills(150),
        vec![
            Fill { rect: client, color: 0x00284040 },
            Fill { rect: rect(198, 598, 802, 626), color: 0x00FFFFFF },
            Fill { rect: rect(200, 600, 800, 624), color: 0x00101010 },
            Fill { rect: rect(200, 600, 350, 624), color: 0x0080FF80 },
        ]
    );
}

#[test]
fn an_empty_window_has_no_frame() {
    assert!(lay_out_frame(&rect(0, 0, 0, 100)).is_none());
    assert!(lay_out_frame(&rect(0, 0, 100, 0)).is_none());
    assert!(lay_out_frame(&rect(10, 0, 5, 100)).is_none());
    assert!(lay_out_frame(&rect(0, 0, 1, 1)).is_some());
    assert!(!can_lay_out(&rect(0, 0, i32::MAX, 10)));
    assert!(can_lay_out(&rect(0, 0, i32::MAX, 0)));
    assert!(lay_out_frame(&rect(0, 0, i32::MAX, 0)).is_none());
}

#[test]
fn the_sweep_comes_round_after_two_crossings() {
    let mut ms = 0;
    for n in 1..=625 {
        ms = advance_sweep(ms);
        assert_eq!(ms == 0, n == 625);
    }
    assert_eq!(advance_sweep(4990), 6);
}

#[test]
fn progress_stays_in_the_bar() {
    assert_eq!(clamp_bps(-1), 0);
    assert_eq!(clamp_bps(2500), 2500);
    assert_eq!(clamp_bps(10001), 10000);
    assert_eq!(hold_span(), 4500);
    assert_eq!(hold_progress(0), 5000);
    assert_eq!(hold_progress(hold_span()), 9500);
}

#[test]
fn the_hotkey_toggles_the_overlay_alone_and_signals_the_launcher() {
    let mut state = WindowState::new();
    assert_eq!(
        on_message(Program::Toggle, &mut state, 0x0312, 1),
        MessageAction::Toggle(ToggleActions { snap: true, fade_period_ms: 10 })
    );
    assert!(state.overlay.visible);
    assert_eq!(state.overlay.fade, Fade { current: 0, target: 255 });
    for program in [Program::Transition, Program::MinecraftTransition] {
        let mut state = WindowState::new();
        assert_eq!(on_message(program, &mut state, 0x0312, 1), MessageAction::Signal);
        assert_eq!(state, WindowState::new());
        assert_eq!(on_message(program, &mut state, 0x0312, 2), MessageAction::Default);
        assert_eq!(state, WindowState::new());
    }
}

#[test]
fn fade_ticks_move_the_fade_and_nothing_else() {
    for program in [Program::Toggle, Program::Transition, Program::MinecraftTransition] {
        let overlay = ToggledOverlay { visible: true, fade: Fade { current: 250, target: 255 } };
        let mut state = WindowState { overlay, sweep_ms: 32, stage_bps: 7 };
        assert_eq!(
            on_message(program, &mut state, 0x0113, 1),
            MessageAction::Fade(FadeTick::ShowAlpha(255))
        );
        assert_eq!(state.overlay.fade, Fade { current: 255, target: 255 });
        assert_eq!((state.sweep_ms, state.stage_bps), (32, 7));
        assert_eq!(
            on_message(program, &mut state, 0x0113, 1),
            MessageAction::Fade(FadeTick::StopTimer)
        );
    }
}

#[test]
fn progress_ticks_move_only_the_sweep() {
    for program in [Program::Toggle, Program::Transition] {
        let mut state = WindowState::new();
        state.sweep_ms = 4990;
        state.stage_bps = -3;
        let start = state;
        assert_eq!(on_message(program, &mut state, 0x0113, 2), MessageAction::Redraw);
        assert_eq!(state, WindowState { sweep_ms: 6, ..start });
        for _ in 1..625 {
            on_message(program, &mut state, 0x0113, 2);
        }
        assert_eq!(state, start);
    }
    let mut state = WindowState::new();
    state.sweep_ms = 123;
    state.stage_bps = 6125;
    let start = state;
    for _ in 0..40 {
        let action = on_message(Program::MinecraftTransition, &mut state, 0x0113, 2);
        assert_eq!(action, MessageAction::Redraw);
        assert_eq!(state, start);
    }
}

#[test]
fn other_messages_leave_the_window_state() {
    let overlay = ToggledOverlay { visible: true, fade: Fade { current: 80, target: 255 } };
    let start = WindowState { overlay, sweep_ms: 48, stage_bps: 500 };
    let mut state = start;
    let mut answer = |message: u32, wparam: usize| {
        let action = on_message(Program::Toggle, &mut state, message, wparam);
        assert_eq!(state, start);
        action
    };
    assert_eq!(answer(0x0113, 3), MessageAction::Ignore);
    assert_eq!(answer(0x000F, 0), MessageAction::Paint);
    assert_eq!(answer(0x0002, 0), MessageAction::PostQuit);
    assert_eq!(answer(0x0005, 0), MessageAction::Default);
}

#[test]
fn each_program_shows_its_own_progress() {
    let mut state = WindowState::new();
    state.sweep_ms = 1250;
    state.stage_bps = 10001;
    let sweep = ShownProgress { done: 1250, whole: 5000 };
    assert_eq!(shown_progress(Program::Toggle, &state), sweep);
    assert_eq!(shown_progress(Program::Transition, &state), sweep);
    let full = ShownProgress { done: 10000, whole: 10000 };
    assert_eq!(shown_progress(Program::MinecraftTransition, &state), full);
    state.stage_bps = 2500;
    let quarter = ShownProgress { done: 2500, whole: 10000 };
    assert_eq!(shown_progress(Program::MinecraftTransition, &state), quarter);
}

#[test]
fn the_last_commands_decide() {
    let first = rect(0, 0, 100, 100);
    let second = rect(5, 6, 205, 106);
    let mut fade = Fade::new();
    let mut place: Option<Placement> = None;
    let mut style: isize = 0x0008_0020;
    for cmd in [
        OverlayCmd::ShowAt { rect: first },
        OverlayCmd::SetClickThrough { value: false },
        OverlayCmd::Hide,
        OverlayCmd::SetClickThrough { value: true },
        OverlayCmd::Reposition { rect: second },
        OverlayCmd::SetClickThrough { value: false },
    ] {
        let (actions, _) = on_command_poll(&mut fade, CommandPoll::Command(cmd));
        for action in actions {
            match action {
                OverlayAction::Place(placement) => place = Some(placement),
                OverlayAction::ApplyClickThrough { value } => {
                    style = click_through_style(style, value)
                }
                _ => {}
            }
        }
    }
    assert_eq!(fade, Fade { current: 0, target: 0 });
    assert_eq!(place, Some(Placement { x: 5, y: 6, width: 200, height: 100 }));
    assert_eq!(style, 0x0008_0000);
}
