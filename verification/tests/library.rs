use rusc::action_stack::ActionStack;
use rusc::autoplay::AutoPlay;
use rusc::buttons::{BtLane, GamepadButton, Side, UscButton};
use rusc::camera::{check_spins, take_slam_event, CamPatternInvoke, CameraSpin, SlamEvents};
use rusc::companion::{companion_input, ClientEvent, CompanionInput};
use rusc::config::{get_frame_duration, is_install_dir, BoundInput, Keybinds, MultiplayerSettings, ScoreDisplayMode, ScoreScreenshot};
use rusc::editor::{
    handle_event, ChartTool, EditorCommand, GuiEvent, Key, KeyBindings, KeyCombo, KeyOutcome, Modifiers,
    NewChartOptions,
};
use rusc::gauge::{GaugeKind, GaugeType, Gauges};
use rusc::ir::{InternetRanking, InternetRankingLua, IrState};
use rusc::lighting::{Channel, LightingTarget, Rgb, TARGET_COUNT};
use rusc::lua::{GameDataLua, LuaKey, LuaLogLevel};
use rusc::lua_http::LuaHttp;
use rusc::main_menu::{mouse_button_code, Bindings, MainMenuButton, MouseButton};
use rusc::mp_screen::{
    advance_selection, process_lua_command, screen_after_server_message, submit, MpScreen,
    MpScreenCommand, MultiplayerScreenState, MultiplayerScreenStateDiscriminants, ScreenAction,
    ServerMessageKind,
};
use rusc::results::{calculate_clear_mark, grade, ClearMark, GaugeOutcome};
use rusc::scoring::{
    tick_is_short, HitRating, HitSummary, PlacedScoreTick, ScoreState, ScoreTick, MAX_SCORE,
};
use rusc::screen::ColumnLayout;
use rusc::shader::transform_shader;
use rusc::songs_db::get_folder_ids_query;
use rusc::timing::{migrate_config, HitWindow, Judgement};

type Edit = Box<dyn Fn(&mut Vec<i32>) -> anyhow::Result<()>>;

fn push_edit(v: i32) -> Edit {
    Box::new(move |x: &mut Vec<i32>| {
        x.push(v);
        Ok(())
    })
}

fn failing_edit() -> Edit {
    Box::new(|_: &mut Vec<i32>| Err(anyhow::Error::msg("refused")))
}

// ---------------------------------------------------------------- action stack

#[test]
fn action_stack_replays_recorded_edits() {
    let mut stack: ActionStack<Vec<i32>, Edit> = ActionStack::new(vec![1]);
    stack.new_action("two".to_string(), push_edit(2));
    stack.new_action("three".to_string(), push_edit(3));
    assert_eq!(stack.get_current().unwrap(), vec![1, 2, 3]);
    assert_eq!(stack.prev_action_desc(), Some("three".to_string()));
    assert_eq!(stack.next_action_desc(), None);
}

#[test]
fn action_stack_undo_then_redo_restores() {
    let mut stack: ActionStack<Vec<i32>, Edit> = ActionStack::new(vec![]);
    stack.new_action("a".to_string(), push_edit(1));
    stack.new_action("b".to_string(), push_edit(2));
    stack.undo();
    assert_eq!(stack.get_current().unwrap(), vec![1]);
    assert_eq!(stack.next_action_desc(), Some("b".to_string()));
    assert_eq!(stack.prev_action_desc(), Some("a".to_string()));
    stack.redo();
    assert_eq!(stack.get_current().unwrap(), vec![1, 2]);
    assert_eq!(stack.next_action_desc(), None);
}

#[test]
fn action_stack_new_action_clears_redo() {
    let mut stack: ActionStack<Vec<i32>, Edit> = ActionStack::new(vec![]);
    stack.new_action("a".to_string(), push_edit(1));
    stack.undo();
    stack.new_action("c".to_string(), push_edit(3));
    assert_eq!(stack.next_action_desc(), None);
    stack.redo();
    assert_eq!(stack.get_current().unwrap(), vec![3]);
}

#[test]
fn action_stack_undo_and_redo_on_empty_do_nothing() {
    let mut stack: ActionStack<Vec<i32>, Edit> = ActionStack::new(vec![7]);
    stack.undo();
    stack.redo();
    assert_eq!(stack.get_current().unwrap(), vec![7]);
    assert!(stack.saved());
}

#[test]
fn action_stack_save_tracks_position() {
    let mut stack: ActionStack<Vec<i32>, Edit> = ActionStack::new(vec![]);
    assert!(stack.saved());
    stack.new_action("a".to_string(), push_edit(1));
    assert!(!stack.saved());
    stack.save();
    assert!(stack.saved());
    stack.new_action("b".to_string(), push_edit(2));
    assert!(!stack.saved());
    stack.undo();
    assert!(stack.saved());
    stack.undo();
    // Nothing left to undo: an empty history counts as saved.
    assert!(stack.saved());
}

#[test]
fn action_stack_failing_edit_reports_error() {
    let mut stack: ActionStack<Vec<i32>, Edit> = ActionStack::new(vec![]);
    stack.new_action("a".to_string(), push_edit(1));
    stack.new_action("bad".to_string(), failing_edit());
    assert!(stack.get_current().is_err());
    stack.apply();
    // The failed replay leaves the history as it was.
    assert_eq!(stack.prev_action_desc(), Some("bad".to_string()));
}

#[test]
fn action_stack_apply_folds_history() {
    let mut stack: ActionStack<Vec<i32>, Edit> = ActionStack::new(vec![0]);
    stack.new_action("a".to_string(), push_edit(1));
    stack.new_action("b".to_string(), push_edit(2));
    stack.undo();
    stack.apply();
    assert_eq!(stack.prev_action_desc(), None);
    assert_eq!(stack.next_action_desc(), None);
    assert_eq!(stack.get_current().unwrap(), vec![0, 1]);
    assert!(stack.saved());
}

#[test]
fn action_stack_reset_replaces_original() {
    let mut stack: ActionStack<Vec<i32>, Edit> = ActionStack::new(vec![0]);
    stack.new_action("a".to_string(), push_edit(1));
    stack.save();
    stack.reset(vec![5, 6]);
    assert_eq!(stack.get_current().unwrap(), vec![5, 6]);
    assert_eq!(stack.prev_action_desc(), None);
    assert!(stack.saved());
}

#[test]
fn action_stack_undo_after_new_action_gives_back_document() {
    let mut stack: ActionStack<Vec<i32>, Edit> = ActionStack::new(vec![4]);
    stack.new_action("a".to_string(), push_edit(1));
    let before = stack.get_current().unwrap();
    let prev = stack.prev_action_desc();
    stack.new_action("b".to_string(), push_edit(2));
    stack.undo();
    assert_eq!(stack.get_current().unwrap(), before);
    assert_eq!(stack.next_action_desc(), Some("b".to_string()));
    assert_eq!(stack.prev_action_desc(), prev);
}

#[test]
fn action_stack_apply_keeps_current_document() {
    let mut stack: ActionStack<Vec<i32>, Edit> = ActionStack::new(vec![]);
    stack.new_action("a".to_string(), push_edit(8));
    stack.new_action("b".to_string(), push_edit(9));
    let current = stack.get_current().unwrap();
    stack.apply();
    assert_eq!(stack.get_current().unwrap(), current);
    assert!(stack.saved());
    assert_eq!(stack.prev_action_desc(), None);
}

#[test]
fn action_stack_failed_apply_keeps_history() {
    let mut stack: ActionStack<Vec<i32>, Edit> = ActionStack::new(vec![3]);
    stack.new_action("bad".to_string(), failing_edit());
    stack.new_action("a".to_string(), push_edit(1));
    stack.undo();
    stack.save();
    stack.apply();
    assert_eq!(stack.prev_action_desc(), Some("bad".to_string()));
    assert_eq!(stack.next_action_desc(), Some("a".to_string()));
    assert!(stack.saved());
    assert!(stack.get_current().is_err());
}

// ---------------------------------------------------------------- buttons

#[test]
fn button_numbers_round_trip() {
    for n in 0u8..8 {
        let b = UscButton::from(n);
        assert_eq!(u8::from(b), n);
    }
    assert_eq!(UscButton::from(0u8), UscButton::BT(BtLane::A));
    assert_eq!(UscButton::from(5u8), UscButton::FX(Side::Right));
    assert_eq!(UscButton::from(6u8), UscButton::Start);
    assert_eq!(UscButton::from(7u8), UscButton::Back);
    assert_eq!(u8::from(UscButton::Other(GamepadButton::Mode)), 255);
}

#[test]
fn button_gamepad_round_trip() {
    let buttons = [
        UscButton::BT(BtLane::A),
        UscButton::BT(BtLane::B),
        UscButton::BT(BtLane::C),
        UscButton::BT(BtLane::D),
        UscButton::FX(Side::Left),
        UscButton::FX(Side::Right),
        UscButton::Start,
        UscButton::Back,
    ];
    for b in buttons {
        let g = GamepadButton::from(b);
        assert_eq!(UscButton::from(g), b);
    }
}

#[test]
fn button_gilrs_codes() {
    assert_eq!(UscButton::BT(BtLane::A).to_gilrs_code_u32(), 1);
    assert_eq!(UscButton::FX(Side::Right).to_gilrs_code_u32(), 6);
    assert_eq!(UscButton::Start.to_gilrs_code_u32(), 0);
    assert_eq!(UscButton::Back.to_gilrs_code_u32(), 255);
}

// ---------------------------------------------------------------- timing

#[test]
fn hit_window_judges_by_window() {
    let w = HitWindow::normal();
    let ms: u128 = 1_000_000;
    assert_eq!(w.judge(0), Judgement::Crit);
    assert_eq!(w.judge(46 * ms), Judgement::Crit);
    assert_eq!(w.judge(46 * ms + 1), Judgement::Good);
    assert_eq!(w.judge(92 * ms), Judgement::Good);
    assert_eq!(w.judge(200 * ms), Judgement::Miss);
    assert_eq!(w.judge(251 * ms), Judgement::Ignored);
}

#[test]
fn hit_window_new_in_milliseconds() {
    let w = HitWindow::new(1, 10, 20, 30, 40);
    assert_eq!(w.perfect, 10_000_000);
    assert_eq!(w.miss, 40_000_000);
    assert_eq!(w.variant, 1);
}

#[test]
fn migrate_config_mends_tiny_windows_only() {
    let mut tiny = HitWindow::new(1, 0, 0, 0, 0);
    tiny.perfect = 46;
    migrate_config(&mut tiny);
    assert_eq!(tiny, HitWindow::normal());

    let mut fine = HitWindow::new(1, 20, 40, 60, 100);
    migrate_config(&mut fine);
    assert_eq!(fine, HitWindow::new(1, 20, 40, 60, 100));
    migrate_config(&mut fine);
    assert_eq!(fine, HitWindow::new(1, 20, 40, 60, 100));
}

// ---------------------------------------------------------------- scoring

fn chip() -> PlacedScoreTick {
    PlacedScoreTick { y: 0, tick: ScoreTick::Chip { lane: 0 } }
}

#[test]
fn hit_summary_counts() {
    let t = chip();
    let ratings = [
        HitRating::Crit { tick: t },
        HitRating::Good { tick: t },
        HitRating::Crit { tick: t },
        HitRating::NoRating,
    ];
    let s = HitSummary::from(&ratings);
    assert_eq!(s, HitSummary::new(2, 1, 0));
    assert!(!s.perfect());
    assert!(s.full_combo());
    assert!(HitSummary::new(3, 0, 0).perfect());
    assert!(!HitSummary::new(3, 0, 1).full_combo());
}

#[test]
fn hit_summary_ignores_order() {
    let t = chip();
    let a = [HitRating::Miss { tick: t }, HitRating::Crit { tick: t }, HitRating::NoRating, HitRating::Good { tick: t }];
    let b = [HitRating::Good { tick: t }, HitRating::NoRating, HitRating::Crit { tick: t }, HitRating::Miss { tick: t }];
    assert_eq!(HitSummary::from(&a), HitSummary::from(&b));
    assert_eq!(HitSummary::from(&a), HitSummary::new(1, 1, 1));
}

#[test]
fn hit_rating_predicates() {
    let t = chip();
    assert!(HitRating::NoRating.crit());
    assert!(HitRating::Crit { tick: t }.crit());
    assert!(!HitRating::Good { tick: t }.crit());
    assert!(!HitRating::Miss { tick: t }.hit());
    assert!(HitRating::Good { tick: t }.hit());
}

#[test]
fn tick_shortness() {
    assert!(tick_is_short(chip()));
    assert!(tick_is_short(PlacedScoreTick { y: 3, tick: ScoreTick::Slam { lane: 1 } }));
    assert!(!tick_is_short(PlacedScoreTick { y: 3, tick: ScoreTick::Laser { lane: 1 } }));
    assert!(!tick_is_short(PlacedScoreTick {
        y: 3,
        tick: ScoreTick::Hold { lane: 2, start_tick: 0 }
    }));
}

#[test]
fn score_state_accounting() {
    let t = chip();
    let mut s = ScoreState::new();
    assert!(s.on_hit(HitRating::Crit { tick: t }));
    assert!(s.on_hit(HitRating::Good { tick: t }));
    assert_eq!(s.real_score, 3);
    assert_eq!(s.combo, 2);
    assert!(s.on_hit(HitRating::Miss { tick: t }));
    assert!(!s.on_hit(HitRating::Miss { tick: t }));
    assert_eq!(s.combo, 0);
    assert_eq!(s.max_combo, 2);
    assert!(!s.on_hit(HitRating::NoRating));
    s.count_judged_tick();
    s.count_judged_tick();
    assert_eq!(s.score_current_max, 4);
}

#[test]
fn display_scores_by_mode() {
    let mut s = ScoreState::new();
    s.real_score = 3;
    s.score_current_max = 4;
    // 10 scoring points: 20 points in all.
    assert_eq!(s.calculate_display_score(ScoreDisplayMode::Additive, 10), MAX_SCORE * 3 / 20);
    assert_eq!(
        s.calculate_display_score(ScoreDisplayMode::Subtractive, 10),
        MAX_SCORE * 19 / 20
    );
    assert_eq!(s.calculate_display_score(ScoreDisplayMode::Average, 10), MAX_SCORE * 3 / 4);
    assert_eq!(s.actual_display_score(10), 1_500_000);
    let fresh = ScoreState::new();
    assert_eq!(fresh.calculate_display_score(ScoreDisplayMode::Average, 10), 0);
    assert_eq!(fresh.calculate_display_score(ScoreDisplayMode::Subtractive, 10), MAX_SCORE);
}

// ---------------------------------------------------------------- results

#[test]
fn grades_by_score() {
    assert_eq!(grade(10_000_000), "S");
    assert_eq!(grade(9_900_000), "S");
    assert_eq!(grade(9_899_999), "AAA+");
    assert_eq!(grade(9_000_000), "A+");
    assert_eq!(grade(7_500_000), "B");
    assert_eq!(grade(6_499_999), "D");
}

#[test]
fn clear_marks() {
    let normal = GaugeOutcome { kind: GaugeKind::Normal, cleared: true, dead: false };
    let hard = GaugeOutcome { kind: GaugeKind::Hard, cleared: true, dead: false };
    let failed = GaugeOutcome { kind: GaugeKind::Normal, cleared: false, dead: false };
    assert_eq!(calculate_clear_mark(HitSummary::new(5, 0, 0), true, &normal), ClearMark::NoMark);
    assert_eq!(calculate_clear_mark(HitSummary::new(5, 0, 0), false, &failed), ClearMark::Played);
    assert_eq!(calculate_clear_mark(HitSummary::new(5, 0, 0), false, &normal), ClearMark::Perfect);
    assert_eq!(
        calculate_clear_mark(HitSummary::new(5, 1, 0), false, &normal),
        ClearMark::FullCombo
    );
    assert_eq!(calculate_clear_mark(HitSummary::new(5, 1, 2), false, &normal), ClearMark::Cleared);
    assert_eq!(
        calculate_clear_mark(HitSummary::new(5, 1, 2), false, &hard),
        ClearMark::HardCleared
    );
    assert_eq!(ClearMark::Perfect.as_u8(), 5);
    assert_eq!(ClearMark::NoMark.as_u8(), 0);
}

// ---------------------------------------------------------------- gauge

#[test]
fn gauge_type_from_kind() {
    assert!(GaugeType::try_from(GaugeKind::NoGauge).is_err());
    assert_eq!(GaugeType::try_from(GaugeKind::Normal).unwrap(), GaugeType::Normal);
    assert_eq!(GaugeType::try_from(GaugeKind::Hard).unwrap(), GaugeType::Hard);
    assert!(GaugeType::Hard.fallback_supported());
    assert!(!GaugeType::Normal.fallback_supported());
    assert_eq!(GaugeType::Hard.as_u8(), 1);
}

#[test]
fn gauges_fall_back_in_order() {
    let mut g = Gauges::new("hard", vec!["normal", "easy"]);
    assert!(!g.is_dead(true));
    g.on_hit(false);
    assert_eq!(*g.active(), "hard");
    g.on_hit(true);
    assert_eq!(*g.active(), "normal");
    assert!(g.fall_back());
    assert_eq!(*g.active(), "easy");
    assert!(g.is_dead(true));
    assert!(!g.is_dead(false));
    assert!(!g.fall_back());
    assert_eq!(*g.active(), "easy");
}

#[test]
fn gauges_parts_update_in_place() {
    let mut g = Gauges::new(1, vec![2, 3]);
    {
        let (active, waiting) = g.parts_mut();
        *active += 10;
        for w in waiting.iter_mut() {
            *w += 10;
        }
    }
    assert_eq!(*g.active(), 11);
    assert!(g.fall_back());
    assert_eq!(*g.active(), 12);
}

// ---------------------------------------------------------------- autoplay

#[test]
fn autoplay_flags() {
    assert!(!AutoPlay::Off.any());
    assert!(AutoPlay::Buttons.any());
    assert!(AutoPlay::All.auto_buttons() && AutoPlay::All.auto_lasers());
    assert!(!AutoPlay::Lasers.auto_buttons());
    assert_eq!(AutoPlay::Off.auto_flags(), 0);
}

// ---------------------------------------------------------------- shader

#[test]
fn shader_drops_version_and_extension_lines() {
    let src = "#version 330\n#extension GL_foo : enable\nvoid main() {}".to_string();
    assert_eq!(transform_shader(src), "void main() {}");
}

#[test]
fn shader_strips_layout_qualifiers() {
    let src = "layout(location = 0) in vec3 pos;\nlayout(location=1) out vec4 color;\nuniform float t;"
        .to_string();
    assert_eq!(transform_shader(src), "in vec3 pos;\nout vec4 color;\nuniform float t;");
}

#[test]
fn shader_layout_without_direction_loses_its_keyword() {
    let src = "layout(std140) uniform Block;".to_string();
    assert_eq!(transform_shader(src), "t(std140) uniform Block;");
}

#[test]
fn shader_handles_crlf_and_empty() {
    assert_eq!(transform_shader("a\r\nb\r\n".to_string()), "a\nb");
    assert_eq!(transform_shader(String::new()), "");
}

// ---------------------------------------------------------------- editor

#[test]
fn modifiers_display() {
    assert_eq!(Modifiers::new().to_display_string(false), "");
    assert_eq!(Modifiers::new().ctrl(false).shift().to_display_string(false), "ctrl + shift");
    assert_eq!(Modifiers::new().alt().to_display_string(false), "alt");
    assert_eq!(
        Modifiers::new().shift().alt().ctrl(false).to_display_string(false),
        "ctrl + alt + shift"
    );
    assert!(Modifiers::new().ctrl(false).command);
    assert!(!Modifiers::new().any());
    assert!(Modifiers::new().mac_cmd().any());
}

#[test]
fn new_chart_options_need_audio_and_name() {
    let mut o = NewChartOptions::default();
    assert!(!o.can_create());
    o.audio = "song.ogg".to_string();
    assert!(!o.can_create());
    o.filename = "chart".to_string();
    assert!(o.can_create());
}

#[test]
fn column_layout_cuts_intervals() {
    let l = ColumnLayout { beats_per_col: 4, beat_res: 10 };
    assert_eq!(l.ticks_per_col(), 40);
    assert_eq!(l.tick_to_column(95), (2, 15));
    assert_eq!(l.interval_to_ranges(30, 60), vec![(30, 40), (40, 80), (80, 90)]);
    assert_eq!(l.interval_to_ranges(41, 5), vec![(41, 46)]);
    let huge = ColumnLayout { beats_per_col: u32::MAX, beat_res: 2 };
    assert_eq!(huge.ticks_per_col(), u32::MAX);
}

// ---------------------------------------------------------------- config

#[test]
fn config_names_and_defaults() {
    assert_eq!(ScoreDisplayMode::Subtractive.name(), "Subtractive");
    assert_eq!(ScoreScreenshot::Highscores.name(), "Highscores");
    let m = MultiplayerSettings::default();
    assert_eq!(m.server, "usc-multi.drewol.me:39079");
    assert_eq!(m.name, "");
}

#[test]
fn install_dir_needs_fonts_and_skins() {
    assert_eq!(is_install_dir("/games/usc".to_string(), true, true), Some("/games/usc".to_string()));
    assert_eq!(is_install_dir("/games/usc".to_string(), true, false), None);
    assert_eq!(is_install_dir("/games/usc".to_string(), false, true), None);
}

// ---------------------------------------------------------------- multiplayer lobby

#[test]
fn lobby_screen_names() {
    assert_eq!(MultiplayerScreenState::SetUsername(String::new()).as_str(), "setUsername");
    assert_eq!(MultiplayerScreenState::RoomList.as_str(), "roomList");
    assert_eq!(
        MultiplayerScreenState::NewRoomPassword(String::new(), String::new()).as_str(),
        "newRoomPassword"
    );
    assert!(MultiplayerScreenState::NewRoomName(String::new()).text_state());
    assert!(!MultiplayerScreenState::InRoom.text_state());
    assert_eq!(
        MultiplayerScreenState::PasswordScreen("p".to_string(), "r".to_string()).discriminant(),
        MultiplayerScreenStateDiscriminants::PasswordScreen
    );
    assert_eq!(
        MultiplayerScreenState::PasswordScreen("p".to_string(), "r".to_string()).text_input(),
        Some("p".to_string())
    );
}

#[test]
fn lobby_join_with_password_flow() {
    let (s, a) = process_lua_command(
        MultiplayerScreenState::RoomList,
        MpScreen::join_with_password(Some("room1".to_string())),
    );
    assert_eq!(s, MultiplayerScreenState::PasswordScreen(String::new(), "room1".to_string()));
    assert!(matches!(a, ScreenAction::Nothing));
    let typed = MultiplayerScreenState::PasswordScreen("pw".to_string(), "room1".to_string());
    let (s, a) = process_lua_command(typed, MpScreen::join_with_password(None));
    assert_eq!(s, MultiplayerScreenState::PasswordScreen("pw".to_string(), "room1".to_string()));
    match a {
        ScreenAction::JoinRoom { id, password } => {
            assert_eq!(id, "room1");
            assert_eq!(password, Some("pw".to_string()));
        }
        _ => panic!("expected a join"),
    }
}

#[test]
fn lobby_new_room_flow() {
    let (s, _) = process_lua_command(MultiplayerScreenState::RoomList, MpScreen::new_room_step());
    assert_eq!(s, MultiplayerScreenState::NewRoomName(String::new()));
    let (s, _) = process_lua_command(
        MultiplayerScreenState::NewRoomName("my room".to_string()),
        MpScreenCommand::NewRoomStep,
    );
    assert_eq!(s, MultiplayerScreenState::NewRoomPassword(String::new(), "my room".to_string()));
    let (s, a) = process_lua_command(s, MpScreenCommand::NewRoomStep);
    assert_eq!(s, MultiplayerScreenState::RoomList);
    match a {
        ScreenAction::NewRoom { name, password } => {
            assert_eq!(name, "my room");
            assert_eq!(password, None);
        }
        _ => panic!("expected a new room"),
    }
    let (_, a) = process_lua_command(
        MultiplayerScreenState::NewRoomPassword("secret".to_string(), "r".to_string()),
        MpScreenCommand::NewRoomStep,
    );
    assert!(matches!(a, ScreenAction::NewRoom { password: Some(ref p), .. } if p == "secret"));
}

#[test]
fn lobby_username_and_exit() {
    let (_, a) = process_lua_command(
        MultiplayerScreenState::SetUsername(String::new()),
        MpScreen::save_username(),
    );
    assert!(matches!(a, ScreenAction::Nothing));
    let (_, a) = process_lua_command(
        MultiplayerScreenState::SetUsername("me".to_string()),
        MpScreen::save_username(),
    );
    assert!(matches!(a, ScreenAction::SaveUsername(ref n) if n == "me"));
    let (s, a) = process_lua_command(MultiplayerScreenState::InRoom, MpScreen::exit());
    assert_eq!(s, MultiplayerScreenState::InRoom);
    assert!(matches!(a, ScreenAction::Close));
    let (_, a) = process_lua_command(MultiplayerScreenState::InRoom, MpScreen::select_song());
    assert!(matches!(a, ScreenAction::ShowSongDialog));
    let (s, a) = process_lua_command(
        MultiplayerScreenState::InRoom,
        MpScreen::join_without_password("x".to_string()),
    );
    assert_eq!(s, MultiplayerScreenState::InRoom);
    assert!(matches!(a, ScreenAction::Nothing));
    let (_, a) = process_lua_command(MultiplayerScreenState::RoomList, MpScreen::open_settings());
    assert!(matches!(a, ScreenAction::Nothing));
}

#[test]
fn lobby_submit() {
    let (s, a) = submit(MultiplayerScreenState::SetUsername("me".to_string()));
    assert_eq!(s, MultiplayerScreenState::RoomList);
    assert!(matches!(a, ScreenAction::SaveUsername(ref n) if n == "me"));
    let (s, a) = submit(MultiplayerScreenState::RoomList);
    assert_eq!(s, MultiplayerScreenState::RoomList);
    assert!(matches!(a, ScreenAction::Nothing));
}

#[test]
fn lobby_server_messages() {
    let s = screen_after_server_message(
        MultiplayerScreenState::SetUsername("x".to_string()),
        ServerMessageKind::Rooms,
    );
    assert_eq!(s, MultiplayerScreenState::RoomList);
    let s = screen_after_server_message(s, ServerMessageKind::Joined);
    assert_eq!(s, MultiplayerScreenState::InRoom);
    let s = screen_after_server_message(s, ServerMessageKind::Info);
    assert_eq!(s, MultiplayerScreenState::InRoom);
}

#[test]
fn difficulty_selection_moves_and_clamps() {
    assert_eq!(advance_selection(1, 0, 4), 1);
    assert_eq!(advance_selection(1, 1, 4), 2);
    assert_eq!(advance_selection(3, 1, 4), 3);
    assert_eq!(advance_selection(1, -5, 4), 0);
    assert_eq!(advance_selection(2, 1, 0), 0);
}

// ---------------------------------------------------------------- lighting

#[test]
fn lighting_targets_listed_once_each() {
    let all = LightingTarget::iter();
    assert_eq!(all.len(), TARGET_COUNT);
    assert_eq!(all.len(), 28);
    assert_eq!(all[0], LightingTarget::Start);
    assert_eq!(all[1], LightingTarget::Bt(BtLane::A));
    assert_eq!(all[6], LightingTarget::Fx(Side::Right));
    assert_eq!(all[7], LightingTarget::Top(Side::Left, Channel::R));
    assert_eq!(all[10], LightingTarget::Top(Side::Right, Channel::R));
    assert_eq!(all[27], LightingTarget::Base(Channel::B));
    for i in 0..all.len() {
        for j in 0..all.len() {
            assert_eq!(i == j, all[i] == all[j]);
        }
    }
    assert_eq!(all.iter().filter(|t| t.is_rgb()).count(), 21);
}

#[test]
fn lighting_channels() {
    let c = Rgb { r: 1u8, g: 2, b: 3 };
    assert_eq!(Channel::R.get(c), 1);
    assert_eq!(Channel::G.get(c), 2);
    assert_eq!(Channel::B.get(c), 3);
    assert_eq!(Channel::G.name(), "Green");
    assert_eq!(Channel::default(), Channel::R);
}

// ---------------------------------------------------------------- main menu and Lua

#[test]
fn menu_bindings_pick_entries() {
    assert_eq!(Bindings::start(), MainMenuButton::Start);
    assert_eq!(Bindings::d_l_screen(), MainMenuButton::Downloads);
    assert_eq!(Bindings::multiplayer(), MainMenuButton::Multiplayer);
    assert_eq!(Bindings::exit(), MainMenuButton::Exit);
    assert_eq!(Bindings::settings(), MainMenuButton::Options);
    assert_eq!(Bindings::update(), MainMenuButton::Update);
    assert_eq!(Bindings::challenges(), MainMenuButton::Challenges);
}

#[test]
fn mouse_button_codes() {
    assert_eq!(mouse_button_code(MouseButton::Left), 0);
    assert_eq!(mouse_button_code(MouseButton::Middle), 1);
    assert_eq!(mouse_button_code(MouseButton::Right), 2);
    assert_eq!(mouse_button_code(MouseButton::Forward), 3);
    assert_eq!(mouse_button_code(MouseButton::Back), 4);
    assert_eq!(mouse_button_code(MouseButton::Other(9)), 9);
}

#[test]
fn lua_log_levels_and_keys() {
    assert_eq!(GameDataLua::log_level(0), LuaLogLevel::Debug);
    assert_eq!(GameDataLua::log_level(2), LuaLogLevel::Info);
    assert_eq!(GameDataLua::log_level(3), LuaLogLevel::Warn);
    assert_eq!(GameDataLua::log_level(4), LuaLogLevel::Error);
    assert_eq!(GameDataLua::log_level(-1), LuaLogLevel::Debug);
    assert_eq!(LuaKey::from_address(4096).key(), 4096);
}

// ---------------------------------------------------------------- internet ranking

#[test]
fn ranking_urls() {
    assert_eq!(
        InternetRanking::request_url("https://ir.example//", "scores"),
        "https://ir.example/scores"
    );
    assert_eq!(InternetRanking::request_url("https://ir.example", "heartbeat"), "https://ir.example/heartbeat");
    assert_eq!(InternetRanking::chart_tracked_path("abc"), "charts/abc/");
    assert_eq!(InternetRanking::record_path("abc"), "charts/abc/record");
    assert_eq!(InternetRanking::leaderboard_path("abc"), "charts/abc/leaderboard");
    assert_eq!(InternetRanking::heartbeat_path(), "heartbeat");
    assert_eq!(InternetRanking::submit_path(), "scores");
    assert!(InternetRankingLua::get_active("https://ir.example"));
    assert!(!InternetRankingLua::get_active(""));
    assert!(!InternetRanking::enabled(""));
}

#[test]
fn ranking_state_codes() {
    assert_eq!(IrState::Unused.code(), 0);
    assert_eq!(IrState::Accepted.code(), 22);
    assert_eq!(IrState::ChartRefused.code(), 42);
    assert_eq!(IrState::RequestFailure.code(), 60);
}

// ---------------------------------------------------------------- companion

#[test]
fn companion_requests() {
    let e: ClientEvent<u8, u8> = ClientEvent::Start;
    assert!(matches!(companion_input(e), CompanionInput::Click(UscButton::Start)));
    let e: ClientEvent<u8, u8> = ClientEvent::Back;
    assert!(matches!(companion_input(e), CompanionInput::Click(UscButton::Back)));
    let e: ClientEvent<u8, u8> = ClientEvent::SetLevelFilter(7);
    assert!(matches!(companion_input(e), CompanionInput::Forward(ClientEvent::SetLevelFilter(7))));
}

// ---------------------------------------------------------------- judging during play

use rusc::play::{judge_passing, process_tick, rating_for_press, ScoreQueue, TickSense};

fn at(y: u32, tick: ScoreTick) -> PlacedScoreTick {
    PlacedScoreTick { y, tick }
}

const NO_SENSE: TickSense = TickSense { held: false, on_laser: false, slam_in_window: false };

#[test]
fn passing_ticks_are_judged() {
    let hold = at(10, ScoreTick::Hold { lane: 0, start_tick: 0 });
    let held = TickSense { held: true, ..NO_SENSE };
    assert!(matches!(process_tick(hold, 0, 0, AutoPlay::Off, held), HitRating::Crit { .. }));
    assert!(matches!(process_tick(hold, 0, 0, AutoPlay::Off, NO_SENSE), HitRating::Miss { .. }));
    assert!(matches!(process_tick(hold, 0, 0, AutoPlay::Buttons, NO_SENSE), HitRating::Crit { .. }));

    let laser = at(10, ScoreTick::Laser { lane: 1 });
    assert!(matches!(process_tick(laser, 0, 0, AutoPlay::Buttons, NO_SENSE), HitRating::Miss { .. }));
    assert!(matches!(process_tick(laser, 0, 0, AutoPlay::Lasers, NO_SENSE), HitRating::Crit { .. }));

    let chip = at(10, ScoreTick::Chip { lane: 2 });
    assert!(matches!(process_tick(chip, 11, 0, AutoPlay::All, NO_SENSE), HitRating::Miss { .. }));
    assert!(matches!(process_tick(chip, 10, 0, AutoPlay::Off, NO_SENSE), HitRating::NoRating));
    assert!(matches!(process_tick(chip, 10, 0, AutoPlay::All, NO_SENSE), HitRating::Crit { .. }));

    let slam = at(10, ScoreTick::Slam { lane: 0 });
    let in_window = TickSense { slam_in_window: true, ..NO_SENSE };
    assert!(matches!(process_tick(slam, 0, 11, AutoPlay::Off, in_window), HitRating::Miss { .. }));
    assert!(matches!(process_tick(slam, 0, 10, AutoPlay::Off, in_window), HitRating::Crit { .. }));
    assert!(matches!(process_tick(slam, 0, 10, AutoPlay::Off, NO_SENSE), HitRating::NoRating));
}

#[test]
fn press_ratings_follow_window() {
    let chip = at(10, ScoreTick::Chip { lane: 2 });
    assert!(matches!(rating_for_press(chip, Judgement::Crit), HitRating::Crit { .. }));
    assert!(matches!(rating_for_press(chip, Judgement::Good), HitRating::Good { .. }));
    assert!(matches!(rating_for_press(chip, Judgement::Miss), HitRating::Miss { .. }));
    assert!(matches!(rating_for_press(chip, Judgement::Ignored), HitRating::NoRating));
}

#[test]
fn score_queue_judges_and_counts() {
    let ticks = vec![
        at(0, ScoreTick::Chip { lane: 0 }),
        at(5, ScoreTick::Chip { lane: 1 }),
        at(9, ScoreTick::Chip { lane: 0 }),
    ];
    let mut q = ScoreQueue::new(ticks);
    assert!(!q.judge_at(1, HitRating::NoRating));
    assert_eq!(q.ticks().len(), 3);
    let t = q.ticks()[1];
    assert!(q.judge_at(1, HitRating::Good { tick: t }));
    assert_eq!(q.ticks().len(), 2);
    assert_eq!(q.ticks()[1].y, 9);
    let s = q.score();
    assert_eq!(s.real_score, 1);
    assert_eq!(s.score_current_max, 2);
    assert_eq!(s.combo, 1);
    let t = q.ticks()[0];
    assert!(q.judge_at(0, HitRating::Miss { tick: t }));
    assert_eq!(q.score().combo, 0);
    assert_eq!(q.score().max_combo, 1);
    assert_eq!(q.score().score_current_max, 4);
}

#[test]
fn presses_go_to_first_chip_of_lane() {
    let ticks = vec![
        at(0, ScoreTick::Laser { lane: 0 }),
        at(2, ScoreTick::Chip { lane: 1 }),
        at(4, ScoreTick::Chip { lane: 0 }),
        at(6, ScoreTick::Chip { lane: 0 }),
        at(8, ScoreTick::Hold { lane: 2, start_tick: 8 }),
        at(12, ScoreTick::Chip { lane: 3 }),
    ];
    let q = ScoreQueue::new(ticks);
    assert_eq!(q.hittable(10, 0), Some(2));
    assert_eq!(q.hittable(10, 1), Some(1));
    assert_eq!(q.hittable(4, 0), None);
    assert_eq!(q.hittable(10, 2), None);
    assert_eq!(q.hittable(10, 3), None);
    assert_eq!(q.hittable(13, 3), Some(5));
}

// ---------------------------------------------------------------- input

use rusc::buttons::{FilterAction, GamepadAxis, PadEventKind, RuscFilter};
use rusc::input::{ElementState, InputState, LaserSideAxis, LaserState};
use rusc::main_menu::{menu_action, MenuAction};

#[test]
fn held_buttons_follow_presses_and_releases() {
    let mut input: InputState<u64> = InputState::new();
    let a = UscButton::BT(BtLane::A);
    let b = UscButton::FX(Side::Left);
    assert_eq!(input.is_button_held(a), None);
    input.press(a, 10);
    input.update(b, ElementState::Pressed, 20);
    assert_eq!(input.is_button_held(a), Some(10));
    assert_eq!(input.is_button_held(b), Some(20));
    input.press(a, 30);
    assert_eq!(input.is_button_held(a), Some(30));
    input.release(a);
    assert_eq!(input.is_button_held(a), None);
    assert_eq!(input.is_button_held(b), Some(20));
    input.update(b, ElementState::Released, 40);
    assert_eq!(input.is_button_held(b), None);
    input.release(b);
    assert_eq!(input.is_button_held(b), None);
}

#[test]
fn key_repeat_is_dropped() {
    let mut input: InputState<u64> = InputState::new();
    let start = UscButton::Start;
    assert!(input.forwards_key_event(start, ElementState::Pressed));
    input.press(start, 1);
    assert!(!input.forwards_key_event(start, ElementState::Pressed));
    assert!(input.forwards_key_event(start, ElementState::Released));
    assert!(!input.text_input_active());
    input.set_text_input_active(true);
    assert!(input.text_input_active());
    assert_eq!(input.is_button_held(start), Some(1));
}

#[test]
fn default_controller_mapping() {
    let f = RuscFilter::new();
    assert_eq!(f.map_button(0), Some(GamepadButton::Start));
    assert_eq!(f.map_button(1), Some(GamepadButton::South));
    assert_eq!(f.map_button(6), Some(GamepadButton::RightTrigger));
    assert_eq!(f.map_button(7), None);
    for b in [UscButton::BT(BtLane::C), UscButton::FX(Side::Left), UscButton::Start] {
        let g = f.map_button(b.to_gilrs_code_u32()).unwrap();
        assert_eq!(UscButton::from(g), b);
    }
}

#[test]
fn menu_actions() {
    assert_eq!(menu_action(MainMenuButton::Start), MenuAction::Transition);
    assert_eq!(menu_action(MainMenuButton::Multiplayer), MenuAction::Transition);
    assert_eq!(menu_action(MainMenuButton::Exit), MenuAction::CloseAll);
    assert_eq!(menu_action(MainMenuButton::Options), MenuAction::OpenSettings);
    assert_eq!(menu_action(MainMenuButton::Downloads), MenuAction::Nothing);
    assert_eq!(menu_action(MainMenuButton::Challenges), MenuAction::Nothing);
}

// ---------------------------------------------------------------- editor tools

use rusc::tools::{
    add_note, bt_lane_index, sort_lane, BpmTool, ButtonInterval, CursorToolState, Interval, NoteAdd,
    RangeSelect, TimeSigChange, TimeSigEdit, TimeSigEditError, TimeSigTool, TimeSignature,
};

#[test]
fn range_select_spans_drag_either_way() {
    let mut r = RangeSelect::default();
    assert_eq!(r.start_tick, u32::MAX);
    r.update(50);
    assert_eq!(r.selected, Interval { y: 0, l: 0 });
    r.drag_start(100);
    r.update(40);
    assert_eq!(r.selected, Interval { y: 40, l: 60 });
    r.update(130);
    assert_eq!(r.selected, Interval { y: 100, l: 30 });
    r.drag_end(70);
    assert_eq!(r.selected, Interval { y: 70, l: 30 });
    assert_eq!(r.start_tick, u32::MAX);
    assert_eq!(r.selected_range(), (70, 100));
}

#[test]
fn note_tool_draws_notes() {
    assert_eq!(bt_lane_index(0), 0);
    assert_eq!(bt_lane_index(3), 2);
    assert_eq!(bt_lane_index(9), 3);
    let mut t = ButtonInterval::new(false);
    assert_eq!(t.drag_end(10), None);
    t.update(20, 1);
    assert_eq!(t.interval, Interval { y: 20, l: 0 });
    t.drag_start(20, 1);
    t.update(26, 3);
    assert_eq!(t.interval, Interval { y: 20, l: 6 });
    assert_eq!(t.lane, 1);
    assert_eq!(
        t.drag_end(30),
        Some(NoteAdd { fx: false, lane: 1, interval: Interval { y: 20, l: 10 } })
    );
    assert_eq!(t, ButtonInterval::new(false));
    let mut f = ButtonInterval::new(true);
    f.drag_start(40, 1);
    assert_eq!(
        f.drag_end(35),
        Some(NoteAdd { fx: true, lane: 1, interval: Interval { y: 40, l: 0 } })
    );
}

#[test]
fn notes_are_added_in_start_order() {
    let n = |y: u32, l: u32| Interval { y, l };
    let mut lane = vec![n(0, 0), n(10, 4), n(20, 0)];
    add_note(&mut lane, n(10, 0));
    assert_eq!(lane, vec![n(0, 0), n(10, 4), n(10, 0), n(20, 0)]);
    add_note(&mut lane, n(5, 1));
    assert_eq!(lane, vec![n(0, 0), n(5, 1), n(10, 4), n(10, 0), n(20, 0)]);
    let mut messy = vec![n(9, 1), n(3, 0), n(9, 0), n(1, 2)];
    sort_lane(&mut messy);
    assert_eq!(messy, vec![n(1, 2), n(3, 0), n(9, 1), n(9, 0)]);
    let mut empty: Vec<Interval> = Vec::new();
    add_note(&mut empty, n(7, 7));
    assert_eq!(empty, vec![n(7, 7)]);
}

#[test]
fn tempo_tool_clicks() {
    let ticks = vec![0u32, 480, 960];
    let mut t = BpmTool::new();
    t.update(100);
    assert_eq!(t.cursor_tick, 100);
    t.primary_click(480, &ticks);
    assert_eq!(t.state, CursorToolState::Edit(1));
    t.update(200);
    assert_eq!(t.cursor_tick, 100);
    t.primary_click(0, &ticks);
    assert_eq!(t.state, CursorToolState::Edit(1));
    assert_eq!(t.finish(), CursorToolState::Edit(1));
    t.primary_click(500, &ticks);
    assert_eq!(t.state, CursorToolState::Add(500));
    assert_eq!(t.middle_click(960, &ticks), Some(2));
    assert_eq!(t.middle_click(961, &ticks), None);
}

#[test]
fn time_signature_tool_edits() {
    let c = |measure: u32, a: u32, b: u32| TimeSigChange { measure, sig: TimeSignature(a, b) };
    let mut changes = vec![c(0, 4, 4), c(8, 3, 4)];
    let mut t = TimeSigTool::new();
    t.primary_click(8, &changes);
    assert_eq!(t.state, CursorToolState::Edit(1));
    assert_eq!(t.ts, TimeSignature(3, 4));
    let e = t.confirm(TimeSignature(6, 8)).unwrap();
    assert_eq!(e, TimeSigEdit::Edit { index: 1, sig: TimeSignature(6, 8) });
    assert_eq!(e.apply(&mut changes), Ok(()));
    assert_eq!(changes, vec![c(0, 4, 4), c(8, 6, 8)]);

    t.primary_click(4, &changes);
    assert_eq!(t.state, CursorToolState::Add(4));
    assert_eq!(t.ts, TimeSignature(4, 4));
    let e = t.confirm(TimeSignature(7, 8)).unwrap();
    assert_eq!(e.apply(&mut changes), Ok(()));
    assert_eq!(changes, vec![c(0, 4, 4), c(4, 7, 8), c(8, 6, 8)]);

    let missing = TimeSigEdit::Edit { index: 9, sig: TimeSignature(2, 4) };
    assert_eq!(missing.apply(&mut changes), Err(TimeSigEditError::MissingChange));
    assert_eq!(changes.len(), 3);

    let r = t.middle_click(4, &changes).unwrap();
    assert_eq!(r, TimeSigEdit::Remove { index: 1 });
    assert_eq!(r.apply(&mut changes), Ok(()));
    assert_eq!(changes, vec![c(0, 4, 4), c(8, 6, 8)]);
    assert_eq!(t.middle_click(5, &changes), None);
    t.primary_click(0, &changes);
    t.cancel();
    assert_eq!(t.state, CursorToolState::Idle);
    assert_eq!(t.confirm(TimeSignature(1, 1)), None);
}

#[test]
fn http_callbacks_are_handed_out_once() {
    let mut http: LuaHttp<&str> = LuaHttp::new();
    let a = http.register("first");
    let b = http.register("second");
    assert_eq!((a, b), (0, 1));
    assert_eq!(http.take_callback(1), Some("second"));
    assert_eq!(http.take_callback(1), None);
    assert_eq!(http.take_callback(0), Some("first"));
    assert_eq!(http.take_callback(7), None);
    assert_eq!(http.register("third"), 2);
}

fn cam(tick: u32, direction: i32, length: u32) -> CamPatternInvoke<()> {
    CamPatternInvoke { tick, direction, length, pattern: () }
}

#[test]
fn slams_set_off_camera_patterns_once() {
    let mut events = vec![cam(10, 1, 5), cam(20, -1, 5)];
    assert_eq!(take_slam_event(&mut events, 20, 1), None);
    assert_eq!(events.len(), 2);
    assert_eq!(take_slam_event(&mut events, 20, -1), Some(cam(20, -1, 5)));
    assert_eq!(events, vec![cam(10, 1, 5)]);
    assert_eq!(take_slam_event(&mut events, 20, -1), None);

    let mut all: SlamEvents<(), ()> = SlamEvents {
        half_spin: vec![cam(30, 1, 4)],
        spin: vec![cam(30, 1, 8)],
        swing: vec![cam(30, -1, 2)],
    };
    let spins = all.on_slam(30, 1);
    assert_eq!(spins, vec![CameraSpin::Half(cam(30, 1, 4)), CameraSpin::Full(cam(30, 1, 8))]);
    assert!(all.half_spin.is_empty() && all.spin.is_empty());
    assert_eq!(all.swing.len(), 1);
}

#[test]
fn finished_spins_are_dropped() {
    let mut spins: Vec<CameraSpin<(), ()>> = vec![
        CameraSpin::Full(cam(0, 1, 10)),
        CameraSpin::Swing(cam(5, 1, 2)),
        CameraSpin::Half(cam(8, -1, 4)),
    ];
    assert!(spins[1].active_at(7));
    assert!(!spins[1].active_at(8));
    check_spins(&mut spins, 9);
    assert_eq!(spins, vec![CameraSpin::Full(cam(0, 1, 10)), CameraSpin::Half(cam(8, -1, 4))]);
    check_spins(&mut spins, 11);
    assert_eq!(spins, vec![CameraSpin::Half(cam(8, -1, 4))]);
}

#[test]
fn frame_durations() {
    assert_eq!(get_frame_duration(0), 1);
    assert_eq!(get_frame_duration(10), 33_333_333);
    assert_eq!(get_frame_duration(300), 3_333_333);
    assert_eq!(get_frame_duration(u32::MAX), 0);
}

const WORD_CONDITION: &str = " (artist LIKE ?\n\t\t\t\t\t OR title LIKE ?\n\t\t\t\t\t OR path LIKE ?\n\t\t\t\t\t OR effector LIKE ?\n\t\t\t\t\t OR artist_translit LIKE ?\n\t\t\t\t\t OR title_translit LIKE ?)";

#[test]
fn folder_search_queries() {
    let (sql, binds) = get_folder_ids_query("");
    assert_eq!(sql, "SELECT DISTINCT folderId FROM Charts");
    assert!(binds.is_empty());

    let (sql, binds) = get_folder_ids_query("camellia");
    assert_eq!(sql, format!("SELECT DISTINCT folderId FROM Charts WHERE{WORD_CONDITION}"));
    assert_eq!(binds, vec!["%camellia%".to_string(); 6]);

    let (sql, binds) = get_folder_ids_query("a  b");
    assert_eq!(
        sql,
        format!(
            "SELECT DISTINCT folderId FROM Charts WHERE{WORD_CONDITION} AND{WORD_CONDITION} AND{WORD_CONDITION}"
        )
    );
    assert_eq!(binds.len(), 18);
    assert_eq!(binds[0], "%a%");
    assert_eq!(binds[6], "%%");
    assert_eq!(binds[17], "%b%");

    let (_, binds) = get_folder_ids_query("x ");
    assert_eq!(binds.len(), 12);
    assert_eq!(binds[11], "%%");
}

#[test]
fn default_editor_shortcuts() {
    let b = KeyBindings::new(false);
    let ctrl = Modifiers::new().ctrl(false);
    assert!(matches!(b.get(KeyCombo::new(Key::S, ctrl)), Some(GuiEvent::Save)));
    assert!(matches!(b.get(KeyCombo::new(Key::S, ctrl.shift())), Some(GuiEvent::SaveAs)));
    assert!(matches!(b.get(KeyCombo::new(Key::Z, ctrl)), Some(GuiEvent::Undo)));
    assert!(matches!(
        b.get(KeyCombo::new(Key::Num3, Modifiers::new())),
        Some(GuiEvent::ToolChanged(ChartTool::LLaser))
    ));
    assert!(matches!(b.get(KeyCombo::new(Key::PageUp, Modifiers::new())), Some(GuiEvent::Previous)));
    assert!(b.get(KeyCombo::new(Key::S, Modifiers::new())).is_none());
    assert!(b.get(KeyCombo::new(Key::Other(3), ctrl)).is_none());
}

#[test]
fn controller_events_are_filtered() {
    let f = RuscFilter::new();
    assert_eq!(f.filter(true, PadEventKind::ButtonPressed, 99), FilterAction::Pass);
    assert_eq!(
        f.filter(false, PadEventKind::ButtonPressed, 2),
        FilterAction::Button(GamepadButton::East)
    );
    assert_eq!(
        f.filter(false, PadEventKind::ButtonReleased, 5),
        FilterAction::Button(GamepadButton::LeftTrigger)
    );
    assert_eq!(f.filter(false, PadEventKind::ButtonChanged, 9), FilterAction::Drop);
    assert_eq!(
        f.filter(false, PadEventKind::AxisChanged, 1 << 16),
        FilterAction::Axis(GamepadAxis::LeftStickX, false)
    );
    assert_eq!(
        f.filter(false, PadEventKind::AxisChanged, 1 << 16 | 1),
        FilterAction::Axis(GamepadAxis::RightStickX, true)
    );
    assert_eq!(f.filter(false, PadEventKind::AxisChanged, 0), FilterAction::Drop);
    assert_eq!(f.filter(false, PadEventKind::Connected, 0), FilterAction::Pass);
    assert_eq!(f.map_axis(3), None);
}

#[test]
fn knob_readings_by_side() {
    let l = LaserState(3i32, -4i32);
    assert_eq!(l.get_axis(Side::Left), 3);
    assert_eq!(l.get_axis(Side::Right), -4);
    assert_eq!(l.get(Side::Right), LaserSideAxis::Right(-4));
    assert_eq!(l.get(Side::Left).axis(), 3);
}

#[test]
fn modifiers_display_on_macos() {
    assert!(!Modifiers::new().ctrl(true).command);
    assert_eq!(Modifiers::new().ctrl(true).to_display_string(true), "ctrl");
    assert_eq!(Modifiers::new().ctrl(false).to_display_string(true), "ctrl + cmd");
    assert_eq!(
        Modifiers::new().alt().shift().command().to_display_string(true),
        "opt + shift + cmd"
    );
    assert_eq!(Modifiers::new().command().to_display_string(false), "");
}

#[test]
fn editor_shortcuts_rebind() {
    let mut b = KeyBindings::new(true);
    let ctrl = Modifiers::new().ctrl(true);
    assert!(matches!(b.get(KeyCombo::new(Key::S, ctrl)), Some(GuiEvent::Save)));
    assert!(b.get(KeyCombo::new(Key::S, Modifiers::new().ctrl(false))).is_none());
    b.insert(KeyCombo::new(Key::S, ctrl), GuiEvent::Play);
    assert!(matches!(b.get(KeyCombo::new(Key::S, ctrl)), Some(GuiEvent::Play)));
    b.insert(KeyCombo::new(Key::Other(5), Modifiers::new()), GuiEvent::Undo);
    assert!(matches!(b.get(KeyCombo::new(Key::Other(5), Modifiers::new())), Some(GuiEvent::Undo)));
    assert!(matches!(b.get(KeyCombo::new(Key::Z, ctrl)), Some(GuiEvent::Undo)));
}

#[test]
fn passing_points_are_judged_in_order() {
    let ticks = vec![
        at(0, ScoreTick::Chip { lane: 0 }),
        at(2, ScoreTick::Hold { lane: 1, start_tick: 0 }),
        at(4, ScoreTick::Chip { lane: 2 }),
        at(9, ScoreTick::Laser { lane: 0 }),
    ];
    let mut q = ScoreQueue::new(ticks);
    let held = TickSense { held: true, ..NO_SENSE };
    let r = judge_passing(&mut q, 5, 1, AutoPlay::Off, &vec![NO_SENSE, held, NO_SENSE]);
    assert_eq!(r.len(), 2);
    assert!(matches!(r[0], HitRating::Miss { .. }));
    assert!(matches!(r[1], HitRating::Crit { .. }));
    assert_eq!(q.ticks().len(), 2);
    assert_eq!(q.ticks()[0].y, 4);
    assert_eq!(q.hit_ratings().len(), 2);
    assert_eq!(q.score().real_score, 2);
    assert_eq!(q.score().score_current_max, 4);
    assert_eq!(q.score().combo, 1);
}

#[test]
fn presses_are_judged_by_distance() {
    let ticks = vec![at(0, ScoreTick::Chip { lane: 0 }), at(10, ScoreTick::Chip { lane: 1 })];
    let mut q = ScoreQueue::new(ticks);
    let w = HitWindow::normal();
    let r = q.get_hit_rating(20, 1, &w, |y: u32| if y == 10 { 60_000_000 } else { 0 });
    assert!(matches!(r, HitRating::Good { .. }));
    assert_eq!(q.ticks().len(), 1);
    let r = q.get_hit_rating(20, 0, &w, |_y: u32| 300_000_000);
    assert!(matches!(r, HitRating::NoRating));
    assert_eq!(q.ticks().len(), 1);
    let r = q.get_hit_rating(20, 3, &w, |_y: u32| 0);
    assert!(matches!(r, HitRating::NoRating));
    assert_eq!(q.hit_ratings().len(), 1);
}

fn sample_keys() -> Keybinds {
    Keybinds {
        bt_a: 1,
        bt_b: 2,
        bt_c: 3,
        bt_d: 4,
        fx_l: 5,
        fx_r: 6,
        start: 7,
        back: 8,
        refresh: 9,
        laser_l: (10, 11),
        laser_r: (12, 13),
        reload_scripts: 14,
    }
}

#[test]
fn keyboard_bindings_round_trip() {
    let mut k = sample_keys();
    let all = [
        BoundInput::Button(UscButton::BT(BtLane::A)),
        BoundInput::Button(UscButton::FX(Side::Right)),
        BoundInput::Button(UscButton::Back),
        BoundInput::Refresh,
        BoundInput::Laser(Side::Right, Side::Left),
    ];
    for b in all {
        assert_eq!(k.match_button(k.get(b).unwrap()), Some(b));
    }
    assert_eq!(k.get(BoundInput::Laser(Side::Left, Side::Right)), Some(11));
    assert_eq!(k.get(BoundInput::Button(UscButton::Other(GamepadButton::Mode))), None);
    assert_eq!(k.match_button(14), None);
    assert!(k.is_reload_script(14));
    k.set(BoundInput::Button(UscButton::Start), 42);
    assert_eq!(k.get(BoundInput::Button(UscButton::Start)), Some(42));
    assert_eq!(k.match_button(42), Some(BoundInput::Button(UscButton::Start)));
    assert_eq!(k.match_button(7), None);
    k.set(BoundInput::Button(UscButton::Other(GamepadButton::Mode)), 50);
    assert_eq!(k.match_button(50), None);
    // A key bound twice goes to the earlier input in the checking order.
    k.set(BoundInput::Refresh, 1);
    assert_eq!(k.match_button(1), Some(BoundInput::Button(UscButton::BT(BtLane::A))));
}

// ---------------------------------------------------------------- editor events

#[test]
fn editor_key_presses_open_dialogs_or_queue_events() {
    let b = KeyBindings::new(false);
    let ctrl = Modifiers::new().ctrl(false);
    let z = KeyCombo::new(Key::Z, ctrl);
    assert!(matches!(b.key_outcome(z, true, false, false), KeyOutcome::Queue(GuiEvent::Undo)));
    assert!(matches!(b.key_outcome(z, false, false, false), KeyOutcome::Ignored));
    assert!(matches!(b.key_outcome(z, true, true, false), KeyOutcome::Ignored));
    let n = KeyCombo::new(Key::N, ctrl);
    assert!(matches!(b.key_outcome(n, true, false, false), KeyOutcome::OpenNewChartDialog));
    assert!(matches!(b.key_outcome(n, true, false, true), KeyOutcome::Ignored));
    let p = KeyCombo::new(Key::P, ctrl);
    assert!(matches!(b.key_outcome(p, true, false, false), KeyOutcome::ShowPreferences));
    let t = KeyCombo::new(Key::T, ctrl);
    assert!(matches!(b.key_outcome(t, true, false, false), KeyOutcome::EditMetadata));
    let m = KeyCombo::new(Key::M, ctrl);
    assert!(matches!(b.key_outcome(m, true, false, false), KeyOutcome::EditMusicInfo));
    let one = KeyCombo::new(Key::Num1, Modifiers::new());
    assert!(matches!(
        b.key_outcome(one, true, false, false),
        KeyOutcome::Queue(GuiEvent::ToolChanged(ChartTool::BT))
    ));
    let unbound = KeyCombo::new(Key::Other(3), ctrl);
    assert!(matches!(b.key_outcome(unbound, true, false, false), KeyOutcome::Ignored));
}

#[test]
fn editor_events_drive_history_and_tools() {
    let mut tool = ChartTool::NoTool;
    let mut stack: ActionStack<Vec<i32>, Edit> = ActionStack::new(vec![]);
    stack.new_action("a".to_string(), push_edit(1));
    stack.new_action("b".to_string(), push_edit(2));
    assert!(matches!(handle_event(&mut tool, &mut stack, GuiEvent::Undo), EditorCommand::Nothing));
    assert_eq!(stack.get_current().unwrap(), vec![1]);
    assert_eq!(stack.next_action_desc(), Some("b".to_string()));
    assert!(matches!(handle_event(&mut tool, &mut stack, GuiEvent::Redo), EditorCommand::Nothing));
    assert_eq!(stack.get_current().unwrap(), vec![1, 2]);
    assert!(matches!(
        handle_event(&mut tool, &mut stack, GuiEvent::ToolChanged(ChartTool::FX)),
        EditorCommand::SetTool(ChartTool::FX)
    ));
    assert_eq!(tool, ChartTool::FX);
    assert!(matches!(
        handle_event(&mut tool, &mut stack, GuiEvent::ToolChanged(ChartTool::FX)),
        EditorCommand::Nothing
    ));
    assert!(matches!(handle_event(&mut tool, &mut stack, GuiEvent::Save), EditorCommand::Save));
    assert!(matches!(handle_event(&mut tool, &mut stack, GuiEvent::Play), EditorCommand::TogglePlayback));
    assert!(matches!(handle_event(&mut tool, &mut stack, GuiEvent::Previous), EditorCommand::PreviousPage));
    assert!(matches!(handle_event(&mut tool, &mut stack, GuiEvent::Preferences), EditorCommand::Nothing));
    let opts = NewChartOptions { audio: "a.ogg".to_string(), filename: "x".to_string(), destination: None };
    match handle_event(&mut tool, &mut stack, GuiEvent::NewChart(opts)) {
        EditorCommand::CreateChart(o) => assert_eq!(o.filename, "x"),
        other => panic!("unexpected {other:?}"),
    }
}

#[test]
fn leaderboard_query_names_mode_and_count() {
    let q = InternetRanking::leaderboard_query("normal".to_string(), 1024);
    assert_eq!(
        q,
        vec![("mode".to_string(), "normal".to_string()), ("n".to_string(), "1024".to_string())]
    );
    let z = InternetRanking::leaderboard_query("hard".to_string(), 0);
    assert_eq!(z[1].1, "0");
    let big = InternetRanking::leaderboard_query("hard".to_string(), u32::MAX);
    assert_eq!(big[1].1, "4294967295");
}
