use swaynoti::compositor::{Compositor, CompositorIpc, HyprlandIpc};
use swaynoti::config::{
    Anchor, AnimationConfig, Config, DndConfig, GeneralConfig, HistoryConfig, IpcConfig, Layer,
    MarginConfig, MonitorConfig, MonitorSelection, PositioningConfig, RuleActions, RuleCriteria,
    SlideDirection, SortOrder, SoundConfig, StackingMode, TimeoutConfig,
};
use swaynoti::layout::{LayoutManager, StackingLayout};
use swaynoti::media::{MediaInfo, PlaybackStatus};

#[test]
fn vertical_stack_moves_down() {
    assert_eq!(StackingLayout::calculate_offset(&StackingMode::Vertical, 0, 100, 8), (0, 0));
    assert_eq!(StackingLayout::calculate_offset(&StackingMode::Vertical, 1, 100, 8), (0, 108));
    assert_eq!(StackingLayout::calculate_offset(&StackingMode::Vertical, 3, 100, 8), (0, 324));
    assert_eq!(StackingLayout::calculate_offset(&StackingMode::Vertical, 2, 50, -10), (0, 80));
}

#[test]
fn horizontal_stack_moves_sideways_by_the_default_width() {
    assert_eq!(StackingLayout::calculate_offset(&StackingMode::Horizontal, 0, 100, 8), (0, 0));
    assert_eq!(StackingLayout::calculate_offset(&StackingMode::Horizontal, 2, 100, 8), (716, 0));
    assert_eq!(StackingLayout::calculate_offset(&StackingMode::Horizontal, 1, 9999, 0), (350, 0));
}

#[test]
fn overlay_stack_stays_in_place() {
    assert_eq!(StackingLayout::calculate_offset(&StackingMode::Overlay, 7, 100, 8), (0, 0));
    assert_eq!(
        StackingLayout::checked_offset(&StackingMode::Overlay, usize::MAX, i32::MAX, i32::MAX),
        Some((0, 0))
    );
}

#[test]
fn checked_offset_refuses_what_does_not_fit() {
    assert_eq!(StackingLayout::checked_offset(&StackingMode::Vertical, 3, 100, 8), Some((0, 324)));
    assert_eq!(StackingLayout::checked_offset(&StackingMode::Vertical, usize::MAX, 100, 8), None);
    assert_eq!(
        StackingLayout::checked_offset(&StackingMode::Vertical, 2, i32::MAX, i32::MAX),
        None
    );
    assert_eq!(
        StackingLayout::checked_offset(&StackingMode::Vertical, 1, i32::MAX, 0),
        Some((0, i32::MAX))
    );
    assert_eq!(
        StackingLayout::checked_offset(&StackingMode::Vertical, usize::MAX, 0, 0),
        Some((0, 0))
    );
    assert_eq!(
        StackingLayout::checked_offset(&StackingMode::Horizontal, 1, 0, i32::MIN),
        Some((350 + i32::MIN, 0))
    );
}

#[test]
fn layout_follows_the_configured_margins() {
    let mut config = Config::default();
    config.positioning.margin = MarginConfig { top: 1, right: 2, bottom: 3, left: 4 };
    let layout = LayoutManager::new(&config);
    assert_eq!(layout.calculate_position(0), (1, 2, 3, 4));
    assert_eq!(layout.calculate_position(9), (1, 2, 3, 4));
    // Anchored at the top right: the top margin grows by 100 + gap per notification.
    assert_eq!(layout.margins_at(8, 0), Some((1, 2, 3, 4)));
    assert_eq!(layout.margins_at(8, 2), Some((217, 2, 3, 4)));
    assert_eq!(layout.margins_at(8, usize::MAX), None);
    config.positioning.anchor = Anchor::BottomLeft;
    let layout = LayoutManager::new(&config);
    assert_eq!(layout.margins_at(8, 2), Some((1, 2, 219, 4)));
    assert_eq!(layout.margins_at(u32::MAX, 1), None);
}

#[test]
fn anchors_bind_their_edges() {
    assert_eq!(LayoutManager::anchor_edges(Anchor::TopLeft), (true, false, true, false));
    assert_eq!(LayoutManager::anchor_edges(Anchor::TopCenter), (true, false, false, false));
    assert_eq!(LayoutManager::anchor_edges(Anchor::TopRight), (true, false, false, true));
    assert_eq!(LayoutManager::anchor_edges(Anchor::BottomLeft), (false, true, true, false));
    assert_eq!(LayoutManager::anchor_edges(Anchor::BottomCenter), (false, true, false, false));
    assert_eq!(LayoutManager::anchor_edges(Anchor::BottomRight), (false, true, false, true));
}

#[test]
fn configuration_defaults() {
    assert_eq!(
        GeneralConfig::default(),
        GeneralConfig {
            max_visible: 5,
            sort_order: SortOrder::NewestFirst,
            markup: true,
            idle_threshold: None
        }
    );
    assert_eq!(
        AnimationConfig::default(),
        AnimationConfig { enabled: true, duration_ms: 200, slide_direction: SlideDirection::Right }
    );
    assert_eq!(MarginConfig::default(), MarginConfig { top: 10, right: 10, bottom: 10, left: 10 });
    assert_eq!(
        TimeoutConfig::default(),
        TimeoutConfig { default: 5000, low: 3000, normal: 5000, critical: 0 }
    );
    let p = PositioningConfig::default();
    assert_eq!(p.anchor, Anchor::TopRight);
    assert_eq!(p.layer, Layer::Overlay);
    assert_eq!(p.stacking, StackingMode::Vertical);
    let m = MonitorConfig::default();
    assert_eq!(m.selection, MonitorSelection::Focused);
    assert!(m.name.is_none());
    let h = HistoryConfig::default();
    assert!(h.enabled);
    assert_eq!(h.max_entries, 100);
    assert!(h.database_path.is_none());
    let d = DndConfig::default();
    assert!(d.schedule_start.is_none() && d.schedule_end.is_none());
    assert!(d.schedule_days.is_empty());
    assert!(!SoundConfig::default().enabled);
    assert!(IpcConfig::default().socket_path.is_none());
    assert!(RuleCriteria::default().app_name.is_none());
    assert!(RuleActions::default().timeout.is_none());
    assert_eq!(Anchor::default(), Anchor::TopRight);
    assert_eq!(Layer::default(), Layer::Overlay);
    assert_eq!(StackingMode::default(), StackingMode::Vertical);
    assert_eq!(SortOrder::default(), SortOrder::NewestFirst);
    assert_eq!(MonitorSelection::default(), MonitorSelection::Focused);
    assert_eq!(SlideDirection::default(), SlideDirection::Right);
    let c = Config::default();
    assert_eq!(c.general.max_visible, 5);
    assert!(c.rules.is_empty());
}

#[test]
fn hyprland_commands_are_spelled_out() {
    assert_eq!(
        HyprlandIpc::socket_path("/run/user/1000", "abc123"),
        "/run/user/1000/hypr/abc123/.socket.sock"
    );
    assert_eq!(
        HyprlandIpc::focus_commands("Firefox"),
        vec![
            "dispatch focuswindow class:Firefox",
            "dispatch focuswindow title:Firefox",
            "dispatch focuswindow class:^firefox$",
            "dispatch focuswindow initialclass:Firefox",
        ]
    );
    assert_eq!(HyprlandIpc::dispatch_command("exec kitty"), "dispatch exec kitty");
    assert_eq!(HyprlandIpc::windows_command(), "j/clients");
    assert_eq!(HyprlandIpc::active_window_command(), "j/activewindow");
}

#[test]
fn hyprland_replies_are_judged_without_their_white_space() {
    assert!(HyprlandIpc::accepted("ok"));
    assert!(HyprlandIpc::accepted("  ok\n"));
    assert!(HyprlandIpc::accepted(""));
    assert!(!HyprlandIpc::accepted(" "));
    assert!(!HyprlandIpc::accepted("Ok"));
    assert!(!HyprlandIpc::accepted("Window not found"));
    assert!(HyprlandIpc::reply_verdict("ok", "anything"));
    assert!(!HyprlandIpc::reply_verdict("no", "no"));
}

#[test]
fn compositor_is_picked_in_order() {
    assert_eq!(CompositorIpc::pick(true, true), Some(Compositor::Hyprland));
    assert_eq!(CompositorIpc::pick(true, false), Some(Compositor::Hyprland));
    assert_eq!(CompositorIpc::pick(false, true), Some(Compositor::Sway));
    assert_eq!(CompositorIpc::pick(false, false), None);
    assert_eq!(CompositorIpc::sway_focus_args("kitty", false), vec!["[app_id=", "kitty]", "focus"]);
    assert_eq!(CompositorIpc::sway_focus_args("kitty", true), vec!["[class=", "kitty]", "focus"]);
}

#[test]
fn playback_status_is_read_from_its_name() {
    assert_eq!(PlaybackStatus::from("Playing"), PlaybackStatus::Playing);
    assert_eq!(PlaybackStatus::from("Paused"), PlaybackStatus::Paused);
    assert_eq!(PlaybackStatus::from("Stopped"), PlaybackStatus::Stopped);
    assert_eq!(PlaybackStatus::from("playing"), PlaybackStatus::Stopped);
    assert_eq!(PlaybackStatus::from(""), PlaybackStatus::Stopped);
    let info = MediaInfo::default();
    assert!(info.title.is_empty() && info.artist.is_empty() && info.album.is_empty());
    assert!(info.art_url.is_none() && info.status.is_none());
    assert_eq!((info.length_us, info.position_us), (0, 0));
    assert!(info.player_name.is_empty());
}
