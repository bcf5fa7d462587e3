//! The configuration snapshot that the engine consumes.

use vstd::prelude::*;
use crate::text::{clone_opt_string, opt_text};

verus! {

/// Where on the screen notifications are anchored.
#[derive(Debug, Clone, Copy, PartialEq, Eq, Structural)]
pub enum Anchor {
    TopLeft,
    TopCenter,
    TopRight,
    BottomLeft,
    BottomCenter,
    BottomRight,
}

impl Default for Anchor {
    fn default() -> (r: Anchor)
        ensures
            r == Anchor::TopRight,
    {
        Anchor::TopRight
    }
}

/// The shell layer that notification surfaces are placed on.
#[derive(Debug, Clone, Copy, PartialEq, Eq, Structural)]
pub enum Layer {
    Background,
    Bottom,
    Top,
    Overlay,
}

impl Default for Layer {
    fn default() -> (r: Layer)
        ensures
            r == Layer::Overlay,
    {
        Layer::Overlay
    }
}

/// How several notifications are laid out beside each other.
#[derive(Debug, Clone, Copy, PartialEq, Eq, Structural)]
pub enum StackingMode {
    Vertical,
    Horizontal,
    Overlay,
}

impl Default for StackingMode {
    fn default() -> (r: StackingMode)
        ensures
            r == StackingMode::Vertical,
    {
        StackingMode::Vertical
    }
}

/// The policy that orders the active notifications.
#[derive(Debug, Clone, Copy, PartialEq, Eq, Structural)]
pub enum SortOrder {
    NewestFirst,
    OldestFirst,
    UrgencyDescending,
}

impl Default for SortOrder {
    fn default() -> (r: SortOrder)
        ensures
            r == SortOrder::NewestFirst,
    {
        SortOrder::NewestFirst
    }
}

/// Which monitor shows the notifications.
#[derive(Debug, Clone, Copy, PartialEq, Eq, Structural)]
pub enum MonitorSelection {
    Primary,
    Focused,
    All,
    Named,
}

impl Default for MonitorSelection {
    fn default() -> (r: MonitorSelection)
        ensures
            r == MonitorSelection::Focused,
    {
        MonitorSelection::Focused
    }
}

/// The direction from which a notification slides in.
#[derive(Debug, Clone, Copy, PartialEq, Eq, Structural)]
pub enum SlideDirection {
    Right,
    Left,
    Up,
    Down,
}

impl Default for SlideDirection {
    fn default() -> (r: SlideDirection)
        ensures
            r == SlideDirection::Right,
    {
        SlideDirection::Right
    }
}

/// A day of the week of the Do-Not-Disturb schedule.
#[derive(Debug, Clone, Copy, PartialEq, Eq, Structural)]
pub enum Weekday {
    Monday,
    Tuesday,
    Wednesday,
    Thursday,
    Friday,
    Saturday,
    Sunday,
}

/// General behaviour of the daemon.
#[derive(Debug, Clone, Copy, PartialEq, Eq, Structural)]
pub struct GeneralConfig {
    /// How many notifications are shown at once.
    pub max_visible: u32,
    pub sort_order: SortOrder,
    /// Whether markup in a body is interpreted.
    pub markup: bool,
    /// Seconds of idleness after which timeouts pause.
    pub idle_threshold: Option<u64>,
}

impl Default for GeneralConfig {
    fn default() -> (r: GeneralConfig)
        ensures
            r == (GeneralConfig {
                max_visible: 5,
                sort_order: SortOrder::NewestFirst,
                markup: true,
                idle_threshold: None,
            }),
    {
        GeneralConfig {
            max_visible: 5,
            sort_order: SortOrder::NewestFirst,
            markup: true,
            idle_threshold: None,
        }
    }
}

/// How notifications appear and disappear.
#[derive(Debug, Clone, Copy, PartialEq, Eq, Structural)]
pub struct AnimationConfig {
    pub enabled: bool,
    pub duration_ms: u32,
    pub slide_direction: SlideDirection,
}

impl Default for AnimationConfig {
    fn default() -> (r: AnimationConfig)
        ensures
            r == (AnimationConfig {
                enabled: true,
                duration_ms: 200,
                slide_direction: SlideDirection::Right,
            }),
    {
        AnimationConfig { enabled: true, duration_ms: 200, slide_direction: SlideDirection::Right }
    }
}

/// Distances from the screen edges, in pixels.
#[derive(Debug, Clone, Copy, PartialEq, Eq, Structural)]
pub struct MarginConfig {
    pub top: i32,
    pub right: i32,
    pub bottom: i32,
    pub left: i32,
}

impl Default for MarginConfig {
    fn default() -> (r: MarginConfig)
        ensures
            r == (MarginConfig { top: 10, right: 10, bottom: 10, left: 10 }),
    {
        MarginConfig { top: 10, right: 10, bottom: 10, left: 10 }
    }
}

/// The monitor that notifications are shown on.
#[derive(Debug)]
pub struct MonitorConfig {
    pub selection: MonitorSelection,
    /// The monitor's name, where the selection is by name.
    pub name: Option<String>,
}

impl Default for MonitorConfig {
    fn default() -> (r: MonitorConfig)
        ensures
            r.selection == MonitorSelection::Focused,
            r.name is None,
    {
        MonitorConfig { selection: MonitorSelection::Focused, name: None }
    }
}

/// Where notifications are placed.
#[derive(Debug)]
pub struct PositioningConfig {
    pub anchor: Anchor,
    pub layer: Layer,
    pub stacking: StackingMode,
    pub margin: MarginConfig,
    pub monitor: MonitorConfig,
}

impl Default for PositioningConfig {
    fn default() -> (r: PositioningConfig)
        ensures
            r.anchor == Anchor::TopRight,
            r.layer == Layer::Overlay,
            r.stacking == StackingMode::Vertical,
            r.margin == (MarginConfig { top: 10, right: 10, bottom: 10, left: 10 }),
            r.monitor.selection == MonitorSelection::Focused,
            r.monitor.name is None,
    {
        PositioningConfig {
            anchor: Anchor::TopRight,
            layer: Layer::Overlay,
            stacking: StackingMode::Vertical,
            margin: MarginConfig::default(),
            monitor: MonitorConfig::default(),
        }
    }
}

/// Default timeouts in milliseconds, by urgency. Zero means never.
#[derive(Debug, Clone, Copy, PartialEq, Eq, Structural)]
pub struct TimeoutConfig {
    pub default: i32,
    pub low: i32,
    pub normal: i32,
    pub critical: i32,
}

impl Default for TimeoutConfig {
    fn default() -> (r: TimeoutConfig)
        ensures
            r == (TimeoutConfig { default: 5000, low: 3000, normal: 5000, critical: 0 }),
    {
        TimeoutConfig { default: 5000, low: 3000, normal: 5000, critical: 0 }
    }
}

/// Settings of the notification history.
#[derive(Debug)]
pub struct HistoryConfig {
    pub enabled: bool,
    /// How many records the history keeps.
    pub max_entries: u32,
    /// Where the history is stored, if not at the default place.
    pub database_path: Option<String>,
}

impl Default for HistoryConfig {
    fn default() -> (r: HistoryConfig)
        ensures
            r.enabled,
            r.max_entries == 100,
            r.database_path is None,
    {
        HistoryConfig { enabled: true, max_entries: 100, database_path: None }
    }
}

/// The Do-Not-Disturb schedule.
#[derive(Debug)]
pub struct DndConfig {
    /// Start of the quiet period, as `HH:MM`.
    pub schedule_start: Option<String>,
    /// End of the quiet period, as `HH:MM`.
    pub schedule_end: Option<String>,
    /// The days on which the schedule applies; none means every day.
    pub schedule_days: Vec<Weekday>,
}

impl Default for DndConfig {
    fn default() -> (r: DndConfig)
        ensures
            r.schedule_start is None,
            r.schedule_end is None,
            r.schedule_days@ == Seq::<Weekday>::empty(),
    {
        DndConfig { schedule_start: None, schedule_end: None, schedule_days: Vec::new() }
    }
}

/// Settings of notification sounds.
#[derive(Debug)]
pub struct SoundConfig {
    pub enabled: bool,
    pub default_sound: Option<String>,
}

impl Default for SoundConfig {
    fn default() -> (r: SoundConfig)
        ensures
            !r.enabled,
            r.default_sound is None,
    {
        SoundConfig { enabled: false, default_sound: None }
    }
}

/// Settings of the control socket.
#[derive(Debug)]
pub struct IpcConfig {
    /// Where the socket is bound, if not at the default place.
    pub socket_path: Option<String>,
}

impl Default for IpcConfig {
    fn default() -> (r: IpcConfig)
        ensures
            r.socket_path is None,
    {
        IpcConfig { socket_path: None }
    }
}

/// What a notification must look like for a rule to apply. A criterion
/// that is absent is met by every notification.
#[derive(Debug)]
pub struct RuleCriteria {
    pub app_name: Option<String>,
    pub summary: Option<String>,
    pub body: Option<String>,
    pub urgency: Option<String>,
    pub category: Option<String>,
}

/// What a `RuleCriteria` holds.
pub struct RuleCriteriaView {
    pub app_name: Option<Seq<char>>,
    pub summary: Option<Seq<char>>,
    pub body: Option<Seq<char>>,
    pub urgency: Option<Seq<char>>,
    pub category: Option<Seq<char>>,
}

impl View for RuleCriteria {
    type V = RuleCriteriaView;

    open spec fn view(&self) -> RuleCriteriaView {
        RuleCriteriaView {
            app_name: opt_text(self.app_name),
            summary: opt_text(self.summary),
            body: opt_text(self.body),
            urgency: opt_text(self.urgency),
            category: opt_text(self.category),
        }
    }
}

impl Default for RuleCriteria {
    fn default() -> (r: RuleCriteria)
        ensures
            r@ == (RuleCriteriaView {
                app_name: None,
                summary: None,
                body: None,
                urgency: None,
                category: None,
            }),
    {
        RuleCriteria { app_name: None, summary: None, body: None, urgency: None, category: None }
    }
}

impl Clone for RuleCriteria {
    fn clone(&self) -> (r: RuleCriteria)
        ensures
            r@ == self@,
    {
        RuleCriteria {
            app_name: clone_opt_string(&self.app_name),
            summary: clone_opt_string(&self.summary),
            body: clone_opt_string(&self.body),
            urgency: clone_opt_string(&self.urgency),
            category: clone_opt_string(&self.category),
        }
    }
}

/// What a rule changes on the notifications it applies to.
#[derive(Debug)]
pub struct RuleActions {
    pub timeout: Option<i32>,
    pub urgency: Option<String>,
    pub anchor: Option<Anchor>,
    pub skip_history: Option<bool>,
    pub skip_sound: Option<bool>,
    pub css_class: Option<String>,
}

/// What a `RuleActions` holds.
pub struct RuleActionsView {
    pub timeout: Option<i32>,
    pub urgency: Option<Seq<char>>,
    pub anchor: Option<Anchor>,
    pub skip_history: Option<bool>,
    pub skip_sound: Option<bool>,
    pub css_class: Option<Seq<char>>,
}

impl View for RuleActions {
    type V = RuleActionsView;

    open spec fn view(&self) -> RuleActionsView {
        RuleActionsView {
            timeout: self.timeout,
            urgency: opt_text(self.urgency),
            anchor: self.anchor,
            skip_history: self.skip_history,
            skip_sound: self.skip_sound,
            css_class: opt_text(self.css_class),
        }
    }
}

impl Default for RuleActions {
    fn default() -> (r: RuleActions)
        ensures
            r@ == (RuleActionsView {
                timeout: None,
                urgency: None,
                anchor: None,
                skip_history: None,
                skip_sound: None,
                css_class: None,
            }),
    {
        RuleActions {
            timeout: None,
            urgency: None,
            anchor: None,
            skip_history: None,
            skip_sound: None,
            css_class: None,
        }
    }
}

impl Clone for RuleActions {
    fn clone(&self) -> (r: RuleActions)
        ensures
            r@ == self@,
    {
        RuleActions {
            timeout: self.timeout,
            urgency: clone_opt_string(&self.urgency),
            anchor: self.anchor,
            skip_history: self.skip_history,
            skip_sound: self.skip_sound,
            css_class: clone_opt_string(&self.css_class),
        }
    }
}

/// A rule: criteria, and the actions applied where they are met.
#[derive(Debug)]
pub struct AppRule {
    pub criteria: RuleCriteria,
    pub actions: RuleActions,
}

/// What an `AppRule` holds.
pub struct AppRuleView {
    pub criteria: RuleCriteriaView,
    pub actions: RuleActionsView,
}

impl View for AppRule {
    type V = AppRuleView;

    open spec fn view(&self) -> AppRuleView {
        AppRuleView { criteria: self.criteria@, actions: self.actions@ }
    }
}

impl Clone for AppRule {
    fn clone(&self) -> (r: AppRule)
        ensures
            r@ == self@,
    {
        AppRule { criteria: self.criteria.clone(), actions: self.actions.clone() }
    }
}

/// What each rule of a list holds.
pub open spec fn rule_views(rules: Seq<AppRule>) -> Seq<AppRuleView> {
    rules.map_values(|r: AppRule| r@)
}

/// The whole configuration snapshot.
#[derive(Debug)]
pub struct Config {
    pub general: GeneralConfig,
    pub positioning: PositioningConfig,
    pub timeouts: TimeoutConfig,
    pub history: HistoryConfig,
    pub dnd: DndConfig,
    pub sound: SoundConfig,
    pub ipc: IpcConfig,
    /// The rules, in the order in which they are tried.
    pub rules: Vec<AppRule>,
}

/// The part of a `Config` that decides what the engine does.
pub struct ConfigView {
    pub general: GeneralConfig,
    pub timeouts: TimeoutConfig,
    pub rules: Seq<AppRuleView>,
}

impl ConfigView {
    /// What the engine is configured with when nothing was configured.
    pub open spec fn initial() -> ConfigView {
        ConfigView {
            general: GeneralConfig {
                max_visible: 5,
                sort_order: SortOrder::NewestFirst,
                markup: true,
                idle_threshold: None,
            },
            timeouts: TimeoutConfig { default: 5000, low: 3000, normal: 5000, critical: 0 },
            rules: Seq::empty(),
        }
    }
}

impl View for Config {
    type V = ConfigView;

    open spec fn view(&self) -> ConfigView {
        ConfigView {
            general: self.general,
            timeouts: self.timeouts,
            rules: rule_views(self.rules@),
        }
    }
}

impl Default for Config {
    fn default() -> (r: Config)
        ensures
            r@ == ConfigView::initial(),
            r.history.enabled,
            r.history.max_entries == 100,
            r.dnd.schedule_start is None,
            r.dnd.schedule_end is None,
            r.dnd.schedule_days@.len() == 0,
    {
        let r = Config {
            general: GeneralConfig::default(),
            positioning: PositioningConfig::default(),
            timeouts: TimeoutConfig::default(),
            history: HistoryConfig::default(),
            dnd: DndConfig::default(),
            sound: SoundConfig::default(),
            ipc: IpcConfig::default(),
            rules: Vec::new(),
        };
        assert(rule_views(r.rules@) =~= Seq::empty());
        r
    }
}

} // verus!
