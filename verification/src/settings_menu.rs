//! The settings page: the preferences being edited, and what each button does to them.
//!
//! The animation speed is a float; the application keeps it beside these settings and
//! applies the two animation buttons itself.

use vstd::prelude::*;
use crate::search::Difficulty;
use crate::settings::{
    law_board_flip_cycle, law_frame_rate_limit_cycle, law_fullscreen_mode_cycle, law_log_level_cycle,
    law_resolution_cycle, law_time_limit_cycle, BoardFlip, FrameRateLimit, FullscreenMode, LogLevel,
    Resolution, TimeLimit,
};

verus! {

/// Tabs of the settings page.
#[derive(Clone, Copy, Debug, PartialEq, Eq, Structural)]
pub enum SettingsTab {
    Game,
    Display,
    Audio,
    Network,
    Advanced,
}

impl SettingsTab {
    pub open spec fn spec_display_name(self) -> Seq<char> {
        match self {
            SettingsTab::Game => "游戏"@,
            SettingsTab::Display => "显示"@,
            SettingsTab::Audio => "音频"@,
            SettingsTab::Network => "网络"@,
            SettingsTab::Advanced => "高级"@,
        }
    }

    /// The tab's title.
    pub fn display_name(&self) -> (r: &'static str)
        ensures
            r@ == self.spec_display_name(),
    {
        match self {
            SettingsTab::Game => "游戏",
            SettingsTab::Display => "显示",
            SettingsTab::Audio => "音频",
            SettingsTab::Network => "网络",
            SettingsTab::Advanced => "高级",
        }
    }

    /// The tabs in the order they are shown.
    pub fn all() -> (r: Vec<SettingsTab>)
        ensures
            r@ == seq![
                SettingsTab::Game,
                SettingsTab::Display,
                SettingsTab::Audio,
                SettingsTab::Network,
                SettingsTab::Advanced,
            ],
    {
        let r = vec![
            SettingsTab::Game,
            SettingsTab::Display,
            SettingsTab::Audio,
            SettingsTab::Network,
            SettingsTab::Advanced,
        ];
        assert(r@ =~= seq![
            SettingsTab::Game,
            SettingsTab::Display,
            SettingsTab::Audio,
            SettingsTab::Network,
            SettingsTab::Advanced,
        ]);
        r
    }
}

impl Default for SettingsTab {
    fn default() -> (r: SettingsTab)
        ensures
            r == SettingsTab::Game,
    {
        SettingsTab::Game
    }
}

/// The player's preferences (all but the animation speed).
#[derive(Clone, Debug)]
pub struct GameSettings {
    pub time_limit: TimeLimit,
    /// Longest time the AI may think, in seconds (kept within 5..=30 by the buttons).
    pub ai_timeout_secs: u32,
    pub default_difficulty: Difficulty,
    pub show_move_hints: bool,
    pub board_flip: BoardFlip,
    pub resolution: Resolution,
    pub fullscreen_mode: FullscreenMode,
    pub vsync: bool,
    pub frame_rate_limit: FrameRateLimit,
    /// Master volume, 0..=100.
    pub master_volume: u32,
    /// Sound effect volume, 0..=100.
    pub sfx_volume: u32,
    pub music_enabled: bool,
    pub server_address: String,
    pub nickname: String,
    pub log_level: LogLevel,
    pub show_fps: bool,
}

impl GameSettings {
    /// Whether these are the default settings.
    pub open spec fn is_default(&self) -> bool {
        &&& self.time_limit == TimeLimit::Unlimited
        &&& self.ai_timeout_secs == 10
        &&& self.default_difficulty == Difficulty::Medium
        &&& self.show_move_hints
        &&& self.board_flip == BoardFlip::RedBottom
        &&& self.resolution == Resolution::R1280x720
        &&& self.fullscreen_mode == FullscreenMode::Windowed
        &&& self.vsync
        &&& self.frame_rate_limit == FrameRateLimit::Fps60
        &&& self.master_volume == 100
        &&& self.sfx_volume == 100
        &&& self.music_enabled
        &&& self.server_address@ == "127.0.0.1:9527"@
        &&& self.nickname@ == "玩家"@
        &&& self.log_level == LogLevel::Info
        &&& !self.show_fps
    }
}

impl Default for GameSettings {
    fn default() -> (r: GameSettings)
        ensures
            r.is_default(),
    {
        GameSettings {
            time_limit: TimeLimit::Unlimited,
            ai_timeout_secs: 10,
            default_difficulty: Difficulty::Medium,
            show_move_hints: true,
            board_flip: BoardFlip::RedBottom,
            resolution: Resolution::R1280x720,
            fullscreen_mode: FullscreenMode::Windowed,
            vsync: true,
            frame_rate_limit: FrameRateLimit::Fps60,
            master_volume: 100,
            sfx_volume: 100,
            music_enabled: true,
            server_address: "127.0.0.1:9527".to_owned(),
            nickname: "玩家".to_owned(),
            log_level: LogLevel::Info,
            show_fps: false,
        }
    }
}

/// The buttons of the settings page.
#[derive(Clone, Copy, Debug, PartialEq, Eq, Structural)]
pub enum SettingsAction {
    SwitchTab(SettingsTab),
    Save,
    Cancel,
    RestoreDefaults,
    TimeLimitPrev,
    TimeLimitNext,
    AiTimeoutDecrease,
    AiTimeoutIncrease,
    DifficultyPrev,
    DifficultyNext,
    AnimationSpeedDecrease,
    AnimationSpeedIncrease,
    ToggleMoveHints,
    BoardFlipPrev,
    BoardFlipNext,
    ResolutionPrev,
    ResolutionNext,
    FullscreenPrev,
    FullscreenNext,
    ToggleVsync,
    FrameRatePrev,
    FrameRateNext,
    LogLevelPrev,
    LogLevelNext,
    ToggleShowFps,
}

/// What is left to do once a button has been handled.
#[derive(Clone, Copy, Debug, PartialEq, Eq, Structural)]
pub enum SettingsEffect {
    /// Stay on the page.
    Stay,
    /// Keep the edited settings, store them, apply the display settings, go back to the menu.
    Save,
    /// Go back to the menu; the edits are dropped.
    Cancel,
    /// The defaults were restored; the animation speed goes back to its default too.
    DefaultsRestored,
    /// Lower the animation speed (above its minimum).
    AnimationSpeedDown,
    /// Raise the animation speed (below its maximum).
    AnimationSpeedUp,
}

/// The next preset level: easy, medium, hard, then easy again. A custom level stays.
pub open spec fn next_difficulty(d: Difficulty) -> Difficulty {
    match d {
        Difficulty::Easy => Difficulty::Medium,
        Difficulty::Medium => Difficulty::Hard,
        Difficulty::Hard => Difficulty::Easy,
        Difficulty::Custom { .. } => d,
    }
}

/// The previous preset level: easy, hard, medium, then easy again. A custom level stays.
pub open spec fn prev_difficulty(d: Difficulty) -> Difficulty {
    match d {
        Difficulty::Easy => Difficulty::Hard,
        Difficulty::Medium => Difficulty::Easy,
        Difficulty::Hard => Difficulty::Medium,
        Difficulty::Custom { .. } => d,
    }
}

/// Whether `a` is a button that changes one preference and stays on the page.
pub open spec fn adjusts(a: SettingsAction) -> bool {
    match a {
        SettingsAction::SwitchTab(_) | SettingsAction::Save | SettingsAction::Cancel
        | SettingsAction::RestoreDefaults | SettingsAction::AnimationSpeedDecrease
        | SettingsAction::AnimationSpeedIncrease => false,
        _ => true,
    }
}

/// The settings after the adjusting button `a`: the option steps to its neighbour, the
/// switch flips, the AI time changes by one second within 5..=30.
pub open spec fn spec_adjusted(a: SettingsAction, s: GameSettings) -> GameSettings {
    match a {
        SettingsAction::TimeLimitPrev => GameSettings { time_limit: s.time_limit.spec_prev(), ..s },
        SettingsAction::TimeLimitNext => GameSettings { time_limit: s.time_limit.spec_next(), ..s },
        SettingsAction::AiTimeoutDecrease => GameSettings {
            ai_timeout_secs: if s.ai_timeout_secs > 5 {
                (s.ai_timeout_secs - 1) as u32
            } else {
                s.ai_timeout_secs
            },
            ..s
        },
        SettingsAction::AiTimeoutIncrease => GameSettings {
            ai_timeout_secs: if s.ai_timeout_secs < 30 {
                (s.ai_timeout_secs + 1) as u32
            } else {
                s.ai_timeout_secs
            },
            ..s
        },
        SettingsAction::DifficultyPrev => GameSettings {
            default_difficulty: prev_difficulty(s.default_difficulty),
            ..s
        },
        SettingsAction::DifficultyNext => GameSettings {
            default_difficulty: next_difficulty(s.default_difficulty),
            ..s
        },
        SettingsAction::ToggleMoveHints => GameSettings { show_move_hints: !s.show_move_hints, ..s },
        SettingsAction::BoardFlipPrev => GameSettings { board_flip: s.board_flip.spec_prev(), ..s },
        SettingsAction::BoardFlipNext => GameSettings { board_flip: s.board_flip.spec_next(), ..s },
        SettingsAction::ResolutionPrev => GameSettings { resolution: s.resolution.spec_prev(), ..s },
        SettingsAction::ResolutionNext => GameSettings { resolution: s.resolution.spec_next(), ..s },
        SettingsAction::FullscreenPrev => GameSettings {
            fullscreen_mode: s.fullscreen_mode.spec_prev(),
            ..s
        },
        SettingsAction::FullscreenNext => GameSettings {
            fullscreen_mode: s.fullscreen_mode.spec_next(),
            ..s
        },
        SettingsAction::ToggleVsync => GameSettings { vsync: !s.vsync, ..s },
        SettingsAction::FrameRatePrev => GameSettings {
            frame_rate_limit: s.frame_rate_limit.spec_prev(),
            ..s
        },
        SettingsAction::FrameRateNext => GameSettings {
            frame_rate_limit: s.frame_rate_limit.spec_next(),
            ..s
        },
        SettingsAction::LogLevelPrev => GameSettings { log_level: s.log_level.spec_prev(), ..s },
        SettingsAction::LogLevelNext => GameSettings { log_level: s.log_level.spec_next(), ..s },
        SettingsAction::ToggleShowFps => GameSettings { show_fps: !s.show_fps, ..s },
        _ => s,
    }
}

/// Handles a button of the settings page on the settings being edited and the open tab.
#[verifier::rlimit(30)]
pub fn handle_settings_action(
    action: &SettingsAction,
    settings: &mut GameSettings,
    tab: &mut SettingsTab,
) -> (e: SettingsEffect)
    ensures
        match *action {
            SettingsAction::SwitchTab(t) => {
                &&& *final(tab) == t
                &&& *final(settings) == *old(settings)
                &&& e == SettingsEffect::Stay
            },
            SettingsAction::Save => {
                &&& *final(tab) == *old(tab)
                &&& *final(settings) == *old(settings)
                &&& e == SettingsEffect::Save
            },
            SettingsAction::Cancel => {
                &&& *final(tab) == *old(tab)
                &&& *final(settings) == *old(settings)
                &&& e == SettingsEffect::Cancel
            },
            SettingsAction::RestoreDefaults => {
                &&& *final(tab) == *old(tab)
                &&& final(settings).is_default()
                &&& e == SettingsEffect::DefaultsRestored
            },
            SettingsAction::AnimationSpeedDecrease => {
                &&& *final(tab) == *old(tab)
                &&& *final(settings) == *old(settings)
                &&& e == SettingsEffect::AnimationSpeedDown
            },
            SettingsAction::AnimationSpeedIncrease => {
                &&& *final(tab) == *old(tab)
                &&& *final(settings) == *old(settings)
                &&& e == SettingsEffect::AnimationSpeedUp
            },
            _ => {
                &&& *final(tab) == *old(tab)
                &&& *final(settings) == spec_adjusted(*action, *old(settings))
                &&& e == SettingsEffect::Stay
            },
        },
{
    match *action {
        SettingsAction::SwitchTab(t) => {
            *tab = t;
            SettingsEffect::Stay
        },
        SettingsAction::Save => SettingsEffect::Save,
        SettingsAction::Cancel => SettingsEffect::Cancel,
        SettingsAction::RestoreDefaults => {
            *settings = GameSettings::default();
            SettingsEffect::DefaultsRestored
        },
        SettingsAction::TimeLimitPrev => {
            settings.time_limit = settings.time_limit.prev();
            SettingsEffect::Stay
        },
        SettingsAction::TimeLimitNext => {
            settings.time_limit = settings.time_limit.next();
            SettingsEffect::Stay
        },
        SettingsAction::AiTimeoutDecrease => {
            if settings.ai_timeout_secs > 5 {
                settings.ai_timeout_secs = settings.ai_timeout_secs - 1;
            }
            SettingsEffect::Stay
        },
        SettingsAction::AiTimeoutIncrease => {
            if settings.ai_timeout_secs < 30 {
                settings.ai_timeout_secs = settings.ai_timeout_secs + 1;
            }
            SettingsEffect::Stay
        },
        SettingsAction::DifficultyPrev => {
            settings.default_difficulty = match settings.default_difficulty {
                Difficulty::Easy => Difficulty::Hard,
                Difficulty::Medium => Difficulty::Easy,
                Difficulty::Hard => Difficulty::Medium,
                Difficulty::Custom { depth, time_limit_ms } => Difficulty::Custom { depth, time_limit_ms },
            };
            SettingsEffect::Stay
        },
        SettingsAction::DifficultyNext => {
            settings.default_difficulty = match settings.default_difficulty {
                Difficulty::Easy => Difficulty::Medium,
                Difficulty::Medium => Difficulty::Hard,
                Difficulty::Hard => Difficulty::Easy,
                Difficulty::Custom { depth, time_limit_ms } => Difficulty::Custom { depth, time_limit_ms },
            };
            SettingsEffect::Stay
        },
        SettingsAction::AnimationSpeedDecrease => SettingsEffect::AnimationSpeedDown,
        SettingsAction::AnimationSpeedIncrease => SettingsEffect::AnimationSpeedUp,
        SettingsAction::ToggleMoveHints => {
            settings.show_move_hints = !settings.show_move_hints;
            SettingsEffect::Stay
        },
        SettingsAction::BoardFlipPrev => {
            settings.board_flip = settings.board_flip.prev();
            SettingsEffect::Stay
        },
        SettingsAction::BoardFlipNext => {
            settings.board_flip = settings.board_flip.next();
            SettingsEffect::Stay
        },
        SettingsAction::ResolutionPrev => {
            settings.resolution = settings.resolution.prev();
            SettingsEffect::Stay
        },
        SettingsAction::ResolutionNext => {
            settings.resolution = settings.resolution.next();
            SettingsEffect::Stay
        },
        SettingsAction::FullscreenPrev => {
            settings.fullscreen_mode = settings.fullscreen_mode.prev();
            SettingsEffect::Stay
        },
        SettingsAction::FullscreenNext => {
            settings.fullscreen_mode = settings.fullscreen_mode.next();
            SettingsEffect::Stay
        },
        SettingsAction::ToggleVsync => {
            settings.vsync = !settings.vsync;
            SettingsEffect::Stay
        },
        SettingsAction::FrameRatePrev => {
            settings.frame_rate_limit = settings.frame_rate_limit.prev();
            SettingsEffect::Stay
        },
        SettingsAction::FrameRateNext => {
            settings.frame_rate_limit = settings.frame_rate_limit.next();
            SettingsEffect::Stay
        },
        SettingsAction::LogLevelPrev => {
            settings.log_level = settings.log_level.prev();
            SettingsEffect::Stay
        },
        SettingsAction::LogLevelNext => {
            settings.log_level = settings.log_level.next();
            SettingsEffect::Stay
        },
        SettingsAction::ToggleShowFps => {
            settings.show_fps = !settings.show_fps;
            SettingsEffect::Stay
        },
    }
}

/// The button that takes back the adjusting button `a`: the other direction of the same
/// option, or the same switch again.
pub open spec fn undoing(a: SettingsAction) -> SettingsAction {
    match a {
        SettingsAction::TimeLimitPrev => SettingsAction::TimeLimitNext,
        SettingsAction::TimeLimitNext => SettingsAction::TimeLimitPrev,
        SettingsAction::AiTimeoutDecrease => SettingsAction::AiTimeoutIncrease,
        SettingsAction::AiTimeoutIncrease => SettingsAction::AiTimeoutDecrease,
        SettingsAction::DifficultyPrev => SettingsAction::DifficultyNext,
        SettingsAction::DifficultyNext => SettingsAction::DifficultyPrev,
        SettingsAction::BoardFlipPrev => SettingsAction::BoardFlipNext,
        SettingsAction::BoardFlipNext => SettingsAction::BoardFlipPrev,
        SettingsAction::ResolutionPrev => SettingsAction::ResolutionNext,
        SettingsAction::ResolutionNext => SettingsAction::ResolutionPrev,
        SettingsAction::FullscreenPrev => SettingsAction::FullscreenNext,
        SettingsAction::FullscreenNext => SettingsAction::FullscreenPrev,
        SettingsAction::FrameRatePrev => SettingsAction::FrameRateNext,
        SettingsAction::FrameRateNext => SettingsAction::FrameRatePrev,
        SettingsAction::LogLevelPrev => SettingsAction::LogLevelNext,
        SettingsAction::LogLevelNext => SettingsAction::LogLevelPrev,
        _ => a,
    }
}

/// Every button keeps the AI time within 5..=30 seconds: the adjusting buttons do when it
/// was within before, and restoring the defaults gives 10.
pub proof fn law_ai_timeout_in_range(a: SettingsAction, s: GameSettings, d: GameSettings)
    requires
        adjusts(a),
        5 <= s.ai_timeout_secs <= 30,
        d.is_default(),
    ensures
        5 <= spec_adjusted(a, s).ai_timeout_secs <= 30,
        5 <= d.ai_timeout_secs <= 30,
{
}

proof fn lemma_undo_time_limit(a: SettingsAction, s: GameSettings)
    requires
        a == SettingsAction::TimeLimitPrev || a == SettingsAction::TimeLimitNext,
    ensures
        spec_adjusted(undoing(a), spec_adjusted(a, s)) == s,
{
    law_time_limit_cycle(s.time_limit);
}

proof fn lemma_undo_board_flip(a: SettingsAction, s: GameSettings)
    requires
        a == SettingsAction::BoardFlipPrev || a == SettingsAction::BoardFlipNext,
    ensures
        spec_adjusted(undoing(a), spec_adjusted(a, s)) == s,
{
    law_board_flip_cycle(s.board_flip);
}

proof fn lemma_undo_resolution(a: SettingsAction, s: GameSettings)
    requires
        a == SettingsAction::ResolutionPrev || a == SettingsAction::ResolutionNext,
    ensures
        spec_adjusted(undoing(a), spec_adjusted(a, s)) == s,
{
    law_resolution_cycle(s.resolution);
}

proof fn lemma_undo_fullscreen_mode(a: SettingsAction, s: GameSettings)
    requires
        a == SettingsAction::FullscreenPrev || a == SettingsAction::FullscreenNext,
    ensures
        spec_adjusted(undoing(a), spec_adjusted(a, s)) == s,
{
    law_fullscreen_mode_cycle(s.fullscreen_mode);
}

proof fn lemma_undo_frame_rate_limit(a: SettingsAction, s: GameSettings)
    requires
        a == SettingsAction::FrameRatePrev || a == SettingsAction::FrameRateNext,
    ensures
        spec_adjusted(undoing(a), spec_adjusted(a, s)) == s,
{
    law_frame_rate_limit_cycle(s.frame_rate_limit);
}

proof fn lemma_undo_log_level(a: SettingsAction, s: GameSettings)
    requires
        a == SettingsAction::LogLevelPrev || a == SettingsAction::LogLevelNext,
    ensures
        spec_adjusted(undoing(a), spec_adjusted(a, s)) == s,
{
    law_log_level_cycle(s.log_level);
}

proof fn lemma_undo_counters(a: SettingsAction, s: GameSettings)
    requires
        a == SettingsAction::AiTimeoutIncrease ==> 5 <= s.ai_timeout_secs < 30,
        a == SettingsAction::AiTimeoutDecrease ==> 5 < s.ai_timeout_secs <= 30,
        a == SettingsAction::DifficultyPrev || a == SettingsAction::DifficultyNext ==> !(
        s.default_difficulty is Custom),
        a == SettingsAction::AiTimeoutIncrease || a == SettingsAction::AiTimeoutDecrease
            || a == SettingsAction::DifficultyPrev || a == SettingsAction::DifficultyNext,
    ensures
        spec_adjusted(undoing(a), spec_adjusted(a, s)) == s,
{
}

proof fn lemma_undo_switches(a: SettingsAction, s: GameSettings)
    requires
        a == SettingsAction::ToggleMoveHints || a == SettingsAction::ToggleVsync
            || a == SettingsAction::ToggleShowFps,
    ensures
        spec_adjusted(undoing(a), spec_adjusted(a, s)) == s,
{
}

/// An adjusting button followed by the one in the other direction gives back the settings
/// it started from. This holds for the AI time away from the ends of its range (where a
/// button does nothing), and for the preset levels.
pub proof fn law_adjustment_undone(a: SettingsAction, s: GameSettings)
    requires
        adjusts(a),
        a == SettingsAction::AiTimeoutIncrease ==> 5 <= s.ai_timeout_secs < 30,
        a == SettingsAction::AiTimeoutDecrease ==> 5 < s.ai_timeout_secs <= 30,
        (a == SettingsAction::DifficultyPrev || a == SettingsAction::DifficultyNext)
            ==> !(s.default_difficulty is Custom),
    ensures
        spec_adjusted(undoing(a), spec_adjusted(a, s)) == s,
{
    match a {
        SettingsAction::TimeLimitPrev | SettingsAction::TimeLimitNext => lemma_undo_time_limit(a, s),
        SettingsAction::BoardFlipPrev | SettingsAction::BoardFlipNext => lemma_undo_board_flip(a, s),
        SettingsAction::ResolutionPrev | SettingsAction::ResolutionNext => lemma_undo_resolution(a, s),
        SettingsAction::FullscreenPrev | SettingsAction::FullscreenNext => lemma_undo_fullscreen_mode(a, s),
        SettingsAction::FrameRatePrev | SettingsAction::FrameRateNext => lemma_undo_frame_rate_limit(a, s),
        SettingsAction::LogLevelPrev | SettingsAction::LogLevelNext => lemma_undo_log_level(a, s),
        SettingsAction::AiTimeoutIncrease | SettingsAction::AiTimeoutDecrease
        | SettingsAction::DifficultyPrev | SettingsAction::DifficultyNext => lemma_undo_counters(a, s),
        SettingsAction::ToggleMoveHints | SettingsAction::ToggleVsync
        | SettingsAction::ToggleShowFps => lemma_undo_switches(a, s),
        _ => {},
    }
}

} // verus!
