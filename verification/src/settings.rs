//! Options of the client's settings: each cycles through its values in a fixed order.

use vstd::prelude::*;

verus! {

/// Local game time limit.
#[derive(Clone, Copy, Debug, PartialEq, Eq, Structural)]
pub enum TimeLimit {
    /// No limit.
    Unlimited,
    /// Ten minutes.
    TenMinutes,
    /// Thirty minutes.
    ThirtyMinutes,
    /// Sixty minutes.
    SixtyMinutes,
}

impl TimeLimit {
    /// Position of the value in the cycle of options.
    pub open spec fn rank(self) -> int {
        match self {
            TimeLimit::Unlimited => 0,
            TimeLimit::TenMinutes => 1,
            TimeLimit::ThirtyMinutes => 2,
            TimeLimit::SixtyMinutes => 3,
        }
    }

    /// The value at position `i` of the cycle (taken modulo 4).
    pub open spec fn at_rank(i: int) -> TimeLimit {
        let k = i % 4;
        if k == 0 {
            TimeLimit::Unlimited
        } else if k == 1 {
            TimeLimit::TenMinutes
        } else if k == 2 {
            TimeLimit::ThirtyMinutes
        } else {
            TimeLimit::SixtyMinutes
        }
    }

    /// The value after this one in the cycle.
    pub open spec fn spec_next(self) -> TimeLimit {
        TimeLimit::at_rank(self.rank() + 1)
    }

    /// The value before this one in the cycle.
    pub open spec fn spec_prev(self) -> TimeLimit {
        TimeLimit::at_rank(self.rank() + 3)
    }

    /// The name shown in the settings.
    pub open spec fn spec_display_name(self) -> Seq<char> {
        match self {
            TimeLimit::Unlimited => "无限制"@,
            TimeLimit::TenMinutes => "10 分钟"@,
            TimeLimit::ThirtyMinutes => "30 分钟"@,
            TimeLimit::SixtyMinutes => "60 分钟"@,
        }
    }

    /// The name shown in the settings.
    pub fn display_name(&self) -> (r: &'static str)
        ensures
            r@ == self.spec_display_name(),
    {
        match self {
            TimeLimit::Unlimited => "无限制",
            TimeLimit::TenMinutes => "10 分钟",
            TimeLimit::ThirtyMinutes => "30 分钟",
            TimeLimit::SixtyMinutes => "60 分钟",
        }
    }

    /// The next option (after the last comes the first).
    pub fn next(self) -> (r: TimeLimit)
        ensures
            r == self.spec_next(),
    {
        match self {
            TimeLimit::Unlimited => TimeLimit::TenMinutes,
            TimeLimit::TenMinutes => TimeLimit::ThirtyMinutes,
            TimeLimit::ThirtyMinutes => TimeLimit::SixtyMinutes,
            TimeLimit::SixtyMinutes => TimeLimit::Unlimited,
        }
    }

    /// The previous option (before the first comes the last).
    pub fn prev(self) -> (r: TimeLimit)
        ensures
            r == self.spec_prev(),
    {
        match self {
            TimeLimit::Unlimited => TimeLimit::SixtyMinutes,
            TimeLimit::TenMinutes => TimeLimit::Unlimited,
            TimeLimit::ThirtyMinutes => TimeLimit::TenMinutes,
            TimeLimit::SixtyMinutes => TimeLimit::ThirtyMinutes,
        }
    }
}

impl Default for TimeLimit {
    fn default() -> (r: TimeLimit)
        ensures
            r == TimeLimit::Unlimited,
    {
        TimeLimit::Unlimited
    }
}

/// Stepping forward then back (or back then forward) through the time limit options
/// returns to where it started, and 4 steps forward go round the whole cycle.
pub proof fn law_time_limit_cycle(x: TimeLimit)
    ensures
        x.spec_next().spec_prev() == x,
        x.spec_prev().spec_next() == x,
        x.spec_next().spec_next().spec_next().spec_next() == x,
        forall|y: TimeLimit| #![trigger y.rank()] exists|k: int| 0 <= k < 4 && #[trigger] TimeLimit::at_rank(x.rank() + k) == y,
{
    assert forall|y: TimeLimit| #![trigger y.rank()] exists|k: int| 0 <= k < 4 && #[trigger] TimeLimit::at_rank(x.rank() + k) == y by {
        let k = (y.rank() - x.rank() + 4) % 4;
        assert(TimeLimit::at_rank(x.rank() + k) == y);
    }
}

/// Which side of the board is at the bottom.
#[derive(Clone, Copy, Debug, PartialEq, Eq, Structural)]
pub enum BoardFlip {
    /// Red at the bottom.
    RedBottom,
    /// Black at the bottom.
    BlackBottom,
    /// The side played at the bottom.
    Auto,
}

impl BoardFlip {
    /// Position of the value in the cycle of options.
    pub open spec fn rank(self) -> int {
        match self {
            BoardFlip::RedBottom => 0,
            BoardFlip::BlackBottom => 1,
            BoardFlip::Auto => 2,
        }
    }

    /// The value at position `i` of the cycle (taken modulo 3).
    pub open spec fn at_rank(i: int) -> BoardFlip {
        let k = i % 3;
        if k == 0 {
            BoardFlip::RedBottom
        } else if k == 1 {
            BoardFlip::BlackBottom
        } else {
            BoardFlip::Auto
        }
    }

    /// The value after this one in the cycle.
    pub open spec fn spec_next(self) -> BoardFlip {
        BoardFlip::at_rank(self.rank() + 1)
    }

    /// The value before this one in the cycle.
    pub open spec fn spec_prev(self) -> BoardFlip {
        BoardFlip::at_rank(self.rank() + 2)
    }

    /// The name shown in the settings.
    pub open spec fn spec_display_name(self) -> Seq<char> {
        match self {
            BoardFlip::RedBottom => "红方视角"@,
            BoardFlip::BlackBottom => "黑方视角"@,
            BoardFlip::Auto => "自动"@,
        }
    }

    /// The name shown in the settings.
    pub fn display_name(&self) -> (r: &'static str)
        ensures
            r@ == self.spec_display_name(),
    {
        match self {
            BoardFlip::RedBottom => "红方视角",
            BoardFlip::BlackBottom => "黑方视角",
            BoardFlip::Auto => "自动",
        }
    }

    /// The next option (after the last comes the first).
    pub fn next(self) -> (r: BoardFlip)
        ensures
            r == self.spec_next(),
    {
        match self {
            BoardFlip::RedBottom => BoardFlip::BlackBottom,
            BoardFlip::BlackBottom => BoardFlip::Auto,
            BoardFlip::Auto => BoardFlip::RedBottom,
        }
    }

    /// The previous option (before the first comes the last).
    pub fn prev(self) -> (r: BoardFlip)
        ensures
            r == self.spec_prev(),
    {
        match self {
            BoardFlip::RedBottom => BoardFlip::Auto,
            BoardFlip::BlackBottom => BoardFlip::RedBottom,
            BoardFlip::Auto => BoardFlip::BlackBottom,
        }
    }
}

impl Default for BoardFlip {
    fn default() -> (r: BoardFlip)
        ensures
            r == BoardFlip::RedBottom,
    {
        BoardFlip::RedBottom
    }
}

/// Stepping forward then back (or back then forward) through the board flip options
/// returns to where it started, and 3 steps forward go round the whole cycle.
pub proof fn law_board_flip_cycle(x: BoardFlip)
    ensures
        x.spec_next().spec_prev() == x,
        x.spec_prev().spec_next() == x,
        x.spec_next().spec_next().spec_next() == x,
        forall|y: BoardFlip| #![trigger y.rank()] exists|k: int| 0 <= k < 3 && #[trigger] BoardFlip::at_rank(x.rank() + k) == y,
{
    assert forall|y: BoardFlip| #![trigger y.rank()] exists|k: int| 0 <= k < 3 && #[trigger] BoardFlip::at_rank(x.rank() + k) == y by {
        let k = (y.rank() - x.rank() + 3) % 3;
        assert(BoardFlip::at_rank(x.rank() + k) == y);
    }
}

/// Window size presets.
#[derive(Clone, Copy, Debug, PartialEq, Eq, Structural)]
pub enum Resolution {
    /// 1024 x 768.
    R1024x768,
    /// 1280 x 720.
    R1280x720,
    /// 1920 x 1080.
    R1920x1080,
    /// 2560 x 1440.
    R2560x1440,
}

impl Resolution {
    /// Position of the value in the cycle of options.
    pub open spec fn rank(self) -> int {
        match self {
            Resolution::R1024x768 => 0,
            Resolution::R1280x720 => 1,
            Resolution::R1920x1080 => 2,
            Resolution::R2560x1440 => 3,
        }
    }

    /// The value at position `i` of the cycle (taken modulo 4).
    pub open spec fn at_rank(i: int) -> Resolution {
        let k = i % 4;
        if k == 0 {
            Resolution::R1024x768
        } else if k == 1 {
            Resolution::R1280x720
        } else if k == 2 {
            Resolution::R1920x1080
        } else {
            Resolution::R2560x1440
        }
    }

    /// The value after this one in the cycle.
    pub open spec fn spec_next(self) -> Resolution {
        Resolution::at_rank(self.rank() + 1)
    }

    /// The value before this one in the cycle.
    pub open spec fn spec_prev(self) -> Resolution {
        Resolution::at_rank(self.rank() + 3)
    }

    /// The name shown in the settings.
    pub open spec fn spec_display_name(self) -> Seq<char> {
        match self {
            Resolution::R1024x768 => "1024 x 768"@,
            Resolution::R1280x720 => "1280 x 720"@,
            Resolution::R1920x1080 => "1920 x 1080"@,
            Resolution::R2560x1440 => "2560 x 1440"@,
        }
    }

    /// The name shown in the settings.
    pub fn display_name(&self) -> (r: &'static str)
        ensures
            r@ == self.spec_display_name(),
    {
        match self {
            Resolution::R1024x768 => "1024 x 768",
            Resolution::R1280x720 => "1280 x 720",
            Resolution::R1920x1080 => "1920 x 1080",
            Resolution::R2560x1440 => "2560 x 1440",
        }
    }

    /// The next option (after the last comes the first).
    pub fn next(self) -> (r: Resolution)
        ensures
            r == self.spec_next(),
    {
        match self {
            Resolution::R1024x768 => Resolution::R1280x720,
            Resolution::R1280x720 => Resolution::R1920x1080,
            Resolution::R1920x1080 => Resolution::R2560x1440,
            Resolution::R2560x1440 => Resolution::R1024x768,
        }
    }

    /// The previous option (before the first comes the last).
    pub fn prev(self) -> (r: Resolution)
        ensures
            r == self.spec_prev(),
    {
        match self {
            Resolution::R1024x768 => Resolution::R2560x1440,
            Resolution::R1280x720 => Resolution::R1024x768,
            Resolution::R1920x1080 => Resolution::R1280x720,
            Resolution::R2560x1440 => Resolution::R1920x1080,
        }
    }
}

impl Default for Resolution {
    fn default() -> (r: Resolution)
        ensures
            r == Resolution::R1280x720,
    {
        Resolution::R1280x720
    }
}

/// Stepping forward then back (or back then forward) through the resolution options
/// returns to where it started, and 4 steps forward go round the whole cycle.
pub proof fn law_resolution_cycle(x: Resolution)
    ensures
        x.spec_next().spec_prev() == x,
        x.spec_prev().spec_next() == x,
        x.spec_next().spec_next().spec_next().spec_next() == x,
        forall|y: Resolution| #![trigger y.rank()] exists|k: int| 0 <= k < 4 && #[trigger] Resolution::at_rank(x.rank() + k) == y,
{
    assert forall|y: Resolution| #![trigger y.rank()] exists|k: int| 0 <= k < 4 && #[trigger] Resolution::at_rank(x.rank() + k) == y by {
        let k = (y.rank() - x.rank() + 4) % 4;
        assert(Resolution::at_rank(x.rank() + k) == y);
    }
}

/// Window or full screen.
#[derive(Clone, Copy, Debug, PartialEq, Eq, Structural)]
pub enum FullscreenMode {
    /// A window.
    Windowed,
    /// Full screen without borders.
    BorderlessFullscreen,
    /// Exclusive full screen.
    ExclusiveFullscreen,
}

impl FullscreenMode {
    /// Position of the value in the cycle of options.
    pub open spec fn rank(self) -> int {
        match self {
            FullscreenMode::Windowed => 0,
            FullscreenMode::BorderlessFullscreen => 1,
            FullscreenMode::ExclusiveFullscreen => 2,
        }
    }

    /// The value at position `i` of the cycle (taken modulo 3).
    pub open spec fn at_rank(i: int) -> FullscreenMode {
        let k = i % 3;
        if k == 0 {
            FullscreenMode::Windowed
        } else if k == 1 {
            FullscreenMode::BorderlessFullscreen
        } else {
            FullscreenMode::ExclusiveFullscreen
        }
    }

    /// The value after this one in the cycle.
    pub open spec fn spec_next(self) -> FullscreenMode {
        FullscreenMode::at_rank(self.rank() + 1)
    }

    /// The value before this one in the cycle.
    pub open spec fn spec_prev(self) -> FullscreenMode {
        FullscreenMode::at_rank(self.rank() + 2)
    }

    /// The name shown in the settings.
    pub open spec fn spec_display_name(self) -> Seq<char> {
        match self {
            FullscreenMode::Windowed => "窗口"@,
            FullscreenMode::BorderlessFullscreen => "无边框全屏"@,
            FullscreenMode::ExclusiveFullscreen => "独占全屏"@,
        }
    }

    /// The name shown in the settings.
    pub fn display_name(&self) -> (r: &'static str)
        ensures
            r@ == self.spec_display_name(),
    {
        match self {
            FullscreenMode::Windowed => "窗口",
            FullscreenMode::BorderlessFullscreen => "无边框全屏",
            FullscreenMode::ExclusiveFullscreen => "独占全屏",
        }
    }

    /// The next option (after the last comes the first).
    pub fn next(self) -> (r: FullscreenMode)
        ensures
            r == self.spec_next(),
    {
        match self {
            FullscreenMode::Windowed => FullscreenMode::BorderlessFullscreen,
            FullscreenMode::BorderlessFullscreen => FullscreenMode::ExclusiveFullscreen,
            FullscreenMode::ExclusiveFullscreen => FullscreenMode::Windowed,
        }
    }

    /// The previous option (before the first comes the last).
    pub fn prev(self) -> (r: FullscreenMode)
        ensures
            r == self.spec_prev(),
    {
        match self {
            FullscreenMode::Windowed => FullscreenMode::ExclusiveFullscreen,
            FullscreenMode::BorderlessFullscreen => FullscreenMode::Windowed,
            FullscreenMode::ExclusiveFullscreen => FullscreenMode::BorderlessFullscreen,
        }
    }
}

impl Default for FullscreenMode {
    fn default() -> (r: FullscreenMode)
        ensures
            r == FullscreenMode::Windowed,
    {
        FullscreenMode::Windowed
    }
}

/// Stepping forward then back (or back then forward) through the fullscreen mode options
/// returns to where it started, and 3 steps forward go round the whole cycle.
pub proof fn law_fullscreen_mode_cycle(x: FullscreenMode)
    ensures
        x.spec_next().spec_prev() == x,
        x.spec_prev().spec_next() == x,
        x.spec_next().spec_next().spec_next() == x,
        forall|y: FullscreenMode| #![trigger y.rank()] exists|k: int| 0 <= k < 3 && #[trigger] FullscreenMode::at_rank(x.rank() + k) == y,
{
    assert forall|y: FullscreenMode| #![trigger y.rank()] exists|k: int| 0 <= k < 3 && #[trigger] FullscreenMode::at_rank(x.rank() + k) == y by {
        let k = (y.rank() - x.rank() + 3) % 3;
        assert(FullscreenMode::at_rank(x.rank() + k) == y);
    }
}

/// Cap on frames per second.
#[derive(Clone, Copy, Debug, PartialEq, Eq, Structural)]
pub enum FrameRateLimit {
    /// 30 frames per second.
    Fps30,
    /// 60 frames per second.
    Fps60,
    /// 120 frames per second.
    Fps120,
    /// No cap.
    Unlimited,
}

impl FrameRateLimit {
    /// Position of the value in the cycle of options.
    pub open spec fn rank(self) -> int {
        match self {
            FrameRateLimit::Fps30 => 0,
            FrameRateLimit::Fps60 => 1,
            FrameRateLimit::Fps120 => 2,
            FrameRateLimit::Unlimited => 3,
        }
    }

    /// The value at position `i` of the cycle (taken modulo 4).
    pub open spec fn at_rank(i: int) -> FrameRateLimit {
        let k = i % 4;
        if k == 0 {
            FrameRateLimit::Fps30
        } else if k == 1 {
            FrameRateLimit::Fps60
        } else if k == 2 {
            FrameRateLimit::Fps120
        } else {
            FrameRateLimit::Unlimited
        }
    }

    /// The value after this one in the cycle.
    pub open spec fn spec_next(self) -> FrameRateLimit {
        FrameRateLimit::at_rank(self.rank() + 1)
    }

    /// The value before this one in the cycle.
    pub open spec fn spec_prev(self) -> FrameRateLimit {
        FrameRateLimit::at_rank(self.rank() + 3)
    }

    /// The name shown in the settings.
    pub open spec fn spec_display_name(self) -> Seq<char> {
        match self {
            FrameRateLimit::Fps30 => "30 FPS"@,
            FrameRateLimit::Fps60 => "60 FPS"@,
            FrameRateLimit::Fps120 => "120 FPS"@,
            FrameRateLimit::Unlimited => "无限制"@,
        }
    }

    /// The name shown in the settings.
    pub fn display_name(&self) -> (r: &'static str)
        ensures
            r@ == self.spec_display_name(),
    {
        match self {
            FrameRateLimit::Fps30 => "30 FPS",
            FrameRateLimit::Fps60 => "60 FPS",
            FrameRateLimit::Fps120 => "120 FPS",
            FrameRateLimit::Unlimited => "无限制",
        }
    }

    /// The next option (after the last comes the first).
    pub fn next(self) -> (r: FrameRateLimit)
        ensures
            r == self.spec_next(),
    {
        match self {
            FrameRateLimit::Fps30 => FrameRateLimit::Fps60,
            FrameRateLimit::Fps60 => FrameRateLimit::Fps120,
            FrameRateLimit::Fps120 => FrameRateLimit::Unlimited,
            FrameRateLimit::Unlimited => FrameRateLimit::Fps30,
        }
    }

    /// The previous option (before the first comes the last).
    pub fn prev(self) -> (r: FrameRateLimit)
        ensures
            r == self.spec_prev(),
    {
        match self {
            FrameRateLimit::Fps30 => FrameRateLimit::Unlimited,
            FrameRateLimit::Fps60 => FrameRateLimit::Fps30,
            FrameRateLimit::Fps120 => FrameRateLimit::Fps60,
            FrameRateLimit::Unlimited => FrameRateLimit::Fps120,
        }
    }
}

impl Default for FrameRateLimit {
    fn default() -> (r: FrameRateLimit)
        ensures
            r == FrameRateLimit::Fps60,
    {
        FrameRateLimit::Fps60
    }
}

/// Stepping forward then back (or back then forward) through the frame rate limit options
/// returns to where it started, and 4 steps forward go round the whole cycle.
pub proof fn law_frame_rate_limit_cycle(x: FrameRateLimit)
    ensures
        x.spec_next().spec_prev() == x,
        x.spec_prev().spec_next() == x,
        x.spec_next().spec_next().spec_next().spec_next() == x,
        forall|y: FrameRateLimit| #![trigger y.rank()] exists|k: int| 0 <= k < 4 && #[trigger] FrameRateLimit::at_rank(x.rank() + k) == y,
{
    assert forall|y: FrameRateLimit| #![trigger y.rank()] exists|k: int| 0 <= k < 4 && #[trigger] FrameRateLimit::at_rank(x.rank() + k) == y by {
        let k = (y.rank() - x.rank() + 4) % 4;
        assert(FrameRateLimit::at_rank(x.rank() + k) == y);
    }
}

/// Verbosity of the log.
#[derive(Clone, Copy, Debug, PartialEq, Eq, Structural)]
pub enum LogLevel {
    /// Errors only.
    Error,
    /// Warnings and errors.
    Warn,
    /// General information.
    Info,
    /// Debugging detail.
    Debug,
    /// Everything.
    Trace,
}

impl LogLevel {
    /// Position of the value in the cycle of options.
    pub open spec fn rank(self) -> int {
        match self {
            LogLevel::Error => 0,
            LogLevel::Warn => 1,
            LogLevel::Info => 2,
            LogLevel::Debug => 3,
            LogLevel::Trace => 4,
        }
    }

    /// The value at position `i` of the cycle (taken modulo 5).
    pub open spec fn at_rank(i: int) -> LogLevel {
        let k = i % 5;
        if k == 0 {
            LogLevel::Error
        } else if k == 1 {
            LogLevel::Warn
        } else if k == 2 {
            LogLevel::Info
        } else if k == 3 {
            LogLevel::Debug
        } else {
            LogLevel::Trace
        }
    }

    /// The value after this one in the cycle.
    pub open spec fn spec_next(self) -> LogLevel {
        LogLevel::at_rank(self.rank() + 1)
    }

    /// The value before this one in the cycle.
    pub open spec fn spec_prev(self) -> LogLevel {
        LogLevel::at_rank(self.rank() + 4)
    }

    /// The name shown in the settings.
    pub open spec fn spec_display_name(self) -> Seq<char> {
        match self {
            LogLevel::Error => "Error"@,
            LogLevel::Warn => "Warn"@,
            LogLevel::Info => "Info"@,
            LogLevel::Debug => "Debug"@,
            LogLevel::Trace => "Trace"@,
        }
    }

    /// The name shown in the settings.
    pub fn display_name(&self) -> (r: &'static str)
        ensures
            r@ == self.spec_display_name(),
    {
        match self {
            LogLevel::Error => "Error",
            LogLevel::Warn => "Warn",
            LogLevel::Info => "Info",
            LogLevel::Debug => "Debug",
            LogLevel::Trace => "Trace",
        }
    }

    /// The next option (after the last comes the first).
    pub fn next(self) -> (r: LogLevel)
        ensures
            r == self.spec_next(),
    {
        match self {
            LogLevel::Error => LogLevel::Warn,
            LogLevel::Warn => LogLevel::Info,
            LogLevel::Info => LogLevel::Debug,
            LogLevel::Debug => LogLevel::Trace,
            LogLevel::Trace => LogLevel::Error,
        }
    }

    /// The previous option (before the first comes the last).
    pub fn prev(self) -> (r: LogLevel)
        ensures
            r == self.spec_prev(),
    {
        match self {
            LogLevel::Error => LogLevel::Trace,
            LogLevel::Warn => LogLevel::Error,
            LogLevel::Info => LogLevel::Warn,
            LogLevel::Debug => LogLevel::Info,
            LogLevel::Trace => LogLevel::Debug,
        }
    }
}

impl Default for LogLevel {
    fn default() -> (r: LogLevel)
        ensures
            r == LogLevel::Info,
    {
        LogLevel::Info
    }
}

/// Stepping forward then back (or back then forward) through the log level options
/// returns to where it started, and 5 steps forward go round the whole cycle.
pub proof fn law_log_level_cycle(x: LogLevel)
    ensures
        x.spec_next().spec_prev() == x,
        x.spec_prev().spec_next() == x,
        x.spec_next().spec_next().spec_next().spec_next().spec_next() == x,
        forall|y: LogLevel| #![trigger y.rank()] exists|k: int| 0 <= k < 5 && #[trigger] LogLevel::at_rank(x.rank() + k) == y,
{
    assert forall|y: LogLevel| #![trigger y.rank()] exists|k: int| 0 <= k < 5 && #[trigger] LogLevel::at_rank(x.rank() + k) == y by {
        let k = (y.rank() - x.rank() + 5) % 5;
        assert(LogLevel::at_rank(x.rank() + k) == y);
    }
}

impl TimeLimit {
    /// The time limit in milliseconds (no limit: the largest `u64`).
    pub open spec fn spec_to_millis(self) -> u64 {
        match self {
            TimeLimit::Unlimited => u64::MAX,
            TimeLimit::TenMinutes => 600_000,
            TimeLimit::ThirtyMinutes => 1_800_000,
            TimeLimit::SixtyMinutes => 3_600_000,
        }
    }

    /// The time limit in milliseconds (no limit: the largest `u64`).
    pub fn to_millis(self) -> (r: u64)
        ensures
            r == self.spec_to_millis(),
    {
        match self {
            TimeLimit::Unlimited => u64::MAX,
            TimeLimit::TenMinutes => 10 * 60 * 1000,
            TimeLimit::ThirtyMinutes => 30 * 60 * 1000,
            TimeLimit::SixtyMinutes => 60 * 60 * 1000,
        }
    }

    /// Every option, in the order of the cycle.
    pub fn all() -> (r: Vec<TimeLimit>)
        ensures
            r@.len() == 4,
            forall|i: int| 0 <= i < 4 ==> #[trigger] r@[i] == TimeLimit::at_rank(i),
    {
        let r = vec![
            TimeLimit::Unlimited,
            TimeLimit::TenMinutes,
            TimeLimit::ThirtyMinutes,
            TimeLimit::SixtyMinutes,
        ];
        assert(r@[0] == TimeLimit::at_rank(0));
        assert(r@[1] == TimeLimit::at_rank(1));
        assert(r@[2] == TimeLimit::at_rank(2));
        assert(r@[3] == TimeLimit::at_rank(3));
        r
    }
}

impl Resolution {
    /// Width in pixels.
    pub fn width(&self) -> (r: u32)
        ensures
            r == (match self {
                Resolution::R1024x768 => 1024u32,
                Resolution::R1280x720 => 1280u32,
                Resolution::R1920x1080 => 1920u32,
                Resolution::R2560x1440 => 2560u32,
            }),
    {
        match self {
            Resolution::R1024x768 => 1024,
            Resolution::R1280x720 => 1280,
            Resolution::R1920x1080 => 1920,
            Resolution::R2560x1440 => 2560,
        }
    }

    /// Height in pixels.
    pub fn height(&self) -> (r: u32)
        ensures
            r == (match self {
                Resolution::R1024x768 => 768u32,
                Resolution::R1280x720 => 720u32,
                Resolution::R1920x1080 => 1080u32,
                Resolution::R2560x1440 => 1440u32,
            }),
    {
        match self {
            Resolution::R1024x768 => 768,
            Resolution::R1280x720 => 720,
            Resolution::R1920x1080 => 1080,
            Resolution::R2560x1440 => 1440,
        }
    }
}

} // verus!
