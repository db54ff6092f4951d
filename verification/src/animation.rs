//! Animation configuration: the effect and mode names the embedding
//! application sets from user options, and the plain-value transition and
//! scroll settings. Option names and values arrive as strings; parsing is
//! case-insensitive over ASCII and unknown names fall back to defaults.

use vstd::prelude::*;
use vstd::string::StrSliceExecFns;

use crate::text::{push_char, str_eq};

verus! {

/// `c` with an ASCII upper-case letter folded to lower case; every other
/// character is unchanged.
pub open spec fn spec_lower_char(c: char) -> char {
    if 65 <= c as u32 && c as u32 <= 90 {
        ((c as u32 + 32) as u8) as char
    } else {
        c
    }
}

/// `s` folded to lower case, ASCII letter by ASCII letter.
pub open spec fn spec_lower(s: Seq<char>) -> Seq<char> {
    s.map_values(|c: char| spec_lower_char(c))
}

/// Fold a string to lower case over the ASCII letters.
pub fn ascii_lowercase(s: &str) -> (r: String)
    ensures
        r@ == spec_lower(s@),
{
    let n = s.unicode_len();
    let mut r = String::new();
    let mut i: usize = 0;
    while i < n
        invariant
            n as nat == s@.len(),
            i <= n,
            r@.len() == i,
            forall|j: int| 0 <= j < i ==> r@[j] == spec_lower_char(s@[j]),
        decreases n - i,
    {
        let c = s.get_char(i);
        let u = c as u32;
        let lc: char = if 65 <= u && u <= 90 {
            ((u + 32) as u8) as char
        } else {
            c
        };
        push_char(&mut r, lc);
        i = i + 1;
    }
    proof {
        assert(r@ =~= spec_lower(s@));
    }
    r
}

/// Buffer transition animation effect.
#[derive(Debug, Clone, Copy, PartialEq, Eq, Structural)]
pub enum BufferTransitionEffect {
    /// No animation - instant switch.
    Disabled,
    /// Simple crossfade.
    Crossfade,
    /// Slide left (new comes from right).
    SlideLeft,
    /// Slide right (new comes from left).
    SlideRight,
    /// Slide up (new comes from bottom).
    SlideUp,
    /// Slide down (new comes from top).
    SlideDown,
    /// Scale and fade.
    ScaleFade,
    /// Push (new covers old).
    Push,
    /// Blur transition.
    Blur,
    /// 3D page curl (book page turn).
    PageCurl,
}

impl Default for BufferTransitionEffect {
    fn default() -> (e: Self)
        ensures
            e == BufferTransitionEffect::Crossfade,
    {
        BufferTransitionEffect::Crossfade
    }
}

/// The effect a (case-folded) option value names; unrecognised values fall
/// back to the crossfade default.
pub open spec fn spec_effect_from_str(s: Seq<char>) -> BufferTransitionEffect {
    let t = spec_lower(s);
    if t == "none"@ {
        BufferTransitionEffect::Disabled
    } else if t == "crossfade"@ || t == "fade"@ {
        BufferTransitionEffect::Crossfade
    } else if t == "slide-left"@ || t == "slide"@ {
        BufferTransitionEffect::SlideLeft
    } else if t == "slide-right"@ {
        BufferTransitionEffect::SlideRight
    } else if t == "slide-up"@ {
        BufferTransitionEffect::SlideUp
    } else if t == "slide-down"@ {
        BufferTransitionEffect::SlideDown
    } else if t == "scale"@ || t == "scale-fade"@ {
        BufferTransitionEffect::ScaleFade
    } else if t == "push"@ || t == "stack"@ {
        BufferTransitionEffect::Push
    } else if t == "blur"@ {
        BufferTransitionEffect::Blur
    } else if t == "page"@ || t == "page-curl"@ || t == "book"@ {
        BufferTransitionEffect::PageCurl
    } else {
        BufferTransitionEffect::Crossfade
    }
}

impl BufferTransitionEffect {
    /// Parse an effect name, case-insensitively.
    pub fn from_str(s: &str) -> (e: Self)
        ensures
            e == spec_effect_from_str(s@),
    {
        let t = ascii_lowercase(s);
        let t = t.as_str();
        if str_eq(t, "none") {
            BufferTransitionEffect::Disabled
        } else if str_eq(t, "crossfade") || str_eq(t, "fade") {
            BufferTransitionEffect::Crossfade
        } else if str_eq(t, "slide-left") || str_eq(t, "slide") {
            BufferTransitionEffect::SlideLeft
        } else if str_eq(t, "slide-right") {
            BufferTransitionEffect::SlideRight
        } else if str_eq(t, "slide-up") {
            BufferTransitionEffect::SlideUp
        } else if str_eq(t, "slide-down") {
            BufferTransitionEffect::SlideDown
        } else if str_eq(t, "scale") || str_eq(t, "scale-fade") {
            BufferTransitionEffect::ScaleFade
        } else if str_eq(t, "push") || str_eq(t, "stack") {
            BufferTransitionEffect::Push
        } else if str_eq(t, "blur") {
            BufferTransitionEffect::Blur
        } else if str_eq(t, "page") || str_eq(t, "page-curl") || str_eq(t, "book") {
            BufferTransitionEffect::PageCurl
        } else {
            BufferTransitionEffect::Crossfade
        }
    }
}

/// Easing function for animations. Applying one is floating-point work and
/// lives with the renderer.
#[derive(Debug, Clone, Copy, PartialEq, Eq, Structural)]
pub enum TransitionEasing {
    Linear,
    EaseOut,
    EaseIn,
    EaseInOut,
    /// Overshoot then settle (bouncy).
    EaseOutBack,
}

impl Default for TransitionEasing {
    fn default() -> (e: Self)
        ensures
            e == TransitionEasing::EaseOut,
    {
        TransitionEasing::EaseOut
    }
}

/// Direction for directional animations (slide, push).
#[derive(Debug, Clone, Copy, PartialEq, Eq, Structural)]
pub enum TransitionDirection {
    Left,
    Right,
    Up,
    Down,
}

impl Default for TransitionDirection {
    fn default() -> (d: Self)
        ensures
            d == TransitionDirection::Left,
    {
        TransitionDirection::Left
    }
}

/// Cursor animation mode.
#[derive(Debug, Clone, Copy, PartialEq, Eq, Structural)]
pub enum CursorAnimationMode {
    /// No animation - instant cursor movement.
    Disabled,
    /// Smooth movement only.
    Smooth,
    /// Particles shoot backward.
    Railgun,
    /// Comet-like trail follows the cursor.
    Torpedo,
    /// Sparkly particles scatter around.
    Pixiedust,
    /// Shockwave ring expands from the cursor.
    Sonicboom,
    /// Concentric rings emanate outward.
    Ripple,
    /// Animated outline glow.
    Wireframe,
}

impl Default for CursorAnimationMode {
    fn default() -> (m: Self)
        ensures
            m == CursorAnimationMode::Smooth,
    {
        CursorAnimationMode::Smooth
    }
}

/// The mode a (case-folded) option value names; unrecognised values fall
/// back to the smooth default.
pub open spec fn spec_mode_from_str(s: Seq<char>) -> CursorAnimationMode {
    let t = spec_lower(s);
    if t == "none"@ {
        CursorAnimationMode::Disabled
    } else if t == "smooth"@ {
        CursorAnimationMode::Smooth
    } else if t == "railgun"@ {
        CursorAnimationMode::Railgun
    } else if t == "torpedo"@ {
        CursorAnimationMode::Torpedo
    } else if t == "pixiedust"@ {
        CursorAnimationMode::Pixiedust
    } else if t == "sonicboom"@ {
        CursorAnimationMode::Sonicboom
    } else if t == "ripple"@ {
        CursorAnimationMode::Ripple
    } else if t == "wireframe"@ {
        CursorAnimationMode::Wireframe
    } else {
        CursorAnimationMode::Smooth
    }
}

impl CursorAnimationMode {
    /// Parse a mode name, case-insensitively.
    pub fn from_str(s: &str) -> (m: Self)
        ensures
            m == spec_mode_from_str(s@),
    {
        let t = ascii_lowercase(s);
        let t = t.as_str();
        if str_eq(t, "none") {
            CursorAnimationMode::Disabled
        } else if str_eq(t, "smooth") {
            CursorAnimationMode::Smooth
        } else if str_eq(t, "railgun") {
            CursorAnimationMode::Railgun
        } else if str_eq(t, "torpedo") {
            CursorAnimationMode::Torpedo
        } else if str_eq(t, "pixiedust") {
            CursorAnimationMode::Pixiedust
        } else if str_eq(t, "sonicboom") {
            CursorAnimationMode::Sonicboom
        } else if str_eq(t, "ripple") {
            CursorAnimationMode::Ripple
        } else if str_eq(t, "wireframe") {
            CursorAnimationMode::Wireframe
        } else {
            CursorAnimationMode::Smooth
        }
    }
}

/// Whether an option value counts as true: `t`, `true`, `1`, `yes` or `on`,
/// case-insensitively.
pub open spec fn spec_parse_bool(s: Seq<char>) -> bool {
    let t = spec_lower(s);
    t == "t"@ || t == "true"@ || t == "1"@ || t == "yes"@ || t == "on"@
}

/// Parse a boolean option value.
pub fn parse_bool(s: &str) -> (b: bool)
    ensures
        b == spec_parse_bool(s@),
{
    let t = ascii_lowercase(s);
    let t = t.as_str();
    str_eq(t, "t") || str_eq(t, "true") || str_eq(t, "1") || str_eq(t, "yes") || str_eq(t, "on")
}

/// Render a boolean as the option value it reads back as: `t` or `nil`.
pub fn bool_str(b: bool) -> (r: String)
    ensures
        b ==> r@ == "t"@,
        !b ==> r@ == "nil"@,
{
    if b {
        "t".to_owned()
    } else {
        "nil".to_owned()
    }
}

/// Buffer transition configuration.
#[derive(Debug, Clone, Copy, PartialEq, Eq, Structural)]
pub struct BufferTransitionConfig {
    /// Enable buffer switch animations.
    pub enabled: bool,
    /// Transition effect type.
    pub effect: BufferTransitionEffect,
    /// Transition duration in milliseconds.
    pub duration_ms: u32,
    /// Auto-detect buffer switches (vs explicit trigger).
    pub auto_detect: bool,
}

impl Default for BufferTransitionConfig {
    fn default() -> (c: Self)
        ensures
            c.enabled,
            c.effect == BufferTransitionEffect::Crossfade,
            c.duration_ms == 200,
            c.auto_detect,
    {
        BufferTransitionConfig {
            enabled: true,
            effect: BufferTransitionEffect::Crossfade,
            duration_ms: 200,
            auto_detect: true,
        }
    }
}

impl BufferTransitionConfig {
    /// The transition duration as a millisecond count ready for
    /// `Duration::from_millis`.
    pub fn duration(&self) -> (ms: u64)
        ensures
            ms == self.duration_ms as u64,
    {
        self.duration_ms as u64
    }
}

/// Scroll animation configuration.
#[derive(Debug, Clone, Copy, PartialEq, Eq, Structural)]
pub struct ScrollAnimationConfig {
    /// Enable smooth scrolling.
    pub enabled: bool,
    /// Scroll animation duration in milliseconds.
    pub duration_ms: u32,
    /// Lines to scroll before animation kicks in (1 = always animate).
    pub threshold_lines: u32,
}

impl Default for ScrollAnimationConfig {
    fn default() -> (c: Self)
        ensures
            c.enabled,
            c.duration_ms == 150,
            c.threshold_lines == 1,
    {
        ScrollAnimationConfig { enabled: true, duration_ms: 150, threshold_lines: 1 }
    }
}

} // verus!
