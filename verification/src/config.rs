//! Configuration values and the parsing they need: the window resolution
//! string `"<width>x<height>"` and the video backend name.  Reading and
//! writing configuration files is input/output and stays outside the
//! library; the types here hold plain values and defaults.

use vstd::prelude::*;
use crate::world::str_eq;

verus! {

/// Graphics settings.
#[derive(Debug)]
pub struct GraphicsConfig {
    pub window_resolution: String,
    pub fullscreen: bool,
    pub vsync: bool,
    pub video_backend: String,
}

/// Input bindings, as key names.
#[derive(Debug)]
pub struct InputConfig {
    pub inspector: String,
    pub system_info: String,
    pub gizmos_boxen: String,
    pub movement_forward: String,
    pub movement_backward: String,
    pub movement_left: String,
    pub movement_right: String,
    pub movement_jump: String,
    pub movement_sprint: String,
    pub movement_crouch: String,
}

/// All configuration sections.
#[derive(Debug)]
pub struct GlobalConfig {
    pub graphics_config: GraphicsConfig,
    pub input_config: InputConfig,
}

/// The out-of-the-box graphics settings.
pub open spec fn is_default_graphics(g: GraphicsConfig) -> bool {
    &&& g.window_resolution@ == "1270x720"@
    &&& !g.fullscreen
    &&& g.vsync
    &&& g.video_backend@ == "AUTO"@
}

/// The out-of-the-box input bindings.
pub open spec fn is_default_input(i: InputConfig) -> bool {
    &&& i.inspector@ == "F1"@
    &&& i.system_info@ == "F3"@
    &&& i.gizmos_boxen@ == "F9"@
    &&& i.movement_forward@ == "W"@
    &&& i.movement_backward@ == "S"@
    &&& i.movement_left@ == "A"@
    &&& i.movement_right@ == "D"@
    &&& i.movement_jump@ == "Space"@
    &&& i.movement_sprint@ == "ShiftLeft"@
    &&& i.movement_crouch@ == "C"@
}

impl Default for GraphicsConfig {
    fn default() -> (r: Self)
        ensures
            is_default_graphics(r),
    {
        Self {
            window_resolution: "1270x720".to_owned(),
            fullscreen: false,
            vsync: true,
            video_backend: "AUTO".to_owned(),
        }
    }
}

impl Default for InputConfig {
    fn default() -> (r: Self)
        ensures
            is_default_input(r),
    {
        Self {
            inspector: "F1".to_owned(),
            system_info: "F3".to_owned(),
            gizmos_boxen: "F9".to_owned(),
            movement_forward: "W".to_owned(),
            movement_backward: "S".to_owned(),
            movement_left: "A".to_owned(),
            movement_right: "D".to_owned(),
            movement_jump: "Space".to_owned(),
            movement_sprint: "ShiftLeft".to_owned(),
            movement_crouch: "C".to_owned(),
        }
    }
}

impl Default for GlobalConfig {
    fn default() -> (r: Self)
        ensures
            is_default_graphics(r.graphics_config),
            is_default_input(r.input_config),
    {
        Self { graphics_config: GraphicsConfig::default(), input_config: InputConfig::default() }
    }
}

/// The characters that may separate width from height.
pub open spec fn is_split(c: char) -> bool {
    c == 'x' || c == 'X'
}

pub open spec fn is_digit(c: char) -> bool {
    '0' <= c <= '9'
}

/// The Unicode whitespace characters, the set that trimming removes.
pub open spec fn is_ws(c: char) -> bool {
    ||| c == ' '
    ||| c == '\t'
    ||| c == '\n'
    ||| c == '\u{0B}'
    ||| c == '\u{0C}'
    ||| c == '\r'
    ||| c == '\u{85}'
    ||| c == '\u{A0}'
    ||| c == '\u{1680}'
    ||| '\u{2000}' <= c <= '\u{200A}'
    ||| c == '\u{2028}'
    ||| c == '\u{2029}'
    ||| c == '\u{202F}'
    ||| c == '\u{205F}'
    ||| c == '\u{3000}'
}

/// The first index of `[lo, hi)` past the leading whitespace.
pub open spec fn skip_ws_fwd(s: Seq<char>, lo: int, hi: int) -> int
    decreases hi - lo,
{
    if lo < hi && is_ws(s[lo]) {
        skip_ws_fwd(s, lo + 1, hi)
    } else {
        lo
    }
}

/// The end of `[lo, hi)` with the trailing whitespace removed.
pub open spec fn skip_ws_back(s: Seq<char>, lo: int, hi: int) -> int
    decreases hi - lo,
{
    if hi > lo && is_ws(s[hi - 1]) {
        skip_ws_back(s, lo, hi - 1)
    } else {
        hi
    }
}

/// The range `[lo, hi)` of `s` with whitespace trimmed off both ends.
pub open spec fn trimmed_of(s: Seq<char>, lo: int, hi: int) -> Seq<char> {
    let a = skip_ws_fwd(s, lo, hi);
    let b = skip_ws_back(s, a, hi);
    s.subrange(a, b)
}

/// `k` is the position of the first separator within the trimmed string.
pub open spec fn split_at(s: Seq<char>, k: int) -> bool {
    let lo = skip_ws_fwd(s, 0, s.len() as int);
    let hi = skip_ws_back(s, lo, s.len() as int);
    &&& lo <= k < hi
    &&& is_split(s[k])
    &&& forall|l: int| lo <= l < k ==> !is_split(#[trigger] s[l])
}

/// The width text of a split at `k`: what stands left of the separator
/// inside the trimmed string, itself trimmed.
pub open spec fn width_seg(s: Seq<char>, k: int) -> Seq<char> {
    trimmed_of(s, skip_ws_fwd(s, 0, s.len() as int), k)
}

/// The height text of a split at `k`: what stands right of the separator
/// inside the trimmed string, itself trimmed.
pub open spec fn height_seg(s: Seq<char>, k: int) -> Seq<char> {
    let lo = skip_ws_fwd(s, 0, s.len() as int);
    trimmed_of(s, k + 1, skip_ws_back(s, lo, s.len() as int))
}

/// The number a digit string denotes, most significant digit first.
pub open spec fn digits_val(s: Seq<char>) -> int
    decreases s.len(),
{
    if s.len() == 0 {
        0
    } else {
        digits_val(s.drop_last()) * 10 + (s.last() as u32 - 48)
    }
}

/// A usable number segment: nonempty, digits only, fitting a `u32`.
pub open spec fn segment_ok(s: Seq<char>) -> bool {
    &&& s.len() > 0
    &&& (forall|k: int| 0 <= k < s.len() ==> is_digit(#[trigger] s[k]))
    &&& digits_val(s) <= u32::MAX
}

/// `s` parses as the resolution `w` by `h`: after trimming, a digit
/// segment (each itself trimmed) on each side of the first separator, both
/// positive.
pub open spec fn resolution_parses(s: Seq<char>, w: int, h: int) -> bool {
    exists|k: int|
        {
            &&& #[trigger] split_at(s, k)
            &&& segment_ok(width_seg(s, k))
            &&& segment_ok(height_seg(s, k))
            &&& w == digits_val(width_seg(s, k))
            &&& h == digits_val(height_seg(s, k))
            &&& w > 0
            &&& h > 0
        }
}

/// At most one position is the first separator.
pub proof fn lemma_split_at_unique(s: Seq<char>, k1: int, k2: int)
    requires
        split_at(s, k1),
        split_at(s, k2),
    ensures
        k1 == k2,
{
}

/// The first separator position a parse relies on, with what holds of it.
pub proof fn lemma_parses_witness(s: Seq<char>, w: int, h: int) -> (k: int)
    requires
        resolution_parses(s, w, h),
    ensures
        split_at(s, k),
        segment_ok(width_seg(s, k)),
        segment_ok(height_seg(s, k)),
        w == digits_val(width_seg(s, k)),
        h == digits_val(height_seg(s, k)),
        w > 0,
        h > 0,
{
    choose|k: int|
        {
            &&& #[trigger] split_at(s, k)
            &&& segment_ok(width_seg(s, k))
            &&& segment_ok(height_seg(s, k))
            &&& w == digits_val(width_seg(s, k))
            &&& h == digits_val(height_seg(s, k))
            &&& w > 0
            &&& h > 0
        }
}

/// Why a resolution string was rejected.
#[derive(Debug, Clone, Copy, PartialEq, Eq, Structural)]
pub enum ResolutionError {
    /// No `x` or `X` separator.
    Format,
    /// The trimmed width segment is empty, not all digits, or too large.
    Width,
    /// The trimmed height segment is empty, not all digits, or too large.
    Height,
    /// Width or height is zero.
    NotPositive,
}

/// Whether trimming removes `c`.
fn is_ws_char(c: char) -> (r: bool)
    ensures
        r == is_ws(c),
{
    c == ' ' || c == '\t' || c == '\n' || c == '\u{0B}' || c == '\u{0C}' || c == '\r'
        || c == '\u{85}' || c == '\u{A0}' || c == '\u{1680}' || ('\u{2000}' <= c && c
        <= '\u{200A}') || c == '\u{2028}' || c == '\u{2029}' || c == '\u{202F}' || c == '\u{205F}'
        || c == '\u{3000}'
}

/// Scans past the leading whitespace of `[lo, hi)`.
fn skip_ws_forward(s: &str, lo: usize, hi: usize) -> (r: usize)
    requires
        lo <= hi <= s@.len(),
    ensures
        r == skip_ws_fwd(s@, lo as int, hi as int),
        lo <= r <= hi,
        forall|l: int| lo <= l < r ==> is_ws(#[trigger] s@[l]),
        r < hi ==> !is_ws(s@[r as int]),
{
    let mut i = lo;
    while i < hi
        invariant
            lo <= i <= hi <= s@.len(),
            skip_ws_fwd(s@, lo as int, hi as int) == skip_ws_fwd(s@, i as int, hi as int),
            forall|l: int| lo <= l < i ==> is_ws(#[trigger] s@[l]),
        decreases hi - i,
    {
        let c = s.get_char(i);
        if !is_ws_char(c) {
            return i;
        }
        i = i + 1;
    }
    i
}

/// Scans back past the trailing whitespace of `[lo, hi)`.
fn skip_ws_backward(s: &str, lo: usize, hi: usize) -> (r: usize)
    requires
        lo <= hi <= s@.len(),
    ensures
        r == skip_ws_back(s@, lo as int, hi as int),
        lo <= r <= hi,
        forall|l: int| r <= l < hi ==> is_ws(#[trigger] s@[l]),
        r > lo ==> !is_ws(s@[r - 1]),
{
    let mut i = hi;
    while i > lo
        invariant
            lo <= i <= hi <= s@.len(),
            skip_ws_back(s@, lo as int, hi as int) == skip_ws_back(s@, lo as int, i as int),
            forall|l: int| i <= l < hi ==> is_ws(#[trigger] s@[l]),
        decreases i,
    {
        let c = s.get_char(i - 1);
        if !is_ws_char(c) {
            return i;
        }
        i = i - 1;
    }
    i
}

/// Parses the digit segment `s[from..to]` into its value, or `None` when
/// the segment is empty, holds a non-digit, or exceeds `u32`.
fn parse_u32_segment(s: &str, from: usize, to: usize) -> (r: Option<u32>)
    requires
        from <= to <= s@.len(),
    ensures
        match r {
            Some(v) => segment_ok(s@.subrange(from as int, to as int)) && v == digits_val(
                s@.subrange(from as int, to as int),
            ),
            None => !segment_ok(s@.subrange(from as int, to as int)),
        },
{
    let ghost seg = s@.subrange(from as int, to as int);
    if from == to {
        return None;
    }
    let mut value: u64 = 0;
    let mut over: bool = false;
    let mut i: usize = from;
    while i < to
        invariant
            from <= i <= to <= s@.len(),
            seg == s@.subrange(from as int, to as int),
            forall|l: int| from <= l < i ==> is_digit(#[trigger] s@[l]),
            !over ==> value == digits_val(s@.subrange(from as int, i as int)) && value <= u32::MAX,
            over ==> digits_val(s@.subrange(from as int, i as int)) > u32::MAX,
        decreases to - i,
    {
        let c = s.get_char(i);
        if !('0' <= c && c <= '9') {
            proof {
                assert(seg[i - from] == s@[i as int]);
            }
            return None;
        }
        let d = (c as u32) - 48;
        proof {
            assert(s@.subrange(from as int, i + 1).drop_last() =~= s@.subrange(
                from as int,
                i as int,
            ));
            assert(s@.subrange(from as int, i + 1).last() == s@[i as int]);
        }
        if !over {
            value = value * 10 + (d as u64);
            if value > 0xffff_ffff {
                over = true;
            }
        }
        i = i + 1;
    }
    proof {
        assert(s@.subrange(from as int, to as int) =~= seg);
    }
    if over {
        return None;
    }
    Some(value as u32)
}

/// Parses `"<width>x<height>"` into positive width and height, saying
/// exactly why a string is rejected.  Whitespace around the string and
/// around each segment is skipped, as trimming would; the separator is the
/// first `x` or `X` of the trimmed string; each segment must then be
/// decimal digits only.
pub fn parse_resolution(s: &str) -> (r: Result<(u32, u32), ResolutionError>)
    ensures
        r matches Ok(p) ==> resolution_parses(s@, p.0 as int, p.1 as int),
        r is Err ==> !(exists|w: int, h: int| resolution_parses(s@, w, h)),
        r matches Err(ResolutionError::Format) <==> (forall|k: int|
            0 <= k < s@.len() ==> !is_split(#[trigger] s@[k])),
        forall|k: int|
            #[trigger] split_at(s@, k) ==> {
                &&& (r matches Err(ResolutionError::Width) <==> !segment_ok(width_seg(s@, k)))
                &&& (r matches Err(ResolutionError::Height) <==> segment_ok(width_seg(s@, k))
                    && !segment_ok(height_seg(s@, k)))
                &&& (r matches Err(ResolutionError::NotPositive) <==> segment_ok(width_seg(s@, k))
                    && segment_ok(height_seg(s@, k)) && (digits_val(width_seg(s@, k)) == 0
                    || digits_val(height_seg(s@, k)) == 0))
                &&& (r matches Ok(p) ==> p.0 == digits_val(width_seg(s@, k)) && p.1 == digits_val(
                    height_seg(s@, k),
                ))
            },
{
    let n = s.unicode_len();
    let tl = skip_ws_forward(s, 0, n);
    let th = skip_ws_backward(s, tl, n);

    // The first separator of the trimmed string.
    let mut idx: usize = th;
    let mut k: usize = tl;
    while k < th
        invariant
            tl <= k <= th,
            idx <= th,
            th <= n == s@.len(),
            idx == th ==> forall|l: int| tl <= l < k ==> !is_split(#[trigger] s@[l]),
            idx < th ==> tl <= idx && is_split(s@[idx as int]) && (forall|l: int|
                tl <= l < idx ==> !is_split(#[trigger] s@[l])),
        decreases th - k,
    {
        if idx == th {
            let c = s.get_char(k);
            if c == 'x' || c == 'X' {
                idx = k;
            }
        }
        k = k + 1;
    }
    if idx == th {
        proof {
            // A separator is never whitespace, so none hides in the
            // trimmed-away ends either.
            assert forall|kk: int| 0 <= kk < s@.len() implies !is_split(#[trigger] s@[kk]) by {
                if kk < tl || th <= kk {
                    assert(is_ws(s@[kk]));
                }
            }
            assert forall|w: int, h: int| !resolution_parses(s@, w, h) by {
                if resolution_parses(s@, w, h) {
                    let kk = lemma_parses_witness(s@, w, h);
                }
            }
        }
        return Err(ResolutionError::Format);
    }
    proof {
        assert(split_at(s@, idx as int));
        assert forall|k2: int| #[trigger] split_at(s@, k2) implies k2 == idx as int by {
            lemma_split_at_unique(s@, idx as int, k2);
        }
    }

    // Each side of the separator, trimmed again.
    let wl = skip_ws_forward(s, tl, idx);
    let wh = skip_ws_backward(s, wl, idx);
    proof {
        assert(width_seg(s@, idx as int) == s@.subrange(wl as int, wh as int));
    }
    let w = match parse_u32_segment(s, wl, wh) {
        Some(v) => v,
        None => {
            proof {
                assert forall|w2: int, h2: int| !resolution_parses(s@, w2, h2) by {
                    if resolution_parses(s@, w2, h2) {
                        let kk = lemma_parses_witness(s@, w2, h2);
                    }
                }
            }
            return Err(ResolutionError::Width);
        },
    };
    let hl = skip_ws_forward(s, idx + 1, th);
    let hh = skip_ws_backward(s, hl, th);
    proof {
        assert(height_seg(s@, idx as int) == s@.subrange(hl as int, hh as int));
    }
    let h = match parse_u32_segment(s, hl, hh) {
        Some(v) => v,
        None => {
            proof {
                assert forall|w2: int, h2: int| !resolution_parses(s@, w2, h2) by {
                    if resolution_parses(s@, w2, h2) {
                        let kk = lemma_parses_witness(s@, w2, h2);
                    }
                }
            }
            return Err(ResolutionError::Height);
        },
    };
    if w == 0 || h == 0 {
        proof {
            assert forall|w2: int, h2: int| !resolution_parses(s@, w2, h2) by {
                if resolution_parses(s@, w2, h2) {
                    let kk = lemma_parses_witness(s@, w2, h2);
                }
            }
        }
        return Err(ResolutionError::NotPositive);
    }
    proof {
        assert(resolution_parses(s@, w as int, h as int));
    }
    Ok((w, h))
}

impl GraphicsConfig {
    /// The configured window width, or 1280 when the resolution string
    /// does not parse.
    pub fn get_window_width(&self) -> (r: u32)
        ensures
            forall|w: int, h: int|
                #[trigger] resolution_parses(self.window_resolution@, w, h) ==> r == w,
            !(exists|w: int, h: int| resolution_parses(self.window_resolution@, w, h)) ==> r
                == 1280,
    {
        match parse_resolution(self.window_resolution.as_str()) {
            Ok(p) => {
                proof {
                    lemma_resolution_unique(self.window_resolution@, p.0 as int, p.1 as int);
                }
                p.0
            },
            Err(_) => {
                1280
            },
        }
    }

    /// The configured window height, or 720 when the resolution string
    /// does not parse.
    pub fn get_window_height(&self) -> (r: u32)
        ensures
            forall|w: int, h: int|
                #[trigger] resolution_parses(self.window_resolution@, w, h) ==> r == h,
            !(exists|w: int, h: int| resolution_parses(self.window_resolution@, w, h)) ==> r
                == 720,
    {
        match parse_resolution(self.window_resolution.as_str()) {
            Ok(p) => {
                proof {
                    lemma_resolution_unique(self.window_resolution@, p.0 as int, p.1 as int);
                }
                p.1
            },
            Err(_) => 720,
        }
    }
}

/// A string parses as at most one resolution.
pub proof fn lemma_resolution_unique(s: Seq<char>, w: int, h: int)
    requires
        resolution_parses(s, w, h),
    ensures
        forall|w2: int, h2: int| #[trigger] resolution_parses(s, w2, h2) ==> w2 == w && h2 == h,
{
    assert forall|w2: int, h2: int| #[trigger] resolution_parses(s, w2, h2) implies w2 == w && h2
        == h by {
        let k1 = lemma_parses_witness(s, w, h);
        let k2 = lemma_parses_witness(s, w2, h2);
        lemma_split_at_unique(s, k1, k2);
    }
}

/// The rendering backend a configuration string selects.
#[derive(Debug, Clone, Copy, PartialEq, Eq, Structural)]
pub enum VideoBackend {
    Primary,
    Vulkan,
    Dx12,
    Metal,
}

/// The backend a name selects; an unknown name falls back to the primary
/// backend.
pub open spec fn backend_for(s: Seq<char>) -> VideoBackend {
    if s == "vulkan"@ || s == "VULKAN"@ {
        VideoBackend::Vulkan
    } else if s == "dx12"@ || s == "DX12"@ {
        VideoBackend::Dx12
    } else if s == "metal"@ || s == "METAL"@ {
        VideoBackend::Metal
    } else {
        VideoBackend::Primary
    }
}

/// Selects the rendering backend a configuration string names; anything
/// unrecognized selects the primary backend.
pub fn select_video_backend(backend_str: &str) -> (r: VideoBackend)
    ensures
        r == backend_for(backend_str@),
{
    if str_eq(backend_str, "vulkan") || str_eq(backend_str, "VULKAN") {
        VideoBackend::Vulkan
    } else if str_eq(backend_str, "dx12") || str_eq(backend_str, "DX12") {
        VideoBackend::Dx12
    } else if str_eq(backend_str, "metal") || str_eq(backend_str, "METAL") {
        VideoBackend::Metal
    } else {
        VideoBackend::Primary
    }
}

} // verus!
