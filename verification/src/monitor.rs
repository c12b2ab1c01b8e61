//! Monitors and their video modes: identity, refresh rates and pixel depths.
use vstd::prelude::*;

verus! {

/// A video mode of a monitor. Two modes are equal when size, depth, refresh rate and
/// monitor agree.
#[derive(Clone, Copy, Debug, PartialEq, Eq, Structural, Hash)]
pub struct VideoMode {
    pub width: u32,
    pub height: u32,
    pub bit_depth: u16,
    pub refresh_rate_millihertz: u32,
    /// The display identifier of the monitor.
    pub monitor: u32,
}

impl VideoMode {
    pub fn size(&self) -> (r: (u32, u32))
        ensures
            r == (self.width, self.height),
    {
        (self.width, self.height)
    }

    pub fn bit_depth(&self) -> (r: u16)
        ensures
            r == self.bit_depth,
    {
        self.bit_depth
    }

    pub fn refresh_rate_millihertz(&self) -> (r: u32)
        ensures
            r == self.refresh_rate_millihertz,
    {
        self.refresh_rate_millihertz
    }

    /// The display identifier of the mode's monitor.
    pub fn monitor(&self) -> (r: u32)
        ensures
            r == self.monitor,
    {
        self.monitor
    }
}

/// A retained native display mode (`CGDisplayModeRef`), by address.
#[derive(Debug)]
pub struct NativeDisplayMode(pub usize);

/// `kCVTimeIsIndefinite`: the refresh period is unknown.
pub const K_CV_TIME_IS_INDEFINITE: i32 = 1 << 0;

/// The refresh rate, in millihertz, of a display whose nominal refresh period is
/// `time_value / time_scale` seconds: none when the period is indefinite or zero.
pub open spec fn refresh_rate_of_period(time_value: i64, time_scale: i32, flags: i32) -> Option<u32> {
    if flags & K_CV_TIME_IS_INDEFINITE != 0 {
        None
    } else {
        match (time_scale as i64).checked_div(time_value) {
            Some(v) => Some((v * 1000) as u32),
            None => None,
        }
    }
}

/// Computes the refresh rate in millihertz from a display link's nominal refresh period.
pub fn refresh_rate_millihertz_from_period(time_value: i64, time_scale: i32, flags: i32) -> (r: Option<u32>)
    ensures
        r == refresh_rate_of_period(time_value, time_scale, flags),
{
    // The value is indefinite if an invalid display link was given.
    if flags & K_CV_TIME_IS_INDEFINITE != 0 {
        return None;
    }
    let scale = time_scale as i64;
    match scale.checked_div(time_value) {
        Some(v) => {
            assert(-0x8000_0000 <= v <= 0x8000_0000);
            Some(#[verifier::truncate] ((v * 1000) as u32))
        },
        None => None,
    }
}

/// The nominal refresh period of a display link: `time_value / time_scale` seconds, unless
/// `flags` says that it is indefinite.
#[derive(Clone, Copy, Debug, PartialEq, Eq)]
pub struct CVTime {
    pub time_value: i64,
    pub time_scale: i32,
    pub flags: i32,
}

/// The refresh rate of a monitor, in millihertz: the one its current display mode reports
/// when that is known (a mode of a non-CRT display reports none), otherwise the one of its
/// display link's refresh period, if a display link could be made.
pub open spec fn monitor_refresh_rate(mode_refresh_millihertz: Option<u32>, link_period: Option<CVTime>) -> Option<
    u32,
> {
    match mode_refresh_millihertz {
        Some(rate) => Some(rate),
        None => match link_period {
            Some(time) => refresh_rate_of_period(time.time_value, time.time_scale, time.flags),
            None => None,
        },
    }
}

/// Computes the refresh rate of a monitor from what its display mode and display link
/// report.
pub fn monitor_refresh_rate_millihertz(
    mode_refresh_millihertz: Option<u32>,
    link_period: Option<CVTime>,
) -> (r: Option<u32>)
    ensures
        r == monitor_refresh_rate(mode_refresh_millihertz, link_period),
{
    if let Some(rate) = mode_refresh_millihertz {
        return Some(rate);
    }
    match link_period {
        Some(time) => refresh_rate_millihertz_from_period(time.time_value, time.time_scale, time.flags),
        None => None,
    }
}

/// The pixel encoding of 32-bit direct pixels.
pub open spec fn io_32bit_direct_pixels() -> Seq<char> {
    "--------RRRRRRRRGGGGGGGGBBBBBBBB"@
}

/// The pixel encoding of 16-bit direct pixels.
pub open spec fn io_16bit_direct_pixels() -> Seq<char> {
    "-RRRRRGGGGGBBBBB"@
}

/// The pixel encoding of 30-bit direct pixels.
pub open spec fn io_30bit_direct_pixels() -> Seq<char> {
    "--RRRRRRRRRRGGGGGGGGGGBBBBBBBBBB"@
}

/// A character with ASCII capitals made small.
pub open spec fn ascii_lower(c: char) -> char {
    if 'A' <= c <= 'Z' {
        ((c as u32) + 32) as char
    } else {
        c
    }
}

/// Whether two texts are equal when ASCII letters are compared without case.
pub open spec fn eq_ignore_ascii_case(a: Seq<char>, b: Seq<char>) -> bool {
    a.len() == b.len() && forall|i: int| 0 <= i < a.len() ==> ascii_lower(#[trigger] a[i]) == ascii_lower(b[i])
}

/// The bit depth of a display mode's pixel encoding, if it is one of the known encodings.
pub open spec fn encoding_bit_depth(encoding: Seq<char>) -> Option<u16> {
    if eq_ignore_ascii_case(encoding, io_32bit_direct_pixels()) {
        Some(32)
    } else if eq_ignore_ascii_case(encoding, io_16bit_direct_pixels()) {
        Some(16)
    } else if eq_ignore_ascii_case(encoding, io_30bit_direct_pixels()) {
        Some(30)
    } else {
        None
    }
}

fn lower_char(c: char) -> (r: char)
    ensures
        r == ascii_lower(c),
{
    if 'A' <= c && c <= 'Z' {
        let code = (c as u32) + 32;
        assert(0x61 <= code <= 0x7a);
        char_from_ascii(code)
    } else {
        c
    }
}

/// The character of a small ASCII code.
fn char_from_ascii(code: u32) -> (r: char)
    requires
        code < 0x80,
    ensures
        r == code as char,
{
    let b = code as u8;
    b as char
}

/// Whether two texts are equal when ASCII letters are compared without case.
pub fn str_eq_ignore_ascii_case(a: &str, b: &str) -> (r: bool)
    ensures
        r == eq_ignore_ascii_case(a@, b@),
{
    let n = a.unicode_len();
    if n != b.unicode_len() {
        return false;
    }
    let mut i: usize = 0;
    while i < n
        invariant
            n == a@.len(),
            n == b@.len(),
            i <= n,
            forall|j: int| 0 <= j < i ==> ascii_lower(#[trigger] a@[j]) == ascii_lower(b@[j]),
        decreases n - i,
    {
        if lower_char(a.get_char(i)) != lower_char(b.get_char(i)) {
            return false;
        }
        i = i + 1;
    }
    true
}

/// The bit depth of a display mode's pixel encoding: 32, 16 or 30 for the known direct
/// pixel encodings (compared without ASCII case), none for another.
pub fn pixel_encoding_bit_depth(encoding: &str) -> (r: Option<u16>)
    ensures
        r == encoding_bit_depth(encoding@),
{
    if str_eq_ignore_ascii_case(encoding, "--------RRRRRRRRGGGGGGGGBBBBBBBB") {
        Some(32)
    } else if str_eq_ignore_ascii_case(encoding, "-RRRRRGGGGGBBBBB") {
        Some(16)
    } else if str_eq_ignore_ascii_case(encoding, "--RRRRRRRRRRGGGGGGGGGGBBBBBBBBBB") {
        Some(30)
    } else {
        None
    }
}

/// What a display mode reports: its size in pixels, its refresh rate in millihertz when it
/// knows one, and its pixel encoding.
#[derive(Clone, Debug, PartialEq, Eq)]
pub struct DisplayModeInfo {
    pub pixel_width: usize,
    pub pixel_height: usize,
    pub refresh_rate_millihertz: Option<u32>,
    pub pixel_encoding: String,
}

/// The video mode of a monitor for a display mode, when its pixel encoding is known; a mode
/// without a refresh rate of its own takes the monitor's (or zero).
pub open spec fn video_mode_of(
    info: DisplayModeInfo,
    monitor_refresh_millihertz: Option<u32>,
    monitor: u32,
) -> Option<VideoMode> {
    match encoding_bit_depth(info.pixel_encoding@) {
        Some(depth) => Some(
            VideoMode {
                width: info.pixel_width as u32,
                height: info.pixel_height as u32,
                bit_depth: depth,
                refresh_rate_millihertz: match info.refresh_rate_millihertz {
                    Some(rate) => rate,
                    None => match monitor_refresh_millihertz {
                        Some(rate) => rate,
                        None => 0,
                    },
                },
                monitor,
            },
        ),
        None => None,
    }
}

/// Builds the video mode of a monitor for one of its display modes.
pub fn video_mode_from_info(
    info: &DisplayModeInfo,
    monitor_refresh_millihertz: Option<u32>,
    monitor: u32,
) -> (r: Option<VideoMode>)
    ensures
        r == video_mode_of(*info, monitor_refresh_millihertz, monitor),
{
    let bit_depth = match pixel_encoding_bit_depth(info.pixel_encoding.as_str()) {
        Some(depth) => depth,
        None => {
            return None;
        },
    };
    let refresh_rate_millihertz = match info.refresh_rate_millihertz {
        Some(rate) => rate,
        None => match monitor_refresh_millihertz {
            Some(rate) => rate,
            None => 0,
        },
    };
    Some(
        VideoMode {
            width: #[verifier::truncate] (info.pixel_width as u32),
            height: #[verifier::truncate] (info.pixel_height as u32),
            bit_depth,
            refresh_rate_millihertz,
            monitor,
        },
    )
}

/// The video modes of a monitor, one for each of its display modes in order; none when a
/// display mode has an unknown pixel encoding.
pub fn video_modes(
    modes: &Vec<DisplayModeInfo>,
    monitor_refresh_millihertz: Option<u32>,
    monitor: u32,
) -> (r: Option<Vec<VideoMode>>)
    ensures
        match r {
            Some(v) => {
                &&& v.len() == modes.len()
                &&& forall|i: int|
                    0 <= i < modes.len() ==> video_mode_of(
                        #[trigger] modes[i],
                        monitor_refresh_millihertz,
                        monitor,
                    ) == Some(v[i])
            },
            None => exists|i: int|
                0 <= i < modes.len() && video_mode_of(
                    #[trigger] modes[i],
                    monitor_refresh_millihertz,
                    monitor,
                ) is None,
        },
{
    let mut result: Vec<VideoMode> = Vec::new();
    let mut i: usize = 0;
    while i < modes.len()
        invariant
            i <= modes.len(),
            result.len() == i,
            forall|j: int|
                0 <= j < i ==> video_mode_of(
                    #[trigger] modes[j],
                    monitor_refresh_millihertz,
                    monitor,
                ) == Some(result[j]),
        decreases modes.len() - i,
    {
        match video_mode_from_info(&modes[i], monitor_refresh_millihertz, monitor) {
            Some(mode) => result.push(mode),
            None => {
                return None;
            },
        }
        i = i + 1;
    }
    Some(result)
}

} // verus!
