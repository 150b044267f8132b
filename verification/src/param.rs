//! Command-line value parsing and validation for the recorder: keyword
//! matching (case-insensitive), decimal parsing, range clamping, and the
//! assembly of a validated [`Parameter`] from raw argument strings.

use vstd::prelude::*;
use vstd::string::StrSliceExecFns;
use vstd::string::StringExecFns;
use crate::device::DeviceConfiguration;
use crate::enums::{ColorResolution, DepthMode, Fps, ImageFormat, WiredSyncMode};
use crate::recorder::Error;

verus! {

/// ASCII lowercasing of one character; everything outside `A`..`Z` is left
/// unchanged.
pub open spec fn lower_char(c: char) -> char {
    if 65 <= c as int && c as int <= 90 {
        ((c as int + 32) as u8) as char
    } else {
        c
    }
}

/// ASCII lowercasing of a character sequence.
pub open spec fn lower_chars(s: Seq<char>) -> Seq<char> {
    Seq::new(s.len(), |i: int| lower_char(s[i]))
}

fn to_lower_char(c: char) -> (r: char)
    ensures
        r == lower_char(c),
{
    let code: u32 = c as u32;
    if 65 <= code && code <= 90 {
        ((code + 32) as u8) as char
    } else {
        c
    }
}

/// Whether `value`, lowercased, reads exactly as `keyword`.
pub fn matches_lowered(value: &str, keyword: &str) -> (r: bool)
    ensures
        r == (lower_chars(value@) == keyword@),
{
    let n = value.unicode_len();
    if n != keyword.unicode_len() {
        proof {
            assert(lower_chars(value@).len() == value@.len());
        }
        return false;
    }
    let mut i: usize = 0;
    while i < n
        invariant
            n == value@.len(),
            n == keyword@.len(),
            i <= n,
            forall|j: int| 0 <= j < i ==> lower_chars(value@)[j] == keyword@[j],
        decreases n - i,
    {
        let c = value.get_char(i);
        let k = keyword.get_char(i);
        if to_lower_char(c) != k {
            proof {
                assert(lower_chars(value@)[i as int] != keyword@[i as int]);
            }
            return false;
        }
        i += 1;
    }
    proof {
        assert(lower_chars(value@) =~= keyword@);
    }
    true
}

/// Whether `c` is an ASCII decimal digit.
pub open spec fn is_digit_char(c: char) -> bool {
    48 <= c as int && c as int <= 57
}

/// The numeric value of a digit character.
pub open spec fn digit_value(c: char) -> int {
    c as int - 48
}

/// Whether every character of `s` is an ASCII decimal digit.
pub open spec fn all_digits(s: Seq<char>) -> bool {
    forall|i: int| 0 <= i < s.len() ==> is_digit_char(#[trigger] s[i])
}

/// The value of a digit string read in base ten.
pub open spec fn digits_value(s: Seq<char>) -> int
    decreases s.len(),
{
    if s.len() == 0 {
        0
    } else {
        10 * digits_value(s.drop_last()) + digit_value(s.last())
    }
}

proof fn lemma_digits_value_nonneg(s: Seq<char>)
    requires
        all_digits(s),
    ensures
        digits_value(s) >= 0,
    decreases s.len(),
{
    if s.len() > 0 {
        assert(all_digits(s.drop_last()));
        lemma_digits_value_nonneg(s.drop_last());
    }
}

proof fn lemma_digits_value_prefix_le(s: Seq<char>, i: int)
    requires
        all_digits(s),
        0 <= i <= s.len(),
    ensures
        digits_value(s.subrange(0, i)) <= digits_value(s),
    decreases s.len() - i,
{
    if i < s.len() {
        lemma_digits_value_prefix_le(s, i + 1);
        let p = s.subrange(0, i + 1);
        assert(p.drop_last() =~= s.subrange(0, i));
        assert(all_digits(s.subrange(0, i)));
        lemma_digits_value_nonneg(s.subrange(0, i));
    } else {
        assert(s.subrange(0, i) =~= s);
    }
}

/// Reads a string of bare decimal digits as a `u64`. Returns `None` on an
/// empty string, a non-digit character, or overflow.
fn parse_digits(s: &str) -> (r: Option<u64>)
    ensures
        match r {
            Some(v) => s@.len() > 0 && all_digits(s@) && v == digits_value(s@),
            None => s@.len() == 0 || !all_digits(s@) || digits_value(s@) > u64::MAX,
        },
{
    let n = s.unicode_len();
    if n == 0 {
        return None;
    }
    let mut acc: u64 = 0;
    let mut i: usize = 0;
    while i < n
        invariant
            n == s@.len(),
            i <= n,
            all_digits(s@.subrange(0, i as int)),
            acc == digits_value(s@.subrange(0, i as int)),
        decreases n - i,
    {
        let c = s.get_char(i);
        let code: u32 = c as u32;
        if code < 48 || code > 57 {
            proof {
                assert(!is_digit_char(s@[i as int]));
            }
            return None;
        }
        let d: u64 = (code - 48) as u64;
        proof {
            let p = s@.subrange(0, i as int + 1);
            assert(p.drop_last() =~= s@.subrange(0, i as int));
            assert(p.last() == s@[i as int]);
        }
        let shifted = match acc.checked_mul(10) {
            Some(m) => m,
            None => {
                proof {
                    overflow_case(s@, i as int, 10 * acc as int + d as int);
                }
                return None;
            },
        };
        acc = match shifted.checked_add(d) {
            Some(x) => x,
            None => {
                proof {
                    overflow_case(s@, i as int, 10 * acc as int + d as int);
                }
                return None;
            },
        };
        i += 1;
    }
    proof {
        assert(s@.subrange(0, n as int) =~= s@);
    }
    Some(acc)
}

/// In `parse_u64`, the accumulator for the prefix ending at `i` has
/// overflowed; whatever the rest of the string holds, the whole string's
/// value cannot fit either, or the string is not all digits.
proof fn overflow_case(s: Seq<char>, i: int, prefix_value: int)
    requires
        0 <= i < s.len(),
        is_digit_char(s[i]),
        all_digits(s.subrange(0, i)),
        prefix_value == digits_value(s.subrange(0, i + 1)),
        prefix_value > u64::MAX,
    ensures
        !all_digits(s) || digits_value(s) > u64::MAX,
{
    if all_digits(s) {
        lemma_digits_value_prefix_le(s, i + 1);
    }
}

/// The value an unsigned decimal string denotes, if it is well-formed: an
/// optional leading plus sign followed by one or more digits.
pub open spec fn spec_parse_unsigned(s: Seq<char>) -> Option<int> {
    let t = if s.len() > 0 && s[0] == '+' {
        s.subrange(1, s.len() as int)
    } else {
        s
    };
    if t.len() > 0 && all_digits(t) {
        Some(digits_value(t))
    } else {
        None
    }
}

/// Reads an unsigned decimal string, with an optional leading plus sign, as
/// a `u64`.
pub fn parse_u64(s: &str) -> (r: Option<u64>)
    ensures
        match r {
            Some(v) => spec_parse_unsigned(s@) == Some(v as int),
            None => spec_parse_unsigned(s@) matches Some(v) ==> v > u64::MAX,
        },
{
    let n = s.unicode_len();
    if n > 0 && s.get_char(0) == '+' {
        parse_digits(s.substring_char(1, n))
    } else {
        parse_digits(s)
    }
}

/// The value a signed decimal string denotes, if it is well-formed: an
/// optional sign followed by one or more digits.
pub open spec fn spec_parse_signed(s: Seq<char>) -> Option<int> {
    if s.len() > 0 && s[0] == '-' {
        let t = s.subrange(1, s.len() as int);
        if t.len() > 0 && all_digits(t) {
            Some(-digits_value(t))
        } else {
            None
        }
    } else {
        spec_parse_unsigned(s)
    }
}

/// Reads an optionally signed string of decimal digits as an `i64`.
pub fn parse_i64(s: &str) -> (r: Option<i64>)
    ensures
        match r {
            Some(v) => spec_parse_signed(s@) == Some(v as int),
            None => spec_parse_signed(s@) matches Some(v) ==> (v > i64::MAX || v < i64::MIN),
        },
{
    let n = s.unicode_len();
    if n == 0 {
        return None;
    }
    if s.get_char(0) == '-' {
        let t = s.substring_char(1, n);
        match parse_digits(t) {
            Some(v) => {
                proof {
                    if all_digits(t@) {
                        lemma_digits_value_nonneg(t@);
                    }
                }
                if v <= 9223372036854775807u64 {
                    Some(-(v as i64))
                } else if v == 9223372036854775808u64 {
                    Some(i64::MIN)
                } else {
                    None
                }
            },
            None => None,
        }
    } else {
        match parse_u64(s) {
            Some(v) => {
                if v <= 9223372036854775807u64 {
                    Some(v as i64)
                } else {
                    None
                }
            },
            None => None,
        }
    }
}

/// Reads an optional argument as an `i32` and hands the parsed value to
/// `f`; `None` when the argument is absent or does not read as an `i32`.
pub fn correct_param<F: Fn(i32) -> i32>(value: Option<&str>, f: &F) -> (r: Option<i32>)
    requires
        forall|v: i32| call_requires(f, (v,)),
    ensures
        match r {
            Some(w) => value matches Some(s) && spec_parse_signed(s@) matches Some(v)
                && i32::MIN <= v <= i32::MAX && call_ensures(f, (v as i32,), w),
            None => value matches Some(s) ==> !(spec_parse_signed(s@) matches Some(v)
                && i32::MIN <= v <= i32::MAX),
        },
{
    match value {
        Some(s) => match parse_i64(s) {
            Some(v) => {
                if -2147483648i64 <= v && v <= 2147483647i64 {
                    Some(f(v as i32))
                } else {
                    None
                }
            },
            None => None,
        },
        None => None,
    }
}

/// The clamp of `v` into `min..=max`.
pub open spec fn spec_clamped(v: int, min: int, max: int) -> int {
    if v < min {
        min
    } else if v > max {
        max
    } else {
        v
    }
}

/// Reads an optional argument as an `i32` clamped into `min..=max`; `None`
/// when the argument is absent or does not read as an `i32`.
pub fn correct_param_range(value: Option<&str>, min: i32, max: i32) -> (r: Option<i32>)
    requires
        min <= max,
    ensures
        match r {
            Some(w) => value matches Some(s) && spec_parse_signed(s@) matches Some(v)
                && i32::MIN <= v <= i32::MAX && w == spec_clamped(v, min as int, max as int),
            None => value matches Some(s) ==> !(spec_parse_signed(s@) matches Some(v)
                && i32::MIN <= v <= i32::MAX),
        },
{
    let clamp = |v: i32| -> (w: i32)
        requires
            min <= max,
        ensures
            w == spec_clamped(v as int, min as int, max as int),
        {
            if v < min {
                min
            } else if v > max {
                max
            } else {
                v
            }
        };
    correct_param(value, &clamp)
}

/// The color mode a lowercased keyword denotes.
pub open spec fn spec_color_mode_of(l: Seq<char>) -> Option<(ImageFormat, ColorResolution)> {
    if l == "3072p"@ {
        Some((ImageFormat::MJPG, ColorResolution::_3072p))
    } else if l == "2160p"@ {
        Some((ImageFormat::MJPG, ColorResolution::_2160p))
    } else if l == "1536p"@ {
        Some((ImageFormat::MJPG, ColorResolution::_1536p))
    } else if l == "1440p"@ {
        Some((ImageFormat::MJPG, ColorResolution::_1440p))
    } else if l == "1080p"@ {
        Some((ImageFormat::MJPG, ColorResolution::_1080p))
    } else if l == "720p"@ {
        Some((ImageFormat::MJPG, ColorResolution::_720p))
    } else if l == "720p_nv12"@ {
        Some((ImageFormat::NV12, ColorResolution::_720p))
    } else if l == "720p_yuy2"@ {
        Some((ImageFormat::YUY2, ColorResolution::_720p))
    } else if l == "off"@ {
        Some((ImageFormat::MJPG, ColorResolution::Off))
    } else {
        None
    }
}

/// Reads a color-mode keyword, case-insensitively.
pub fn to_format_and_resolution(value: &str) -> (r: Result<
    (ImageFormat, ColorResolution),
    Error<'static>,
>)
    ensures
        match r {
            Ok(v) => spec_color_mode_of(lower_chars(value@)) == Some(v),
            Err(e) => spec_color_mode_of(lower_chars(value@)) is None && e.spec_message()
                == "Unknown color mode specified: "@ + value@,
        },
{
    if matches_lowered(value, "3072p") {
        Ok((ImageFormat::MJPG, ColorResolution::_3072p))
    } else if matches_lowered(value, "2160p") {
        Ok((ImageFormat::MJPG, ColorResolution::_2160p))
    } else if matches_lowered(value, "1536p") {
        Ok((ImageFormat::MJPG, ColorResolution::_1536p))
    } else if matches_lowered(value, "1440p") {
        Ok((ImageFormat::MJPG, ColorResolution::_1440p))
    } else if matches_lowered(value, "1080p") {
        Ok((ImageFormat::MJPG, ColorResolution::_1080p))
    } else if matches_lowered(value, "720p") {
        Ok((ImageFormat::MJPG, ColorResolution::_720p))
    } else if matches_lowered(value, "720p_nv12") {
        Ok((ImageFormat::NV12, ColorResolution::_720p))
    } else if matches_lowered(value, "720p_yuy2") {
        Ok((ImageFormat::YUY2, ColorResolution::_720p))
    } else if matches_lowered(value, "off") {
        Ok((ImageFormat::MJPG, ColorResolution::Off))
    } else {
        Err(Error::Error(String::from_str("Unknown color mode specified: ").concat(value)))
    }
}

/// The depth mode a lowercased keyword denotes.
pub open spec fn spec_depth_mode_of(l: Seq<char>) -> Option<DepthMode> {
    if l == "nfov_2x2binned"@ {
        Some(DepthMode::NFov2x2Binned)
    } else if l == "nfov_unbinned"@ {
        Some(DepthMode::NFovUnbinned)
    } else if l == "wfov_2x2binned"@ {
        Some(DepthMode::WFov2x2Binned)
    } else if l == "wfov_unbinned"@ {
        Some(DepthMode::WFovUnbinned)
    } else if l == "passive_ir"@ {
        Some(DepthMode::PassiveIr)
    } else if l == "off"@ {
        Some(DepthMode::Off)
    } else {
        None
    }
}

/// Reads a depth-mode keyword, case-insensitively.
pub fn to_depth_mode(value: &str) -> (r: Result<DepthMode, Error<'static>>)
    ensures
        match r {
            Ok(v) => spec_depth_mode_of(lower_chars(value@)) == Some(v),
            Err(e) => spec_depth_mode_of(lower_chars(value@)) is None && e.spec_message()
                == "Unknown depth mode specified: "@ + value@,
        },
{
    if matches_lowered(value, "nfov_2x2binned") {
        Ok(DepthMode::NFov2x2Binned)
    } else if matches_lowered(value, "nfov_unbinned") {
        Ok(DepthMode::NFovUnbinned)
    } else if matches_lowered(value, "wfov_2x2binned") {
        Ok(DepthMode::WFov2x2Binned)
    } else if matches_lowered(value, "wfov_unbinned") {
        Ok(DepthMode::WFovUnbinned)
    } else if matches_lowered(value, "passive_ir") {
        Ok(DepthMode::PassiveIr)
    } else if matches_lowered(value, "off") {
        Ok(DepthMode::Off)
    } else {
        Err(Error::Error(String::from_str("Unknown depth mode specified: ").concat(value)))
    }
}

/// The frame rate a keyword denotes; matched exactly, as the native rates
/// are bare numbers.
pub open spec fn spec_frame_rate_of(s: Seq<char>) -> Option<Fps> {
    if s == "30"@ {
        Some(Fps::_30fps)
    } else if s == "15"@ {
        Some(Fps::_15fps)
    } else if s == "5"@ {
        Some(Fps::_5fps)
    } else {
        None
    }
}

/// Reads a frame-rate keyword.
pub fn to_frame_rate(value: &str) -> (r: Result<Fps, Error<'static>>)
    ensures
        match r {
            Ok(v) => spec_frame_rate_of(value@) == Some(v),
            Err(e) => spec_frame_rate_of(value@) is None && e.spec_message()
                == "Unknown frame rate specified: "@ + value@,
        },
{
    if str_eq(value, "30") {
        Ok(Fps::_30fps)
    } else if str_eq(value, "15") {
        Ok(Fps::_15fps)
    } else if str_eq(value, "5") {
        Ok(Fps::_5fps)
    } else {
        Err(Error::Error(String::from_str("Unknown frame rate specified: ").concat(value)))
    }
}

/// Exact string equality.
fn str_eq(a: &str, b: &str) -> (r: bool)
    ensures
        r == (a@ == b@),
{
    let n = a.unicode_len();
    if n != b.unicode_len() {
        return false;
    }
    let mut i: usize = 0;
    while i < n
        invariant
            n == a@.len(),
            n == b@.len(),
            i <= n,
            forall|j: int| 0 <= j < i ==> a@[j] == b@[j],
        decreases n - i,
    {
        if a.get_char(i) != b.get_char(i) {
            return false;
        }
        i += 1;
    }
    proof {
        assert(a@ =~= b@);
    }
    true
}

/// Whether a lowercased keyword enables IMU recording.
pub open spec fn spec_imu_mode_of(l: Seq<char>) -> Option<bool> {
    if l == "on"@ {
        Some(true)
    } else if l == "off"@ {
        Some(false)
    } else {
        None
    }
}

/// Reads the IMU on/off keyword, case-insensitively.
pub fn to_imu_mode(value: &str) -> (r: Result<bool, Error<'static>>)
    ensures
        match r {
            Ok(v) => spec_imu_mode_of(lower_chars(value@)) == Some(v),
            Err(e) => spec_imu_mode_of(lower_chars(value@)) is None && e.spec_message()
                == "Unknown imu mode specified: "@ + value@,
        },
{
    if matches_lowered(value, "on") {
        Ok(true)
    } else if matches_lowered(value, "off") {
        Ok(false)
    } else {
        Err(Error::Error(String::from_str("Unknown imu mode specified: ").concat(value)))
    }
}

/// The synchronization role a lowercased keyword denotes.
pub open spec fn spec_sync_mode_of(l: Seq<char>) -> Option<WiredSyncMode> {
    if l == "master"@ {
        Some(WiredSyncMode::Master)
    } else if l == "subordinate"@ {
        Some(WiredSyncMode::Subordinate)
    } else if l == "sub"@ {
        Some(WiredSyncMode::Subordinate)
    } else if l == "standalone"@ {
        Some(WiredSyncMode::Standalone)
    } else {
        None
    }
}

/// The device index an optional argument denotes; anything unreadable means
/// the first device.
pub open spec fn spec_index_of(o: Option<String>) -> u32 {
    spec_u32_or_zero(o)
}

/// The recording length in seconds an optional argument denotes; anything
/// unreadable means an unbounded recording.
pub open spec fn spec_record_length_of(o: Option<String>) -> Option<u64> {
    match o {
        Some(s) => match spec_parse_unsigned(s@) {
            Some(v) => if v <= u64::MAX {
                Some(v as u64)
            } else {
                None
            },
            None => None,
        },
        None => None,
    }
}

/// The signed microsecond delay an optional argument denotes; anything
/// unreadable means zero.
pub open spec fn spec_i32_or_zero(o: Option<String>) -> i32 {
    match o {
        Some(s) => match spec_parse_signed(s@) {
            Some(v) => if i32::MIN <= v <= i32::MAX {
                v as i32
            } else {
                0
            },
            None => 0,
        },
        None => 0,
    }
}

/// The unsigned microsecond delay an optional argument denotes; anything
/// unreadable means zero.
pub open spec fn spec_u32_or_zero(o: Option<String>) -> u32 {
    match o {
        Some(s) => match spec_parse_unsigned(s@) {
            Some(v) => if v <= u32::MAX {
                v as u32
            } else {
                0
            },
            None => 0,
        },
        None => 0,
    }
}

/// What an optional argument clamped into `min..=max` denotes: the clamp of
/// a readable `i32`, nothing otherwise.
pub open spec fn spec_clamped_param(o: Option<String>, min: i32, max: i32) -> Option<i32> {
    match o {
        Some(s) => match spec_parse_signed(s@) {
            Some(v) => if i32::MIN <= v <= i32::MAX {
                Some(spec_clamped(v, min as int, max as int) as i32)
            } else {
                None
            },
            None => None,
        },
        None => None,
    }
}

/// The IMU keyword to read: the given argument, or `ON` by default.
pub open spec fn spec_imu_input(o: Option<String>) -> Seq<char> {
    match o {
        Some(s) => s@,
        None => "ON"@,
    }
}

fn parse_u32_or_zero(o: &Option<String>) -> (r: u32)
    ensures
        r == spec_u32_or_zero(*o),
        r == spec_index_of(*o),
{
    match o {
        Some(s) => match parse_u64(s.as_str()) {
            Some(v) => {
                if v <= 4294967295u64 {
                    v as u32
                } else {
                    0
                }
            },
            None => 0,
        },
        None => 0,
    }
}

fn parse_record_length(o: &Option<String>) -> (r: Option<u64>)
    ensures
        r == spec_record_length_of(*o),
{
    match o {
        Some(s) => parse_u64(s.as_str()),
        None => None,
    }
}

fn parse_i32_or_zero(o: &Option<String>) -> (r: i32)
    ensures
        r == spec_i32_or_zero(*o),
{
    match o {
        Some(s) => match parse_i64(s.as_str()) {
            Some(v) => {
                if -2147483648i64 <= v && v <= 2147483647i64 {
                    v as i32
                } else {
                    0
                }
            },
            None => 0,
        },
        None => 0,
    }
}

fn clamped_param(o: &Option<String>, min: i32, max: i32) -> (r: Option<i32>)
    requires
        min <= max,
    ensures
        r == spec_clamped_param(*o, min, max),
{
    match o {
        Some(s) => correct_param_range(Some(s.as_str()), min, max),
        None => None,
    }
}

/// The validated inputs of one recording run.
#[derive(Debug)]
pub struct Parameter {
    pub list_device: bool,
    pub device_index: u32,
    pub recording_filename: String,
    /// A recording length in seconds; `None` records until aborted.
    pub recording_length: Option<u64>,
    pub device_config: DeviceConfiguration,
    pub record_imu: bool,
    pub absolute_exposure_value: Option<i32>,
    pub gain: Option<i32>,
}

/// The raw argument strings, exactly as the command line handed them over.
#[derive(Debug)]
pub struct RawArgs {
    pub list: bool,
    pub device: Option<String>,
    pub record_length: Option<String>,
    pub color_mode: String,
    pub depth_mode: String,
    pub depth_delay: Option<String>,
    pub rate: String,
    pub imu: Option<String>,
    pub external_sync: String,
    pub sync_delay: Option<String>,
    pub exposure_control: Option<String>,
    pub gain: Option<String>,
    pub output: Option<String>,
}

/// The unsupported pairing of thirty frames per second with the widest
/// depth mode or the tallest color resolution.
pub open spec fn spec_unsupported_rate_combination(
    fps: Fps,
    depth: DepthMode,
    color: ColorResolution,
) -> bool {
    fps == Fps::_30fps && (depth == DepthMode::WFovUnbinned || color == ColorResolution::_3072p)
}

impl Parameter {
    /// Validates raw argument strings into a [`Parameter`]: every keyword
    /// must be known, the frame rate must be supported by the chosen modes,
    /// and a synchronization delay is only accepted in the subordinate role.
    pub fn from(args: &RawArgs) -> (r: Result<Parameter, Error<'static>>)
        ensures
            ({
                let cm = spec_color_mode_of(lower_chars(args.color_mode@));
                let dm = spec_depth_mode_of(lower_chars(args.depth_mode@));
                let fr = spec_frame_rate_of(args.rate@);
                let sm = spec_sync_mode_of(lower_chars(args.external_sync@));
                let im = spec_imu_mode_of(lower_chars(spec_imu_input(args.imu)));
                let combo = spec_unsupported_rate_combination(
                    fr.unwrap(),
                    dm.unwrap(),
                    cm.unwrap().1,
                );
                let delay_misuse = spec_u32_or_zero(args.sync_delay) > 0 && sm.unwrap()
                    != WiredSyncMode::Subordinate;
                &&& (cm is None ==> (r matches Err(e) && e.spec_message()
                    == "Unknown color mode specified: "@ + args.color_mode@))
                &&& (cm is Some && dm is None ==> (r matches Err(e) && e.spec_message()
                    == "Unknown depth mode specified: "@ + args.depth_mode@))
                &&& (cm is Some && dm is Some && fr is None ==> (r matches Err(e)
                    && e.spec_message() == "Unknown frame rate specified: "@ + args.rate@))
                &&& (cm is Some && dm is Some && fr is Some && sm is None ==> (r matches Err(e)
                    && e.spec_message() == "Unknown external sync mode specified: "@
                    + args.external_sync@))
                &&& (cm is Some && dm is Some && fr is Some && sm is Some && im is None
                    ==> (r matches Err(e) && e.spec_message() == "Unknown imu mode specified: "@
                    + spec_imu_input(args.imu)))
                &&& (cm is Some && dm is Some && fr is Some && sm is Some && im is Some && combo
                    ==> (r matches Err(e) && e.spec_message()
                    == "Error: 30 Frames per second is not supported by this camera mode."@))
                &&& (cm is Some && dm is Some && fr is Some && sm is Some && im is Some && !combo
                    && delay_misuse ==> (r matches Err(e) && e.spec_message()
                    == "--sync-delay is only valid if --external-sync is set to Subordinate."@))
                &&& (cm is Some && dm is Some && fr is Some && sm is Some && im is Some && !combo
                    && !delay_misuse ==> (r matches Ok(p) && p.list_device == args.list
                    && p.device_index == spec_index_of(args.device) && p.recording_filename@
                    == (match args.output {
                    Some(s) => s@,
                    None => Seq::<char>::empty(),
                }) && p.recording_length == spec_record_length_of(args.record_length)
                    && p.device_config.color_format == cm.unwrap().0
                    && p.device_config.color_resolution == cm.unwrap().1
                    && p.device_config.depth_mode == dm.unwrap() && p.device_config.camera_fps
                    == fr.unwrap() && !p.device_config.synchronized_images_only
                    && p.device_config.depth_delay_off_color_usec == spec_i32_or_zero(
                    args.depth_delay,
                ) && p.device_config.wired_sync_mode == sm.unwrap()
                    && p.device_config.subordinate_delay_off_master_usec == spec_u32_or_zero(
                    args.sync_delay,
                ) && !p.device_config.disable_streaming_indicator && p.record_imu == im.unwrap()
                    && p.absolute_exposure_value == spec_clamped_param(
                    args.exposure_control,
                    2,
                    200000,
                ) && p.gain == spec_clamped_param(args.gain, 0, 255)))
            }),
    {
        let format_resolution = match to_format_and_resolution(args.color_mode.as_str()) {
            Ok(v) => v,
            Err(e) => {
                return Err(e);
            },
        };
        let depth_mode = match to_depth_mode(args.depth_mode.as_str()) {
            Ok(v) => v,
            Err(e) => {
                return Err(e);
            },
        };
        let camera_fps = match to_frame_rate(args.rate.as_str()) {
            Ok(v) => v,
            Err(e) => {
                return Err(e);
            },
        };
        let wired_sync_mode = match to_external_sync(args.external_sync.as_str()) {
            Ok(v) => v,
            Err(e) => {
                return Err(e);
            },
        };
        let record_imu = match &args.imu {
            Some(s) => to_imu_mode(s.as_str()),
            None => to_imu_mode("ON"),
        };
        let record_imu = match record_imu {
            Ok(v) => v,
            Err(e) => {
                return Err(e);
            },
        };
        let device_config = DeviceConfiguration::builder()
            .color_format(format_resolution.0)
            .color_resolution(format_resolution.1)
            .depth_mode(depth_mode)
            .camera_fps(camera_fps)
            .synchronized_images_only(false)
            .depth_delay_off_color_usec(parse_i32_or_zero(&args.depth_delay))
            .wired_sync_mode(wired_sync_mode)
            .subordinate_delay_off_master_usec(parse_u32_or_zero(&args.sync_delay))
            .disable_streaming_indicator(false)
            .build();
        let param = Parameter {
            list_device: args.list,
            device_index: parse_u32_or_zero(&args.device),
            recording_filename: match &args.output {
                Some(s) => s.clone(),
                None => String::new(),
            },
            recording_length: parse_record_length(&args.record_length),
            device_config,
            record_imu,
            absolute_exposure_value: clamped_param(&args.exposure_control, 2, 200000),
            gain: clamped_param(&args.gain, 0, 255),
        };

        if param.device_config.camera_fps() == Fps::_30fps && (param.device_config.depth_mode()
            == DepthMode::WFovUnbinned || param.device_config.color_resolution()
            == ColorResolution::_3072p) {
            return Err(
                Error::ErrorStr("Error: 30 Frames per second is not supported by this camera mode."),
            );
        }

        if param.device_config.subordinate_delay_off_master_usec() > 0
            && param.device_config.wired_sync_mode() != WiredSyncMode::Subordinate {
            return Err(
                Error::ErrorStr("--sync-delay is only valid if --external-sync is set to Subordinate."),
            );
        }

        Ok(param)
    }
}

/// Reads an external-sync keyword, case-insensitively.
pub fn to_external_sync(value: &str) -> (r: Result<WiredSyncMode, Error<'static>>)
    ensures
        match r {
            Ok(v) => spec_sync_mode_of(lower_chars(value@)) == Some(v),
            Err(e) => spec_sync_mode_of(lower_chars(value@)) is None && e.spec_message()
                == "Unknown external sync mode specified: "@ + value@,
        },
{
    if matches_lowered(value, "master") {
        Ok(WiredSyncMode::Master)
    } else if matches_lowered(value, "subordinate") {
        Ok(WiredSyncMode::Subordinate)
    } else if matches_lowered(value, "sub") {
        Ok(WiredSyncMode::Subordinate)
    } else if matches_lowered(value, "standalone") {
        Ok(WiredSyncMode::Standalone)
    } else {
        Err(Error::Error(String::from_str("Unknown external sync mode specified: ").concat(value)))
    }
}

} // verus!
