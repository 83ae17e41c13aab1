//! Which optional UIKit features the running OS has.

use vstd::prelude::*;
use vstd::string::StringExecFns;

verus! {

/// The version of the running OS.
#[derive(Debug, Clone, Copy, PartialEq, Eq, Structural)]
pub struct OperatingSystemVersion {
    pub major: isize,
    pub minor: isize,
    pub patch: isize,
}

/// The features of the running OS.
#[derive(Debug, Clone, Copy, PartialEq, Eq, Structural)]
pub struct OSCapabilities {
    pub safe_area: bool,
    pub home_indicator_hidden: bool,
    pub defer_system_gestures: bool,
    pub maximum_frames_per_second: bool,
    pub force_touch: bool,
    /// The version that the features were read from.
    pub os_version: OperatingSystemVersion,
}

impl OperatingSystemVersion {
    /// Whether this is `major.minor` or later.
    pub open spec fn at_least(self, major: int, minor: int) -> bool {
        self.major > major || (self.major == major && self.minor >= minor)
    }
}

impl OSCapabilities {
    /// Whether these are the features of `os_version`.
    pub open spec fn describes(self, os_version: OperatingSystemVersion) -> bool {
        &&& self.os_version == os_version
        &&& self.safe_area == os_version.at_least(11, 0)
        &&& self.home_indicator_hidden == os_version.at_least(11, 0)
        &&& self.defer_system_gestures == os_version.at_least(11, 0)
        &&& self.maximum_frames_per_second == os_version.at_least(10, 3)
        &&& self.force_touch == os_version.at_least(9, 0)
    }

    fn from_os_version(os_version: OperatingSystemVersion) -> (capabilities: Self)
        ensures
            capabilities.describes(os_version),
    {
        OSCapabilities {
            safe_area: meets_requirements(os_version, 11, 0),
            home_indicator_hidden: meets_requirements(os_version, 11, 0),
            defer_system_gestures: meets_requirements(os_version, 11, 0),
            maximum_frames_per_second: meets_requirements(os_version, 10, 3),
            force_touch: meets_requirements(os_version, 9, 0),
            os_version,
        }
    }

    /// Says that `-[UIView safeAreaInsets]` is missing.
    ///
    /// <https://developer.apple.com/documentation/uikit/uiview/2891103-safeareainsets?language=objc>
    pub fn safe_area_err_msg(&self, extra_msg: &str) -> (message: String)
        ensures
            message@ == requirement_text(
                "-[UIView safeAreaInsets]"@,
                11,
                0,
                self.os_version,
                extra_msg@,
            ),
    {
        requirement_message("-[UIView safeAreaInsets]", 11, 0, self.os_version, extra_msg)
    }

    /// Says that `-[UIViewController setNeedsUpdateOfHomeIndicatorAutoHidden]` is missing.
    ///
    /// <https://developer.apple.com/documentation/uikit/uiviewcontroller/2887509-setneedsupdateofhomeindicatoraut?language=objc>
    pub fn home_indicator_hidden_err_msg(&self, extra_msg: &str) -> (message: String)
        ensures
            message@ == requirement_text(
                "-[UIViewController setNeedsUpdateOfHomeIndicatorAutoHidden]"@,
                11,
                0,
                self.os_version,
                extra_msg@,
            ),
    {
        requirement_message(
            "-[UIViewController setNeedsUpdateOfHomeIndicatorAutoHidden]",
            11,
            0,
            self.os_version,
            extra_msg,
        )
    }

    /// Says that `-[UIViewController setNeedsUpdateOfScreenEdgesDeferringSystem]` is missing.
    ///
    /// <https://developer.apple.com/documentation/uikit/uiviewcontroller/2887507-setneedsupdateofscreenedgesdefer?language=objc>
    pub fn defer_system_gestures_err_msg(&self, extra_msg: &str) -> (message: String)
        ensures
            message@ == requirement_text(
                "-[UIViewController setNeedsUpdateOfScreenEdgesDeferringSystem]"@,
                11,
                0,
                self.os_version,
                extra_msg@,
            ),
    {
        requirement_message(
            "-[UIViewController setNeedsUpdateOfScreenEdgesDeferringSystem]",
            11,
            0,
            self.os_version,
            extra_msg,
        )
    }

    /// Says that `-[UIScreen maximumFramesPerSecond]` is missing.
    ///
    /// <https://developer.apple.com/documentation/uikit/uiscreen/2806814-maximumframespersecond?language=objc>
    pub fn maximum_frames_per_second_err_msg(&self, extra_msg: &str) -> (message: String)
        ensures
            message@ == requirement_text(
                "-[UIScreen maximumFramesPerSecond]"@,
                10,
                3,
                self.os_version,
                extra_msg@,
            ),
    {
        requirement_message("-[UIScreen maximumFramesPerSecond]", 10, 3, self.os_version, extra_msg)
    }

    /// Says that `-[UITouch force]` is missing.
    ///
    /// <https://developer.apple.com/documentation/uikit/uitouch/1618110-force?language=objc>
    pub fn force_touch_err_msg(&self, extra_msg: &str) -> (message: String)
        ensures
            message@ == requirement_text("-[UITouch force]"@, 9, 0, self.os_version, extra_msg@),
    {
        requirement_message("-[UITouch force]", 9, 0, self.os_version, extra_msg)
    }
}

/// Whether `version` is `required_major.required_minor` or later.
pub fn meets_requirements(
    version: OperatingSystemVersion,
    required_major: isize,
    required_minor: isize,
) -> (meets: bool)
    ensures
        meets == version.at_least(required_major as int, required_minor as int),
{
    version.major > required_major || (version.major == required_major && version.minor
        >= required_minor)
}

/// The features of an OS of this version.
pub fn os_capabilities(os_version: OperatingSystemVersion) -> (capabilities: OSCapabilities)
    ensures
        capabilities.describes(os_version),
{
    OSCapabilities::from_os_version(os_version)
}

/// The decimal digit of `value`.
pub open spec fn digit(value: int) -> char {
    ('0' as int + value) as char
}

/// A natural number in decimal.
pub open spec fn digits(number: nat) -> Seq<char>
    decreases number,
{
    if number < 10 {
        seq![digit(number as int)]
    } else {
        digits(number / 10).push(digit((number % 10) as int))
    }
}

/// A number in decimal.
pub open spec fn decimal(number: int) -> Seq<char> {
    if number < 0 {
        seq!['-'] + digits((-number) as nat)
    } else {
        digits(number as nat)
    }
}

/// What is said of a call that needs a later OS.
pub open spec fn requirement_text(
    objc_call: Seq<char>,
    major: int,
    minor: int,
    version: OperatingSystemVersion,
    extra_msg: Seq<char>,
) -> Seq<char> {
    "`"@ + objc_call + "` requires iOS "@ + decimal(major) + "."@ + decimal(minor)
        + "+. This device is running iOS "@ + decimal(version.major as int) + "."@ + decimal(
        version.minor as int,
    ) + "."@ + decimal(version.patch as int) + ". "@ + extra_msg
}

fn digit_text(value: u128) -> (text: &'static str)
    requires
        value < 10,
    ensures
        text@ == seq![digit(value as int)],
{
    proof {
        reveal_strlit("0");
        reveal_strlit("1");
        reveal_strlit("2");
        reveal_strlit("3");
        reveal_strlit("4");
        reveal_strlit("5");
        reveal_strlit("6");
        reveal_strlit("7");
        reveal_strlit("8");
        reveal_strlit("9");
    }
    match value {
        0 => "0",
        1 => "1",
        2 => "2",
        3 => "3",
        4 => "4",
        5 => "5",
        6 => "6",
        7 => "7",
        8 => "8",
        _ => "9",
    }
}

fn append_digits(text: &mut String, number: u128)
    ensures
        final(text)@ == old(text)@ + digits(number as nat),
    decreases number,
{
    if number >= 10 {
        append_digits(text, number / 10);
    }
    text.append(digit_text(number % 10));
}

fn append_decimal(text: &mut String, number: isize)
    ensures
        final(text)@ == old(text)@ + decimal(number as int),
{
    if number < 0 {
        proof {
            reveal_strlit("-");
        }
        text.append("-");
        append_digits(text, (-(number as i128)) as u128);
    } else {
        append_digits(text, number as u128);
    }
}

fn requirement_message(
    objc_call: &str,
    major: isize,
    minor: isize,
    version: OperatingSystemVersion,
    extra_msg: &str,
) -> (message: String)
    ensures
        message@ == requirement_text(
            objc_call@,
            major as int,
            minor as int,
            version,
            extra_msg@,
        ),
{
    let mut message = String::from_str("`");
    message.append(objc_call);
    message.append("` requires iOS ");
    append_decimal(&mut message, major);
    message.append(".");
    append_decimal(&mut message, minor);
    message.append("+. This device is running iOS ");
    append_decimal(&mut message, version.major);
    message.append(".");
    append_decimal(&mut message, version.minor);
    message.append(".");
    append_decimal(&mut message, version.patch);
    message.append(". ");
    message.append(extra_msg);
    message
}

} // verus!
