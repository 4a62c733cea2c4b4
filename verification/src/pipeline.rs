//! The text that describes the capture pipeline to be launched.

use vstd::prelude::*;
use vstd::string::StringExecFns;

verus! {

/// The character of a decimal digit.
pub open spec fn digit_char(d: nat) -> char {
    if d == 0 {
        '0'
    } else if d == 1 {
        '1'
    } else if d == 2 {
        '2'
    } else if d == 3 {
        '3'
    } else if d == 4 {
        '4'
    } else if d == 5 {
        '5'
    } else if d == 6 {
        '6'
    } else if d == 7 {
        '7'
    } else if d == 8 {
        '8'
    } else {
        '9'
    }
}

/// A number written in decimal, without leading zeros.
pub open spec fn decimal(n: nat) -> Seq<char>
    decreases n,
{
    if n < 10 {
        seq![digit_char(n)]
    } else {
        decimal(n / 10).push(digit_char(n % 10))
    }
}

/// The element that produces the frames: the named video device where
/// devices have names, whatever the platform picks elsewhere.
pub open spec fn source_text(named_device: bool, path: Seq<char>) -> Seq<char> {
    if named_device {
        "v4l2src device="@ + path
    } else {
        "autovideosrc"@
    }
}

/// The whole pipeline: the source, conversion and scaling to one of the four
/// supported layouts at the wanted size, a vertical flip, and the sink the
/// frames are pulled from.
pub open spec fn launch_text(named_device: bool, path: Seq<char>, width: nat, height: nat) -> Seq<
    char,
> {
    source_text(named_device, path)
        + " ! videoconvert ! videoscale ! video/x-raw,format=RGB,format=RGBA,format=BGR,format=BGRA,width="@
        + decimal(width) + ",height="@ + decimal(height)
        + " ! videoflip method=vertical-flip ! appsink name=appsink async=true sync=false"@
}

fn digit(d: usize) -> (s: &'static str)
    requires
        d < 10,
    ensures
        s@ == seq![digit_char(d as nat)],
{
    proof {
        reveal_strlit("0");
        reveal_strlit("1");
        reveal_strlit("2");
        reveal_strlit("3");
        reveal_strlit("4");
        reveal_strlit("5");
        reveal_strlit("6");
        reveal_strlit("7");
        reveal_strlit("8");
        reveal_strlit("9");
    }
    let s = if d == 0 {
        "0"
    } else if d == 1 {
        "1"
    } else if d == 2 {
        "2"
    } else if d == 3 {
        "3"
    } else if d == 4 {
        "4"
    } else if d == 5 {
        "5"
    } else if d == 6 {
        "6"
    } else if d == 7 {
        "7"
    } else if d == 8 {
        "8"
    } else {
        "9"
    };
    assert(s@ =~= seq![digit_char(d as nat)]);
    s
}

/// Writes `n` in decimal.
pub fn decimal_string(n: usize) -> (s: String)
    ensures
        s@ == decimal(n as nat),
    decreases n,
{
    if n < 10 {
        String::from_str(digit(n))
    } else {
        let mut s = decimal_string(n / 10);
        s.append(digit(n % 10));
        assert(s@ =~= decimal(n as nat));
        s
    }
}

/// The description of the pipeline that captures from `path` at the given
/// size. `named_device` says whether the platform addresses video devices by
/// name; where it does not, `path` is not used.
pub fn launch_description(named_device: bool, path: &str, resolution: (usize, usize)) -> (text:
    String)
    ensures
        text@ == launch_text(named_device, path@, resolution.0 as nat, resolution.1 as nat),
{
    let mut text = if named_device {
        let mut source = String::from_str("v4l2src device=");
        source.append(path);
        source
    } else {
        String::from_str("autovideosrc")
    };
    text.append(
        " ! videoconvert ! videoscale ! video/x-raw,format=RGB,format=RGBA,format=BGR,format=BGRA,width=",
    );
    let width = decimal_string(resolution.0);
    text.append(width.as_str());
    text.append(",height=");
    let height = decimal_string(resolution.1);
    text.append(height.as_str());
    text.append(" ! videoflip method=vertical-flip ! appsink name=appsink async=true sync=false");
    text
}

} // verus!
