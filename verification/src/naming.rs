//! Texts the editor derives from integers: the name of an exported image
//! and the overlay color.
use vstd::prelude::*;
use vstd::string::*;
use crate::text::{decimal, push_decimal, push_zero_padded, zero_padded};

verus! {

/// Red, green and blue of the measurement overlay color.
pub const OVERLAY_RGB: (u8, u8, u8) = (0, 200, 230);

/// The CSS color `rgb(r, g, b)`.
pub open spec fn rgb_text(r: nat, g: nat, b: nat) -> Seq<char> {
    "rgb("@ + decimal(r) + ", "@ + decimal(g) + ", "@ + decimal(b) + ")"@
}

/// The overlay color as a CSS color, for drawing onto a canvas.
pub fn overlay_color() -> (color: String)
    ensures
        color@ == rgb_text(OVERLAY_RGB.0 as nat, OVERLAY_RGB.1 as nat, OVERLAY_RGB.2 as nat),
{
    let (r, g, b) = OVERLAY_RGB;
    let mut out = String::new();
    out.append("rgb(");
    push_decimal(&mut out, r as u64);
    out.append(", ");
    push_decimal(&mut out, g as u64);
    out.append(", ");
    push_decimal(&mut out, b as u64);
    out.append(")");
    out
}

/// Name of an image exported at the given local date and time, showing the
/// measured angle as `angle`: `angulito_YYYY-MM-DD_hh-mm-ss_<angle>deg.png`,
/// every field zero-padded, the month counted from 1.
pub open spec fn export_name(
    year: nat,
    month: nat,
    day: nat,
    hours: nat,
    minutes: nat,
    seconds: nat,
    angle: Seq<char>,
) -> Seq<char> {
    "angulito_"@ + zero_padded(year, 4) + "-"@ + zero_padded(month, 2) + "-"@ + zero_padded(day, 2)
        + "_"@ + zero_padded(hours, 2) + "-"@ + zero_padded(minutes, 2) + "-"@ + zero_padded(
        seconds,
        2,
    ) + "_"@ + angle + "deg.png"@
}

/// Name for an image exported at the given time. `month_index` counts
/// months from 0, as the browser's clock reports them; `angle` is the
/// angle as displayed.
pub fn export_file_name(
    year: u32,
    month_index: u32,
    day: u32,
    hours: u32,
    minutes: u32,
    seconds: u32,
    angle: &str,
) -> (name: String)
    requires
        month_index < u32::MAX,
    ensures
        name@ == export_name(
            year as nat,
            (month_index + 1) as nat,
            day as nat,
            hours as nat,
            minutes as nat,
            seconds as nat,
            angle@,
        ),
{
    let mut out = String::new();
    out.append("angulito_");
    push_zero_padded(&mut out, year as u64, 4);
    out.append("-");
    push_zero_padded(&mut out, (month_index + 1) as u64, 2);
    out.append("-");
    push_zero_padded(&mut out, day as u64, 2);
    out.append("_");
    push_zero_padded(&mut out, hours as u64, 2);
    out.append("-");
    push_zero_padded(&mut out, minutes as u64, 2);
    out.append("-");
    push_zero_padded(&mut out, seconds as u64, 2);
    out.append("_");
    out.append(angle);
    out.append("deg.png");
    out
}

} // verus!
