//! The camera's progress text: a verified decimal formatter and the two
//! labels the frame loop prints, pinned down to the exact character
//! sequence.

use vstd::prelude::*;
use vstd::string::StringExecFns;

use crate::camera::Camera;

verus! {

/// The decimal digit character for a value in 0..10.
pub open spec fn dec_digit(d: int) -> char {
    if d == 0 {
        '0'
    } else if d == 1 {
        '1'
    } else if d == 2 {
        '2'
    } else if d == 3 {
        '3'
    } else if d == 4 {
        '4'
    } else if d == 5 {
        '5'
    } else if d == 6 {
        '6'
    } else if d == 7 {
        '7'
    } else if d == 8 {
        '8'
    } else {
        '9'
    }
}

/// The decimal representation of a nonnegative value, most significant
/// digit first, with no leading zeros (zero itself is "0").
pub open spec fn dec_rep(n: int) -> Seq<char>
    decreases n,
{
    if n < 10 {
        seq![dec_digit(n)]
    } else {
        dec_rep(n / 10).push(dec_digit(n % 10))
    }
}

fn append_digit(out: &mut String, d: u32)
    requires
        d < 10,
    ensures
        final(out)@ == old(out)@ + seq![dec_digit(d as int)],
{
    let s: &str = match d {
        0 => "0",
        1 => "1",
        2 => "2",
        3 => "3",
        4 => "4",
        5 => "5",
        6 => "6",
        7 => "7",
        8 => "8",
        _ => "9",
    };
    proof {
        reveal_strlit("0");
        reveal_strlit("1");
        reveal_strlit("2");
        reveal_strlit("3");
        reveal_strlit("4");
        reveal_strlit("5");
        reveal_strlit("6");
        reveal_strlit("7");
        reveal_strlit("8");
        reveal_strlit("9");
        assert(s@ =~= seq![dec_digit(d as int)]);
    }
    out.append(s);
}

/// Append the decimal form of a value, most significant digit first.
pub fn append_u32(out: &mut String, n: u32)
    ensures
        final(out)@ == old(out)@ + dec_rep(n as int),
    decreases n,
{
    if n >= 10 {
        append_u32(out, n / 10);
        append_digit(out, n % 10);
        proof {
            assert(out@ =~= old(out)@ + dec_rep(n as int));
        }
    } else {
        append_digit(out, n);
    }
}

/// The render-settings label printed whenever accumulation restarts.
pub open spec fn render_label(frames: int, samples: int) -> Seq<char> {
    "Frames: "@ + dec_rep(frames) + ", RaysPerPixel: "@ + dec_rep(samples)
}

/// The "done/target" progress label printed with each counted frame.
pub open spec fn progress_label(cur: int, target: int) -> Seq<char> {
    dec_rep(cur) + "/"@ + dec_rep(target)
}

impl Camera {
    /// The render settings as text, exactly
    /// `Frames: <frames_to_render>, RaysPerPixel: <samples_per_pixel>`.
    pub fn to_string(&self) -> (r: String)
        ensures
            r@ == render_label(self.frames_to_render as int, self.samples_per_pixel as int),
    {
        let mut r = String::new();
        r.append("Frames: ");
        append_u32(&mut r, self.frames_to_render);
        r.append(", RaysPerPixel: ");
        append_u32(&mut r, self.samples_per_pixel);
        proof {
            assert(r@ =~= render_label(
                self.frames_to_render as int,
                self.samples_per_pixel as int,
            ));
        }
        r
    }

    /// The progress indicator as text, exactly
    /// `<current_frame>/<frames_to_render>`.
    pub fn progress_message(&self) -> (r: String)
        ensures
            r@ == progress_label(self.current_frame as int, self.frames_to_render as int),
    {
        let mut r = String::new();
        append_u32(&mut r, self.current_frame);
        r.append("/");
        append_u32(&mut r, self.frames_to_render);
        proof {
            assert(r@ =~= progress_label(
                self.current_frame as int,
                self.frames_to_render as int,
            ));
        }
        r
    }
}

} // verus!
