//! The renderer's command line.
//!
//! A call of the renderer has the shape
//!
//! ```text
//! <program> [mode] <re_start> <re_end> <im_start> <im_end> <output_path> [max_iter palette_length palette_id]
//! ```
//!
//! The mode flag and the three rendering parameters are understood by later
//! builds of the renderer only, so both are optional here. Coordinates are
//! text: a caller that holds floating-point values writes them out first, and
//! a caller that needs more digits than a float keeps passes decimal strings,
//! which go through untouched. Nothing is validated: whether a coordinate is
//! a number, and whether a start lies before its end, is for the renderer to
//! judge.

use vstd::prelude::*;
use vstd::string::StringExecFns;
use crate::decimal::{decimal_string, decimal_text};

verus! {

/// The renderer executable, relative to the shell's working directory.
pub const RENDERER_PROGRAM: &'static str = "./MandelbrotSetParallelOpenCL.exe";

/// Where the renderer writes the image that the display layer loads from disk.
pub const PNG_OUTPUT_PATH: &'static str = "./../generated-files/mandelbrot_set.png";

/// Where the renderer writes the image that is read back and sent inline.
pub const TIFF_OUTPUT_PATH: &'static str = "./mandelbrot_set.tiff";

/// How the image reaches the display layer.
#[derive(Clone, Copy, Debug, PartialEq, Eq, Structural)]
pub enum Delivery {
    /// The display layer loads the file itself; the call returns the
    /// renderer's exit status.
    ExitStatus,
    /// The call reads the file back and returns it as base64 text.
    InlineImage,
}

impl Delivery {
    /// The path of the image file, as text.
    pub open spec fn path_text(self) -> Seq<char> {
        match self {
            Delivery::ExitStatus => PNG_OUTPUT_PATH@,
            Delivery::InlineImage => TIFF_OUTPUT_PATH@,
        }
    }

    /// The fixed path at which the renderer leaves the image: a PNG file
    /// where the display layer loads it, a TIFF file where it is read back.
    pub fn output_path(self) -> (path: &'static str)
        ensures
            path@ == self.path_text(),
    {
        match self {
            Delivery::ExitStatus => PNG_OUTPUT_PATH,
            Delivery::InlineImage => TIFF_OUTPUT_PATH,
        }
    }
}

/// How the renderer is to read the coordinates.
#[derive(Clone, Copy, Debug, PartialEq, Eq, Structural)]
pub enum Precision {
    /// Coordinates are machine floats written as text.
    Standard,
    /// Coordinates are exact decimal strings, for zooms too deep for a float.
    High,
}

impl Precision {
    /// The mode flag as it stands on the command line.
    pub open spec fn flag_text(self) -> Seq<char> {
        match self {
            Precision::Standard => seq!['0'],
            Precision::High => seq!['1'],
        }
    }

    /// The mode flag: `0` for standard precision, `1` for high precision.
    pub fn mode_flag(self) -> (flag: &'static str)
        ensures
            flag@ == self.flag_text(),
    {
        proof {
            reveal_strlit("0");
            reveal_strlit("1");
            assert("0"@ =~= seq!['0']);
            assert("1"@ =~= seq!['1']);
        }
        match self {
            Precision::Standard => "0",
            Precision::High => "1",
        }
    }
}

/// The rendering parameters that later builds of the renderer accept.
#[derive(Clone, Copy, Debug, PartialEq, Eq, Structural)]
pub struct RenderParams {
    /// Iterations after which a point counts as inside the set.
    pub max_iter: i32,
    /// Number of colours in the palette.
    pub palette_length: i32,
    /// Which colour mapping to use.
    pub palette_id: i32,
}

impl RenderParams {
    /// The three parameters in command-line order, each in decimal.
    pub open spec fn texts(self) -> Seq<Seq<char>> {
        seq![
            decimal_text(self.max_iter as int),
            decimal_text(self.palette_length as int),
            decimal_text(self.palette_id as int),
        ]
    }
}

/// The rectangle of the complex plane to render, each bound as text.
#[derive(Debug, PartialEq, Eq)]
pub struct Region {
    /// Left edge, on the real axis.
    pub re_start: String,
    /// Right edge, on the real axis.
    pub re_end: String,
    /// Lower edge, on the imaginary axis.
    pub im_start: String,
    /// Upper edge, on the imaginary axis.
    pub im_end: String,
}

impl Region {
    /// The four bounds in command-line order.
    pub open spec fn texts(self) -> Seq<Seq<char>> {
        seq![self.re_start@, self.re_end@, self.im_start@, self.im_end@]
    }
}

/// The mode flag as a list of arguments: one where a mode is given.
pub open spec fn mode_texts(mode: Option<Precision>) -> Seq<Seq<char>> {
    match mode {
        Some(precision) => seq![precision.flag_text()],
        None => seq![],
    }
}

/// The rendering parameters as a list of arguments: three where they are
/// given.
pub open spec fn param_texts(params: Option<RenderParams>) -> Seq<Seq<char>> {
    match params {
        Some(p) => p.texts(),
        None => seq![],
    }
}

/// The renderer's arguments: the mode flag if any, the four bounds, the
/// path of the image file, the rendering parameters if any.
pub open spec fn argument_texts(
    mode: Option<Precision>,
    region: Region,
    delivery: Delivery,
    params: Option<RenderParams>,
) -> Seq<Seq<char>> {
    mode_texts(mode) + region.texts() + seq![delivery.path_text()] + param_texts(params)
}

/// Builds the argument vector for one call of the renderer.
///
/// `mode` and `params` are given for a renderer that understands them and
/// left out for one that does not. The bounds are passed on as they are.
pub fn renderer_arguments(
    mode: Option<Precision>,
    region: &Region,
    delivery: Delivery,
    params: Option<RenderParams>,
) -> (args: Vec<String>)
    ensures
        args.deep_view() == argument_texts(mode, *region, delivery, params),
{
    let mut args: Vec<String> = Vec::new();
    match mode {
        Some(precision) => {
            args.push(String::from_str(precision.mode_flag()));
        },
        None => {},
    }
    args.push(region.re_start.clone());
    args.push(region.re_end.clone());
    args.push(region.im_start.clone());
    args.push(region.im_end.clone());
    args.push(String::from_str(delivery.output_path()));
    match params {
        Some(p) => {
            args.push(decimal_string(p.max_iter));
            args.push(decimal_string(p.palette_length));
            args.push(decimal_string(p.palette_id));
        },
        None => {},
    }
    assert(args.deep_view() =~= argument_texts(mode, *region, delivery, params));
    args
}

/// The bounds reach the renderer unmodified and in order: after the mode
/// flag, if there is one, stand the real start, the real end, the imaginary
/// start and the imaginary end, each character for character as it was
/// given, and then the path of the image file.
pub proof fn lemma_bounds_forwarded(
    mode: Option<Precision>,
    region: Region,
    delivery: Delivery,
    params: Option<RenderParams>,
)
    ensures
        ({
            let args = argument_texts(mode, region, delivery, params);
            let first: int = if mode is Some {
                1
            } else {
                0
            };
            &&& args.len() >= first + 5
            &&& mode matches Some(precision) ==> args[0] == precision.flag_text()
            &&& args[first] == region.re_start@
            &&& args[first + 1] == region.re_end@
            &&& args[first + 2] == region.im_start@
            &&& args[first + 3] == region.im_end@
            &&& args[first + 4] == delivery.path_text()
        }),
{
}

/// Rendering parameters, where given, are the last three arguments, right
/// after the output path: the iteration limit, the palette length, the
/// palette identifier. Where none are given, the output path is the last
/// argument.
pub proof fn lemma_params_follow_output_path(
    mode: Option<Precision>,
    region: Region,
    delivery: Delivery,
    params: Option<RenderParams>,
)
    ensures
        ({
            let args = argument_texts(mode, region, delivery, params);
            let path_at: int = if mode is Some {
                5
            } else {
                4
            };
            &&& args[path_at] == delivery.path_text()
            &&& match params {
                Some(p) => {
                    &&& args.len() == path_at + 4
                    &&& args[path_at + 1] == decimal_text(p.max_iter as int)
                    &&& args[path_at + 2] == decimal_text(p.palette_length as int)
                    &&& args[path_at + 3] == decimal_text(p.palette_id as int)
                },
                None => args.len() == path_at + 1,
            }
        }),
{
}

} // verus!
