//! Geometry resolution: turns user options and display metadata into the
//! exact pixel rectangle to capture and the exact output frame size.

use vstd::prelude::*;

verus! {

/// A pixel position on the capture surface.
#[derive(Clone, Copy, Debug, PartialEq, Eq, Structural)]
pub struct Point {
    pub x: u32,
    pub y: u32,
}

/// Width and height of a region, in pixels.
#[derive(Clone, Copy, Debug, PartialEq, Eq, Structural)]
pub struct Extent {
    pub width: u32,
    pub height: u32,
}

/// A rectangular region of the capture surface.
#[derive(Clone, Copy, Debug, PartialEq, Eq, Structural)]
pub struct Rect {
    pub origin: Point,
    pub size: Extent,
}

/// Width and height of the primary display. A failed display query
/// degrades to zero dimensions rather than an error; the session then
/// refuses to start with `CaptureError::InvalidRegion`.
#[derive(Clone, Copy, Debug, PartialEq, Eq, Structural)]
pub struct DisplayMetadata {
    pub width: u32,
    pub height: u32,
}

/// The requested output resolution: either the captured size as-is, or an
/// explicit target that the source is scaled down to, preserving aspect.
#[derive(Clone, Copy, Debug, PartialEq, Eq, Structural)]
pub enum OutputResolution {
    Captured,
    Target(Extent),
}

/// User-facing capture options: an optional source region (absent means the
/// full main display) and the output resolution selector.
#[derive(Clone, Copy, Debug, PartialEq)]
pub struct Options {
    pub source_rect: Option<Rect>,
    pub output_resolution: OutputResolution,
}

/// `n` rounded up to the nearest even integer.
pub open spec fn round_up_even(n: int) -> int {
    if n % 2 == 0 {
        n
    } else {
        n + 1
    }
}

/// `n` rounded down to the nearest even integer.
pub open spec fn round_down_even(n: int) -> int {
    if n % 2 == 0 {
        n
    } else {
        n - 1
    }
}

/// The width of the resolved source rectangle: the requested width rounded
/// up to even, or the full display width when no region was requested.
pub open spec fn resolved_source_width(options: Options, display: DisplayMetadata) -> int {
    match options.source_rect {
        Some(r) => round_up_even(r.size.width as int),
        None => display.width as int,
    }
}

/// The height of the resolved source rectangle, by the same rule.
pub open spec fn resolved_source_height(options: Options, display: DisplayMetadata) -> int {
    match options.source_rect {
        Some(r) => round_up_even(r.size.height as int),
        None => display.height as int,
    }
}

/// The origin of the resolved source rectangle: the requested origin,
/// or (0, 0) for a full-display capture.
pub open spec fn resolved_source_origin(options: Options, display: DisplayMetadata) -> Point {
    match options.source_rect {
        Some(r) => r.origin,
        None => Point { x: 0, y: 0 },
    }
}

/// The smaller of two dimensions.
pub open spec fn min_dim(a: int, b: int) -> int {
    if a <= b {
        a
    } else {
        b
    }
}

/// Width of the largest size with the source's aspect ratio that fits in
/// the target, for a source of `sw` by `sh` and a target of `tw` by `th`.
/// A degenerate source (either dimension zero) has no aspect ratio and
/// yields the target as-is.
pub open spec fn candidate_width(sw: int, sh: int, tw: int, th: int) -> int {
    if sw <= 0 || sh <= 0 {
        tw
    } else if tw * sh <= th * sw {
        tw
    } else {
        th * sw / sh
    }
}

/// Height of the largest size with the source's aspect ratio that fits in
/// the target; see `candidate_width`.
pub open spec fn candidate_height(sw: int, sh: int, tw: int, th: int) -> int {
    if sw <= 0 || sh <= 0 {
        th
    } else if tw * sh <= th * sw {
        tw * sh / sw
    } else {
        th
    }
}

/// The output width before the final parity correction: the source width
/// itself, or for an explicit target the aspect-fit candidate clamped to
/// the source width (the output is never upscaled).
pub open spec fn scaled_width(res: OutputResolution, sw: int, sh: int) -> int {
    match res {
        OutputResolution::Captured => sw,
        OutputResolution::Target(t) => min_dim(
            sw,
            candidate_width(sw, sh, t.width as int, t.height as int),
        ),
    }
}

/// The output height before the final parity correction; see `scaled_width`.
pub open spec fn scaled_height(res: OutputResolution, sw: int, sh: int) -> int {
    match res {
        OutputResolution::Captured => sh,
        OutputResolution::Target(t) => min_dim(
            sh,
            candidate_height(sw, sh, t.width as int, t.height as int),
        ),
    }
}

/// The final output width: scaled, then rounded down to even so that the
/// output never exceeds the captured area.
pub open spec fn output_width(res: OutputResolution, sw: int, sh: int) -> int {
    round_down_even(scaled_width(res, sw, sh))
}

/// The final output height; see `output_width`.
pub open spec fn output_height(res: OutputResolution, sw: int, sh: int) -> int {
    round_down_even(scaled_height(res, sw, sh))
}

impl DisplayMetadata {
    /// Builds display metadata from the results of a display query, where a
    /// failed dimension degrades to zero instead of failing the caller.
    pub fn from_query(width: Option<u32>, height: Option<u32>) -> (r: Self)
        ensures
            r.width == (match width {
                Some(w) => w,
                None => 0u32,
            }),
            r.height == (match height {
                Some(h) => h,
                None => 0u32,
            }),
    {
        DisplayMetadata {
            width: match width {
                Some(w) => w,
                None => 0,
            },
            height: match height {
                Some(h) => h,
                None => 0,
            },
        }
    }
}

/// Resolves the effective source capture rectangle. A requested rectangle
/// keeps its origin and has each dimension rounded up to even; no request
/// yields the full display at the origin, with the display's dimensions
/// taken as given (assumed even, or zero after a failed query).
pub fn get_source_rect(options: &Options, display: &DisplayMetadata) -> (r: Rect)
    requires
        options.source_rect matches Some(s) ==> s.size.width < u32::MAX && s.size.height
            < u32::MAX,
    ensures
        r.origin == resolved_source_origin(*options, *display),
        r.size.width as int == resolved_source_width(*options, *display),
        r.size.height as int == resolved_source_height(*options, *display),
        options.source_rect is Some ==> r.size.width % 2 == 0 && r.size.height % 2 == 0,
{
    match &options.source_rect {
        Some(requested) => {
            let width: u32 = if requested.size.width % 2 == 0 {
                requested.size.width
            } else {
                requested.size.width + 1
            };
            let height: u32 = if requested.size.height % 2 == 0 {
                requested.size.height
            } else {
                requested.size.height + 1
            };
            Rect { origin: requested.origin, size: Extent { width, height } }
        },
        None => Rect {
            origin: Point { x: 0, y: 0 },
            size: Extent { width: display.width, height: display.height },
        },
    }
}

/// Computes the largest size with `source`'s aspect ratio that fits inside
/// `target`: the aspect-preserving candidate for the output size.
pub fn fit_within(source: Extent, target: Extent) -> (r: Extent)
    ensures
        r.width as int == candidate_width(
            source.width as int,
            source.height as int,
            target.width as int,
            target.height as int,
        ),
        r.height as int == candidate_height(
            source.width as int,
            source.height as int,
            target.width as int,
            target.height as int,
        ),
{
    if source.width == 0 || source.height == 0 {
        return target;
    }
    let sw: u64 = source.width as u64;
    let sh: u64 = source.height as u64;
    let tw: u64 = target.width as u64;
    let th: u64 = target.height as u64;
    proof {
        assert(tw * sh <= 0xffff_ffffu64 * 0xffff_ffffu64 && th * sw <= 0xffff_ffffu64
            * 0xffff_ffffu64) by (nonlinear_arith)
            requires
                tw <= 0xffff_ffffu64,
                sh <= 0xffff_ffffu64,
                th <= 0xffff_ffffu64,
                sw <= 0xffff_ffffu64,
        ;
    }
    let fit_width: u64 = tw * sh;
    let fit_height: u64 = th * sw;
    if fit_width <= fit_height {
        let scaled: u64 = fit_width / sw;
        proof {
            assert(fit_width / sw <= th) by (nonlinear_arith)
                requires
                    fit_width <= th * sw,
                    sw > 0,
            ;
        }
        Extent { width: target.width, height: scaled as u32 }
    } else {
        let scaled: u64 = fit_height / sh;
        proof {
            assert(fit_height / sh <= tw) by (nonlinear_arith)
                requires
                    fit_height <= tw * sh,
                    sh > 0,
            ;
        }
        Extent { width: scaled as u32, height: target.height }
    }
}

/// Resolves the output frame size from the options and the display: the
/// resolved source size, clamped element-wise to the aspect-fit candidate
/// when an explicit target is requested, then forced even by decrementing
/// odd dimensions. The result never exceeds the resolved source size, and
/// both of its dimensions are even.
pub fn get_output_frame_size(options: &Options, display: &DisplayMetadata) -> (r: (u32, u32))
    requires
        options.source_rect matches Some(s) ==> s.size.width < u32::MAX && s.size.height
            < u32::MAX,
    ensures
        r.0 as int == output_width(
            options.output_resolution,
            resolved_source_width(*options, *display),
            resolved_source_height(*options, *display),
        ),
        r.1 as int == output_height(
            options.output_resolution,
            resolved_source_width(*options, *display),
            resolved_source_height(*options, *display),
        ),
        r.0 % 2 == 0 && r.1 % 2 == 0,
        r.0 as int <= resolved_source_width(*options, *display),
        r.1 as int <= resolved_source_height(*options, *display),
{
    let source_rect = get_source_rect(options, display);
    let mut width: u32 = source_rect.size.width;
    let mut height: u32 = source_rect.size.height;
    match options.output_resolution {
        OutputResolution::Captured => {},
        OutputResolution::Target(target) => {
            let candidate = fit_within(source_rect.size, target);
            if candidate.width < width {
                width = candidate.width;
            }
            if candidate.height < height {
                height = candidate.height;
            }
        },
    }
    if width % 2 == 1 {
        width = width - 1;
    }
    if height % 2 == 1 {
        height = height - 1;
    }
    (width, height)
}

} // verus!
