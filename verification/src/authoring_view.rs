//! What the authoring tabs decide before drawing: where a score map peaks,
//! which region the heat map covers, which buttons are live, and the texts
//! shown beside the canvas.
use vstd::prelude::*;
use vstd::string::*;
use crate::driver::opt_view;
use crate::studio_task::ScreenRegion;
use crate::text::{dec, is_blank, push_dec, trim_seq, trim_str};

verus! {

/// Score maps are computed at this fraction of the frame's size.
pub const HEATMAP_DOWNSCALE: u32 = 4;

/// `k` is the first index, in row order, of the highest score in `p`.
pub open spec fn is_first_max(p: Seq<u8>, k: int) -> bool {
    &&& 0 <= k < p.len()
    &&& forall|j: int| 0 <= j < p.len() ==> p[j] <= p[k]
    &&& forall|j: int| 0 <= j < k ==> p[j] < p[k]
}

/// The position (column, row) of the highest score of a `width`-wide score
/// map held row by row in `pixels`; the first one, row by row, when several
/// share it, and (0, 0) for an empty map.
pub fn best_score_position(pixels: &Vec<u8>, width: u32, height: u32) -> (r: (u32, u32))
    requires
        pixels.len() == width as int * height as int,
    ensures
        pixels.len() == 0 ==> r == (0u32, 0u32),
        pixels.len() > 0 ==> r.0 < width && is_first_max(pixels@, r.1 as int * width as int + r.0 as int),
{
    if pixels.len() == 0 {
        return (0, 0);
    }
    let mut best: usize = 0;
    let mut k: usize = 1;
    while k < pixels.len()
        invariant
            1 <= k <= pixels.len(),
            is_first_max(pixels@.subrange(0, k as int), best as int),
        decreases pixels.len() - k,
    {
        let ghost pre = pixels@.subrange(0, k as int);
        if pixels[k] > pixels[best] {
            best = k;
        }
        assert(pixels@.subrange(0, k + 1) =~= pre.push(pixels@[k as int]));
        k = k + 1;
    }
    assert(pixels@.subrange(0, pixels.len() as int) =~= pixels@);
    proof {
        assert(width > 0) by (nonlinear_arith)
            requires
                pixels.len() == width as int * height as int,
                pixels.len() > 0,
        ;
    }
    proof {
        let b = best as int;
        let w = width as int;
        let h = height as int;
        assert(b == (b / w) * w + b % w) by (nonlinear_arith)
            requires
                w > 0,
        ;
        assert(0 <= b % w < w) by (nonlinear_arith)
            requires
                w > 0,
        ;
        assert(0 <= b / w < h) by (nonlinear_arith)
            requires
                w > 0,
                0 <= b < w * h,
        ;
    }
    let bw = best as u64;
    let x = (bw % (width as u64)) as u32;
    let y = (bw / (width as u64)) as u32;
    assert(x as int == best as int % width as int);
    assert(y as int == best as int / width as int);
    (x, y)
}

/// Where the template matches best in the frame: the peak of the score map
/// scaled back to frame pixels, with the template's size.
pub fn best_match_region(pixels: &Vec<u8>, width: u32, height: u32, roi_width: u32, roi_height: u32) -> (r:
    ScreenRegion)
    requires
        pixels.len() == width as int * height as int,
        width as int * HEATMAP_DOWNSCALE <= u32::MAX,
        height as int * HEATMAP_DOWNSCALE <= u32::MAX,
    ensures
        r.width == roi_width && r.height == roi_height,
        r.x % HEATMAP_DOWNSCALE == 0 && r.y % HEATMAP_DOWNSCALE == 0,
        pixels.len() == 0 ==> r.x == 0 && r.y == 0,
        pixels.len() > 0 ==> r.x / HEATMAP_DOWNSCALE < width && is_first_max(
            pixels@,
            (r.y / HEATMAP_DOWNSCALE) as int * width as int + (r.x / HEATMAP_DOWNSCALE) as int,
        ),
{
    let (x, y) = best_score_position(pixels, width, height);
    proof {
        if pixels.len() > 0 {
            let k = y as int * width as int + x as int;
            assert((y as int) <= k) by (nonlinear_arith)
                requires
                    k == y as int * width as int + x as int,
                    x < width,
                    y >= 0,
            ;
            assert((y as int) * (width as int) + (x as int) < (width as int) * (height as int));
            assert(y < height) by (nonlinear_arith)
                requires
                    (y as int) * (width as int) + (x as int) < (width as int) * (height as int),
                    x >= 0,
                    width > 0,
            ;
        }
    }
    let r = ScreenRegion { x: x * HEATMAP_DOWNSCALE, y: y * HEATMAP_DOWNSCALE, width: roi_width, height: roi_height };
    assert(r.x == (x * HEATMAP_DOWNSCALE) as u32);
    r
}

/// The part of the frame the heat map covers: every place the template's
/// top-left corner can take.
pub fn heatmap_search(frame_width: u32, frame_height: u32, roi_width: u32, roi_height: u32) -> (r: ScreenRegion)
    ensures
        r == (ScreenRegion {
            x: 0,
            y: 0,
            width: if frame_width >= roi_width {
                (frame_width - roi_width) as u32
            } else {
                0
            },
            height: if frame_height >= roi_height {
                (frame_height - roi_height) as u32
            } else {
                0
            },
        }),
{
    ScreenRegion {
        x: 0,
        y: 0,
        width: frame_width.saturating_sub(roi_width),
        height: frame_height.saturating_sub(roi_height),
    }
}

/// Live capture can start once an executable name other than blanks is set.
pub fn can_start_live(exe: &str) -> (r: bool)
    ensures
        r == (trim_seq(exe@).len() > 0),
{
    !is_blank(exe)
}

/// The region proposal button: live with a screenshot while no proposal
/// runs, and its label.
pub fn proposal_button(has_screenshot: bool, proposing: bool) -> (r: (bool, &'static str))
    ensures
        r.0 == (has_screenshot && !proposing),
        r.1@ == if proposing {
            "ROI候補を計算中…"@
        } else {
            "ROI候補を提案"@
        },
{
    let label = if proposing {
        "ROI候補を計算中…"
    } else {
        "ROI候補を提案"
    };
    (has_screenshot && !proposing, label)
}

/// A template or pipeline task can be saved with a selected region on a
/// screenshot.
pub fn can_save_authored(has_region: bool, has_screenshot: bool) -> (r: bool)
    ensures
        r == (has_region && has_screenshot),
{
    has_region && has_screenshot
}

/// The name a saved pipeline task gets: the name typed, without
/// surrounding blanks, or `template_01` when that leaves nothing.
pub fn task_name_or_default(typed: &str) -> (s: String)
    ensures
        s@ == if trim_seq(typed@).len() == 0 {
            "template_01"@
        } else {
            trim_seq(typed@)
        },
{
    if is_blank(typed) {
        String::from_str("template_01")
    } else {
        trim_str(typed)
    }
}

/// The status after region proposals arrive.
pub fn proposals_status(count: usize) -> (s: String)
    ensures
        s@ == "ROI候補: "@ + dec(count as nat) + " 件（スコア順）"@,
{
    let mut s = String::from_str("ROI候補: ");
    push_dec(&mut s, count as u64);
    s.append(" 件（スコア順）");
    s
}

/// The guide for a half-recorded step: a tap waiting for its region, or a
/// region waiting for its tap.
pub open spec fn pending_guide_spec(tap: Option<(u32, u32)>, region: Option<[u32; 4]>) -> Option<Seq<char>> {
    match (tap, region) {
        (Some(t), None) => Some(
            "タップ ("@ + dec(t.0 as nat) + ","@ + dec(t.1 as nat) + ") 記録済み — ドラッグで領域を確定"@,
        ),
        (None, Some(r)) => Some(
            "領域 ["@ + dec(r[0] as nat) + ", "@ + dec(r[1] as nat) + ", "@ + dec(r[2] as nat) + ", "@ + dec(
                r[3] as nat,
            ) + "] 記録済み — クリックでタップを確定"@,
        ),
        _ => None,
    }
}

/// The guide shown under the step list (see [`pending_guide_spec`]).
pub fn pending_guide(tap: Option<(u32, u32)>, region: Option<[u32; 4]>) -> (r: Option<String>)
    ensures
        opt_view(r) == pending_guide_spec(tap, region),
{
    match (tap, region) {
        (Some(t), None) => {
            let mut s = String::from_str("タップ (");
            push_dec(&mut s, t.0 as u64);
            s.append(",");
            push_dec(&mut s, t.1 as u64);
            s.append(") 記録済み — ドラッグで領域を確定");
            Some(s)
        },
        (None, Some(r)) => {
            let mut s = String::from_str("領域 [");
            push_dec(&mut s, r[0] as u64);
            s.append(", ");
            push_dec(&mut s, r[1] as u64);
            s.append(", ");
            push_dec(&mut s, r[2] as u64);
            s.append(", ");
            push_dec(&mut s, r[3] as u64);
            s.append("] 記録済み — クリックでタップを確定");
            Some(s)
        },
        _ => None,
    }
}

} // verus!
