//! The stroke payload boundary: a pencil stroke from the interface is
//! checked against the canonical ranges before it is minted, so a refusal
//! names the exact violation.
use vstd::prelude::*;
use crate::dto::StrokePayloadDto;
use crate::os::CmdError;
use crate::text::{concat2, concat3, decimal, signed_decimal, str_eq, u64_text};

verus! {

pub const ORIENTATION_MIN: u8 = 1;
pub const ORIENTATION_MAX: u8 = 8;
/// The widest base the shell accepts for a stroke's coordinate frame.
pub const MAX_BASE_W: u32 = 10000;
pub const STROKE_MAX_POINTS: usize = 8192;
pub const STROKE_COORD_MIN: i32 = -2500;
pub const STROKE_COORD_MAX: i32 = 12500;
pub const STROKE_PRESSURE_MAX: u16 = 1000;

#[derive(Debug, Clone, Copy, PartialEq, Eq, Structural)]
pub enum Tool {
    Pencil,
}

#[derive(Debug, Clone, Copy, PartialEq, Eq, Structural)]
pub struct StrokePoint {
    pub x: i32,
    pub y: i32,
    /// Pressure in thousandths.
    pub p: u16,
    /// Milliseconds since the stroke began.
    pub t: u32,
}

/// A stroke in canonical integers.
#[derive(Debug, Clone, PartialEq, Eq)]
pub struct StrokePayload {
    pub base_w: u32,
    pub orientation: u8,
    pub points: Vec<StrokePoint>,
    pub tool: Tool,
}

/// The first violation of the point at index `i`, given the time of the
/// point before it, if any.
pub open spec fn point_violation(pt: [i64; 4], i: int, prev_t: int) -> Option<Seq<char>> {
    let x = pt[0];
    let y = pt[1];
    let p = pt[2];
    let t = pt[3];
    if !(-2500 <= x <= 12500) || !(-2500 <= y <= 12500) {
        Some("point "@ + decimal(i as nat) + " coordinates out of -2500..=12500"@)
    } else if !(0 <= p <= 1000) {
        Some("point "@ + decimal(i as nat) + " pressure out of 0..=1000"@)
    } else if !(0 <= t <= u32::MAX) {
        Some("point "@ + decimal(i as nat) + " time negative"@)
    } else if i == 0 && t != 0 {
        Some("t[0] must be 0"@)
    } else if t < prev_t {
        Some("point "@ + decimal(i as nat) + " time decreases"@)
    } else {
        None
    }
}

/// The first violation among the points from index `i` on, the point before
/// `i` having time `prev_t`.
pub open spec fn points_violation(pts: Seq<[i64; 4]>, i: int, prev_t: int) -> Option<Seq<char>>
    decreases pts.len() - i,
{
    if i < 0 || i >= pts.len() {
        None
    } else {
        match point_violation(pts[i], i, prev_t) {
            Some(v) => Some(v),
            None => points_violation(pts, i + 1, pts[i][3] as int),
        }
    }
}

/// The first violation of a stroke, in the order the fields are checked:
/// tool, orientation, base width, point count, then each point.
pub open spec fn stroke_violation(dto: StrokePayloadDto) -> Option<Seq<char>> {
    if dto.tool@ != "pencil"@ {
        Some("unknown tool \""@ + dto.tool@ + "\""@)
    } else if !(1 <= dto.orientation <= 8) {
        Some("orientation "@ + decimal(dto.orientation as nat) + " not in 1..=8"@)
    } else if dto.base_w == 0 || dto.base_w > 10000 {
        Some("base_w "@ + decimal(dto.base_w as nat) + " not in 1..=10000"@)
    } else if dto.points@.len() == 0 || dto.points@.len() > 8192 {
        Some(decimal(dto.points@.len()) + " points not in 1..=8192"@)
    } else {
        points_violation(dto.points@, 0, 0)
    }
}

pub open spec fn point_of(pt: [i64; 4]) -> StrokePoint {
    StrokePoint { x: pt[0] as i32, y: pt[1] as i32, p: pt[2] as u16, t: pt[3] as u32 }
}

fn point_violation_text(pt: [i64; 4], i: usize, prev_t: u32) -> (r: Option<String>)
    ensures
        match r {
            Some(s) => point_violation(pt, i as int, prev_t as int) == Some(s@),
            None => point_violation(pt, i as int, prev_t as int) is None,
        },
{
    let x = pt[0];
    let y = pt[1];
    let p = pt[2];
    let t = pt[3];
    let idx = u64_text(i as u64);
    if !(-2500 <= x && x <= 12500) || !(-2500 <= y && y <= 12500) {
        return Some(concat3("point ", idx.as_str(), " coordinates out of -2500..=12500"));
    }
    if !(0 <= p && p <= 1000) {
        return Some(concat3("point ", idx.as_str(), " pressure out of 0..=1000"));
    }
    if !(0 <= t && t <= 4294967295) {
        return Some(concat3("point ", idx.as_str(), " time negative"));
    }
    if i == 0 && t != 0 {
        return Some(String::from_str("t[0] must be 0"));
    }
    if t < prev_t as i64 {
        return Some(concat3("point ", idx.as_str(), " time decreases"));
    }
    None
}

/// A stroke from the interface as canonical integers, or the first
/// violation it carries.
pub fn stroke_payload(dto: StrokePayloadDto) -> (r: Result<StrokePayload, CmdError>)
    ensures
        match stroke_violation(dto) {
            Some(v) => r matches Err(CmdError::Invalid(m)) && m@ == "invalid stroke payload: "@ + v,
            None => r matches Ok(s) && s.base_w == dto.base_w && s.orientation == dto.orientation && s.tool
                == Tool::Pencil && s.points@ == dto.points@.map_values(|pt: [i64; 4]| point_of(pt)),
        },
{
    if !str_eq(dto.tool.as_str(), "pencil") {
        let quoted = concat3("unknown tool \"", dto.tool.as_str(), "\"");
        return Err(CmdError::Invalid(concat2("invalid stroke payload: ", quoted.as_str())));
    }
    if !(1 <= dto.orientation && dto.orientation <= 8) {
        let o = u64_text(dto.orientation as u64);
        let v = concat3("orientation ", o.as_str(), " not in 1..=8");
        return Err(CmdError::Invalid(concat2("invalid stroke payload: ", v.as_str())));
    }
    if dto.base_w == 0 || dto.base_w > MAX_BASE_W {
        let b = u64_text(dto.base_w as u64);
        let v = concat3("base_w ", b.as_str(), " not in 1..=10000");
        return Err(CmdError::Invalid(concat2("invalid stroke payload: ", v.as_str())));
    }
    let n = dto.points.len();
    if n == 0 || n > STROKE_MAX_POINTS {
        let c = u64_text(n as u64);
        let v = concat2(c.as_str(), " points not in 1..=8192");
        return Err(CmdError::Invalid(concat2("invalid stroke payload: ", v.as_str())));
    }
    let mut prev_t: u32 = 0;
    let mut points: Vec<StrokePoint> = Vec::new();
    for i in 0..n
        invariant
            n == dto.points@.len(),
            stroke_violation(dto) == points_violation(dto.points@, i as int, prev_t as int),
            i == 0 ==> prev_t == 0,
            points@ == dto.points@.subrange(0, i as int).map_values(|pt: [i64; 4]| point_of(pt)),
    {
        let pt = dto.points[i];
        match point_violation_text(pt, i, prev_t) {
            Some(v) => {
                return Err(CmdError::Invalid(concat2("invalid stroke payload: ", v.as_str())));
            },
            None => {},
        }
        let ghost before = points@;
        points.push(StrokePoint { x: pt[0] as i32, y: pt[1] as i32, p: pt[2] as u16, t: pt[3] as u32 });
        prev_t = pt[3] as u32;
        proof {
            assert(points@ =~= dto.points@.subrange(0, i + 1).map_values(|pt: [i64; 4]| point_of(pt)));
        }
    }
    proof {
        assert(dto.points@.subrange(0, n as int) =~= dto.points@);
    }
    Ok(StrokePayload { base_w: dto.base_w, orientation: dto.orientation, points, tool: Tool::Pencil })
}

/// Whether a rating key mints an event: a value above five is refused; a
/// rating over no target (session scope) mints nothing; otherwise one event
/// rates every target, zero being an explicit clear.
pub fn rating_mints(value: u8, target_count: usize) -> (r: Result<bool, CmdError>)
    ensures
        value > 5 ==> (r matches Err(CmdError::Invalid(m)) && m@ == "rating out of range: "@ + decimal(value as nat)),
        value <= 5 ==> r == Ok::<bool, CmdError>(target_count > 0),
{
    if value > 5 {
        let v = u64_text(value as u64);
        return Err(CmdError::Invalid(concat2("rating out of range: ", v.as_str())));
    }
    Ok(target_count > 0)
}

} // verus!
