//! From a span of the compiled document back to a range of the source
//! text: what the resolver gives for the two ends of the span and for the
//! element around it is combined, put in order and clipped.

use vstd::prelude::*;

verus! {

/// A position in a source file: line and column.
pub type Position = (usize, usize);

/// A range of a source file that a place in the document comes from. Each
/// end may be unknown.
#[derive(Debug, PartialEq, Eq)]
pub struct DocToSrcJumpInfo {
    pub filepath: String,
    pub start: Option<Position>,
    pub end: Option<Position>,
}

/// Whether `a` is at or before `b`: by line, then by column.
pub open spec fn pos_le(a: Position, b: Position) -> bool {
    a.0 < b.0 || (a.0 == b.0 && a.1 <= b.1)
}

/// The later of two positions.
pub open spec fn pos_max(a: Position, b: Position) -> Position {
    if pos_le(a, b) {
        b
    } else {
        a
    }
}

/// The earlier of two positions.
pub open spec fn pos_min(a: Position, b: Position) -> Position {
    if pos_le(a, b) {
        a
    } else {
        b
    }
}

/// A position moved into the range from `low` to `high`: raised to `low`,
/// then lowered to `high`.
pub open spec fn pos_clamp(p: Position, low: Position, high: Position) -> Position {
    pos_min(pos_max(p, low), high)
}

/// The first of two optional positions that is known.
pub open spec fn known_or(first: Option<Position>, second: Option<Position>) -> Option<Position> {
    if first.is_some() {
        first
    } else {
        second
    }
}

impl DocToSrcJumpInfo {
    /// Whether both ends are known and the start is at or before the end.
    pub open spec fn in_order(&self) -> bool {
        self.start.is_some() && self.end.is_some() && pos_le(self.start.unwrap(), self.end.unwrap())
    }

    /// Whether the two ranges lie in the same file.
    pub open spec fn same_file(&self, other: &DocToSrcJumpInfo) -> bool {
        self.filepath@ == other.filepath@
    }
}

/// The range from the start of a span to its end. Where both ends resolved
/// to the same file and the range of the start is in order, it runs from
/// the start of the one to the start of the other. Else the range of the
/// end is taken, or the one that resolved.
pub open spec fn combine(
    st: Option<DocToSrcJumpInfo>,
    ed: Option<DocToSrcJumpInfo>,
) -> Option<DocToSrcJumpInfo> {
    match (st, ed) {
        (Some(s), Some(e)) => if s.same_file(&e) && s.in_order() {
            Some(DocToSrcJumpInfo { filepath: s.filepath, start: s.start, end: e.start })
        } else {
            Some(e)
        },
        (Some(s), None) => Some(s),
        (None, Some(e)) => Some(e),
        (None, None) => None,
    }
}

/// The range with its ends exchanged where both are known and the end is at
/// or before the start.
pub open spec fn normalize(info: DocToSrcJumpInfo) -> DocToSrcJumpInfo {
    if info.start.is_some() && info.end.is_some() && pos_le(
        info.end.unwrap(),
        info.start.unwrap(),
    ) {
        DocToSrcJumpInfo { filepath: info.filepath, start: info.end, end: info.start }
    } else {
        info
    }
}

/// The range `rng` with both ends moved into the range of `elem`. An end
/// that is unknown is taken to be the other end of its range. A range of
/// which no end is known restricts nothing and is not restricted.
pub open spec fn restrict(elem: DocToSrcJumpInfo, rng: DocToSrcJumpInfo) -> DocToSrcJumpInfo {
    let elem_start = known_or(elem.start, elem.end);
    let elem_end = known_or(elem.end, elem_start);
    let rng_start = known_or(rng.start, rng.end);
    let rng_end = known_or(rng.end, rng_start);
    if elem_start.is_some() && rng_start.is_some() {
        DocToSrcJumpInfo {
            filepath: rng.filepath,
            start: Some(pos_clamp(rng_start.unwrap(), elem_start.unwrap(), elem_end.unwrap())),
            end: Some(pos_clamp(rng_end.unwrap(), elem_start.unwrap(), elem_end.unwrap())),
        }
    } else {
        rng
    }
}

/// The range clipped to the element around it: restricted where both lie
/// in the same file; else the range, or the element where there is no
/// range.
pub open spec fn clip(
    elem: Option<DocToSrcJumpInfo>,
    rng: Option<DocToSrcJumpInfo>,
) -> Option<DocToSrcJumpInfo> {
    match (elem, rng) {
        (Some(el), Some(r)) => if el.same_file(&r) {
            Some(restrict(el, r))
        } else {
            Some(r)
        },
        (None, Some(r)) => Some(r),
        (Some(el), None) => Some(el),
        (None, None) => None,
    }
}

/// The range before it is clipped: combined and put in order.
pub open spec fn combined_range(
    st: Option<DocToSrcJumpInfo>,
    ed: Option<DocToSrcJumpInfo>,
) -> Option<DocToSrcJumpInfo> {
    match combine(st, ed) {
        Some(info) => Some(normalize(info)),
        None => None,
    }
}

/// The target of a jump from the document to the source: the combined
/// range, clipped to the element. `None` where nothing resolved.
pub open spec fn reconcile(
    st: Option<DocToSrcJumpInfo>,
    ed: Option<DocToSrcJumpInfo>,
    elem: Option<DocToSrcJumpInfo>,
) -> Option<DocToSrcJumpInfo> {
    clip(elem, combined_range(st, ed))
}

/// Whether `a` is at or before `b`.
pub fn position_le(a: Position, b: Position) -> (r: bool)
    ensures
        r == pos_le(a, b),
{
    a.0 < b.0 || (a.0 == b.0 && a.1 <= b.1)
}

/// Moves a position into the range from `low` to `high`.
pub fn clamp_position(p: Position, low: Position, high: Position) -> (r: Position)
    ensures
        r == pos_clamp(p, low, high),
{
    let raised = if position_le(p, low) {
        low
    } else {
        p
    };
    if position_le(raised, high) {
        raised
    } else {
        high
    }
}

/// Combines what the two ends of a span resolved to.
pub fn combine_range(st: Option<DocToSrcJumpInfo>, ed: Option<DocToSrcJumpInfo>) -> (r: Option<
    DocToSrcJumpInfo,
>)
    ensures
        r == combine(st, ed),
{
    match (st, ed) {
        (Some(s), Some(e)) => {
            let in_order = match (s.start, s.end) {
                (Some(x), Some(y)) => position_le(x, y),
                _ => false,
            };
            if s.filepath == e.filepath && in_order {
                Some(DocToSrcJumpInfo { filepath: s.filepath, start: s.start, end: e.start })
            } else {
                Some(e)
            }
        },
        (Some(s), None) => Some(s),
        (None, Some(e)) => Some(e),
        (None, None) => None,
    }
}

/// Puts the ends of a range in order.
pub fn normalize_range(info: DocToSrcJumpInfo) -> (r: DocToSrcJumpInfo)
    ensures
        r == normalize(info),
{
    match (info.start, info.end) {
        (Some(x), Some(y)) => {
            if position_le(y, x) {
                DocToSrcJumpInfo { filepath: info.filepath, start: info.end, end: info.start }
            } else {
                info
            }
        },
        _ => info,
    }
}

/// Clips a range to the element around it.
pub fn clip_range(elem: Option<DocToSrcJumpInfo>, rng: Option<DocToSrcJumpInfo>) -> (r: Option<
    DocToSrcJumpInfo,
>)
    ensures
        r == clip(elem, rng),
{
    match (elem, rng) {
        (Some(el), Some(r)) => {
            if el.filepath == r.filepath {
                let elem_start = if el.start.is_some() {
                    el.start
                } else {
                    el.end
                };
                let elem_end = if el.end.is_some() {
                    el.end
                } else {
                    elem_start
                };
                let rng_start = if r.start.is_some() {
                    r.start
                } else {
                    r.end
                };
                let rng_end = if r.end.is_some() {
                    r.end
                } else {
                    rng_start
                };
                match (elem_start, rng_start, rng_end, elem_end) {
                    (Some(u), Some(inner_u), Some(inner_v), Some(v)) => Some(
                        DocToSrcJumpInfo {
                            filepath: r.filepath,
                            start: Some(clamp_position(inner_u, u, v)),
                            end: Some(clamp_position(inner_v, u, v)),
                        },
                    ),
                    _ => Some(r),
                }
            } else {
                Some(r)
            }
        },
        (None, Some(r)) => Some(r),
        (Some(el), None) => Some(el),
        (None, None) => None,
    }
}

/// Reconciles what the resolver gave for the start of a span, for its end
/// and for the element that owns the end: the target of the jump, or
/// `None` where nothing resolved.
pub fn resolve_span_range(
    st_res: Option<DocToSrcJumpInfo>,
    ed_res: Option<DocToSrcJumpInfo>,
    elem_res: Option<DocToSrcJumpInfo>,
) -> (r: Option<DocToSrcJumpInfo>)
    ensures
        r == reconcile(st_res, ed_res, elem_res),
        st_res.is_none() && ed_res.is_none() && elem_res.is_none() <==> r.is_none(),
{
    let range_res = match combine_range(st_res, ed_res) {
        Some(info) => Some(normalize_range(info)),
        None => None,
    };
    clip_range(elem_res, range_res)
}

/// The order of positions is total and transitive.
pub proof fn lemma_pos_le_order(a: Position, b: Position, c: Position)
    ensures
        pos_le(a, a),
        pos_le(a, b) || pos_le(b, a),
        pos_le(a, b) && pos_le(b, a) ==> a == b,
        pos_le(a, b) && pos_le(b, c) ==> pos_le(a, c),
{
}

/// A range that was put in order is in order, where both ends are known,
/// and has the same two ends.
pub proof fn lemma_normalize_orders(info: DocToSrcJumpInfo)
    ensures
        normalize(info).filepath == info.filepath,
        info.start.is_some() && info.end.is_some() ==> normalize(info).in_order(),
        normalize(info) == info || (normalize(info).start == info.end && normalize(info).end
            == info.start),
        normalize(normalize(info)) == normalize(info),
{
}

/// Where the ends of a span resolved to different files, the range of the
/// end is taken and that of the start is ignored.
pub proof fn lemma_different_files_take_end(st: DocToSrcJumpInfo, ed: DocToSrcJumpInfo)
    requires
        !st.same_file(&ed),
    ensures
        combine(Some(st), Some(ed)) == Some(ed),
        combined_range(Some(st), Some(ed)) == Some(normalize(ed)),
{
}

/// Where the ends of a span resolved to the same file and the range of the
/// start is in order, the combined range runs between the two starts, the
/// earlier one first.
pub proof fn lemma_same_file_joins_starts(st: DocToSrcJumpInfo, ed: DocToSrcJumpInfo)
    requires
        st.same_file(&ed),
        st.in_order(),
        ed.start.is_some(),
    ensures
        combined_range(Some(st), Some(ed)).is_some(),
        combined_range(Some(st), Some(ed)).unwrap().start == Some(
            pos_min(ed.start.unwrap(), st.start.unwrap()),
        ),
        combined_range(Some(st), Some(ed)).unwrap().end == Some(
            pos_max(ed.start.unwrap(), st.start.unwrap()),
        ),
{
}

/// Where neither end of a span resolved there is no range, and the target
/// is the element, if that resolved.
pub proof fn lemma_nothing_resolved(elem: Option<DocToSrcJumpInfo>)
    ensures
        combined_range(None, None).is_none(),
        reconcile(None, None, elem) == elem,
        reconcile(None, None, None).is_none(),
{
}

/// A clamped position lies in the range, where the range is in order.
pub proof fn lemma_clamp_is_contained(p: Position, low: Position, high: Position)
    requires
        pos_le(low, high),
    ensures
        pos_le(low, pos_clamp(p, low, high)),
        pos_le(pos_clamp(p, low, high), high),
        pos_le(low, p) && pos_le(p, high) ==> pos_clamp(p, low, high) == p,
{
}

/// A range that is clipped to an element in the same file, whose own range
/// is in order, lies within the element: both ends are known and between
/// the ends of the element. A range that lay within it already is
/// unchanged, and a range that reaches beyond it on both sides becomes the
/// range of the element.
pub proof fn lemma_clip_is_contained(elem: DocToSrcJumpInfo, rng: DocToSrcJumpInfo)
    requires
        elem.same_file(&rng),
        elem.in_order(),
        rng.start.is_some() || rng.end.is_some(),
    ensures
        clip(Some(elem), Some(rng)).is_some(),
        ({
            let out = clip(Some(elem), Some(rng)).unwrap();
            let low = elem.start.unwrap();
            let high = elem.end.unwrap();
            &&& out.filepath == rng.filepath
            &&& out.start.is_some() && out.end.is_some()
            &&& pos_le(low, out.start.unwrap()) && pos_le(out.start.unwrap(), high)
            &&& pos_le(low, out.end.unwrap()) && pos_le(out.end.unwrap(), high)
            &&& (rng.in_order() ==> out.in_order())
            &&& (rng.in_order() && pos_le(low, rng.start.unwrap()) && pos_le(rng.end.unwrap(), high)
                ==> out == rng)
            &&& (rng.in_order() && pos_le(rng.start.unwrap(), low) && pos_le(high, rng.end.unwrap())
                ==> out.start == elem.start && out.end == elem.end)
        }),
{
}

} // verus!
