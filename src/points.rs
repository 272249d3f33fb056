//! Scored points as the coordinator returns them and as the response shows
//! them, and the conversion between the two.

use vstd::prelude::*;

verus! {

/// Identifier of a stored point.
#[derive(Debug)]
pub enum PointId {
    Num(u64),
    Uuid(String),
}

/// Identifier of a group in a grouped query.
#[derive(Debug)]
pub enum GroupId {
    Text(String),
    Unsigned(u64),
    Signed(i64),
}

/// A point as the storage coordinator returns it. The score is carried as the
/// bit pattern of its single-precision value: this layer never reads it.
#[derive(Debug)]
pub struct ScoredPointInternal {
    pub id: PointId,
    pub version: u64,
    pub score_bits: u32,
    pub payload: Option<String>,
}

/// A point as the response shows it.
#[derive(Debug)]
pub struct ScoredPoint {
    pub id: PointId,
    pub version: u64,
    pub score_bits: u32,
    pub payload: Option<String>,
}

/// A group as the coordinator returns it.
#[derive(Debug)]
pub struct PointGroupInternal {
    pub id: GroupId,
    pub hits: Vec<ScoredPointInternal>,
}

/// A group as the response shows it.
#[derive(Debug)]
pub struct PointGroup {
    pub id: GroupId,
    pub hits: Vec<ScoredPoint>,
}

/// The public form of a point: every field carried over unchanged.
pub open spec fn public_point(p: ScoredPointInternal) -> ScoredPoint {
    ScoredPoint { id: p.id, version: p.version, score_bits: p.score_bits, payload: p.payload }
}

/// The public form of each point of `s`, in the same order.
pub open spec fn public_points(s: Seq<ScoredPointInternal>) -> Seq<ScoredPoint> {
    s.map_values(|p: ScoredPointInternal| public_point(p))
}

impl ScoredPoint {
    /// Converts a point of the coordinator into its public form.
    pub fn from_internal(p: ScoredPointInternal) -> (r: ScoredPoint)
        ensures
            r == public_point(p),
    {
        ScoredPoint { id: p.id, version: p.version, score_bits: p.score_bits, payload: p.payload }
    }
}

/// Converts a ranked list of points, keeping its order.
pub fn convert_points(points: Vec<ScoredPointInternal>) -> (r: Vec<ScoredPoint>)
    ensures
        r@ == public_points(points@),
{
    let mut points = points;
    let ghost orig = points@;
    let mut rev: Vec<ScoredPoint> = Vec::new();
    while points.len() > 0
        invariant
            points@.len() + rev@.len() == orig.len(),
            points@ == orig.subrange(0, points@.len() as int),
            forall|k: int| 0 <= k < rev@.len() ==> #[trigger] rev@[k] == public_point(
                orig[orig.len() - 1 - k],
            ),
        decreases points@.len(),
    {
        let p = points.pop().unwrap();
        rev.push(ScoredPoint::from_internal(p));
    }
    let mut out: Vec<ScoredPoint> = Vec::new();
    while rev.len() > 0
        invariant
            rev@.len() + out@.len() == orig.len(),
            forall|k: int| 0 <= k < rev@.len() ==> #[trigger] rev@[k] == public_point(
                orig[orig.len() - 1 - k],
            ),
            forall|k: int| 0 <= k < out@.len() ==> #[trigger] out@[k] == public_point(orig[k]),
        decreases rev@.len(),
    {
        let p = rev.pop().unwrap();
        out.push(p);
    }
    assert(out@ =~= public_points(orig));
    out
}

impl PointGroup {
    /// Converts a group of the coordinator into its public form.
    pub fn from_internal(g: PointGroupInternal) -> (r: PointGroup)
        ensures
            r.id == g.id,
            r.hits@ == public_points(g.hits@),
    {
        PointGroup { id: g.id, hits: convert_points(g.hits) }
    }
}

/// Converts the groups of a grouped query, keeping their order; the groups
/// themselves are forwarded as the coordinator formed them.
pub fn convert_groups(groups: Vec<PointGroupInternal>) -> (r: Vec<PointGroup>)
    ensures
        r@.len() == groups@.len(),
        forall|i: int|
            0 <= i < groups@.len() ==> #[trigger] r@[i].id == groups@[i].id
                && r@[i].hits@ == public_points(groups@[i].hits@),
{
    let mut groups = groups;
    let ghost orig = groups@;
    let mut rev: Vec<PointGroup> = Vec::new();
    while groups.len() > 0
        invariant
            groups@.len() + rev@.len() == orig.len(),
            groups@ == orig.subrange(0, groups@.len() as int),
            forall|k: int|
                0 <= k < rev@.len() ==> #[trigger] rev@[k].id == orig[orig.len() - 1 - k].id
                    && rev@[k].hits@ == public_points(orig[orig.len() - 1 - k].hits@),
        decreases groups@.len(),
    {
        let g = groups.pop().unwrap();
        rev.push(PointGroup::from_internal(g));
    }
    let mut out: Vec<PointGroup> = Vec::new();
    while rev.len() > 0
        invariant
            rev@.len() + out@.len() == orig.len(),
            forall|k: int|
                0 <= k < rev@.len() ==> #[trigger] rev@[k].id == orig[orig.len() - 1 - k].id
                    && rev@[k].hits@ == public_points(orig[orig.len() - 1 - k].hits@),
            forall|k: int|
                0 <= k < out@.len() ==> #[trigger] out@[k].id == orig[k].id
                    && out@[k].hits@ == public_points(orig[k].hits@),
        decreases rev@.len(),
    {
        let g = rev.pop().unwrap();
        out.push(g);
    }
    out
}

} // verus!
