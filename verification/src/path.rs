//! The path accumulator.
//!
//! A path owns its geometry as the ordered list of construction commands
//! the host issued, plus the fill-rule tag that is set at use time.  The
//! engine never evaluates the geometry numerically; a command is either a
//! verb that contributes geometry or an in-place transform of what came
//! before it, and emptiness is the absence of verbs.

use vstd::prelude::*;
use crate::scalar::Scalar;
use crate::style::{FillType, PathOp};
use crate::matrix::{Matrix, Transform};

verus! {

/// One path-construction command.
///
/// `Arc` is the host-level circular arc (centre, radius, angle range);
/// `ArcTo` is the backend-level elliptical arc over a bounding box;
/// `Transform` applies a matrix in place to everything accumulated before
/// it; `Combine` folds the preceding `operand_len` commands — appended from
/// another path — into the geometry before them under a boolean operator.
#[derive(PartialEq, Debug)]
pub enum PathCmd {
    MoveTo(Scalar, Scalar),
    LineTo(Scalar, Scalar),
    CubicTo(Scalar, Scalar, Scalar, Scalar, Scalar, Scalar),
    QuadTo(Scalar, Scalar, Scalar, Scalar),
    Arc {
        center_x: Scalar,
        center_y: Scalar,
        radius: Scalar,
        start_angle: Scalar,
        end_angle: Scalar,
        from_end: bool,
    },
    ArcTo {
        left: Scalar,
        top: Scalar,
        right: Scalar,
        bottom: Scalar,
        start_angle: Scalar,
        sweep_angle: Scalar,
        force_move_to: bool,
    },
    ArcToTangent(Scalar, Scalar, Scalar, Scalar, Scalar),
    AddRect(Scalar, Scalar, Scalar, Scalar),
    AddCircle(Scalar, Scalar, Scalar),
    Close,
    Transform(Matrix),
    Combine { op: PathOp, operand_len: usize },
}

impl Clone for PathCmd {
    fn clone(&self) -> (res: PathCmd)
        ensures
            res == *self,
    {
        match self {
            PathCmd::MoveTo(x, y) => PathCmd::MoveTo(*x, *y),
            PathCmd::LineTo(x, y) => PathCmd::LineTo(*x, *y),
            PathCmd::CubicTo(x1, y1, x2, y2, x3, y3) => PathCmd::CubicTo(
                *x1,
                *y1,
                *x2,
                *y2,
                *x3,
                *y3,
            ),
            PathCmd::QuadTo(x1, y1, x2, y2) => PathCmd::QuadTo(*x1, *y1, *x2, *y2),
            PathCmd::Arc { center_x, center_y, radius, start_angle, end_angle, from_end } => {
                PathCmd::Arc {
                    center_x: *center_x,
                    center_y: *center_y,
                    radius: *radius,
                    start_angle: *start_angle,
                    end_angle: *end_angle,
                    from_end: *from_end,
                }
            },
            PathCmd::ArcTo { left, top, right, bottom, start_angle, sweep_angle, force_move_to }
                => {
                PathCmd::ArcTo {
                    left: *left,
                    top: *top,
                    right: *right,
                    bottom: *bottom,
                    start_angle: *start_angle,
                    sweep_angle: *sweep_angle,
                    force_move_to: *force_move_to,
                }
            },
            PathCmd::ArcToTangent(x1, y1, x2, y2, r) => PathCmd::ArcToTangent(
                *x1,
                *y1,
                *x2,
                *y2,
                *r,
            ),
            PathCmd::AddRect(l, t, r, b) => PathCmd::AddRect(*l, *t, *r, *b),
            PathCmd::AddCircle(x, y, r) => PathCmd::AddCircle(*x, *y, *r),
            PathCmd::Close => PathCmd::Close,
            PathCmd::Transform(m) => PathCmd::Transform(m.clone()),
            PathCmd::Combine { op, operand_len } => PathCmd::Combine {
                op: *op,
                operand_len: *operand_len,
            },
        }
    }
}

/// Whether a command contributes geometry, as opposed to transforming what
/// is already there.
pub open spec fn is_verb(c: PathCmd) -> bool {
    !(c is Transform)
}

/// Mutable current geometry plus its fill-rule tag.
#[derive(PartialEq, Debug)]
pub struct Path {
    pub cmds: Vec<PathCmd>,
    pub fill_type: FillType,
}

/// The mathematical value of a [`Path`].
pub struct PathV {
    pub cmds: Seq<PathCmd>,
    pub fill_type: FillType,
}

impl PathV {
    /// A path with no verbs encloses nothing.
    pub open spec fn is_empty(self) -> bool {
        forall|i: int| 0 <= i < self.cmds.len() ==> !is_verb(#[trigger] self.cmds[i])
    }
}

impl View for Path {
    type V = PathV;

    open spec fn view(&self) -> PathV {
        PathV { cmds: self.cmds@, fill_type: self.fill_type }
    }
}

impl Clone for Path {
    fn clone(&self) -> (res: Path)
        ensures
            res@ == self@,
    {
        let mut cmds: Vec<PathCmd> = Vec::new();
        let mut i: usize = 0;
        while i < self.cmds.len()
            invariant
                i <= self.cmds.len(),
                cmds@ == self.cmds@.take(i as int),
            decreases self.cmds.len() - i,
        {
            cmds.push(self.cmds[i].clone());
            proof {
                assert(cmds@ =~= self.cmds@.take(i + 1));
            }
            i = i + 1;
        }
        proof {
            assert(self.cmds@.take(self.cmds@.len() as int) =~= self.cmds@);
        }
        Path { cmds, fill_type: self.fill_type }
    }
}

impl Path {
    pub fn new() -> (r: Path)
        ensures
            r@.cmds == Seq::<PathCmd>::empty(),
            r@.fill_type == FillType::Winding,
    {
        Path { cmds: Vec::new(), fill_type: FillType::Winding }
    }

    pub fn set_fill_type(&mut self, kind: FillType)
        ensures
            final(self)@ == (PathV { fill_type: kind, ..old(self)@ }),
    {
        self.fill_type = kind;
    }

    pub fn move_to(&mut self, x: Scalar, y: Scalar)
        ensures
            final(self)@ == (PathV {
                cmds: old(self)@.cmds.push(PathCmd::MoveTo(x, y)),
                ..old(self)@
            }),
    {
        self.cmds.push(PathCmd::MoveTo(x, y));
    }

    pub fn line_to(&mut self, x: Scalar, y: Scalar)
        ensures
            final(self)@ == (PathV {
                cmds: old(self)@.cmds.push(PathCmd::LineTo(x, y)),
                ..old(self)@
            }),
    {
        self.cmds.push(PathCmd::LineTo(x, y));
    }

    pub fn cubic_to(&mut self, x1: Scalar, y1: Scalar, x2: Scalar, y2: Scalar, x3: Scalar, y3:
        Scalar)
        ensures
            final(self)@ == (PathV {
                cmds: old(self)@.cmds.push(PathCmd::CubicTo(x1, y1, x2, y2, x3, y3)),
                ..old(self)@
            }),
    {
        self.cmds.push(PathCmd::CubicTo(x1, y1, x2, y2, x3, y3));
    }

    pub fn quad_to(&mut self, x1: Scalar, y1: Scalar, x2: Scalar, y2: Scalar)
        ensures
            final(self)@ == (PathV {
                cmds: old(self)@.cmds.push(PathCmd::QuadTo(x1, y1, x2, y2)),
                ..old(self)@
            }),
    {
        self.cmds.push(PathCmd::QuadTo(x1, y1, x2, y2));
    }

    /// The host-level arc: a circle segment around a centre, running from
    /// `start_angle` to `end_angle`, anticlockwise when `from_end` holds.
    pub fn arc(&mut self, center_x: Scalar, center_y: Scalar, radius: Scalar, start_angle:
        Scalar, end_angle: Scalar, from_end: bool)
        ensures
            final(self)@ == (PathV {
                cmds: old(self)@.cmds.push(
                    PathCmd::Arc { center_x, center_y, radius, start_angle, end_angle, from_end },
                ),
                ..old(self)@
            }),
    {
        self.cmds.push(
            PathCmd::Arc { center_x, center_y, radius, start_angle, end_angle, from_end },
        );
    }

    /// The backend-level arc over an ellipse's bounding box.
    pub fn arc_to(&mut self, left: Scalar, top: Scalar, right: Scalar, bottom: Scalar,
        start_angle: Scalar, sweep_angle: Scalar, force_move_to: bool)
        ensures
            final(self)@ == (PathV {
                cmds: old(self)@.cmds.push(
                    PathCmd::ArcTo {
                        left,
                        top,
                        right,
                        bottom,
                        start_angle,
                        sweep_angle,
                        force_move_to,
                    },
                ),
                ..old(self)@
            }),
    {
        self.cmds.push(
            PathCmd::ArcTo { left, top, right, bottom, start_angle, sweep_angle, force_move_to },
        );
    }

    /// The rounded-corner construction from two tangent targets and a
    /// radius.
    pub fn arc_to_tangent(&mut self, x1: Scalar, y1: Scalar, x2: Scalar, y2: Scalar, radius:
        Scalar)
        ensures
            final(self)@ == (PathV {
                cmds: old(self)@.cmds.push(PathCmd::ArcToTangent(x1, y1, x2, y2, radius)),
                ..old(self)@
            }),
    {
        self.cmds.push(PathCmd::ArcToTangent(x1, y1, x2, y2, radius));
    }

    pub fn add_rect(&mut self, l: Scalar, t: Scalar, r: Scalar, b: Scalar)
        ensures
            final(self)@ == (PathV {
                cmds: old(self)@.cmds.push(PathCmd::AddRect(l, t, r, b)),
                ..old(self)@
            }),
    {
        self.cmds.push(PathCmd::AddRect(l, t, r, b));
    }

    pub fn push_circle(&mut self, x: Scalar, y: Scalar, r: Scalar)
        ensures
            final(self)@ == (PathV {
                cmds: old(self)@.cmds.push(PathCmd::AddCircle(x, y, r)),
                ..old(self)@
            }),
    {
        self.cmds.push(PathCmd::AddCircle(x, y, r));
    }

    pub fn close(&mut self)
        ensures
            final(self)@ == (PathV { cmds: old(self)@.cmds.push(PathCmd::Close), ..old(self)@ }),
    {
        self.cmds.push(PathCmd::Close);
    }

    /// Applies a raw transform in place to the accumulated geometry.
    pub fn transform(&mut self, transform: &Transform)
        ensures
            final(self)@ == (PathV {
                cmds: old(self)@.cmds.push(PathCmd::Transform(Matrix::Raw(*transform))),
                ..old(self)@
            }),
    {
        self.cmds.push(PathCmd::Transform(Matrix::Raw(*transform)));
    }

    /// Applies a matrix program in place to the accumulated geometry.
    pub fn transform_matrix(&mut self, matrix: &Matrix)
        ensures
            final(self)@ == (PathV {
                cmds: old(self)@.cmds.push(PathCmd::Transform(*matrix)),
                ..old(self)@
            }),
    {
        self.cmds.push(PathCmd::Transform(matrix.clone()));
    }

    /// True when the path holds no geometry: transforms of nothing are
    /// still nothing.
    pub fn is_empty(&self) -> (r: bool)
        ensures
            r == self@.is_empty(),
    {
        let mut i: usize = 0;
        while i < self.cmds.len()
            invariant
                i <= self.cmds.len(),
                forall|j: int| 0 <= j < i ==> !is_verb(#[trigger] self.cmds@[j]),
            decreases self.cmds.len() - i,
        {
            match &self.cmds[i] {
                PathCmd::Transform(_) => {},
                _ => {
                    proof {
                        assert(is_verb(self@.cmds[i as int]));
                    }
                    return false;
                },
            }
            i = i + 1;
        }
        true
    }

    /// Boolean combination with another path, delegated to the backend: the
    /// operand's commands are appended, and a combine marker folds them into
    /// the geometry before them under `op`.
    pub fn op(&mut self, other: &Path, op: PathOp) -> (r: bool)
        ensures
            final(self)@ == (PathV {
                cmds: old(self)@.cmds + other@.cmds + seq![
                    PathCmd::Combine { op, operand_len: other@.cmds.len() as usize },
                ],
                ..old(self)@
            }),
            r == true,
    {
        let operand_len: usize = other.cmds.len();
        let mut i: usize = 0;
        while i < other.cmds.len()
            invariant
                i <= other.cmds.len(),
                self.cmds@ == old(self).cmds@ + other.cmds@.take(i as int),
                self.fill_type == old(self).fill_type,
            decreases other.cmds.len() - i,
        {
            self.cmds.push(other.cmds[i].clone());
            proof {
                assert(self.cmds@ =~= old(self).cmds@ + other.cmds@.take(i + 1));
            }
            i = i + 1;
        }
        proof {
            assert(other.cmds@.take(other.cmds@.len() as int) =~= other.cmds@);
        }
        self.cmds.push(PathCmd::Combine { op, operand_len });
        proof {
            assert(self.cmds@ =~= old(self).cmds@ + other.cmds@ + seq![
                PathCmd::Combine { op, operand_len: other.cmds@.len() as usize },
            ]);
        }
        true
    }
}

} // verus!
