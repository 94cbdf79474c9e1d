//! Transforms, kept symbolic.
//!
//! The engine never computes with matrix entries: it reads the backend's
//! current transform, inverts it, pre-translates it and concatenates the
//! results.  A transform is therefore represented as the program of
//! operations that builds it — exactly the combinator the device-space
//! shadow offset needs — and a numeric backend evaluates the program when
//! it replays the recorded commands.

use vstd::prelude::*;
use crate::scalar::Scalar;

verus! {

/// A raw affine transform `(a c e / b d f)`, entries as IEEE bit patterns.
#[derive(Clone, Copy, PartialEq, Eq, Structural, Debug)]
pub struct Transform {
    pub a: Scalar,
    pub b: Scalar,
    pub c: Scalar,
    pub d: Scalar,
    pub e: Scalar,
    pub f: Scalar,
}

impl Transform {
    pub fn new(a: Scalar, b: Scalar, c: Scalar, d: Scalar, e: Scalar, f: Scalar) -> (r:
        Transform)
        ensures
            r == (Transform { a, b, c, d, e, f }),
    {
        Transform { a, b, c, d, e, f }
    }

    /// The identity matrix's entries.
    pub open spec fn spec_identity() -> Transform {
        Transform {
            a: Scalar { bits: 0x3f80_0000 },
            b: Scalar { bits: 0 },
            c: Scalar { bits: 0 },
            d: Scalar { bits: 0x3f80_0000 },
            e: Scalar { bits: 0 },
            f: Scalar { bits: 0 },
        }
    }
}

impl Default for Transform {
    fn default() -> (r: Transform)
        ensures
            r == Transform::spec_identity(),
    {
        Transform {
            a: Scalar { bits: 0x3f80_0000 },
            b: Scalar { bits: 0 },
            c: Scalar { bits: 0 },
            d: Scalar { bits: 0x3f80_0000 },
            e: Scalar { bits: 0 },
            f: Scalar { bits: 0 },
        }
    }
}

/// A transform as the program of backend matrix operations that builds it.
///
/// `Pre*` nodes insert their operation "before" the base transform, as the
/// backend's `preTranslate`/`preRotate`/`preConcat` calls do; `Invert` is
/// the base's inverse.  The model treats every program as invertible; a
/// numeric backend may fail on a singular matrix when it evaluates the
/// program, and the pipeline surfaces that as a backend-resource failure.
#[derive(PartialEq, Debug)]
pub enum Matrix {
    Identity,
    Raw(Transform),
    PreTranslate(Box<Matrix>, Scalar, Scalar),
    PreScale(Box<Matrix>, Scalar, Scalar),
    PreRotate(Box<Matrix>, Scalar),
    PreConcat(Box<Matrix>, Box<Matrix>),
    Invert(Box<Matrix>),
}

impl Clone for Matrix {
    fn clone(&self) -> (res: Matrix)
        ensures
            res == *self,
        decreases *self,
    {
        match self {
            Matrix::Identity => Matrix::Identity,
            Matrix::Raw(t) => Matrix::Raw(*t),
            Matrix::PreTranslate(m, dx, dy) => Matrix::PreTranslate(
                Box::new((**m).clone()),
                *dx,
                *dy,
            ),
            Matrix::PreScale(m, sx, sy) => Matrix::PreScale(Box::new((**m).clone()), *sx, *sy),
            Matrix::PreRotate(m, deg) => Matrix::PreRotate(Box::new((**m).clone()), *deg),
            Matrix::PreConcat(m, n) => Matrix::PreConcat(
                Box::new((**m).clone()),
                Box::new((**n).clone()),
            ),
            Matrix::Invert(m) => Matrix::Invert(Box::new((**m).clone())),
        }
    }
}

impl Matrix {
    pub fn identity() -> (r: Matrix)
        ensures
            r == Matrix::Identity,
    {
        Matrix::Identity
    }

    /// Replaces the matrix by itself pre-translated by `(dx, dy)`.
    pub fn pre_translate(&mut self, dx: Scalar, dy: Scalar)
        ensures
            *final(self) == Matrix::PreTranslate(Box::new(*old(self)), dx, dy),
    {
        let mut base = Matrix::Identity;
        core::mem::swap(self, &mut base);
        *self = Matrix::PreTranslate(Box::new(base), dx, dy);
    }

    /// Replaces the matrix by itself pre-rotated by `degrees`.
    pub fn pre_rotate(&mut self, degrees: Scalar)
        ensures
            *final(self) == Matrix::PreRotate(Box::new(*old(self)), degrees),
    {
        let mut base = Matrix::Identity;
        core::mem::swap(self, &mut base);
        *self = Matrix::PreRotate(Box::new(base), degrees);
    }

    /// The inverse, as a program node.  In this symbolic model inversion
    /// always succeeds; see the type's documentation.
    pub fn invert(&self) -> (r: Option<Matrix>)
        ensures
            r == Some(Matrix::Invert(Box::new(*self))),
    {
        Some(Matrix::Invert(Box::new(self.clone())))
    }
}

} // verus!
