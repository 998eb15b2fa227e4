//! Real numbers, held as the literals that a dataset writes them with.
//!
//! A literal is kept letter for letter, so nothing is lost or rounded here; turning it
//! into a machine number is left to the caller.

use vstd::prelude::*;
use vstd::string::*;
use crate::number::{is_float, is_float_literal, is_real, is_real_literal, number_shape};

verus! {

/// A real number: a literal that [`is_real_literal`] accepts.
#[derive(Debug)]
pub struct Real {
    text: String,
}

impl View for Real {
    type V = Seq<char>;

    closed spec fn view(&self) -> Seq<char> {
        self.text@
    }
}

impl Clone for Real {
    fn clone(&self) -> (r: Self)
        ensures
            r@ == self@,
    {
        proof {
            use_type_invariant(self);
        }
        Real { text: self.text.clone() }
    }
}

impl Real {
    #[verifier::type_invariant]
    spec fn well_formed(self) -> bool {
        is_real_literal(self.text@)
    }

    /// The number that `text` writes as a floating-point literal, if it is one.
    pub fn from_literal(text: &str) -> (r: Option<Real>)
        ensures
            r is Some <==> is_float_literal(text@),
            r is Some ==> r->Some_0@ == text@,
    {
        if is_float(text) {
            Some(Real { text: text.to_owned() })
        } else {
            None
        }
    }

    /// The number that `text` writes in the way of a descriptor, if it does.
    pub fn from_descriptor(text: &str) -> (r: Option<Real>)
        ensures
            r is Some <==> is_real_literal(text@),
            r is Some ==> r->Some_0@ == text@,
    {
        if is_real(text) {
            Some(Real { text: text.to_owned() })
        } else {
            None
        }
    }

    /// The number zero, written `0`.
    pub fn zero() -> (r: Real)
        ensures
            r@ == seq!['0'],
    {
        let text = "0";
        proof {
            reveal_strlit("0");
            assert(text@ =~= seq!['0']);
            assert(number_shape(text@, 0, 1, 1));
        }
        Real { text: text.to_owned() }
    }

    /// The number one, written `1`.
    pub fn one() -> (r: Real)
        ensures
            r@ == seq!['1'],
    {
        let text = "1";
        proof {
            reveal_strlit("1");
            assert(text@ =~= seq!['1']);
            assert(number_shape(text@, 0, 1, 1));
        }
        Real { text: text.to_owned() }
    }

    /// The literal.
    pub fn as_str(&self) -> (text: &str)
        ensures
            text@ == self@,
            is_real_literal(text@),
    {
        proof {
            use_type_invariant(self);
        }
        self.text.as_str()
    }
}

/// The literals that numbers hold, in their order.
pub open spec fn literals(values: Seq<Real>) -> Seq<Seq<char>> {
    values.map_values(|value: Real| value@)
}

/// Three real numbers.
#[derive(Debug, Clone)]
pub struct Vector3 {
    pub x: Real,
    pub y: Real,
    pub z: Real,
}

impl Vector3 {
    /// The literals of the entries: `x`, `y`, `z`.
    pub open spec fn entries(&self) -> Seq<Seq<char>> {
        seq![self.x@, self.y@, self.z@]
    }

    /// The vector of the three numbers that stand in `values` from index `from` on.
    pub fn from_slice(values: &Vec<Real>, from: usize) -> (v: Vector3)
        requires
            from + 3 <= values@.len(),
        ensures
            v.entries() == literals(values@).subrange(from as int, from + 3),
    {
        assert(values@.len() == values.len());
        let v = Vector3 {
            x: values[from].clone(),
            y: values[from + 1].clone(),
            z: values[from + 2].clone(),
        };
        assert(v.entries() =~= literals(values@).subrange(from as int, from + 3));
        v
    }
}

/// A quaternion, scalar part first.
#[derive(Debug, Clone)]
pub struct Quaternion {
    pub w: Real,
    pub i: Real,
    pub j: Real,
    pub k: Real,
}

impl Quaternion {
    /// The literals of the entries: `w`, `i`, `j`, `k`.
    pub open spec fn entries(&self) -> Seq<Seq<char>> {
        seq![self.w@, self.i@, self.j@, self.k@]
    }

    /// The quaternion of the four numbers that stand in `values` from index `from` on.
    pub fn from_slice(values: &Vec<Real>, from: usize) -> (q: Quaternion)
        requires
            from + 4 <= values@.len(),
        ensures
            q.entries() == literals(values@).subrange(from as int, from + 4),
    {
        assert(values@.len() == values.len());
        let q = Quaternion {
            w: values[from].clone(),
            i: values[from + 1].clone(),
            j: values[from + 2].clone(),
            k: values[from + 3].clone(),
        };
        assert(q.entries() =~= literals(values@).subrange(from as int, from + 4));
        q
    }
}

/// Four real numbers.
#[derive(Debug, Clone)]
pub struct Vector4 {
    pub x: Real,
    pub y: Real,
    pub z: Real,
    pub w: Real,
}

impl Vector4 {
    /// The literals of the entries: `x`, `y`, `z`, `w`.
    pub open spec fn entries(&self) -> Seq<Seq<char>> {
        seq![self.x@, self.y@, self.z@, self.w@]
    }

    /// The vector of four numbers.
    pub fn from_slice(values: &Vec<Real>) -> (v: Vector4)
        requires
            values@.len() == 4,
        ensures
            v.entries() == literals(values@),
    {
        let v = Vector4 {
            x: values[0].clone(),
            y: values[1].clone(),
            z: values[2].clone(),
            w: values[3].clone(),
        };
        assert(v.entries() =~= literals(values@));
        v
    }
}

/// A matrix of three rows and three columns; `m23` stands in row 2 and column 3.
#[derive(Debug, Clone)]
pub struct Matrix3 {
    pub m11: Real,
    pub m12: Real,
    pub m13: Real,
    pub m21: Real,
    pub m22: Real,
    pub m23: Real,
    pub m31: Real,
    pub m32: Real,
    pub m33: Real,
}

impl Matrix3 {
    /// The literals of the entries, row after row.
    pub open spec fn entries(&self) -> Seq<Seq<char>> {
        seq![
            self.m11@,
            self.m12@,
            self.m13@,
            self.m21@,
            self.m22@,
            self.m23@,
            self.m31@,
            self.m32@,
            self.m33@,
        ]
    }
}

/// A matrix of four rows and four columns; `m23` stands in row 2 and column 3.
#[derive(Debug, Clone)]
pub struct Matrix4 {
    pub m11: Real,
    pub m12: Real,
    pub m13: Real,
    pub m14: Real,
    pub m21: Real,
    pub m22: Real,
    pub m23: Real,
    pub m24: Real,
    pub m31: Real,
    pub m32: Real,
    pub m33: Real,
    pub m34: Real,
    pub m41: Real,
    pub m42: Real,
    pub m43: Real,
    pub m44: Real,
}

impl Matrix4 {
    /// The literals of the entries, row after row.
    pub open spec fn entries(&self) -> Seq<Seq<char>> {
        seq![
            self.m11@,
            self.m12@,
            self.m13@,
            self.m14@,
            self.m21@,
            self.m22@,
            self.m23@,
            self.m24@,
            self.m31@,
            self.m32@,
            self.m33@,
            self.m34@,
            self.m41@,
            self.m42@,
            self.m43@,
            self.m44@,
        ]
    }

    /// The matrix whose entries are sixteen numbers, row after row.
    pub fn from_row_slice(values: &Vec<Real>) -> (m: Matrix4)
        requires
            values@.len() == 16,
        ensures
            m.entries() == literals(values@),
    {
        let m = Matrix4 {
            m11: values[0].clone(),
            m12: values[1].clone(),
            m13: values[2].clone(),
            m14: values[3].clone(),
            m21: values[4].clone(),
            m22: values[5].clone(),
            m23: values[6].clone(),
            m24: values[7].clone(),
            m31: values[8].clone(),
            m32: values[9].clone(),
            m33: values[10].clone(),
            m34: values[11].clone(),
            m41: values[12].clone(),
            m42: values[13].clone(),
            m43: values[14].clone(),
            m44: values[15].clone(),
        };
        assert(m.entries() =~= literals(values@));
        m
    }
}

} // verus!
