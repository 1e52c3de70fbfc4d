use vstd::prelude::*;

use crate::units::FP;

verus! {

/// A complex number in Cartesian form.
///
/// Each operation rounds as the sample type does, so the order of the real
/// operations is part of its meaning. The `spec_*` functions write that order
/// down; the executable methods follow it.
#[derive(Debug)]
pub struct Complex<T: FP> {
    pub re: T,
    pub im: T,
}

impl<T: FP> Copy for Complex<T> {

}

impl<T: FP> Clone for Complex<T> {
    fn clone(&self) -> (r: Self)
        ensures
            r == *self,
    {
        *self
    }
}

impl<T: FP> Complex<T> {
    pub open spec fn spec_new(re: T, im: T) -> Self {
        Complex { re, im }
    }

    /// The number one.
    pub open spec fn spec_one() -> Self {
        Complex { re: T::spec_from_usize(1), im: T::spec_from_usize(0) }
    }

    /// `(a + bi) + (c + di) = (a + c) + (b + d)i`
    pub open spec fn spec_add(self, rhs: Self) -> Self {
        Complex { re: self.re.spec_add(rhs.re), im: self.im.spec_add(rhs.im) }
    }

    /// `(a + bi) - (c + di) = (a - c) + (b - d)i`
    pub open spec fn spec_sub(self, rhs: Self) -> Self {
        Complex { re: self.re.spec_sub(rhs.re), im: self.im.spec_sub(rhs.im) }
    }

    /// `(a + bi) * (c + di) = (ac - bd) + (ad + bc)i`
    pub open spec fn spec_mul(self, rhs: Self) -> Self {
        Complex {
            re: self.re.spec_mul(rhs.re).spec_sub(self.im.spec_mul(rhs.im)),
            im: self.re.spec_mul(rhs.im).spec_add(self.im.spec_mul(rhs.re)),
        }
    }

    /// `c^2 + d^2` for `c + di`
    pub open spec fn spec_norm_sqr(self) -> T {
        self.re.spec_mul(self.re).spec_add(self.im.spec_mul(self.im))
    }

    /// `(a + bi) / (c + di) = (ac + bd) / (c^2 + d^2) + ((bc - ad) / (c^2 + d^2))i`
    pub open spec fn spec_div(self, rhs: Self) -> Self {
        let norm_sqr = rhs.spec_norm_sqr();
        Complex {
            re: self.re.spec_mul(rhs.re).spec_add(self.im.spec_mul(rhs.im)).spec_div(norm_sqr),
            im: self.im.spec_mul(rhs.re).spec_sub(self.re.spec_mul(rhs.im)).spec_div(norm_sqr),
        }
    }

    /// `(a + bi) + t = (a + t) + bi`
    pub open spec fn spec_add_real(self, t: T) -> Self {
        Complex { re: self.re.spec_add(t), im: self.im }
    }

    /// `(a + bi) * t = at + (bt)i`
    pub open spec fn spec_scale(self, t: T) -> Self {
        Complex { re: self.re.spec_mul(t), im: self.im.spec_mul(t) }
    }

    /// `t + (a + bi) = (t + a) + bi`
    pub open spec fn spec_radd(self, t: T) -> Self {
        Complex { re: t.spec_add(self.re), im: self.im }
    }

    /// `t - (a + bi) = (t - a) + (0 - b)i`
    pub open spec fn spec_rsub(self, t: T) -> Self {
        Complex { re: t.spec_sub(self.re), im: T::spec_from_usize(0).spec_sub(self.im) }
    }

    /// `t * (a + bi) = ta + (tb)i`
    pub open spec fn spec_rmul(self, t: T) -> Self {
        Complex { re: t.spec_mul(self.re), im: t.spec_mul(self.im) }
    }

    pub fn new(re: T, im: T) -> (r: Self)
        ensures
            r == Self::spec_new(re, im),
    {
        Complex { re, im }
    }

    pub fn one() -> (r: Self)
        ensures
            r == Self::spec_one(),
    {
        Complex { re: T::from_usize(1), im: T::from_usize(0) }
    }

    pub fn add(self, rhs: Self) -> (r: Self)
        ensures
            r == self.spec_add(rhs),
    {
        Complex { re: self.re.add(rhs.re), im: self.im.add(rhs.im) }
    }

    pub fn sub(self, rhs: Self) -> (r: Self)
        ensures
            r == self.spec_sub(rhs),
    {
        Complex { re: self.re.sub(rhs.re), im: self.im.sub(rhs.im) }
    }

    pub fn mul(self, rhs: Self) -> (r: Self)
        ensures
            r == self.spec_mul(rhs),
    {
        let re = self.re.mul(rhs.re).sub(self.im.mul(rhs.im));
        let im = self.re.mul(rhs.im).add(self.im.mul(rhs.re));
        Complex { re, im }
    }

    pub fn norm_sqr(self) -> (r: T)
        ensures
            r == self.spec_norm_sqr(),
    {
        self.re.mul(self.re).add(self.im.mul(self.im))
    }

    pub fn div(self, rhs: Self) -> (r: Self)
        ensures
            r == self.spec_div(rhs),
    {
        let norm_sqr = rhs.norm_sqr();
        let re = self.re.mul(rhs.re).add(self.im.mul(rhs.im));
        let im = self.im.mul(rhs.re).sub(self.re.mul(rhs.im));
        Complex { re: re.div(norm_sqr), im: im.div(norm_sqr) }
    }

    /// `self + t` for a real `t`.
    pub fn add_real(self, t: T) -> (r: Self)
        ensures
            r == self.spec_add_real(t),
    {
        Complex { re: self.re.add(t), im: self.im }
    }

    /// `self * t` for a real `t`.
    pub fn scale(self, t: T) -> (r: Self)
        ensures
            r == self.spec_scale(t),
    {
        Complex { re: self.re.mul(t), im: self.im.mul(t) }
    }

    /// `t + self` for a real `t`.
    pub fn radd(self, t: T) -> (r: Self)
        ensures
            r == self.spec_radd(t),
    {
        Complex { re: t.add(self.re), im: self.im }
    }

    /// `t - self` for a real `t`.
    pub fn rsub(self, t: T) -> (r: Self)
        ensures
            r == self.spec_rsub(t),
    {
        Complex { re: t.sub(self.re), im: T::from_usize(0).sub(self.im) }
    }

    /// `t * self` for a real `t`.
    pub fn rmul(self, t: T) -> (r: Self)
        ensures
            r == self.spec_rmul(t),
    {
        Complex { re: t.mul(self.re), im: t.mul(self.im) }
    }
}

} // verus!
