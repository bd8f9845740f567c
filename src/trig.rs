//! Degree and radian angles over a numeric kind `T`.
//!
//! Within one unit an operator works on the two stored magnitudes and keeps the unit. In an
//! operation between a degree angle and a radian angle the right-hand operand's unit wins: the
//! left operand is converted into that unit first, and the result carries it.
//! - `DegreeAngle<T>` + `RadianAngle<T>` = `RadianAngle<T>`
//! - `RadianAngle<T>` + `DegreeAngle<T>` = `DegreeAngle<T>`
//!
//! Equality across units converts the degree side into radians, whichever side it stands on.
use vstd::prelude::*;
use vstd::std_specs::cmp::PartialEqSpec;
use vstd::std_specs::ops::{AddSpec, DivSpec, MulSpec, SubSpec};

verus! {

/// An angle in degrees. The magnitude is kept as given: it is not reduced modulo a full turn.
#[derive(Debug, Clone, Copy)]
pub struct DegreeAngle<T>(pub T);

/// An angle in radians. The magnitude is kept as given: it is not reduced modulo a full turn.
#[derive(Debug, Clone, Copy)]
pub struct RadianAngle<T>(pub T);

/// All objects implementing the `IntoRad` trait can be converted into radians.
pub trait IntoRad<T> {
    /// The magnitude in radians. An implementation written outside verified code need not
    /// give it, and then nothing is known of it.
    open spec fn rad_value(&self) -> T {
        arbitrary()
    }

    fn into_rad(&self) -> (r: T)
        ensures
            r == self.rad_value(),
    ;
}

/// All objects implementing the `IntoDeg` trait can be converted into degrees.
pub trait IntoDeg<T> {
    /// The magnitude in degrees. An implementation written outside verified code need not
    /// give it, and then nothing is known of it.
    open spec fn deg_value(&self) -> T {
        arbitrary()
    }

    fn into_deg(&self) -> (r: T)
        ensures
            r == self.deg_value(),
    ;
}

/// A radian angle read in radians is its stored magnitude.
impl<T: Copy> IntoRad<T> for RadianAngle<T> {
    open spec fn rad_value(&self) -> T {
        self.0
    }

    fn into_rad(&self) -> (r: T) {
        self.0
    }
}

/// A degree angle read in degrees is its stored magnitude.
impl<T: Copy> IntoDeg<T> for DegreeAngle<T> {
    open spec fn deg_value(&self) -> T {
        self.0
    }

    fn into_deg(&self) -> (r: T) {
        self.0
    }
}

/// Two degree angles are equal when their magnitudes are.
impl<T: PartialEq> PartialEq for DegreeAngle<T> {
    fn eq(&self, other: &DegreeAngle<T>) -> (r: bool)
        ensures
            call_ensures(T::eq, (&self.0, &other.0), r),
            T::obeys_eq_spec() ==> r == self.0.eq_spec(&other.0),
    {
        self.0 == other.0
    }
}

impl<T: PartialEq> vstd::std_specs::cmp::PartialEqSpecImpl for DegreeAngle<T> {
    open spec fn obeys_eq_spec() -> bool {
        T::obeys_eq_spec()
    }

    open spec fn eq_spec(&self, other: &DegreeAngle<T>) -> bool {
        self.0.eq_spec(&other.0)
    }
}

/// Two radian angles are equal when their magnitudes are.
impl<T: PartialEq> PartialEq for RadianAngle<T> {
    fn eq(&self, other: &RadianAngle<T>) -> (r: bool)
        ensures
            call_ensures(T::eq, (&self.0, &other.0), r),
            T::obeys_eq_spec() ==> r == self.0.eq_spec(&other.0),
    {
        self.0 == other.0
    }
}

impl<T: PartialEq> vstd::std_specs::cmp::PartialEqSpecImpl for RadianAngle<T> {
    open spec fn obeys_eq_spec() -> bool {
        T::obeys_eq_spec()
    }

    open spec fn eq_spec(&self, other: &RadianAngle<T>) -> bool {
        self.0.eq_spec(&other.0)
    }
}

/// A radian angle equals a degree angle when the degree angle, read in radians, equals its magnitude.
impl<T: PartialEq> PartialEq<DegreeAngle<T>> for RadianAngle<T> where DegreeAngle<T>: IntoRad<T> {
    fn eq(&self, other: &DegreeAngle<T>) -> (r: bool)
        ensures
            call_ensures(T::eq, (&other.rad_value(), &self.0), r),
            T::obeys_eq_spec() ==> r == other.rad_value().eq_spec(&self.0),
    {
        other.into_rad() == self.0
    }
}

impl<T: PartialEq> vstd::std_specs::cmp::PartialEqSpecImpl<DegreeAngle<T>> for RadianAngle<T> where DegreeAngle<T>: IntoRad<T> {
    open spec fn obeys_eq_spec() -> bool {
        T::obeys_eq_spec()
    }

    open spec fn eq_spec(&self, other: &DegreeAngle<T>) -> bool {
        other.rad_value().eq_spec(&self.0)
    }
}

/// A degree angle equals a radian angle when it equals, read in radians, the radian magnitude.
impl<T: PartialEq> PartialEq<RadianAngle<T>> for DegreeAngle<T> where DegreeAngle<T>: IntoRad<T> {
    fn eq(&self, other: &RadianAngle<T>) -> (r: bool)
        ensures
            call_ensures(T::eq, (&self.rad_value(), &other.0), r),
            T::obeys_eq_spec() ==> r == self.rad_value().eq_spec(&other.0),
    {
        self.into_rad() == other.0
    }
}

impl<T: PartialEq> vstd::std_specs::cmp::PartialEqSpecImpl<RadianAngle<T>> for DegreeAngle<T> where DegreeAngle<T>: IntoRad<T> {
    open spec fn obeys_eq_spec() -> bool {
        T::obeys_eq_spec()
    }

    open spec fn eq_spec(&self, other: &RadianAngle<T>) -> bool {
        self.rad_value().eq_spec(&other.0)
    }
}

/// The sum of the two degree magnitudes; the result is in degrees.
impl<T> std::ops::Add for DegreeAngle<T> where T: std::ops::Add<Output = T> {
    type Output = DegreeAngle<T>;

    fn add(self, other: DegreeAngle<T>) -> (r: DegreeAngle<T>)
        ensures
            call_ensures(T::add, (self.0, other.0), r.0),
            T::obeys_add_spec() ==> r.0 == self.0.add_spec(other.0),
    {
        DegreeAngle(self.0 + other.0)
    }
}

impl<T> vstd::std_specs::ops::AddSpecImpl for DegreeAngle<T> where T: std::ops::Add<Output = T> {
    open spec fn obeys_add_spec() -> bool {
        T::obeys_add_spec()
    }

    open spec fn add_req(self, rhs: DegreeAngle<T>) -> bool {
        self.0.add_req(rhs.0)
    }

    open spec fn add_spec(self, rhs: DegreeAngle<T>) -> DegreeAngle<T> {
        DegreeAngle(self.0.add_spec(rhs.0))
    }
}

/// The difference of the two degree magnitudes; the result is in degrees.
impl<T> std::ops::Sub for DegreeAngle<T> where T: std::ops::Sub<Output = T> {
    type Output = DegreeAngle<T>;

    fn sub(self, other: DegreeAngle<T>) -> (r: DegreeAngle<T>)
        ensures
            call_ensures(T::sub, (self.0, other.0), r.0),
            T::obeys_sub_spec() ==> r.0 == self.0.sub_spec(other.0),
    {
        DegreeAngle(self.0 - other.0)
    }
}

impl<T> vstd::std_specs::ops::SubSpecImpl for DegreeAngle<T> where T: std::ops::Sub<Output = T> {
    open spec fn obeys_sub_spec() -> bool {
        T::obeys_sub_spec()
    }

    open spec fn sub_req(self, rhs: DegreeAngle<T>) -> bool {
        self.0.sub_req(rhs.0)
    }

    open spec fn sub_spec(self, rhs: DegreeAngle<T>) -> DegreeAngle<T> {
        DegreeAngle(self.0.sub_spec(rhs.0))
    }
}

/// The product of the two degree magnitudes; the result is in degrees.
impl<T> std::ops::Mul for DegreeAngle<T> where T: std::ops::Mul<Output = T> {
    type Output = DegreeAngle<T>;

    fn mul(self, other: DegreeAngle<T>) -> (r: DegreeAngle<T>)
        ensures
            call_ensures(T::mul, (self.0, other.0), r.0),
            T::obeys_mul_spec() ==> r.0 == self.0.mul_spec(other.0),
    {
        DegreeAngle(self.0 * other.0)
    }
}

impl<T> vstd::std_specs::ops::MulSpecImpl for DegreeAngle<T> where T: std::ops::Mul<Output = T> {
    open spec fn obeys_mul_spec() -> bool {
        T::obeys_mul_spec()
    }

    open spec fn mul_req(self, rhs: DegreeAngle<T>) -> bool {
        self.0.mul_req(rhs.0)
    }

    open spec fn mul_spec(self, rhs: DegreeAngle<T>) -> DegreeAngle<T> {
        DegreeAngle(self.0.mul_spec(rhs.0))
    }
}

/// The quotient of the two degree magnitudes; the result is in degrees.
impl<T> std::ops::Div for DegreeAngle<T> where T: std::ops::Div<Output = T> {
    type Output = DegreeAngle<T>;

    fn div(self, other: DegreeAngle<T>) -> (r: DegreeAngle<T>)
        ensures
            call_ensures(T::div, (self.0, other.0), r.0),
            T::obeys_div_spec() ==> r.0 == self.0.div_spec(other.0),
    {
        DegreeAngle(self.0 / other.0)
    }
}

impl<T> vstd::std_specs::ops::DivSpecImpl for DegreeAngle<T> where T: std::ops::Div<Output = T> {
    open spec fn obeys_div_spec() -> bool {
        T::obeys_div_spec()
    }

    open spec fn div_req(self, rhs: DegreeAngle<T>) -> bool {
        self.0.div_req(rhs.0)
    }

    open spec fn div_spec(self, rhs: DegreeAngle<T>) -> DegreeAngle<T> {
        DegreeAngle(self.0.div_spec(rhs.0))
    }
}

/// The sum of the two radian magnitudes; the result is in radians.
impl<T> std::ops::Add for RadianAngle<T> where T: std::ops::Add<Output = T> {
    type Output = RadianAngle<T>;

    fn add(self, other: RadianAngle<T>) -> (r: RadianAngle<T>)
        ensures
            call_ensures(T::add, (self.0, other.0), r.0),
            T::obeys_add_spec() ==> r.0 == self.0.add_spec(other.0),
    {
        RadianAngle(self.0 + other.0)
    }
}

impl<T> vstd::std_specs::ops::AddSpecImpl for RadianAngle<T> where T: std::ops::Add<Output = T> {
    open spec fn obeys_add_spec() -> bool {
        T::obeys_add_spec()
    }

    open spec fn add_req(self, rhs: RadianAngle<T>) -> bool {
        self.0.add_req(rhs.0)
    }

    open spec fn add_spec(self, rhs: RadianAngle<T>) -> RadianAngle<T> {
        RadianAngle(self.0.add_spec(rhs.0))
    }
}

/// The difference of the two radian magnitudes; the result is in radians.
impl<T> std::ops::Sub for RadianAngle<T> where T: std::ops::Sub<Output = T> {
    type Output = RadianAngle<T>;

    fn sub(self, other: RadianAngle<T>) -> (r: RadianAngle<T>)
        ensures
            call_ensures(T::sub, (self.0, other.0), r.0),
            T::obeys_sub_spec() ==> r.0 == self.0.sub_spec(other.0),
    {
        RadianAngle(self.0 - other.0)
    }
}

impl<T> vstd::std_specs::ops::SubSpecImpl for RadianAngle<T> where T: std::ops::Sub<Output = T> {
    open spec fn obeys_sub_spec() -> bool {
        T::obeys_sub_spec()
    }

    open spec fn sub_req(self, rhs: RadianAngle<T>) -> bool {
        self.0.sub_req(rhs.0)
    }

    open spec fn sub_spec(self, rhs: RadianAngle<T>) -> RadianAngle<T> {
        RadianAngle(self.0.sub_spec(rhs.0))
    }
}

/// The product of the two radian magnitudes; the result is in radians.
impl<T> std::ops::Mul for RadianAngle<T> where T: std::ops::Mul<Output = T> {
    type Output = RadianAngle<T>;

    fn mul(self, other: RadianAngle<T>) -> (r: RadianAngle<T>)
        ensures
            call_ensures(T::mul, (self.0, other.0), r.0),
            T::obeys_mul_spec() ==> r.0 == self.0.mul_spec(other.0),
    {
        RadianAngle(self.0 * other.0)
    }
}

impl<T> vstd::std_specs::ops::MulSpecImpl for RadianAngle<T> where T: std::ops::Mul<Output = T> {
    open spec fn obeys_mul_spec() -> bool {
        T::obeys_mul_spec()
    }

    open spec fn mul_req(self, rhs: RadianAngle<T>) -> bool {
        self.0.mul_req(rhs.0)
    }

    open spec fn mul_spec(self, rhs: RadianAngle<T>) -> RadianAngle<T> {
        RadianAngle(self.0.mul_spec(rhs.0))
    }
}

/// The quotient of the two radian magnitudes; the result is in radians.
impl<T> std::ops::Div for RadianAngle<T> where T: std::ops::Div<Output = T> {
    type Output = RadianAngle<T>;

    fn div(self, other: RadianAngle<T>) -> (r: RadianAngle<T>)
        ensures
            call_ensures(T::div, (self.0, other.0), r.0),
            T::obeys_div_spec() ==> r.0 == self.0.div_spec(other.0),
    {
        RadianAngle(self.0 / other.0)
    }
}

impl<T> vstd::std_specs::ops::DivSpecImpl for RadianAngle<T> where T: std::ops::Div<Output = T> {
    open spec fn obeys_div_spec() -> bool {
        T::obeys_div_spec()
    }

    open spec fn div_req(self, rhs: RadianAngle<T>) -> bool {
        self.0.div_req(rhs.0)
    }

    open spec fn div_spec(self, rhs: RadianAngle<T>) -> RadianAngle<T> {
        RadianAngle(self.0.div_spec(rhs.0))
    }
}

/// The sum of the left operand read in radians and the right magnitude; the result is in radians.
impl<T> std::ops::Add<RadianAngle<T>> for DegreeAngle<T> where T: std::ops::Add<Output = T>, DegreeAngle<T>: IntoRad<T> {
    type Output = RadianAngle<T>;

    fn add(self, other: RadianAngle<T>) -> (r: RadianAngle<T>)
        ensures
            call_ensures(T::add, (self.rad_value(), other.0), r.0),
            T::obeys_add_spec() ==> r.0 == self.rad_value().add_spec(other.0),
    {
        RadianAngle(self.into_rad() + other.0)
    }
}

impl<T> vstd::std_specs::ops::AddSpecImpl<RadianAngle<T>> for DegreeAngle<T> where T: std::ops::Add<Output = T>, DegreeAngle<T>: IntoRad<T> {
    open spec fn obeys_add_spec() -> bool {
        T::obeys_add_spec()
    }

    open spec fn add_req(self, rhs: RadianAngle<T>) -> bool {
        self.rad_value().add_req(rhs.0)
    }

    open spec fn add_spec(self, rhs: RadianAngle<T>) -> RadianAngle<T> {
        RadianAngle(self.rad_value().add_spec(rhs.0))
    }
}

/// The difference of the left operand read in radians and the right magnitude; the result is in radians.
impl<T> std::ops::Sub<RadianAngle<T>> for DegreeAngle<T> where T: std::ops::Sub<Output = T>, DegreeAngle<T>: IntoRad<T> {
    type Output = RadianAngle<T>;

    fn sub(self, other: RadianAngle<T>) -> (r: RadianAngle<T>)
        ensures
            call_ensures(T::sub, (self.rad_value(), other.0), r.0),
            T::obeys_sub_spec() ==> r.0 == self.rad_value().sub_spec(other.0),
    {
        RadianAngle(self.into_rad() - other.0)
    }
}

impl<T> vstd::std_specs::ops::SubSpecImpl<RadianAngle<T>> for DegreeAngle<T> where T: std::ops::Sub<Output = T>, DegreeAngle<T>: IntoRad<T> {
    open spec fn obeys_sub_spec() -> bool {
        T::obeys_sub_spec()
    }

    open spec fn sub_req(self, rhs: RadianAngle<T>) -> bool {
        self.rad_value().sub_req(rhs.0)
    }

    open spec fn sub_spec(self, rhs: RadianAngle<T>) -> RadianAngle<T> {
        RadianAngle(self.rad_value().sub_spec(rhs.0))
    }
}

/// The product of the left operand read in radians and the right magnitude; the result is in radians.
impl<T> std::ops::Mul<RadianAngle<T>> for DegreeAngle<T> where T: std::ops::Mul<Output = T>, DegreeAngle<T>: IntoRad<T> {
    type Output = RadianAngle<T>;

    fn mul(self, other: RadianAngle<T>) -> (r: RadianAngle<T>)
        ensures
            call_ensures(T::mul, (self.rad_value(), other.0), r.0),
            T::obeys_mul_spec() ==> r.0 == self.rad_value().mul_spec(other.0),
    {
        RadianAngle(self.into_rad() * other.0)
    }
}

impl<T> vstd::std_specs::ops::MulSpecImpl<RadianAngle<T>> for DegreeAngle<T> where T: std::ops::Mul<Output = T>, DegreeAngle<T>: IntoRad<T> {
    open spec fn obeys_mul_spec() -> bool {
        T::obeys_mul_spec()
    }

    open spec fn mul_req(self, rhs: RadianAngle<T>) -> bool {
        self.rad_value().mul_req(rhs.0)
    }

    open spec fn mul_spec(self, rhs: RadianAngle<T>) -> RadianAngle<T> {
        RadianAngle(self.rad_value().mul_spec(rhs.0))
    }
}

/// The quotient of the left operand read in radians and the right magnitude; the result is in radians.
impl<T> std::ops::Div<RadianAngle<T>> for DegreeAngle<T> where T: std::ops::Div<Output = T>, DegreeAngle<T>: IntoRad<T> {
    type Output = RadianAngle<T>;

    fn div(self, other: RadianAngle<T>) -> (r: RadianAngle<T>)
        ensures
            call_ensures(T::div, (self.rad_value(), other.0), r.0),
            T::obeys_div_spec() ==> r.0 == self.rad_value().div_spec(other.0),
    {
        RadianAngle(self.into_rad() / other.0)
    }
}

impl<T> vstd::std_specs::ops::DivSpecImpl<RadianAngle<T>> for DegreeAngle<T> where T: std::ops::Div<Output = T>, DegreeAngle<T>: IntoRad<T> {
    open spec fn obeys_div_spec() -> bool {
        T::obeys_div_spec()
    }

    open spec fn div_req(self, rhs: RadianAngle<T>) -> bool {
        self.rad_value().div_req(rhs.0)
    }

    open spec fn div_spec(self, rhs: RadianAngle<T>) -> RadianAngle<T> {
        RadianAngle(self.rad_value().div_spec(rhs.0))
    }
}

/// The sum of the left operand read in degrees and the right magnitude; the result is in degrees.
impl<T> std::ops::Add<DegreeAngle<T>> for RadianAngle<T> where T: std::ops::Add<Output = T>, RadianAngle<T>: IntoDeg<T> {
    type Output = DegreeAngle<T>;

    fn add(self, other: DegreeAngle<T>) -> (r: DegreeAngle<T>)
        ensures
            call_ensures(T::add, (self.deg_value(), other.0), r.0),
            T::obeys_add_spec() ==> r.0 == self.deg_value().add_spec(other.0),
    {
        DegreeAngle(self.into_deg() + other.0)
    }
}

impl<T> vstd::std_specs::ops::AddSpecImpl<DegreeAngle<T>> for RadianAngle<T> where T: std::ops::Add<Output = T>, RadianAngle<T>: IntoDeg<T> {
    open spec fn obeys_add_spec() -> bool {
        T::obeys_add_spec()
    }

    open spec fn add_req(self, rhs: DegreeAngle<T>) -> bool {
        self.deg_value().add_req(rhs.0)
    }

    open spec fn add_spec(self, rhs: DegreeAngle<T>) -> DegreeAngle<T> {
        DegreeAngle(self.deg_value().add_spec(rhs.0))
    }
}

/// The difference of the left operand read in degrees and the right magnitude; the result is in degrees.
impl<T> std::ops::Sub<DegreeAngle<T>> for RadianAngle<T> where T: std::ops::Sub<Output = T>, RadianAngle<T>: IntoDeg<T> {
    type Output = DegreeAngle<T>;

    fn sub(self, other: DegreeAngle<T>) -> (r: DegreeAngle<T>)
        ensures
            call_ensures(T::sub, (self.deg_value(), other.0), r.0),
            T::obeys_sub_spec() ==> r.0 == self.deg_value().sub_spec(other.0),
    {
        DegreeAngle(self.into_deg() - other.0)
    }
}

impl<T> vstd::std_specs::ops::SubSpecImpl<DegreeAngle<T>> for RadianAngle<T> where T: std::ops::Sub<Output = T>, RadianAngle<T>: IntoDeg<T> {
    open spec fn obeys_sub_spec() -> bool {
        T::obeys_sub_spec()
    }

    open spec fn sub_req(self, rhs: DegreeAngle<T>) -> bool {
        self.deg_value().sub_req(rhs.0)
    }

    open spec fn sub_spec(self, rhs: DegreeAngle<T>) -> DegreeAngle<T> {
        DegreeAngle(self.deg_value().sub_spec(rhs.0))
    }
}

/// The product of the left operand read in degrees and the right magnitude; the result is in degrees.
impl<T> std::ops::Mul<DegreeAngle<T>> for RadianAngle<T> where T: std::ops::Mul<Output = T>, RadianAngle<T>: IntoDeg<T> {
    type Output = DegreeAngle<T>;

    fn mul(self, other: DegreeAngle<T>) -> (r: DegreeAngle<T>)
        ensures
            call_ensures(T::mul, (self.deg_value(), other.0), r.0),
            T::obeys_mul_spec() ==> r.0 == self.deg_value().mul_spec(other.0),
    {
        DegreeAngle(self.into_deg() * other.0)
    }
}

impl<T> vstd::std_specs::ops::MulSpecImpl<DegreeAngle<T>> for RadianAngle<T> where T: std::ops::Mul<Output = T>, RadianAngle<T>: IntoDeg<T> {
    open spec fn obeys_mul_spec() -> bool {
        T::obeys_mul_spec()
    }

    open spec fn mul_req(self, rhs: DegreeAngle<T>) -> bool {
        self.deg_value().mul_req(rhs.0)
    }

    open spec fn mul_spec(self, rhs: DegreeAngle<T>) -> DegreeAngle<T> {
        DegreeAngle(self.deg_value().mul_spec(rhs.0))
    }
}

/// The quotient of the left operand read in degrees and the right magnitude; the result is in degrees.
impl<T> std::ops::Div<DegreeAngle<T>> for RadianAngle<T> where T: std::ops::Div<Output = T>, RadianAngle<T>: IntoDeg<T> {
    type Output = DegreeAngle<T>;

    fn div(self, other: DegreeAngle<T>) -> (r: DegreeAngle<T>)
        ensures
            call_ensures(T::div, (self.deg_value(), other.0), r.0),
            T::obeys_div_spec() ==> r.0 == self.deg_value().div_spec(other.0),
    {
        DegreeAngle(self.into_deg() / other.0)
    }
}

impl<T> vstd::std_specs::ops::DivSpecImpl<DegreeAngle<T>> for RadianAngle<T> where T: std::ops::Div<Output = T>, RadianAngle<T>: IntoDeg<T> {
    open spec fn obeys_div_spec() -> bool {
        T::obeys_div_spec()
    }

    open spec fn div_req(self, rhs: DegreeAngle<T>) -> bool {
        self.deg_value().div_req(rhs.0)
    }

    open spec fn div_spec(self, rhs: DegreeAngle<T>) -> DegreeAngle<T> {
        DegreeAngle(self.deg_value().div_spec(rhs.0))
    }
}

/// Same-unit equality is reflexive: a degree angle, and a radian angle, equals itself
/// whenever its magnitude equals itself in the numeric kind (as every finite float does).
pub proof fn lemma_same_unit_eq_reflexive<T: PartialEq>(v: T)
    requires
        v.eq_spec(&v),
    ensures
        DegreeAngle(v).eq_spec(&DegreeAngle(v)),
        RadianAngle(v).eq_spec(&RadianAngle(v)),
{
}

/// Equality across units is symmetric: `RadianAngle(v) == DegreeAngle(w)` holds exactly when
/// `DegreeAngle(w) == RadianAngle(v)` does, for every pair of magnitudes.
pub proof fn lemma_cross_unit_eq_symmetric<T: PartialEq>(v: T, w: T) where DegreeAngle<T>: IntoRad<T>
    ensures
        RadianAngle(v).eq_spec(&DegreeAngle(w)) == DegreeAngle(w).eq_spec(&RadianAngle(v)),
{
}

/// The right-hand operand's unit wins. With `a` in degrees and `b` in radians, `a op b` is the
/// radian angle got from `a` read in radians and `b`'s magnitude, while `b op a` is the degree
/// angle got from `b` read in degrees and `a`'s magnitude, for each of the four operators.
pub proof fn lemma_right_operand_unit_wins<T>(a: DegreeAngle<T>, b: RadianAngle<T>) where
    T: std::ops::Add<Output = T> + std::ops::Sub<Output = T> + std::ops::Mul<Output = T> + std::ops::Div<Output = T>,
    DegreeAngle<T>: IntoRad<T>,
    RadianAngle<T>: IntoDeg<T>,
    ensures
        a.add_spec(b) == RadianAngle(a.rad_value().add_spec(b.0)),
        b.add_spec(a) == DegreeAngle(b.deg_value().add_spec(a.0)),
        a.sub_spec(b) == RadianAngle(a.rad_value().sub_spec(b.0)),
        b.sub_spec(a) == DegreeAngle(b.deg_value().sub_spec(a.0)),
        a.mul_spec(b) == RadianAngle(a.rad_value().mul_spec(b.0)),
        b.mul_spec(a) == DegreeAngle(b.deg_value().mul_spec(a.0)),
        a.div_spec(b) == RadianAngle(a.rad_value().div_spec(b.0)),
        b.div_spec(a) == DegreeAngle(b.deg_value().div_spec(a.0)),
{
}

} // verus!
