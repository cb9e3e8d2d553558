//! PID controller and the composition of controllers.
//!
//! See [Wikipedia](https://en.wikipedia.org/wiki/PID_controller) for more details.
//! Quantities are signed integers of one width (`PidNumber`); every regulation step
//! is required to stay within their range.
use vstd::prelude::*;

verus! {

/// Controller controlling an output using an input
pub trait Controller: Sized {
    type Input;
    type Output;

    /// Whether regulating on `input` stays within the controller's number range.
    spec fn can_regulate(&self, input: Self::Input) -> bool;

    /// The controller's next state and output when regulating on `input`.
    spec fn regulated(&self, input: Self::Input) -> (Self, Self::Output);

    /// The controller after its target was set to `target`.
    spec fn targeted(&self, target: Self::Input) -> Self;

    /// Regulate the output using the input
    fn regulate(&mut self, input: &Self::Input) -> (r: Self::Output)
        requires old(self).can_regulate(*input),
        ensures (*final(self), r) == old(self).regulated(*input);

    /// Set the target of the controller
    fn set_target(&mut self, target: &Self::Input)
        ensures *final(self) == old(self).targeted(*target);
}

/// Two controllers in parallel. Each controller is executed on its own and the both results are
/// returned
pub struct ParallelController<C1, C2>(pub C1, pub C2)
where
    C1: Controller,
    C2: Controller;

impl<C1, C2> Controller for ParallelController<C1, C2>
where
    C1: Controller,
    C2: Controller,
{
    type Input = (C1::Input, C2::Input);

    type Output = (C1::Output, C2::Output);

    open spec fn can_regulate(&self, input: Self::Input) -> bool {
        self.0.can_regulate(input.0) && self.1.can_regulate(input.1)
    }

    open spec fn regulated(&self, input: Self::Input) -> (Self, Self::Output) {
        let (a, oa) = self.0.regulated(input.0);
        let (b, ob) = self.1.regulated(input.1);
        (ParallelController(a, b), (oa, ob))
    }

    open spec fn targeted(&self, target: Self::Input) -> Self {
        ParallelController(self.0.targeted(target.0), self.1.targeted(target.1))
    }

    fn regulate(&mut self, input: &Self::Input) -> (r: (C1::Output, C2::Output)) {
        let a = self.0.regulate(&input.0);
        let b = self.1.regulate(&input.1);
        (a, b)
    }

    fn set_target(&mut self, target: &Self::Input) {
        self.0.set_target(&target.0);
        self.1.set_target(&target.1);
    }
}

/// two controllers in series. The first controller regulates the input. The output of the first
/// controller sets the target of the second controller. The result of the second controller is
/// returned.
pub struct SeriesController<C1, C2>(pub C1, pub C2)
where
    C1: Controller,
    C2: Controller<Input = C1::Output>;

impl<C1, C2> Controller for SeriesController<C1, C2>
where
    C1: Controller,
    C2: Controller<Input = C1::Output>,
{
    type Input = (C1::Input, C2::Input);

    type Output = C2::Output;

    open spec fn can_regulate(&self, input: Self::Input) -> bool {
        let (a, setpoint) = self.0.regulated(input.0);
        self.0.can_regulate(input.0) && self.1.targeted(setpoint).can_regulate(input.1)
    }

    open spec fn regulated(&self, input: Self::Input) -> (Self, Self::Output) {
        let (a, setpoint) = self.0.regulated(input.0);
        let (b, out) = self.1.targeted(setpoint).regulated(input.1);
        (SeriesController(a, b), out)
    }

    open spec fn targeted(&self, target: Self::Input) -> Self {
        SeriesController(self.0.targeted(target.0), self.1.targeted(target.1))
    }

    fn regulate(&mut self, input: &Self::Input) -> (r: C2::Output) {
        let setpoint = self.0.regulate(&input.0);
        self.1.set_target(&setpoint);
        self.1.regulate(&input.1)
    }

    fn set_target(&mut self, target: &Self::Input) {
        self.0.set_target(&target.0);
        self.1.set_target(&target.1);
    }
}

/// The state of a PID controller.
pub struct PidModel {
    pub p_gain: int,
    pub i_gain: int,
    pub d_gain: int,
    pub setpoint: int,
    pub i_sum: int,
    pub i_sum_limit: Option<int>,
    pub last_error: int,
    pub limit: Option<int>,
}

/// Signed integers of a fixed width as a PID controller computes with them: each
/// value stands for an integer in `lo()..=hi()`, and the arithmetic gives the exact
/// result where it fits.
pub trait PidNumber: Copy + Sized {
    /// The integer the value stands for.
    spec fn val(self) -> int;

    /// The smallest value.
    spec fn lo() -> int;

    /// The largest value.
    spec fn hi() -> int;

    /// The value standing for `v`, where it fits.
    spec fn from_val(v: int) -> Self;

    /// Every value lies in the range, which holds the negation of each positive
    /// value, and is the value of its integer.
    proof fn lemma_val(x: Self)
        ensures
            Self::lo() <= x.val() <= Self::hi(),
            Self::lo() <= -Self::hi() && 0 < Self::hi(),
            Self::from_val(x.val()) == x,
    ;

    /// An integer in the range has a value standing for it.
    proof fn lemma_from_val(v: int)
        requires
            Self::lo() <= v <= Self::hi(),
        ensures
            Self::from_val(v).val() == v,
    ;

    /// Zero.
    fn zero() -> (r: Self)
        ensures
            r.val() == 0,
    ;

    /// The sum.
    fn plus(self, o: Self) -> (r: Self)
        requires
            Self::lo() <= self.val() + o.val() <= Self::hi(),
        ensures
            r.val() == self.val() + o.val(),
    ;

    /// The difference.
    fn minus(self, o: Self) -> (r: Self)
        requires
            Self::lo() <= self.val() - o.val() <= Self::hi(),
        ensures
            r.val() == self.val() - o.val(),
    ;

    /// The product.
    fn times(self, o: Self) -> (r: Self)
        requires
            Self::lo() <= self.val() * o.val() <= Self::hi(),
        ensures
            r.val() == self.val() * o.val(),
    ;

    /// The negation.
    fn negated(self) -> (r: Self)
        requires
            Self::lo() <= -self.val() <= Self::hi(),
        ensures
            r.val() == -self.val(),
    ;

    /// Whether `self` is below `o`.
    fn below(self, o: Self) -> (r: bool)
        ensures
            r == (self.val() < o.val()),
    ;

    /// Whether `self` is zero.
    fn is_zero(self) -> (r: bool)
        ensures
            r == (self.val() == 0),
    ;
}

impl PidNumber for i8 {
    open spec fn val(self) -> int { self as int }
    open spec fn lo() -> int { i8::MIN as int }
    open spec fn hi() -> int { i8::MAX as int }
    open spec fn from_val(v: int) -> i8 { v as i8 }
    proof fn lemma_val(x: i8) {}
    proof fn lemma_from_val(v: int) {}
    fn zero() -> (r: i8) { 0 }
    fn plus(self, o: i8) -> (r: i8) { self + o }
    fn minus(self, o: i8) -> (r: i8) { self - o }
    fn times(self, o: i8) -> (r: i8) { self * o }
    fn negated(self) -> (r: i8) { -self }
    fn below(self, o: i8) -> (r: bool) { self < o }
    fn is_zero(self) -> (r: bool) { self == 0 }
}

impl PidNumber for i16 {
    open spec fn val(self) -> int { self as int }
    open spec fn lo() -> int { i16::MIN as int }
    open spec fn hi() -> int { i16::MAX as int }
    open spec fn from_val(v: int) -> i16 { v as i16 }
    proof fn lemma_val(x: i16) {}
    proof fn lemma_from_val(v: int) {}
    fn zero() -> (r: i16) { 0 }
    fn plus(self, o: i16) -> (r: i16) { self + o }
    fn minus(self, o: i16) -> (r: i16) { self - o }
    fn times(self, o: i16) -> (r: i16) { self * o }
    fn negated(self) -> (r: i16) { -self }
    fn below(self, o: i16) -> (r: bool) { self < o }
    fn is_zero(self) -> (r: bool) { self == 0 }
}

impl PidNumber for i32 {
    open spec fn val(self) -> int { self as int }
    open spec fn lo() -> int { i32::MIN as int }
    open spec fn hi() -> int { i32::MAX as int }
    open spec fn from_val(v: int) -> i32 { v as i32 }
    proof fn lemma_val(x: i32) {}
    proof fn lemma_from_val(v: int) {}
    fn zero() -> (r: i32) { 0 }
    fn plus(self, o: i32) -> (r: i32) { self + o }
    fn minus(self, o: i32) -> (r: i32) { self - o }
    fn times(self, o: i32) -> (r: i32) { self * o }
    fn negated(self) -> (r: i32) { -self }
    fn below(self, o: i32) -> (r: bool) { self < o }
    fn is_zero(self) -> (r: bool) { self == 0 }
}

impl PidNumber for i64 {
    open spec fn val(self) -> int { self as int }
    open spec fn lo() -> int { i64::MIN as int }
    open spec fn hi() -> int { i64::MAX as int }
    open spec fn from_val(v: int) -> i64 { v as i64 }
    proof fn lemma_val(x: i64) {}
    proof fn lemma_from_val(v: int) {}
    fn zero() -> (r: i64) { 0 }
    fn plus(self, o: i64) -> (r: i64) { self + o }
    fn minus(self, o: i64) -> (r: i64) { self - o }
    fn times(self, o: i64) -> (r: i64) { self * o }
    fn negated(self) -> (r: i64) { -self }
    fn below(self, o: i64) -> (r: bool) { self < o }
    fn is_zero(self) -> (r: bool) { self == 0 }
}

/// PID Controller
#[derive(Copy, Clone)]
pub struct PIDController<T> {
    /// p gain
    pub p_gain: T,
    /// i gain
    pub i_gain: T,
    /// d gain
    pub d_gain: T,
    setpoint: T,
    i_sum: T,
    /// limit the integral
    pub i_sum_limit: Option<T>,
    last_error: T,
    /// limit the output
    pub limit: Option<T>,
}

/// `x` limited to `lo..=hi`.
pub open spec fn spec_clamp(x: int, lo: int, hi: int) -> int {
    if x < lo { lo } else if x > hi { hi } else { x }
}

/// Limits `input` to `min..=max`.
pub fn clamp<T: PidNumber>(input: T, min: T, max: T) -> (r: T)
    requires min.val() <= max.val(),
    ensures r.val() == spec_clamp(input.val(), min.val(), max.val()),
{
    if input.below(min) {
        min
    } else if max.below(input) {
        max
    } else {
        input
    }
}

/// Whether `x` lies in `lo..=hi`.
pub open spec fn in_range(x: int, lo: int, hi: int) -> bool {
    lo <= x <= hi
}

impl PidModel {
    /// The error of the controller for `input`.
    pub open spec fn error(self, input: int) -> int {
        self.setpoint - input
    }

    /// The integral after regulating on `input`: the error is added, then limited.
    pub open spec fn next_i_sum(self, input: int) -> int {
        if self.i_gain == 0 {
            self.i_sum
        } else {
            let s = self.i_sum + self.error(input);
            match self.i_sum_limit {
                Some(l) => spec_clamp(s, -l, l),
                None => s,
            }
        }
    }

    /// The proportional part of the output.
    pub open spec fn p_part(self, input: int) -> int {
        if self.p_gain == 0 { 0 } else { self.p_gain * self.error(input) }
    }

    /// The integral part of the output.
    pub open spec fn i_part(self, input: int) -> int {
        if self.i_gain == 0 { 0 } else { self.i_gain * self.next_i_sum(input) }
    }

    /// The derivative part of the output (last error minus this error).
    pub open spec fn d_part(self, input: int) -> int {
        if self.d_gain == 0 { 0 } else { self.d_gain * (self.last_error - self.error(input)) }
    }

    /// The output for `input`: the sum of the parts, limited.
    pub open spec fn output(self, input: int) -> int {
        let o = self.p_part(input) + self.i_part(input) + self.d_part(input);
        match self.limit {
            Some(l) => spec_clamp(o, -l, l),
            None => o,
        }
    }

    /// The last error after regulating on `input` (kept only with a derivative part).
    pub open spec fn next_last_error(self, input: int) -> int {
        if self.d_gain == 0 { self.last_error } else { self.error(input) }
    }

    /// Whether every step of regulating on `input` lies in `lo..=hi` and the limits
    /// that are applied are not negative.
    pub open spec fn fits(self, input: int, lo: int, hi: int) -> bool {
        &&& in_range(self.error(input), lo, hi)
        &&& in_range(self.p_part(input), lo, hi)
        &&& (self.i_gain != 0 ==> {
            &&& in_range(self.i_sum + self.error(input), lo, hi)
            &&& (self.i_sum_limit matches Some(l) ==> l >= 0)
        })
        &&& in_range(self.i_part(input), lo, hi)
        &&& (self.d_gain != 0 ==> in_range(self.last_error - self.error(input), lo, hi))
        &&& in_range(self.d_part(input), lo, hi)
        &&& in_range(self.p_part(input) + self.i_part(input), lo, hi)
        &&& in_range(self.p_part(input) + self.i_part(input) + self.d_part(input), lo, hi)
        &&& (self.limit matches Some(l) ==> l >= 0)
    }
}

/// The integer of an optional value.
pub open spec fn opt_val<T: PidNumber>(x: Option<T>) -> Option<int> {
    match x { Some(l) => Some(l.val()), None => None }
}

impl<T: PidNumber> View for PIDController<T> {
    type V = PidModel;

    /// Each field as an integer, under its own name. Closed: the struct has private
    /// fields, and an open function could not read them.
    closed spec fn view(&self) -> PidModel {
        PidModel {
            p_gain: self.p_gain.val(),
            i_gain: self.i_gain.val(),
            d_gain: self.d_gain.val(),
            setpoint: self.setpoint.val(),
            i_sum: self.i_sum.val(),
            i_sum_limit: opt_val(self.i_sum_limit),
            last_error: self.last_error.val(),
            limit: opt_val(self.limit),
        }
    }
}

impl<T: PidNumber> PIDController<T> {
    /// Creates a new PID controller with default values.
    pub fn new() -> (r: Self)
        ensures
            r@ == (PidModel {
                p_gain: 0, i_gain: 0, d_gain: 0, setpoint: 0, i_sum: 0,
                i_sum_limit: None, last_error: 0, limit: None,
            }),
    {
        Self {
            p_gain: T::zero(),
            i_gain: T::zero(),
            d_gain: T::zero(),
            setpoint: T::zero(),
            i_sum: T::zero(),
            i_sum_limit: None,
            last_error: T::zero(),
            limit: None,
        }
    }

    /// Adds p gain.
    ///
    /// Controlls the output propotional to the error.
    pub fn with_p_gain(self, p_gain: T) -> (r: Self)
        ensures r@ == (PidModel { p_gain: p_gain.val(), ..self@ }),
    {
        PIDController { p_gain, ..self }
    }

    /// Adds i gain.
    ///
    /// Controlls the output using the integral of the error.
    pub fn with_i_gain(self, i_gain: T) -> (r: Self)
        ensures r@ == (PidModel { i_gain: i_gain.val(), ..self@ }),
    {
        PIDController { i_gain, ..self }
    }

    /// Adds d gain.
    ///
    /// Controlls the output using the derivative of the error.
    pub fn with_d_gain(self, d_gain: T) -> (r: Self)
        ensures r@ == (PidModel { d_gain: d_gain.val(), ..self@ }),
    {
        PIDController { d_gain, ..self }
    }

    /// Set the target.
    pub fn with_setpoint(self, setpoint: T) -> (r: Self)
        ensures r@ == (PidModel { setpoint: setpoint.val(), ..self@ }),
    {
        PIDController { setpoint, ..self }
    }

    /// Adds integral limit.
    ///
    /// Limits the integral so it doesn't grow to infinity.
    pub fn with_i_sum_limit(self, i_sum_limit: T) -> (r: Self)
        ensures r@ == (PidModel { i_sum_limit: Some(i_sum_limit.val()), ..self@ }),
    {
        PIDController { i_sum_limit: Some(i_sum_limit), ..self }
    }

    /// Adds output limit.
    ///
    /// Limits the output of the controller.
    pub fn with_limit(self, limit: T) -> (r: Self)
        ensures r@ == (PidModel { limit: Some(limit.val()), ..self@ }),
    {
        PIDController { limit: Some(limit), ..self }
    }

    /// Clear the integral.
    ///
    /// The integral can grow to an uncontrolable size so it might be set to 0 by the user.
    pub fn clear_integral(&mut self)
        ensures final(self)@ == (PidModel { i_sum: 0, ..old(self)@ }),
    {
        self.i_sum = T::zero();
    }

    /// The current target.
    pub fn setpoint(&self) -> (r: T)
        ensures r.val() == self@.setpoint,
    {
        self.setpoint
    }
}

impl<T: PidNumber> Controller for PIDController<T> {
    type Input = T;

    type Output = T;

    open spec fn can_regulate(&self, input: T) -> bool {
        self@.fits(input.val(), T::lo(), T::hi())
    }

    closed spec fn regulated(&self, input: T) -> (Self, T) {
        let m = self@;
        (
            PIDController {
                i_sum: T::from_val(m.next_i_sum(input.val())),
                last_error: T::from_val(m.next_last_error(input.val())),
                ..*self
            },
            T::from_val(m.output(input.val())),
        )
    }

    closed spec fn targeted(&self, target: T) -> Self {
        PIDController { setpoint: target, ..*self }
    }

    fn regulate(&mut self, input: &T) -> (r: T)
        ensures
            final(self)@ == (PidModel {
                i_sum: old(self)@.next_i_sum(input.val()),
                last_error: old(self)@.next_last_error(input.val()),
                ..old(self)@
            }),
            r.val() == old(self)@.output(input.val()),
    {
        proof {
            T::lemma_val(*input);
            T::lemma_val(self.setpoint);
            T::lemma_val(self.i_sum);
            T::lemma_val(self.last_error);
            if let Some(l) = self.i_sum_limit { T::lemma_val(l); }
            if let Some(l) = self.limit { T::lemma_val(l); }
        }
        let error = self.setpoint.minus(*input);

        let p = if self.p_gain.is_zero() {
            T::zero()
        } else {
            self.p_gain.times(error)
        };

        let i = if self.i_gain.is_zero() {
            T::zero()
        } else {
            self.i_sum = self.i_sum.plus(error);
            self.i_sum = if let Some(limit) = self.i_sum_limit {
                clamp(self.i_sum, limit.negated(), limit)
            } else {
                self.i_sum
            };
            self.i_gain.times(self.i_sum)
        };

        let d = if self.d_gain.is_zero() {
            T::zero()
        } else {
            let d = self.d_gain.times(self.last_error.minus(error));
            self.last_error = error;
            d
        };

        let output = p.plus(i).plus(d);

        let r = match self.limit {
            Some(limit) => clamp(output, limit.negated(), limit),
            None => output,
        };
        proof {
            T::lemma_val(self.i_sum);
            T::lemma_val(self.last_error);
            T::lemma_val(r);
        }
        r
    }

    fn set_target(&mut self, target: &T)
        ensures final(self)@ == (PidModel { setpoint: target.val(), ..old(self)@ }),
    {
        self.setpoint = *target;
    }
}

/// One regulation step in terms of the gains and the state: with `e` the error
/// (setpoint minus input), the integral becomes `i_sum + e` when there is an integral
/// gain (limited to `-l..=l` by an integral limit `l`) and stays otherwise; the last
/// error becomes `e` when there is a derivative gain; and the output is
/// `p_gain * e + i_gain * (new integral) + d_gain * (last error - e)`, the three
/// parts added whatever the gains, limited to `-l..=l` by an output limit `l`.
pub proof fn lemma_regulation_step(m: PidModel, input: int)
    ensures
        ({
            let e = m.setpoint - input;
            let s = m.i_sum + e;
            let ni = m.next_i_sum(input);
            let o = m.p_gain * e + m.i_gain * ni + m.d_gain * (m.last_error - e);
            &&& m.i_gain == 0 ==> ni == m.i_sum
            &&& m.i_gain != 0 && m.i_sum_limit is None ==> ni == s
            &&& m.i_gain != 0 && m.i_sum_limit is Some && -m.i_sum_limit->0 <= s <= m.i_sum_limit->0 ==> ni == s
            &&& m.i_gain != 0 && m.i_sum_limit is Some && s < -m.i_sum_limit->0 ==> ni == -m.i_sum_limit->0
            &&& m.i_gain != 0 && m.i_sum_limit is Some && -m.i_sum_limit->0 <= m.i_sum_limit->0 < s ==> ni == m.i_sum_limit->0
            &&& m.next_last_error(input) == (if m.d_gain == 0 { m.last_error } else { e })
            &&& m.limit is None ==> m.output(input) == o
            &&& m.limit is Some && -m.limit->0 <= o <= m.limit->0 ==> m.output(input) == o
            &&& m.limit is Some && o < -m.limit->0 ==> m.output(input) == -m.limit->0
            &&& m.limit is Some && -m.limit->0 <= m.limit->0 < o ==> m.output(input) == m.limit->0
        }),
{
}

/// With an output limit `l`, every output of a regulation step lies within `-l..=l`.
pub proof fn lemma_output_within_limit(m: PidModel, input: int, lo: int, hi: int)
    requires
        m.fits(input, lo, hi),
        m.limit is Some,
    ensures
        -m.limit->0 <= m.output(input) <= m.limit->0,
{
}

/// With an integral limit `l` and an integral part, the integral after a regulation
/// step lies within `-l..=l`.
pub proof fn lemma_integral_within_limit(m: PidModel, input: int, lo: int, hi: int)
    requires
        m.fits(input, lo, hi),
        m.i_gain != 0,
        m.i_sum_limit is Some,
    ensures
        -m.i_sum_limit->0 <= m.next_i_sum(input) <= m.i_sum_limit->0,
{
}

/// A controller without integral and derivative parts keeps no history: a
/// regulation step leaves its state unchanged, so equal inputs give equal outputs.
pub proof fn lemma_proportional_is_stateless(m: PidModel, input: int)
    requires
        m.i_gain == 0,
        m.d_gain == 0,
    ensures
        m.next_i_sum(input) == m.i_sum,
        m.next_last_error(input) == m.last_error,
        m.output(input) == (match m.limit {
            Some(l) => spec_clamp(m.p_part(input), -l, l),
            None => m.p_part(input),
        }),
{
}

} // verus!
