//! # Temperature
//!
//! Encapsulates conversions between temperatures so crate users can get to work.
//!
//! A temperature counts steps of one hundredth of a degree Fahrenheit, which is
//! 1/180 of a kelvin or of a degree Celsius: `Fahrenheit(n)` is `n / 100` °F,
//! `Celsius(n)` is `n / 180` °C and `Kelvin(n)` is `n / 180` K. Both 32 °F
//! and 273.15 K fall on this grid, so every conversion is exact: it follows
//! `F = C * 1.8 + 32` and `K = C + 273.15` without rounding, and converting
//! back gives the same temperature.

use vstd::prelude::*;

verus! {

/// A representation of some common temperature unit, in steps of one
/// hundredth of a degree Fahrenheit (1/180 of a kelvin).
#[derive(Clone, Copy, Debug, PartialEq)]
pub enum Temperature {
    Fahrenheit(i64),
    Celsius(i64),
    Kelvin(i64),
}

/// 0 °C is 32 °F: 3200 steps.
pub const FAHRENHEIT_OFFSET: i64 = 3200;

/// 0 °C is 273.15 K: 49167 steps of 1/180 K.
pub const KELVIN_OFFSET: i64 = 49167;

impl Temperature {
    /// The count of steps, in its own unit.
    pub open spec fn steps(self) -> int {
        match self {
            Temperature::Fahrenheit(f) => f as int,
            Temperature::Celsius(c) => c as int,
            Temperature::Kelvin(k) => k as int,
        }
    }

    /// This temperature in hundredths of a degree Fahrenheit.
    pub open spec fn in_fahrenheit(self) -> int {
        match self {
            Temperature::Fahrenheit(f) => f as int,
            Temperature::Celsius(c) => c + FAHRENHEIT_OFFSET,
            Temperature::Kelvin(k) => k - KELVIN_OFFSET + FAHRENHEIT_OFFSET,
        }
    }

    /// This temperature in 1/180 of a degree Celsius.
    pub open spec fn in_celsius(self) -> int {
        match self {
            Temperature::Fahrenheit(f) => f - FAHRENHEIT_OFFSET,
            Temperature::Celsius(c) => c as int,
            Temperature::Kelvin(k) => k - KELVIN_OFFSET,
        }
    }

    /// This temperature in 1/180 of a kelvin.
    pub open spec fn in_kelvin(self) -> int {
        match self {
            Temperature::Fahrenheit(f) => f - FAHRENHEIT_OFFSET + KELVIN_OFFSET,
            Temperature::Celsius(c) => c + KELVIN_OFFSET,
            Temperature::Kelvin(k) => k as int,
        }
    }

    /// Return a Temperature in Fahrenheit based off of Self.
    pub fn to_fahrenheit(&self) -> (r: Temperature)
        requires
            i64::MIN <= self.in_fahrenheit() <= i64::MAX,
        ensures
            r == Temperature::Fahrenheit(self.in_fahrenheit() as i64),
            // F = C * 1.8 + 32 and K = C + 273.15, in degrees of the payloads:
            // F = x / 100, C = c / 180, K = k / 180
            r is Fahrenheit,
            *self matches Temperature::Fahrenheit(f) ==> r == Temperature::Fahrenheit(f),
            *self matches Temperature::Celsius(c) ==> (r->Fahrenheit_0 - 3200) * 180 * 5 == c
                * 100 * 9,
            *self matches Temperature::Kelvin(k) ==> (r->Fahrenheit_0 - 3200) * 180 * 5 == (k
                * 100 - 27315 * 180) * 9,
    {
        match self {
            Temperature::Fahrenheit(f) => Temperature::Fahrenheit(*f),
            Temperature::Celsius(c) => {
                let v = *c as i128 + FAHRENHEIT_OFFSET as i128;
                Temperature::Fahrenheit(v as i64)
            },
            Temperature::Kelvin(k) => {
                let v = *k as i128 - KELVIN_OFFSET as i128 + FAHRENHEIT_OFFSET as i128;
                Temperature::Fahrenheit(v as i64)
            },
        }
    }

    /// Return a Temperature in Celsius based off of Self.
    pub fn to_celsius(&self) -> (r: Temperature)
        requires
            i64::MIN <= self.in_celsius() <= i64::MAX,
        ensures
            r == Temperature::Celsius(self.in_celsius() as i64),
            // C = (F - 32) / 1.8 and C = K - 273.15, in degrees of the payloads:
            // F = f / 100, C = x / 180, K = k / 180
            r is Celsius,
            *self matches Temperature::Celsius(c) ==> r == Temperature::Celsius(c),
            *self matches Temperature::Fahrenheit(f) ==> r->Celsius_0 * 100 * 9 == (f - 3200)
                * 180 * 5,
            *self matches Temperature::Kelvin(k) ==> r->Celsius_0 * 100 == k * 100 - 27315
                * 180,
    {
        match self {
            Temperature::Fahrenheit(f) => {
                let v = *f as i128 - FAHRENHEIT_OFFSET as i128;
                Temperature::Celsius(v as i64)
            },
            Temperature::Celsius(c) => Temperature::Celsius(*c),
            Temperature::Kelvin(k) => {
                let v = *k as i128 - KELVIN_OFFSET as i128;
                Temperature::Celsius(v as i64)
            },
        }
    }

    /// Return a Temperature in Kelvin based off of Self.
    pub fn to_kelvin(&self) -> (r: Temperature)
        requires
            i64::MIN <= self.in_kelvin() <= i64::MAX,
        ensures
            r == Temperature::Kelvin(self.in_kelvin() as i64),
            // K = C + 273.15 and K = (F - 32) / 1.8 + 273.15, in degrees of the
            // payloads: F = f / 100, C = c / 180, K = x / 180
            r is Kelvin,
            *self matches Temperature::Kelvin(k) ==> r == Temperature::Kelvin(k),
            *self matches Temperature::Celsius(c) ==> r->Kelvin_0 * 100 == c * 100 + 27315
                * 180,
            *self matches Temperature::Fahrenheit(f) ==> (r->Kelvin_0 * 100 - 27315 * 180) * 9
                == (f - 3200) * 180 * 5,
    {
        match self {
            Temperature::Fahrenheit(f) => {
                let v = *f as i128 - FAHRENHEIT_OFFSET as i128 + KELVIN_OFFSET as i128;
                Temperature::Kelvin(v as i64)
            },
            Temperature::Celsius(c) => {
                let v = *c as i128 + KELVIN_OFFSET as i128;
                Temperature::Kelvin(v as i64)
            },
            Temperature::Kelvin(k) => Temperature::Kelvin(*k),
        }
    }

    /// Returns the inner count of steps, in its own unit.
    pub fn into_inner(&self) -> (v: i64)
        ensures
            v == self.steps(),
            *self matches Temperature::Fahrenheit(f) ==> v == f,
            *self matches Temperature::Celsius(c) ==> v == c,
            *self matches Temperature::Kelvin(k) ==> v == k,
    {
        match self {
            Temperature::Fahrenheit(f) => *f,
            Temperature::Celsius(c) => *c,
            Temperature::Kelvin(k) => *k,
        }
    }
}

/// The inner count of steps, in its own unit.
impl From<Temperature> for i64 {
    fn from(t: Temperature) -> (v: i64) {
        match t {
            Temperature::Fahrenheit(f) => f,
            Temperature::Celsius(c) => c,
            Temperature::Kelvin(k) => k,
        }
    }
}

impl vstd::std_specs::convert::FromSpecImpl<Temperature> for i64 {
    open spec fn obeys_from_spec() -> bool {
        true
    }

    open spec fn from_spec(v: Temperature) -> i64 {
        match v {
            Temperature::Fahrenheit(f) => f,
            Temperature::Celsius(c) => c,
            Temperature::Kelvin(k) => k,
        }
    }
}

/// A temperature's count of steps is the number it was made with.
pub proof fn lemma_steps_are_payload(n: i64)
    ensures
        Temperature::Fahrenheit(n).steps() == n,
        Temperature::Celsius(n).steps() == n,
        Temperature::Kelvin(n).steps() == n,
{
}

/// What each temperature is in each unit, by the formulas in degrees
/// `F = C * 1.8 + 32` and `K = C + 273.15`, a temperature made with `n` being
/// `n / 100` °F, `n / 180` °C or `n / 180` K.
pub proof fn lemma_units_by_formula(n: i64)
    ensures
        Temperature::Fahrenheit(n).in_fahrenheit() == n,
        Temperature::Celsius(n).in_celsius() == n,
        Temperature::Kelvin(n).in_kelvin() == n,
        (Temperature::Celsius(n).in_fahrenheit() - 3200) * 180 * 5 == n * 100 * 9,
        (Temperature::Kelvin(n).in_fahrenheit() - 3200) * 180 * 5 == (n * 100 - 27315 * 180)
            * 9,
        Temperature::Fahrenheit(n).in_celsius() * 100 * 9 == (n - 3200) * 180 * 5,
        Temperature::Kelvin(n).in_celsius() * 100 == n * 100 - 27315 * 180,
        Temperature::Celsius(n).in_kelvin() * 100 == n * 100 + 27315 * 180,
        (Temperature::Fahrenheit(n).in_kelvin() * 100 - 27315 * 180) * 9 == (n - 3200) * 180
            * 5,
{
}

/// Two temperatures in the same unit that differ by `d` steps differ by `d`
/// steps in every unit: a conversion shifts, it neither stretches nor folds.
pub proof fn lemma_conversions_shift(a: i64, d: i64)
    requires
        i64::MIN <= a + d <= i64::MAX,
    ensures
        Temperature::Celsius((a + d) as i64).in_fahrenheit() == Temperature::Celsius(a).in_fahrenheit() + d,
        Temperature::Celsius((a + d) as i64).in_kelvin() == Temperature::Celsius(a).in_kelvin() + d,
        Temperature::Fahrenheit((a + d) as i64).in_celsius() == Temperature::Fahrenheit(a).in_celsius() + d,
        Temperature::Fahrenheit((a + d) as i64).in_kelvin() == Temperature::Fahrenheit(a).in_kelvin() + d,
        Temperature::Kelvin((a + d) as i64).in_celsius() == Temperature::Kelvin(a).in_celsius() + d,
        Temperature::Kelvin((a + d) as i64).in_fahrenheit() == Temperature::Kelvin(a).in_fahrenheit() + d,
{
}

/// The conversions follow the formulas in degrees: `F = C * 1.8 + 32`, that is
/// `(F - 32) * 5 == C * 9`, and `K = C + 273.15`; `F`, `C` and `K` being
/// `in_fahrenheit() / 100`, `in_celsius() / 180` and `in_kelvin() / 180`.
pub proof fn lemma_conversion_formulas(t: Temperature)
    ensures
        (t.in_fahrenheit() - FAHRENHEIT_OFFSET) * 180 * 5 == t.in_celsius() * 100 * 9,
        t.in_kelvin() * 100 == t.in_celsius() * 100 + 27315 * 180,
{
}

/// A conversion keeps the temperature: the result, read in any unit, equals
/// the temperature converted, read in that unit.
pub proof fn lemma_conversions_keep_temperature(t: Temperature)
    ensures
        i64::MIN <= t.in_fahrenheit() <= i64::MAX ==> {
            let r = Temperature::Fahrenheit(t.in_fahrenheit() as i64);
            &&& r.in_fahrenheit() == t.in_fahrenheit()
            &&& r.in_celsius() == t.in_celsius()
            &&& r.in_kelvin() == t.in_kelvin()
        },
        i64::MIN <= t.in_celsius() <= i64::MAX ==> {
            let r = Temperature::Celsius(t.in_celsius() as i64);
            &&& r.in_fahrenheit() == t.in_fahrenheit()
            &&& r.in_celsius() == t.in_celsius()
            &&& r.in_kelvin() == t.in_kelvin()
        },
        i64::MIN <= t.in_kelvin() <= i64::MAX ==> {
            let r = Temperature::Kelvin(t.in_kelvin() as i64);
            &&& r.in_fahrenheit() == t.in_fahrenheit()
            &&& r.in_celsius() == t.in_celsius()
            &&& r.in_kelvin() == t.in_kelvin()
        },
{
}

/// Converting to another unit and back gives the temperature back, exactly.
pub proof fn lemma_round_trips(t: Temperature)
    requires
        i64::MIN <= t.in_fahrenheit() <= i64::MAX,
        i64::MIN <= t.in_celsius() <= i64::MAX,
        i64::MIN <= t.in_kelvin() <= i64::MAX,
    ensures
        t is Celsius ==> Temperature::Fahrenheit(t.in_fahrenheit() as i64).in_celsius()
            == t.steps() && Temperature::Kelvin(t.in_kelvin() as i64).in_celsius() == t.steps(),
        t is Fahrenheit ==> Temperature::Celsius(t.in_celsius() as i64).in_fahrenheit()
            == t.steps() && Temperature::Kelvin(t.in_kelvin() as i64).in_fahrenheit()
            == t.steps(),
        t is Kelvin ==> Temperature::Celsius(t.in_celsius() as i64).in_kelvin() == t.steps()
            && Temperature::Fahrenheit(t.in_fahrenheit() as i64).in_kelvin() == t.steps(),
{
}

/// Converting to a unit twice is converting once, and a temperature already in
/// a unit converts to itself.
pub proof fn lemma_conversions_idempotent(t: Temperature)
    ensures
        Temperature::Fahrenheit(t.in_fahrenheit() as i64).in_fahrenheit() == (t.in_fahrenheit() as i64),
        Temperature::Celsius(t.in_celsius() as i64).in_celsius() == (t.in_celsius() as i64),
        Temperature::Kelvin(t.in_kelvin() as i64).in_kelvin() == (t.in_kelvin() as i64),
        t is Fahrenheit ==> t.in_fahrenheit() == t.steps(),
        t is Celsius ==> t.in_celsius() == t.steps(),
        t is Kelvin ==> t.in_kelvin() == t.steps(),
{
}

/// Conversions keep the order of temperatures: between two temperatures
/// given in the same unit, the lower stays lower in every unit.
pub proof fn lemma_conversions_monotone(a: Temperature, b: Temperature)
    requires
        (a is Fahrenheit && b is Fahrenheit) || (a is Celsius && b is Celsius) || (a is Kelvin
            && b is Kelvin),
        a.steps() <= b.steps(),
    ensures
        a.in_fahrenheit() <= b.in_fahrenheit(),
        a.in_celsius() <= b.in_celsius(),
        a.in_kelvin() <= b.in_kelvin(),
        a.steps() < b.steps() ==> a.in_fahrenheit() < b.in_fahrenheit(),
{
}

} // verus!
