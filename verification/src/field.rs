//! Scalar fields over the plane, written down as recipes.
//!
//! A recipe says how a field is composed: which seeded noise it starts from
//! and how that noise is scaled, shifted, combined and clamped. Evaluating a
//! recipe is left to the program that links this crate. Every number in a
//! recipe is an exact ratio of two integers.

use crate::assets::Channel;
use vstd::prelude::*;

verus! {

/// An exact number: `num / den`.
#[derive(Clone, Copy, Debug, PartialEq, Eq, Structural)]
pub struct Ratio {
    /// The numerator.
    pub num: i64,
    /// The denominator.
    pub den: u64,
}

impl Ratio {
    /// The ratio names a number: its denominator is not zero.
    pub open spec fn wf(self) -> bool {
        self.den > 0
    }

    /// The whole number `value`.
    pub fn whole(value: i64) -> (ratio: Ratio)
        ensures
            ratio == (Ratio { num: value, den: 1 }),
            ratio.wf(),
    {
        Ratio { num: value, den: 1 }
    }

    /// The number `num / den`.
    pub fn new(num: i64, den: u64) -> (ratio: Ratio)
        requires
            den > 0,
        ensures
            ratio == (Ratio { num, den }),
            ratio.wf(),
    {
        Ratio { num, den }
    }
}

/// The noise that the layers of a fractal field are made of.
#[derive(Clone, Copy, Debug, PartialEq, Eq, Structural)]
pub enum Basis {
    /// Gradient noise.
    Perlin,
    /// Value noise.
    Value,
    /// A rock map; the layer with number `i` is the rock map seeded with the
    /// field's seed plus `i`.
    Rocks,
}

/// The recipe of a scalar field over the plane.
#[derive(Debug, PartialEq, Eq)]
pub enum Field {
    /// The same value everywhere.
    Constant(Ratio),
    /// Fractal noise: layers of `basis` noise summed up, each at a higher
    /// frequency and a lower amplitude than the one before. `lacunarity` and
    /// `persistence` are the noise library's own where they are `None`.
    Fbm {
        basis: Basis,
        seed: u32,
        octaves: usize,
        frequency: Ratio,
        lacunarity: Option<Ratio>,
        persistence: Option<Ratio>,
    },
    /// Hard ridges: the distance to the nearest feature point of a cellular
    /// noise in four dimensions, measured along the axes, seen on the slice
    /// `(x / 2 + y, y, x, 2 y)`.
    Ridges { seed: u32, frequency: Ratio },
    /// A channel of the guide image stretched over the scene, from 0 to 1.
    Image(Channel),
    /// `source * scale + bias`.
    ScaleBias { source: Box<Field>, scale: Ratio, bias: Ratio },
    /// The sum of two fields.
    Add(Box<Field>, Box<Field>),
    /// The product of two fields.
    Multiply(Box<Field>, Box<Field>),
    /// The first field raised to the power of the second.
    Power(Box<Field>, Box<Field>),
    /// The smaller of two fields.
    Min(Box<Field>, Box<Field>),
    /// The larger of two fields.
    Max(Box<Field>, Box<Field>),
    /// `source` held between `lower` and `upper`.
    Clamp { source: Box<Field>, lower: Ratio, upper: Ratio },
}

impl Field {
    /// `self * scale + bias`.
    pub fn scale_bias(self, scale: Ratio, bias: Ratio) -> (field: Field)
        ensures
            field == (Field::ScaleBias { source: Box::new(self), scale, bias }),
    {
        Field::ScaleBias { source: Box::new(self), scale, bias }
    }

    /// `self + other`.
    pub fn plus(self, other: Field) -> (field: Field)
        ensures
            field == Field::Add(Box::new(self), Box::new(other)),
    {
        Field::Add(Box::new(self), Box::new(other))
    }

    /// `self * other`.
    pub fn times(self, other: Field) -> (field: Field)
        ensures
            field == Field::Multiply(Box::new(self), Box::new(other)),
    {
        Field::Multiply(Box::new(self), Box::new(other))
    }

    /// `self` raised to the power `exponent`.
    pub fn power(self, exponent: Ratio) -> (field: Field)
        ensures
            field == Field::Power(Box::new(self), Box::new(Field::Constant(exponent))),
    {
        Field::Power(Box::new(self), Box::new(Field::Constant(exponent)))
    }

    /// The smaller of `self` and `bound`.
    pub fn min(self, bound: Ratio) -> (field: Field)
        ensures
            field == Field::Min(Box::new(self), Box::new(Field::Constant(bound))),
    {
        Field::Min(Box::new(self), Box::new(Field::Constant(bound)))
    }

    /// The larger of `self` and `bound`.
    pub fn max(self, bound: Ratio) -> (field: Field)
        ensures
            field == Field::Max(Box::new(self), Box::new(Field::Constant(bound))),
    {
        Field::Max(Box::new(self), Box::new(Field::Constant(bound)))
    }

    /// `self` held between `lower` and `upper`.
    pub fn clamp(self, lower: Ratio, upper: Ratio) -> (field: Field)
        ensures
            field == (Field::Clamp { source: Box::new(self), lower, upper }),
    {
        Field::Clamp { source: Box::new(self), lower, upper }
    }
}

} // verus!
