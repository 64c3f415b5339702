//! Subtractive mixing of colours in given numbers of parts.
use vstd::prelude::*;

use crate::fdrn::{scale, Prop, UFDRNumber};
use crate::hcv::{has_rgb, spec_hcv_of, spec_hcv_rgb, HCV};
use crate::rgb::{rgb_of_props, RGB};
use crate::{ColourBasics, LightLevel};

verus! {

/// Running totals of the red, green and blue components of the colours added, each
/// weighted by its number of parts.
#[derive(Clone, Copy, Debug, PartialEq, Eq, Structural)]
pub struct SubtractiveMixer {
    red: UFDRNumber,
    green: UFDRNumber,
    blue: UFDRNumber,
    total_parts: u64,
}

/// What a mixer holds: the weighted totals of the components and of the parts.
pub struct MixerView {
    pub red: int,
    pub green: int,
    pub blue: int,
    pub total_parts: int,
}

impl View for SubtractiveMixer {
    type V = MixerView;

    closed spec fn view(&self) -> MixerView {
        MixerView {
            red: self.red.0 as int,
            green: self.green.0 as int,
            blue: self.blue.0 as int,
            total_parts: self.total_parts as int,
        }
    }
}

/// A mixer with nothing added.
pub open spec fn empty_mixer() -> MixerView {
    MixerView { red: 0, green: 0, blue: 0, total_parts: 0 }
}

/// The average of the totals over the parts, component by component.
pub open spec fn mixed_props_of(v: MixerView) -> [Prop; 3] {
    [
        Prop((v.red / v.total_parts) as u64),
        Prop((v.green / v.total_parts) as u64),
        Prop((v.blue / v.total_parts) as u64),
    ]
}

/// The mixed colour, where anything has been added.
pub open spec fn mixed_colour_of(v: MixerView) -> Option<HCV> {
    if v.total_parts > 0 {
        Some(spec_hcv_of(mixed_props_of(v)))
    } else {
        None
    }
}

impl SubtractiveMixer {
    /// The mixed colour, where anything has been added.
    pub open spec fn spec_mixed_colour(&self) -> Option<HCV> {
        mixed_colour_of(self@)
    }

    /// Nothing added.
    pub fn new() -> (res: SubtractiveMixer)
        ensures
            res@ == empty_mixer(),
    {
        SubtractiveMixer {
            red: UFDRNumber::zero(),
            green: UFDRNumber::zero(),
            blue: UFDRNumber::zero(),
            total_parts: 0,
        }
    }

    /// Adds `parts` parts of a colour.
    pub fn add<C: ColourBasics>(&mut self, colour: &C, parts: u64)
        requires
            has_rgb(colour.spec_hcv()),
            old(self)@.total_parts + parts <= u64::MAX,
            old(self)@.red + scale() * parts <= u128::MAX,
            old(self)@.green + scale() * parts <= u128::MAX,
            old(self)@.blue + scale() * parts <= u128::MAX,
        ensures
            ({
                let rgb = spec_hcv_rgb(colour.spec_hcv()).unwrap();
                final(self)@ == MixerView {
                    red: old(self)@.red + rgb[0].0 * parts,
                    green: old(self)@.green + rgb[1].0 * parts,
                    blue: old(self)@.blue + rgb[2].0 * parts,
                    total_parts: old(self)@.total_parts + parts,
                }
            }),
    {
        let rgb = colour.hcv().to_rgb_triplet();
        proof {
            vstd::arithmetic::mul::lemma_mul_inequality(rgb[0].0 as int, scale(), parts as int);
            vstd::arithmetic::mul::lemma_mul_inequality(rgb[1].0 as int, scale(), parts as int);
            vstd::arithmetic::mul::lemma_mul_inequality(rgb[2].0 as int, scale(), parts as int);
        }
        self.red = self.red.add_ufdr(UFDRNumber(rgb[0].0 as u128 * parts as u128));
        self.green = self.green.add_ufdr(UFDRNumber(rgb[1].0 as u128 * parts as u128));
        self.blue = self.blue.add_ufdr(UFDRNumber(rgb[2].0 as u128 * parts as u128));
        self.total_parts = self.total_parts + parts;
    }

    /// The mixed colour: the average of the components added, weighted by their parts;
    /// none where nothing has been added.
    pub fn mixed_colour(&self) -> (res: Option<HCV>)
        ensures
            res == self.spec_mixed_colour(),
    {
        if self.total_parts > 0 {
            let parts = self.total_parts as u128;
            let red = Prop((self.red.0 / parts) as u64);
            let green = Prop((self.green.0 / parts) as u64);
            let blue = Prop((self.blue.0 / parts) as u64);
            Some(HCV::from([red, green, blue]))
        } else {
            None
        }
    }

    /// The mixed colour as light levels.
    pub fn mixed_rgb<L: LightLevel>(&self) -> (res: Option<RGB<L>>)
        requires
            self.spec_mixed_colour() matches Some(hcv) ==> has_rgb(hcv),
        ensures
            res == (match self.spec_mixed_colour() {
                Some(hcv) => Some(rgb_of_props::<L>(spec_hcv_rgb(hcv).unwrap())),
                None => None,
            }),
    {
        match self.mixed_colour() {
            Some(hcv) => Some(hcv.rgb::<L>()),
            None => None,
        }
    }

    /// Removes everything added.
    pub fn reset(&mut self)
        ensures
            final(self)@ == empty_mixer(),
    {
        self.red = UFDRNumber::zero();
        self.green = UFDRNumber::zero();
        self.blue = UFDRNumber::zero();
        self.total_parts = 0;
    }
}

/// A colour mixed alone, in any number of parts, gives back its own components.
pub proof fn lemma_mix_single_colour(rgb: [Prop; 3], parts: u64)
    requires
        parts > 0,
    ensures
        mixed_colour_of(
            MixerView {
                red: rgb[0].0 * parts,
                green: rgb[1].0 * parts,
                blue: rgb[2].0 * parts,
                total_parts: parts as int,
            },
        ) == Some(spec_hcv_of(rgb)),
{
    let p = parts as int;
    vstd::arithmetic::div_mod::lemma_div_multiples_vanish(rgb[0].0 as int, p);
    vstd::arithmetic::div_mod::lemma_div_multiples_vanish(rgb[1].0 as int, p);
    vstd::arithmetic::div_mod::lemma_div_multiples_vanish(rgb[2].0 as int, p);
    vstd::arithmetic::mul::lemma_mul_is_commutative(rgb[0].0 as int, p);
    vstd::arithmetic::mul::lemma_mul_is_commutative(rgb[1].0 as int, p);
    vstd::arithmetic::mul::lemma_mul_is_commutative(rgb[2].0 as int, p);
    let v = MixerView {
        red: rgb[0].0 * parts,
        green: rgb[1].0 * parts,
        blue: rgb[2].0 * parts,
        total_parts: parts as int,
    };
    assert(mixed_props_of(v) =~= rgb);
}

impl Default for SubtractiveMixer {
    fn default() -> (res: SubtractiveMixer)
        ensures
            res@ == empty_mixer(),
    {
        SubtractiveMixer::new()
    }
}

} // verus!
