//! Step by step changes to a colour's chroma, value and hue, with policies for what
//! to do where a change cannot be made exactly.
use vstd::prelude::*;

use crate::attributes::Value;
use crate::fdrn::{scale, Prop, UFDRNumber};
use crate::hcv::{grey_of_sum, has_rgb, spec_hcv_of, spec_hcv_rgb, spec_try_new, HCV};
use crate::hue::{
    spec_adjusted_favouring_chroma, spec_adjusted_favouring_sum, spec_max_chroma_prop_for_sum,
    spec_sum_and_chroma_prop_are_compatible, spec_sum_for_max_chroma, spec_sum_range_for_chroma_prop,
    spec_trim_overs, Hue, RGBHue,
};
use crate::rgb::{props_of, rgb_of_props, RGB};
use crate::LightLevel;

verus! {

/// What to do with a new chroma or value that the hue does not allow at the current
/// value or chroma.
#[derive(Clone, Copy, Debug, PartialEq, Eq, Structural)]
pub enum SetScalar {
    Clamp,
    Accommodate,
    Reject,
}

/// What to keep when the hue changes.
#[derive(Clone, Copy, Debug, PartialEq, Eq, Structural)]
pub enum SetHue {
    FavourChroma,
    FavourValue,
}

/// What became of a requested change.
#[derive(Clone, Copy, Debug, PartialEq, Eq, Structural)]
pub enum Outcome {
    Applied,
    Clamped,
    Accommodated,
    NoChange,
    Rejected,
}

/// A colour under step by step change, with the hue to return to when chroma comes
/// back to a grey.
#[derive(Clone, Copy, Debug)]
pub struct ColourManipulator {
    pub hcv: HCV,
    pub clamped: bool,
    pub rotation_policy: SetHue,
    pub saved_hue: Hue,
}

/// The colour, whether or not rounding moved it off its hue.
pub open spec fn settle(r: Result<HCV, HCV>) -> HCV {
    match r {
        Ok(hcv) => hcv,
        Err(hcv) => hcv,
    }
}

/// The colour of the hue with the chroma proportion and sum, as near as rounding
/// allows.
pub open spec fn near(hue: Hue, c_prop: Prop, sum: UFDRNumber) -> HCV {
    settle(spec_try_new(Some((hue, c_prop)), sum))
}

/// The grey with a third of the sum as its value.
pub open spec fn grey_third(sum: UFDRNumber) -> HCV {
    grey_of_sum(UFDRNumber((((sum.0 / 3) as u64) * 3) as u128))
}

/// A manipulator whose colour has a valid sum.
pub open spec fn manipulator_ok(m: ColourManipulator) -> bool {
    m.hcv.sum.0 <= 3 * scale()
}

/// The manipulator with another colour.
pub open spec fn with_hcv(m: ColourManipulator, hcv: HCV) -> ColourManipulator {
    ColourManipulator { hcv, ..m }
}

/// `NoChange` where the chroma proportion stayed, `changed` otherwise.
pub open spec fn chroma_outcome(before: Prop, hcv: HCV, changed: Outcome) -> Outcome {
    if before == hcv.c_prop {
        Outcome::NoChange
    } else {
        changed
    }
}

/// `NoChange` where the sum stayed, `changed` otherwise.
pub open spec fn sum_outcome(before: UFDRNumber, hcv: HCV, changed: Outcome) -> Outcome {
    if before == hcv.sum {
        Outcome::NoChange
    } else {
        changed
    }
}

/// The chroma proportion asked for, clamped below the largest the hue allows at the
/// sum; none where the colour is already there.
pub open spec fn clamped_c_prop(new_c: Prop, cur_c: Prop, max_c: Prop) -> Option<Prop> {
    if new_c.0 < max_c.0 {
        Some(new_c)
    } else if cur_c.0 < max_c.0 {
        Some(max_c)
    } else {
        None
    }
}

/// What `set_chroma` does to a manipulator whose colour has a hue.
pub open spec fn set_chroma_hued(m: ColourManipulator, hue: Hue, new_c: Prop, policy: SetScalar) -> (
    ColourManipulator,
    Outcome,
) {
    let m = ColourManipulator { saved_hue: hue, ..m };
    let cur_c = m.hcv.c_prop;
    let sum = m.hcv.sum;
    if spec_sum_and_chroma_prop_are_compatible(hue, sum, new_c) {
        let hcv = near(hue, new_c, sum);
        (with_hcv(m, hcv), chroma_outcome(cur_c, hcv, Outcome::Applied))
    } else {
        match policy {
            SetScalar::Clamp => match spec_max_chroma_prop_for_sum(hue, sum) {
                None => (m, Outcome::NoChange),
                Some(max_c) => match clamped_c_prop(new_c, cur_c, max_c) {
                    None => (m, Outcome::NoChange),
                    Some(c) => {
                        let hcv = match spec_adjusted_favouring_sum(hue, sum, c) {
                            Some((c1, s1)) => if c1.0 == 0 {
                                grey_third(s1)
                            } else {
                                near(hue, c1, s1)
                            },
                            None => grey_third(sum),
                        };
                        (with_hcv(m, hcv), chroma_outcome(cur_c, hcv, Outcome::Clamped))
                    },
                },
            },
            SetScalar::Accommodate => {
                let hcv = match spec_adjusted_favouring_chroma(hue, sum, new_c) {
                    Some((c1, s1)) => if c1.0 == 0 {
                        grey_third(sum)
                    } else {
                        near(hue, c1, s1)
                    },
                    None => grey_third(sum),
                };
                (with_hcv(m, hcv), chroma_outcome(cur_c, hcv, Outcome::Accommodated))
            },
            SetScalar::Reject => (m, Outcome::Rejected),
        }
    }
}

/// What `set_chroma` does to a manipulator whose colour is grey: the saved hue gives
/// the colour its hue.
pub open spec fn set_chroma_grey(m: ColourManipulator, new_c: Prop, policy: SetScalar) -> (
    ColourManipulator,
    Outcome,
) {
    let hue = m.saved_hue;
    let cur_c = m.hcv.c_prop;
    let sum = m.hcv.sum;
    if new_c.0 == 0 {
        (m, Outcome::NoChange)
    } else if spec_sum_and_chroma_prop_are_compatible(hue, sum, new_c) {
        let hcv = near(hue, new_c, sum);
        (with_hcv(m, hcv), chroma_outcome(cur_c, hcv, Outcome::Applied))
    } else {
        match policy {
            SetScalar::Clamp => match spec_max_chroma_prop_for_sum(hue, sum) {
                None => (m, Outcome::NoChange),
                Some(max_c) => match clamped_c_prop(new_c, cur_c, max_c) {
                    None => (m, Outcome::NoChange),
                    Some(c) => {
                        let hcv = match spec_adjusted_favouring_sum(hue, sum, c) {
                            Some((c1, s1)) => near(hue, c1, s1),
                            None => m.hcv,
                        };
                        (with_hcv(m, hcv), chroma_outcome(cur_c, hcv, Outcome::Clamped))
                    },
                },
            },
            SetScalar::Accommodate => {
                let hcv = match spec_adjusted_favouring_chroma(hue, sum, new_c) {
                    Some((c1, s1)) => near(hue, c1, s1),
                    None => grey_third(sum),
                };
                (with_hcv(m, hcv), chroma_outcome(cur_c, hcv, Outcome::Accommodated))
            },
            SetScalar::Reject => (m, Outcome::Rejected),
        }
    }
}

/// What `set_chroma` does.
pub open spec fn spec_set_chroma(m: ColourManipulator, new_c: Prop, policy: SetScalar) -> (
    ColourManipulator,
    Outcome,
) {
    match m.hcv.hue {
        Some(hue) => set_chroma_hued(m, hue, new_c, policy),
        None => set_chroma_grey(m, new_c, policy),
    }
}

/// What `set_sum` does.
pub open spec fn spec_set_sum(m: ColourManipulator, new_sum: UFDRNumber, policy: SetScalar) -> (
    ColourManipulator,
    Outcome,
) {
    let cur_sum = m.hcv.sum;
    match m.hcv.hue {
        Some(hue) => {
            let m = ColourManipulator { saved_hue: hue, ..m };
            let c = m.hcv.c_prop;
            if spec_sum_and_chroma_prop_are_compatible(hue, new_sum, c) {
                let hcv = near(hue, c, new_sum);
                (with_hcv(m, hcv), sum_outcome(cur_sum, hcv, Outcome::Applied))
            } else {
                match policy {
                    SetScalar::Clamp => {
                        let hcv = match spec_adjusted_favouring_chroma(hue, new_sum, c) {
                            Some((c1, s1)) => near(hue, c1, s1),
                            None => grey_third(new_sum),
                        };
                        (with_hcv(m, hcv), sum_outcome(cur_sum, hcv, Outcome::Clamped))
                    },
                    SetScalar::Accommodate => {
                        let hcv = match spec_adjusted_favouring_sum(hue, new_sum, c) {
                            Some((c1, s1)) => near(hue, c1, s1),
                            None => grey_third(new_sum),
                        };
                        (with_hcv(m, hcv), sum_outcome(cur_sum, hcv, Outcome::Accommodated))
                    },
                    SetScalar::Reject => (m, Outcome::Rejected),
                }
            }
        },
        None => {
            let hcv = grey_third(new_sum);
            (with_hcv(m, hcv), sum_outcome(cur_sum, hcv, Outcome::Applied))
        },
    }
}

/// Whether a change was made: `Ok`, `Clamped` or `Accommodated`.
pub open spec fn made(outcome: Outcome) -> bool {
    outcome == Outcome::Applied || outcome == Outcome::Clamped || outcome == Outcome::Accommodated
}

/// The chroma proportion one step down, not below zero.
pub open spec fn decremented(c: Prop, delta: Prop) -> Prop {
    if c.0 > delta.0 {
        Prop((c.0 - delta.0) as u64)
    } else {
        Prop(0)
    }
}

/// The chroma proportion one step up, not above one.
pub open spec fn incremented(c: Prop, delta: Prop) -> Prop {
    if c.0 < u64::MAX - delta.0 {
        Prop((c.0 + delta.0) as u64)
    } else {
        Prop(u64::MAX)
    }
}

/// The policy for steps: clamp or accommodate.
pub open spec fn step_policy(m: ColourManipulator) -> SetScalar {
    if m.clamped {
        SetScalar::Clamp
    } else {
        SetScalar::Accommodate
    }
}

/// The sum one value step down, not below zero.
pub open spec fn sum_decremented(sum: UFDRNumber, delta: Prop) -> UFDRNumber {
    if delta.0 * 3 < sum.0 {
        UFDRNumber((sum.0 - delta.0 * 3) as u128)
    } else {
        UFDRNumber(0)
    }
}

/// The sum one value step up, not above three.
pub open spec fn sum_incremented(sum: UFDRNumber, delta: Prop) -> UFDRNumber {
    if delta.0 * 3 < 3 * scale() - sum.0 {
        UFDRNumber((sum.0 + delta.0 * 3) as u128)
    } else {
        UFDRNumber((3 * scale()) as u128)
    }
}

/// The sum range of the new hue for the chroma, trimmed: what `set_hue` favouring
/// chroma settles on.
pub open spec fn favour_chroma_target(hue: Hue, sum: UFDRNumber, c: Prop) -> Option<(Prop, UFDRNumber)> {
    match spec_sum_range_for_chroma_prop(hue, c) {
        Some((min_sum, max_sum)) => if sum.0 < min_sum.0 {
            spec_trim_overs(hue, UFDRNumber((min_sum.0 + 2) as u128), c)
        } else if sum.0 > max_sum.0 {
            spec_trim_overs(hue, max_sum, c)
        } else {
            spec_trim_overs(hue, sum, c)
        },
        None => spec_trim_overs(hue, sum, c),
    }
}

/// Where `set_hue` can be carried out without a missing value.
pub open spec fn set_hue_ok(m: ColourManipulator, new_hue: Hue, policy: SetHue) -> bool {
    let c = m.hcv.c_prop;
    let sum = m.hcv.sum;
    if c.0 == 0 || policy == SetHue::FavourChroma {
        true
    } else if c.0 == u64::MAX {
        match spec_max_chroma_prop_for_sum(new_hue, sum) {
            Some(max_c) => spec_adjusted_favouring_sum(new_hue, sum, max_c) is Some,
            None => false,
        }
    } else if spec_sum_and_chroma_prop_are_compatible(new_hue, sum, c) {
        true
    } else {
        match spec_max_chroma_prop_for_sum(new_hue, sum) {
            Some(max_c) => spec_adjusted_favouring_sum(
                new_hue,
                sum,
                if c.0 < max_c.0 {
                    c
                } else {
                    max_c
                },
            ) is Some,
            None => false,
        }
    }
}

/// What `set_hue` does.
pub open spec fn spec_set_hue(m: ColourManipulator, new_hue: Hue, policy: SetHue) -> ColourManipulator {
    let c = m.hcv.c_prop;
    let sum = m.hcv.sum;
    if c.0 == 0 {
        ColourManipulator { saved_hue: new_hue, ..m }
    } else if c.0 == u64::MAX {
        match policy {
            SetHue::FavourChroma => with_hcv(
                m,
                HCV {
                    hue: Some(new_hue),
                    c_prop: Prop(u64::MAX),
                    sum: UFDRNumber(spec_sum_for_max_chroma(new_hue) as u128),
                },
            ),
            SetHue::FavourValue => {
                let max_c = spec_max_chroma_prop_for_sum(new_hue, sum).unwrap();
                let (c1, s1) = spec_adjusted_favouring_sum(new_hue, sum, max_c).unwrap();
                with_hcv(m, near(new_hue, c1, s1))
            },
        }
    } else if spec_sum_and_chroma_prop_are_compatible(new_hue, sum, c) {
        with_hcv(m, near(new_hue, c, sum))
    } else {
        match policy {
            SetHue::FavourChroma => match favour_chroma_target(new_hue, sum, c) {
                Some((c1, s1)) => with_hcv(m, near(new_hue, c1, s1)),
                None => ColourManipulator { saved_hue: new_hue, hcv: grey_third(sum), ..m },
            },
            SetHue::FavourValue => {
                let max_c = spec_max_chroma_prop_for_sum(new_hue, sum).unwrap();
                let c0 = if c.0 < max_c.0 {
                    c
                } else {
                    max_c
                };
                let (c1, s1) = spec_adjusted_favouring_sum(new_hue, sum, c0).unwrap();
                with_hcv(m, near(new_hue, c1, s1))
            },
        }
    }
}

impl ColourManipulator {
    /// The colour settled on from `try_new`, whether or not rounding moved it off its
    /// hue.
    fn near_hcv(hue: Hue, c_prop: Prop, sum: UFDRNumber) -> (res: HCV)
        requires
            sum.0 <= 3 * scale(),
        ensures
            res == near(hue, c_prop, sum),
            res.sum.0 <= 3 * scale(),
    {
        match HCV::try_new(Some((hue, c_prop)), sum) {
            Ok(hcv) => hcv,
            Err(hcv) => hcv,
        }
    }

    /// The grey with a third of the sum as its value.
    fn grey_third_hcv(sum: UFDRNumber) -> (res: HCV)
        ensures
            res == grey_third(sum),
    {
        HCV::new_grey(Value::from(sum.div_i32(3)))
    }

    /// The colour as light levels.
    pub fn rgb<L: LightLevel>(&self) -> (res: RGB<L>)
        requires
            has_rgb(self.hcv),
        ensures
            res == rgb_of_props::<L>(spec_hcv_rgb(self.hcv).unwrap()),
    {
        self.hcv.rgb::<L>()
    }

    /// The colour.
    pub fn hcv(&self) -> (res: HCV)
        ensures
            res == self.hcv,
    {
        self.hcv
    }

    /// Replaces the colour.
    pub fn set_colour(&mut self, colour: &HCV)
        requires
            colour.sum.0 <= 3 * scale(),
        ensures
            *final(self) == with_hcv(*old(self), *colour),
            manipulator_ok(*final(self)),
    {
        self.hcv = *colour;
    }

    /// Replaces the colour with one given as light levels.
    pub fn set_rgb<L: LightLevel>(&mut self, rgb: &RGB<L>)
        ensures
            *final(self) == with_hcv(*old(self), spec_hcv_of(props_of(*rgb))),
            manipulator_ok(*final(self)),
    {
        self.hcv = HCV::from(*rgb);
    }

    /// Whether steps clamp rather than accommodate.
    pub fn clamped(&self) -> (res: bool)
        ensures
            res == self.clamped,
    {
        self.clamped
    }

    pub fn set_clamped(&mut self, clamped: bool)
        ensures
            *final(self) == (ColourManipulator { clamped, ..*old(self) }),
    {
        self.clamped = clamped;
    }

    /// What to keep when the hue changes.
    pub fn rotation_policy(&self) -> (res: SetHue)
        ensures
            res == self.rotation_policy,
    {
        self.rotation_policy
    }

    pub fn set_rotation_policy(&mut self, rotation_policy: SetHue)
        ensures
            *final(self) == (ColourManipulator { rotation_policy, ..*old(self) }),
    {
        self.rotation_policy = rotation_policy;
    }

    /// Sets the chroma proportion where the hue allows it at the current sum, and
    /// otherwise clamps it, accommodates the sum to it, or rejects it as the policy
    /// says.  A grey takes the saved hue.
    pub fn set_chroma(&mut self, new_c_prop: Prop, policy: SetScalar) -> (res: Outcome)
        requires
            manipulator_ok(*old(self)),
        ensures
            (*final(self), res) == spec_set_chroma(*old(self), new_c_prop, policy),
            manipulator_ok(*final(self)),
    {
        let cur_c_prop = self.hcv.c_prop;
        let sum = self.hcv.sum;
        match self.hcv.hue {
            Some(hue) => {
                self.saved_hue = hue;
                if hue.sum_and_chroma_prop_are_compatible(sum, new_c_prop) {
                    self.hcv = Self::near_hcv(hue, new_c_prop, sum);
                    if cur_c_prop == self.hcv.c_prop {
                        Outcome::NoChange
                    } else {
                        Outcome::Applied
                    }
                } else {
                    match policy {
                        SetScalar::Clamp => match hue.max_chroma_prop_for_sum(sum) {
                            Some(max_c_prop) => {
                                let clamped_new_c_prop = if new_c_prop.0 < max_c_prop.0 {
                                    new_c_prop
                                } else if cur_c_prop.0 < max_c_prop.0 {
                                    max_c_prop
                                } else {
                                    return Outcome::NoChange;
                                };
                                proof {
                                    crate::hue::lemma_adjusted_favouring_sum_bound(
                                        hue,
                                        sum,
                                        clamped_new_c_prop,
                                    );
                                }
                                self.hcv = match hue.adjusted_favouring_sum(sum, clamped_new_c_prop) {
                                    Some((c_prop, new_sum)) => {
                                        if c_prop.0 == 0 {
                                            Self::grey_third_hcv(new_sum)
                                        } else {
                                            Self::near_hcv(hue, c_prop, new_sum)
                                        }
                                    },
                                    None => Self::grey_third_hcv(sum),
                                };
                                if cur_c_prop == self.hcv.c_prop {
                                    Outcome::NoChange
                                } else {
                                    Outcome::Clamped
                                }
                            },
                            None => Outcome::NoChange,
                        },
                        SetScalar::Accommodate => {
                            proof {
                                crate::hcv::lemma_adjusted_sum_bound(hue, sum, new_c_prop);
                            }
                            self.hcv = match hue.adjusted_favouring_chroma(sum, new_c_prop) {
                                Some((c_prop, new_sum)) => {
                                    if c_prop.0 == 0 {
                                        Self::grey_third_hcv(sum)
                                    } else {
                                        Self::near_hcv(hue, c_prop, new_sum)
                                    }
                                },
                                None => Self::grey_third_hcv(sum),
                            };
                            if cur_c_prop == self.hcv.c_prop {
                                Outcome::NoChange
                            } else {
                                Outcome::Accommodated
                            }
                        },
                        SetScalar::Reject => Outcome::Rejected,
                    }
                }
            },
            None => {
                let hue = self.saved_hue;
                if new_c_prop.0 == 0 {
                    Outcome::NoChange
                } else if hue.sum_and_chroma_prop_are_compatible(sum, new_c_prop) {
                    self.hcv = Self::near_hcv(hue, new_c_prop, sum);
                    if cur_c_prop == self.hcv.c_prop {
                        Outcome::NoChange
                    } else {
                        Outcome::Applied
                    }
                } else {
                    match policy {
                        SetScalar::Clamp => match hue.max_chroma_prop_for_sum(sum) {
                            Some(max_c_prop) => {
                                let clamped_new_c_prop = if new_c_prop.0 < max_c_prop.0 {
                                    new_c_prop
                                } else if cur_c_prop.0 < max_c_prop.0 {
                                    max_c_prop
                                } else {
                                    return Outcome::NoChange;
                                };
                                proof {
                                    crate::hue::lemma_adjusted_favouring_sum_bound(
                                        hue,
                                        sum,
                                        clamped_new_c_prop,
                                    );
                                }
                                self.hcv = match hue.adjusted_favouring_sum(sum, clamped_new_c_prop) {
                                    Some((c_prop, new_sum)) => Self::near_hcv(hue, c_prop, new_sum),
                                    None => self.hcv,
                                };
                                if cur_c_prop == self.hcv.c_prop {
                                    Outcome::NoChange
                                } else {
                                    Outcome::Clamped
                                }
                            },
                            None => Outcome::NoChange,
                        },
                        SetScalar::Accommodate => {
                            proof {
                                crate::hcv::lemma_adjusted_sum_bound(hue, sum, new_c_prop);
                            }
                            self.hcv = match hue.adjusted_favouring_chroma(sum, new_c_prop) {
                                Some((c_prop, new_sum)) => Self::near_hcv(hue, c_prop, new_sum),
                                None => Self::grey_third_hcv(sum),
                            };
                            if cur_c_prop == self.hcv.c_prop {
                                Outcome::NoChange
                            } else {
                                Outcome::Accommodated
                            }
                        },
                        SetScalar::Reject => Outcome::Rejected,
                    }
                }
            },
        }
    }

    /// Lowers the chroma proportion by `delta` (not below zero) under the step
    /// policy; whether a change was made.
    pub fn decr_chroma(&mut self, delta: Prop) -> (res: bool)
        requires
            manipulator_ok(*old(self)),
        ensures
            manipulator_ok(*final(self)),
            old(self).hcv.c_prop.0 == 0 ==> !res && *final(self) == *old(self),
            old(self).hcv.c_prop.0 != 0 ==> ({
                let (m, outcome) = spec_set_chroma(
                    *old(self),
                    decremented(old(self).hcv.c_prop, delta),
                    step_policy(*old(self)),
                );
                *final(self) == m && res == made(outcome)
            }),
    {
        let c_prop = self.hcv.c_prop;
        if c_prop.0 == 0 {
            false
        } else {
            let new_c_prop = if c_prop.0 > delta.0 {
                c_prop.sub_prop(delta)
            } else {
                Prop::zero()
            };
            let policy = if self.clamped {
                SetScalar::Clamp
            } else {
                SetScalar::Accommodate
            };
            match self.set_chroma(new_c_prop, policy) {
                Outcome::Applied | Outcome::Clamped | Outcome::Accommodated => true,
                _ => false,
            }
        }
    }

    /// Raises the chroma proportion by `delta` (not above one) under the step policy;
    /// whether a change was made.
    pub fn incr_chroma(&mut self, delta: Prop) -> (res: bool)
        requires
            manipulator_ok(*old(self)),
        ensures
            manipulator_ok(*final(self)),
            old(self).hcv.c_prop.0 == u64::MAX ==> !res && *final(self) == *old(self),
            old(self).hcv.c_prop.0 != u64::MAX ==> ({
                let new_c = if old(self).hcv.c_prop.0 == 0 {
                    delta
                } else {
                    incremented(old(self).hcv.c_prop, delta)
                };
                let (m, outcome) = spec_set_chroma(*old(self), new_c, step_policy(*old(self)));
                *final(self) == m && res == made(outcome)
            }),
    {
        let policy = if self.clamped {
            SetScalar::Clamp
        } else {
            SetScalar::Accommodate
        };
        let c_prop = self.hcv.c_prop;
        if c_prop.0 == u64::MAX {
            false
        } else {
            let new_c_prop = if c_prop.0 == 0 {
                delta
            } else if c_prop.0 < u64::MAX - delta.0 {
                Prop(c_prop.0 + delta.0)
            } else {
                Prop::one()
            };
            match self.set_chroma(new_c_prop, policy) {
                Outcome::Applied | Outcome::Clamped | Outcome::Accommodated => true,
                _ => false,
            }
        }
    }

    /// Sets the sum where the hue allows it at the current chroma proportion, and
    /// otherwise clamps it, accommodates the chroma to it, or rejects it as the policy
    /// says.  A grey takes the new sum (to a multiple of three).
    pub fn set_sum(&mut self, new_sum: UFDRNumber, policy: SetScalar) -> (res: Outcome)
        requires
            manipulator_ok(*old(self)),
            new_sum.0 <= 3 * scale(),
        ensures
            (*final(self), res) == spec_set_sum(*old(self), new_sum, policy),
            manipulator_ok(*final(self)),
    {
        let cur_sum = self.hcv.sum;
        match self.hcv.hue {
            Some(hue) => {
                self.saved_hue = hue;
                let c_prop = self.hcv.c_prop;
                if hue.sum_and_chroma_prop_are_compatible(new_sum, c_prop) {
                    self.hcv = Self::near_hcv(hue, c_prop, new_sum);
                    if cur_sum == self.hcv.sum {
                        Outcome::NoChange
                    } else {
                        Outcome::Applied
                    }
                } else {
                    match policy {
                        SetScalar::Clamp => {
                            proof {
                                crate::hcv::lemma_adjusted_sum_bound(hue, new_sum, c_prop);
                            }
                            self.hcv = match hue.adjusted_favouring_chroma(new_sum, c_prop) {
                                Some((c1, s1)) => Self::near_hcv(hue, c1, s1),
                                None => Self::grey_third_hcv(new_sum),
                            };
                            if cur_sum == self.hcv.sum {
                                Outcome::NoChange
                            } else {
                                Outcome::Clamped
                            }
                        },
                        SetScalar::Accommodate => {
                            proof {
                                crate::hue::lemma_adjusted_favouring_sum_bound(hue, new_sum, c_prop);
                            }
                            self.hcv = match hue.adjusted_favouring_sum(new_sum, c_prop) {
                                Some((c1, s1)) => Self::near_hcv(hue, c1, s1),
                                None => Self::grey_third_hcv(new_sum),
                            };
                            if cur_sum == self.hcv.sum {
                                Outcome::NoChange
                            } else {
                                Outcome::Accommodated
                            }
                        },
                        SetScalar::Reject => Outcome::Rejected,
                    }
                }
            },
            None => {
                self.hcv = Self::grey_third_hcv(new_sum);
                if cur_sum == self.hcv.sum {
                    Outcome::NoChange
                } else {
                    Outcome::Applied
                }
            },
        }
    }

    /// Lowers the sum by three times `delta` (not below zero) under the step policy;
    /// whether a change was made.
    pub fn decr_value(&mut self, delta: Prop) -> (res: bool)
        requires
            manipulator_ok(*old(self)),
        ensures
            manipulator_ok(*final(self)),
            old(self).hcv.sum.0 == 0 ==> !res && *final(self) == *old(self),
            old(self).hcv.sum.0 != 0 ==> ({
                let (m, outcome) = spec_set_sum(
                    *old(self),
                    sum_decremented(old(self).hcv.sum, delta),
                    step_policy(*old(self)),
                );
                *final(self) == m && res == made(outcome)
            }),
    {
        let sum = self.hcv.sum;
        if sum.0 == 0 {
            false
        } else {
            let step = delta.mul_u8(3);
            let new_sum = if step.0 < sum.0 {
                sum.sub_ufdr(step)
            } else {
                UFDRNumber::zero()
            };
            let policy = if self.clamped {
                SetScalar::Clamp
            } else {
                SetScalar::Accommodate
            };
            match self.set_sum(new_sum, policy) {
                Outcome::Applied | Outcome::Clamped | Outcome::Accommodated => true,
                _ => false,
            }
        }
    }

    /// Raises the sum by three times `delta` (not above three) under the step policy;
    /// whether a change was made.
    pub fn incr_value(&mut self, delta: Prop) -> (res: bool)
        requires
            manipulator_ok(*old(self)),
        ensures
            manipulator_ok(*final(self)),
            old(self).hcv.sum.0 == 3 * scale() ==> !res && *final(self) == *old(self),
            old(self).hcv.sum.0 != 3 * scale() ==> ({
                let (m, outcome) = spec_set_sum(
                    *old(self),
                    sum_incremented(old(self).hcv.sum, delta),
                    step_policy(*old(self)),
                );
                *final(self) == m && res == made(outcome)
            }),
    {
        let sum = self.hcv.sum;
        let three = UFDRNumber::three();
        if sum.0 == three.0 {
            false
        } else {
            let step = delta.mul_u8(3);
            let new_sum = if step.0 < three.sub_ufdr(sum).0 {
                sum.add_ufdr(step)
            } else {
                three
            };
            let policy = if self.clamped {
                SetScalar::Clamp
            } else {
                SetScalar::Accommodate
            };
            match self.set_sum(new_sum, policy) {
                Outcome::Applied | Outcome::Clamped | Outcome::Accommodated => true,
                _ => false,
            }
        }
    }

    /// Gives the colour a new hue, keeping its chroma or its value as the policy
    /// says where the new hue does not allow both; a grey only saves the hue.
    pub fn set_hue(&mut self, new_hue: Hue, policy: SetHue)
        requires
            manipulator_ok(*old(self)),
            set_hue_ok(*old(self), new_hue, policy),
        ensures
            *final(self) == spec_set_hue(*old(self), new_hue, policy),
            manipulator_ok(*final(self)),
    {
        let c_prop = self.hcv.c_prop;
        let sum = self.hcv.sum;
        if c_prop.0 == 0 {
            self.saved_hue = new_hue;
        } else if c_prop.0 == u64::MAX {
            match policy {
                SetHue::FavourChroma => {
                    proof {
                        crate::hue::lemma_sum_for_max_chroma_bounds(new_hue);
                    }
                    self.hcv = new_hue.max_chroma_hcv();
                },
                SetHue::FavourValue => {
                    let max_c_prop = new_hue.max_chroma_prop_for_sum(sum).unwrap();
                    proof {
                        crate::hue::lemma_adjusted_favouring_sum_bound(new_hue, sum, max_c_prop);
                    }
                    let (c1, s1) = new_hue.adjusted_favouring_sum(sum, max_c_prop).unwrap();
                    self.hcv = Self::near_hcv(new_hue, c1, s1);
                },
            }
        } else if new_hue.sum_and_chroma_prop_are_compatible(sum, c_prop) {
            self.hcv = Self::near_hcv(new_hue, c_prop, sum);
        } else {
            match policy {
                SetHue::FavourChroma => {
                    proof {
                        crate::hue::lemma_sum_range_bound(new_hue, c_prop);
                        crate::hue::lemma_trim_overs_sum_bound(new_hue, sum, c_prop);
                    }
                    let target = match new_hue.sum_range_for_chroma_prop(c_prop) {
                        Some((min_sum, max_sum)) => {
                            if sum.0 < min_sum.0 {
                                proof {
                                    crate::hue::lemma_trim_overs_sum_bound(
                                        new_hue,
                                        UFDRNumber((min_sum.0 + 2) as u128),
                                        c_prop,
                                    );
                                }
                                new_hue.trim_overs(min_sum.add_ufdr(UFDRNumber(2)), c_prop)
                            } else if sum.0 > max_sum.0 {
                                proof {
                                    crate::hue::lemma_trim_overs_sum_bound(new_hue, max_sum, c_prop);
                                }
                                new_hue.trim_overs(max_sum, c_prop)
                            } else {
                                new_hue.trim_overs(sum, c_prop)
                            }
                        },
                        None => new_hue.trim_overs(sum, c_prop),
                    };
                    match target {
                        Some((c1, s1)) => {
                            self.hcv = Self::near_hcv(new_hue, c1, s1);
                        },
                        None => {
                            self.saved_hue = new_hue;
                            self.hcv = Self::grey_third_hcv(sum);
                        },
                    }
                },
                SetHue::FavourValue => {
                    let max_c_prop = new_hue.max_chroma_prop_for_sum(sum).unwrap();
                    let c0 = if c_prop.0 < max_c_prop.0 {
                        c_prop
                    } else {
                        max_c_prop
                    };
                    proof {
                        crate::hue::lemma_adjusted_favouring_sum_bound(new_hue, sum, c0);
                    }
                    let (c1, s1) = new_hue.adjusted_favouring_sum(sum, c0).unwrap();
                    self.hcv = Self::near_hcv(new_hue, c1, s1);
                },
            }
        }
    }
}

impl ColourManipulator {
    /// Whether `set_hue` can give the colour the new hue by the policy: always where
    /// it favours chroma; where it favours value, when a value-keeping colour of the
    /// new hue exists.
    pub fn can_set_hue(&self, new_hue: Hue, policy: SetHue) -> (res: bool)
        ensures
            res == set_hue_ok(*self, new_hue, policy),
    {
        let c = self.hcv.c_prop;
        let sum = self.hcv.sum;
        if c.0 == 0 {
            true
        } else {
            match policy {
                SetHue::FavourChroma => true,
                SetHue::FavourValue => {
                    if c.0 == u64::MAX {
                        match new_hue.max_chroma_prop_for_sum(sum) {
                            Some(max_c) => new_hue.adjusted_favouring_sum(sum, max_c).is_some(),
                            None => false,
                        }
                    } else if new_hue.sum_and_chroma_prop_are_compatible(sum, c) {
                        true
                    } else {
                        match new_hue.max_chroma_prop_for_sum(sum) {
                            Some(max_c) => {
                                let c0 = if c.0 < max_c.0 {
                                    c
                                } else {
                                    max_c
                                };
                                new_hue.adjusted_favouring_sum(sum, c0).is_some()
                            },
                            None => false,
                        }
                    }
                },
            }
        }
    }

    /// Turns the colour to the hue that a rotation reached: sets the hue by the
    /// rotation policy, then saves the hue that the colour has, if any.
    pub fn turn_to(&mut self, new_hue: Hue) -> (res: bool)
        requires
            manipulator_ok(*old(self)),
            set_hue_ok(*old(self), new_hue, old(self).rotation_policy),
        ensures
            res,
            *final(self) == ({
                let m = spec_set_hue(*old(self), new_hue, old(self).rotation_policy);
                match m.hcv.hue {
                    Some(hue) => ColourManipulator { saved_hue: hue, ..m },
                    None => m,
                }
            }),
            manipulator_ok(*final(self)),
    {
        let policy = self.rotation_policy;
        self.set_hue(new_hue, policy);
        if let Some(hue) = self.hcv.hue() {
            self.saved_hue = hue;
        }
        true
    }
}

/// The settings from which a manipulator is built.
#[derive(Clone, Copy, Debug)]
pub struct ColourManipulatorBuilder {
    pub init_hcv: Option<HCV>,
    pub clamped: bool,
    pub rotation_policy: SetHue,
}

impl ColourManipulatorBuilder {
    /// No initial colour, not clamped, favouring chroma.
    pub fn new() -> (res: ColourManipulatorBuilder)
        ensures
            res == (ColourManipulatorBuilder {
                init_hcv: None,
                clamped: false,
                rotation_policy: SetHue::FavourChroma,
            }),
    {
        ColourManipulatorBuilder {
            init_hcv: None,
            clamped: false,
            rotation_policy: SetHue::FavourChroma,
        }
    }

    /// Sets the initial colour from light levels.
    pub fn init_rgb<L: LightLevel>(&mut self, rgb: &RGB<L>) -> (res: &mut ColourManipulatorBuilder)
        ensures
            *res == (ColourManipulatorBuilder {
                init_hcv: Some(spec_hcv_of(props_of(*rgb))),
                ..*old(self)
            }),
            *final(self) == *final(res),
    {
        self.init_hcv = Some(HCV::from(*rgb));
        self
    }

    /// Sets the initial colour.
    pub fn init_hcv(&mut self, hcv: &HCV) -> (res: &mut ColourManipulatorBuilder)
        ensures
            *res == (ColourManipulatorBuilder { init_hcv: Some(*hcv), ..*old(self) }),
            *final(self) == *final(res),
    {
        self.init_hcv = Some(*hcv);
        self
    }

    /// Sets whether steps clamp.
    pub fn clamped(&mut self, clamped: bool) -> (res: &mut ColourManipulatorBuilder)
        ensures
            *res == (ColourManipulatorBuilder { clamped, ..*old(self) }),
            *final(self) == *final(res),
    {
        self.clamped = clamped;
        self
    }

    /// Sets what to keep when the hue changes.
    pub fn rotation_policy(&mut self, rotation_policy: SetHue) -> (res: &mut ColourManipulatorBuilder)
        ensures
            *res == (ColourManipulatorBuilder { rotation_policy, ..*old(self) }),
            *final(self) == *final(res),
    {
        self.rotation_policy = rotation_policy;
        self
    }

    /// The manipulator: the initial colour (black where none was given), whose hue
    /// (red for a grey) is saved.
    pub fn build(&self) -> (res: ColourManipulator)
        ensures
            ({
                let hcv = match self.init_hcv {
                    Some(hcv) => hcv,
                    None => grey_of_sum(UFDRNumber(0)),
                };
                res == ColourManipulator {
                    hcv,
                    clamped: self.clamped,
                    rotation_policy: self.rotation_policy,
                    saved_hue: match hcv.hue {
                        Some(hue) => hue,
                        None => Hue::Primary(RGBHue::Red),
                    },
                }
            }),
    {
        let hcv = match self.init_hcv {
            Some(init_hcv) => init_hcv,
            None => HCV::default(),
        };
        let saved_hue = match hcv.hue {
            Some(hue) => hue,
            None => Hue::Primary(RGBHue::Red),
        };
        ColourManipulator { hcv, saved_hue, clamped: self.clamped, rotation_policy: self.rotation_policy }
    }
}

/// Stepping a grey's value down by `delta` lowers its value (a third of its sum) by
/// exactly `delta` and keeps it a grey, a change being made where `delta` is not
/// zero; a step of a third of the sum or more gives black.
#[verifier::spinoff_prover]
pub proof fn lemma_grey_value_step_down(m: ColourManipulator, delta: Prop)
    requires
        manipulator_ok(m),
        m.hcv.hue is None,
        m.hcv.sum.0 != 0,
    ensures
        ({
            let (r, outcome) = spec_set_sum(m, sum_decremented(m.hcv.sum, delta), step_policy(m));
            &&& r.hcv.hue is None
            &&& r.hcv.sum.0 % 3 == 0
            &&& 3 * delta.0 < m.hcv.sum.0 ==> r.hcv.sum.0 / 3 == m.hcv.sum.0 / 3 - delta.0
            &&& 3 * delta.0 < m.hcv.sum.0 && delta.0 > 0 ==> made(outcome)
            &&& 3 * delta.0 >= m.hcv.sum.0 ==> r.hcv.sum.0 == 0
        }),
{
    let s = m.hcv.sum.0 as int;
    let d = delta.0 as int;
    let q = s / 3;
    let rem = s % 3;
    vstd::arithmetic::div_mod::lemma_fundamental_div_mod(s, 3);
    vstd::arithmetic::div_mod::lemma_mod_pos_bound(s, 3);
    if 3 * d < s {
        assert(s - 3 * d == 3 * (q - d) + rem);
        vstd::arithmetic::div_mod::lemma_div_multiples_vanish_fancy(q - d, rem, 3);
        assert((s - 3 * d) / 3 == q - d);
        vstd::arithmetic::div_mod::lemma_mod_multiples_basic(q - d, 3);
        assert(((q - d) * 3) % 3 == 0);
    }
}

/// Stepping a grey's value up by `delta` raises its value (a third of its sum) by
/// exactly `delta` and keeps it a grey, where that stays below full value; a larger
/// step gives white.
#[verifier::spinoff_prover]
pub proof fn lemma_grey_value_step_up(m: ColourManipulator, delta: Prop)
    requires
        manipulator_ok(m),
        m.hcv.hue is None,
        m.hcv.sum.0 % 3 == 0,
    ensures
        ({
            let (r, outcome) = spec_set_sum(m, sum_incremented(m.hcv.sum, delta), step_policy(m));
            &&& r.hcv.hue is None
            &&& 3 * delta.0 < 3 * scale() - m.hcv.sum.0 ==> r.hcv.sum.0 / 3 == m.hcv.sum.0 / 3 + delta.0
            &&& 3 * delta.0 < 3 * scale() - m.hcv.sum.0 && delta.0 > 0 ==> made(outcome)
            &&& 3 * delta.0 >= 3 * scale() - m.hcv.sum.0 ==> r.hcv.sum.0 == 3 * scale()
        }),
{
    let s = m.hcv.sum.0 as int;
    let d = delta.0 as int;
    let q = s / 3;
    vstd::arithmetic::div_mod::lemma_fundamental_div_mod(s, 3);
    assert(s == 3 * q);
    if 3 * d < 3 * scale() - s {
        assert(s + 3 * d == 3 * (q + d));
        vstd::arithmetic::div_mod::lemma_div_multiples_vanish(q + d, 3);
        assert((s + 3 * d) / 3 == q + d);
        assert(q + d < scale());
    } else {
        vstd::arithmetic::div_mod::lemma_div_multiples_vanish(scale(), 3);
    }
}

/// For a grey whose value steps stay within black and white, stepping the value up
/// by `delta` and then down by `delta` gives back the grey.
#[verifier::spinoff_prover]
pub proof fn lemma_grey_value_steps_undo(m: ColourManipulator, delta: Prop)
    requires
        manipulator_ok(m),
        m.hcv.hue is None,
        m.hcv.c_prop.0 == 0,
        m.hcv.sum.0 % 3 == 0,
        delta.0 > 0,
        3 * delta.0 < 3 * scale() - m.hcv.sum.0,
    ensures
        ({
            let (up, _) = spec_set_sum(m, sum_incremented(m.hcv.sum, delta), step_policy(m));
            let (down, _) = spec_set_sum(up, sum_decremented(up.hcv.sum, delta), step_policy(up));
            down.hcv == m.hcv
        }),
{
    lemma_grey_value_step_up(m, delta);
    let (up, _) = spec_set_sum(m, sum_incremented(m.hcv.sum, delta), step_policy(m));
    let s = m.hcv.sum.0 as int;
    let d = delta.0 as int;
    vstd::arithmetic::div_mod::lemma_fundamental_div_mod(s, 3);
    assert(up.hcv.sum.0 == s + 3 * d);
    lemma_grey_value_step_down(up, delta);
    assert(s - 0 == 3 * (s / 3));
    vstd::arithmetic::div_mod::lemma_div_multiples_vanish(s / 3, 3);
}

} // verus!
