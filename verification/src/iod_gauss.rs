//! Result of one Gauss-method orbit solve: a refinement stage tag around one
//! of the three element representations.

use vstd::prelude::*;

use crate::elements::{CometaryElements, EquinoctialElements, KeplerianElements};

verus! {

/// One orbit in whichever representation the solver produced.
#[derive(Clone, Copy, Debug, PartialEq, Eq, Structural)]
pub enum OrbitalElements {
    Keplerian(KeplerianElements),
    Equinoctial(EquinoctialElements),
    Cometary(CometaryElements),
}

/// A solved orbit together with its refinement stage: `PrelimOrbit` is the
/// direct output of the Gauss triangulation, `CorrectedOrbit` the result of
/// the solver's iterative refinement pass.
#[derive(Clone, Copy, Debug, PartialEq, Eq, Structural)]
pub enum GaussResult {
    PrelimOrbit(OrbitalElements),
    CorrectedOrbit(OrbitalElements),
}

impl GaussResult {
    /// The elements carried, whatever the stage.
    pub open spec fn spec_elements(self) -> OrbitalElements {
        match self {
            GaussResult::PrelimOrbit(e) => e,
            GaussResult::CorrectedOrbit(e) => e,
        }
    }

    /// Wrap elements under the requested stage tag.
    pub open spec fn spec_new(elements: OrbitalElements, corrected: bool) -> GaussResult {
        if corrected {
            GaussResult::CorrectedOrbit(elements)
        } else {
            GaussResult::PrelimOrbit(elements)
        }
    }

    /// Build a result from Keplerian elements; `corrected` of `Some(true)`
    /// tags it as a corrected-stage orbit, anything else as preliminary.
    pub fn from_keplerian(keplerian: KeplerianElements, corrected: Option<bool>) -> (r:
        GaussResult)
        ensures
            r == GaussResult::spec_new(
                OrbitalElements::Keplerian(keplerian),
                corrected == Some(true),
            ),
    {
        let elems = OrbitalElements::Keplerian(keplerian);
        if corrected.unwrap_or(false) {
            GaussResult::CorrectedOrbit(elems)
        } else {
            GaussResult::PrelimOrbit(elems)
        }
    }

    /// Build a result from equinoctial elements; `corrected` of `Some(true)`
    /// tags it as a corrected-stage orbit, anything else as preliminary.
    pub fn from_equinoctial(equinoctial: EquinoctialElements, corrected: Option<bool>) -> (r:
        GaussResult)
        ensures
            r == GaussResult::spec_new(
                OrbitalElements::Equinoctial(equinoctial),
                corrected == Some(true),
            ),
    {
        let elems = OrbitalElements::Equinoctial(equinoctial);
        if corrected.unwrap_or(false) {
            GaussResult::CorrectedOrbit(elems)
        } else {
            GaussResult::PrelimOrbit(elems)
        }
    }

    /// Build a result from cometary elements; `corrected` of `Some(true)`
    /// tags it as a corrected-stage orbit, anything else as preliminary.
    pub fn from_cometary(cometary: CometaryElements, corrected: Option<bool>) -> (r: GaussResult)
        ensures
            r == GaussResult::spec_new(
                OrbitalElements::Cometary(cometary),
                corrected == Some(true),
            ),
    {
        let elems = OrbitalElements::Cometary(cometary);
        if corrected.unwrap_or(false) {
            GaussResult::CorrectedOrbit(elems)
        } else {
            GaussResult::PrelimOrbit(elems)
        }
    }

    /// Whether the result includes the post-Gauss correction step.
    pub fn is_corrected(&self) -> (r: bool)
        ensures
            r == (self is CorrectedOrbit),
    {
        match self {
            GaussResult::CorrectedOrbit(_) => true,
            GaussResult::PrelimOrbit(_) => false,
        }
    }

    /// Whether this is a preliminary Gauss solution, before corrections.
    pub fn is_preliminary(&self) -> (r: bool)
        ensures
            r == (self is PrelimOrbit),
    {
        match self {
            GaussResult::PrelimOrbit(_) => true,
            GaussResult::CorrectedOrbit(_) => false,
        }
    }

    /// The element family carried inside, as a label.
    pub fn elements_type(&self) -> (r: &'static str)
        ensures
            self.spec_elements() is Keplerian ==> r@ == "keplerian"@,
            self.spec_elements() is Equinoctial ==> r@ == "equinoctial"@,
            self.spec_elements() is Cometary ==> r@ == "cometary"@,
    {
        let elems = match self {
            GaussResult::PrelimOrbit(e) => e,
            GaussResult::CorrectedOrbit(e) => e,
        };
        match elems {
            OrbitalElements::Keplerian(_) => "keplerian",
            OrbitalElements::Equinoctial(_) => "equinoctial",
            OrbitalElements::Cometary(_) => "cometary",
        }
    }

    /// The refinement stage, as a label.
    pub fn stage_label(&self) -> (r: &'static str)
        ensures
            self is PrelimOrbit ==> r@ == "preliminary"@,
            self is CorrectedOrbit ==> r@ == "corrected"@,
    {
        match self {
            GaussResult::PrelimOrbit(_) => "preliminary",
            GaussResult::CorrectedOrbit(_) => "corrected",
        }
    }

    /// The Keplerian elements if that is the carried family, else `None`.
    pub fn keplerian(&self) -> (r: Option<KeplerianElements>)
        ensures
            r == (match self.spec_elements() {
                OrbitalElements::Keplerian(k) => Some(k),
                _ => None::<KeplerianElements>,
            }),
    {
        let elems = match self {
            GaussResult::PrelimOrbit(e) => e,
            GaussResult::CorrectedOrbit(e) => e,
        };
        match elems {
            OrbitalElements::Keplerian(k) => Some(*k),
            _ => None,
        }
    }

    /// The equinoctial elements if that is the carried family, else `None`.
    pub fn equinoctial(&self) -> (r: Option<EquinoctialElements>)
        ensures
            r == (match self.spec_elements() {
                OrbitalElements::Equinoctial(q) => Some(q),
                _ => None::<EquinoctialElements>,
            }),
    {
        let elems = match self {
            GaussResult::PrelimOrbit(e) => e,
            GaussResult::CorrectedOrbit(e) => e,
        };
        match elems {
            OrbitalElements::Equinoctial(q) => Some(*q),
            _ => None,
        }
    }

    /// The cometary elements if that is the carried family, else `None`.
    pub fn cometary(&self) -> (r: Option<CometaryElements>)
        ensures
            r == (match self.spec_elements() {
                OrbitalElements::Cometary(c) => Some(c),
                _ => None::<CometaryElements>,
            }),
    {
        let elems = match self {
            GaussResult::PrelimOrbit(e) => e,
            GaussResult::CorrectedOrbit(e) => e,
        };
        match elems {
            OrbitalElements::Cometary(c) => Some(*c),
            _ => None,
        }
    }

    /// The elements carried, whatever the stage.
    pub fn elements(&self) -> (r: &OrbitalElements)
        ensures
            *r == self.spec_elements(),
    {
        match self {
            GaussResult::PrelimOrbit(e) => e,
            GaussResult::CorrectedOrbit(e) => e,
        }
    }
}

} // verus!
