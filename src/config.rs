//! Detection settings that may change at any time while audio is analysed:
//! whether detection is enabled and how far above the rolling average a
//! buffer's energy must rise to count as a beat.
use vstd::prelude::*;

verus! {

/// Sensitivity used when none is given: 1.5, in thousandths.
pub const DEFAULT_SENSITIVITY_PERMILLE: u32 = 1500;

/// Rejected configuration values.
#[derive(Clone, Copy, Debug, PartialEq, Eq, Structural)]
pub enum ConfigError {
    /// A sensitivity of zero: every buffer, or none, would count as a beat.
    InvalidSensitivity,
    /// A rolling window that could hold no energy at all.
    InvalidWindowSize,
}

/// The enable flag and the sensitivity multiplier of the detector.
///
/// The sensitivity is held in thousandths (1500 stands for 1.5) and is
/// always positive.
#[derive(Clone, Copy, Debug)]
pub struct DetectionGate {
    enabled: bool,
    sensitivity_permille: u32,
}

impl DetectionGate {
    #[verifier::type_invariant]
    spec fn positive_sensitivity(self) -> bool {
        self.sensitivity_permille > 0
    }

    /// Whether detection is enabled.
    pub closed spec fn spec_enabled(self) -> bool {
        self.enabled
    }

    /// The sensitivity, in thousandths.
    pub closed spec fn spec_sensitivity(self) -> nat {
        self.sensitivity_permille as nat
    }

    /// Detection enabled, at the default sensitivity of 1.5.
    pub fn new() -> (g: DetectionGate)
        ensures
            g.spec_enabled(),
            g.spec_sensitivity() == DEFAULT_SENSITIVITY_PERMILLE,
    {
        DetectionGate { enabled: true, sensitivity_permille: DEFAULT_SENSITIVITY_PERMILLE }
    }

    /// A gate with the given settings; a sensitivity of zero is rejected.
    pub fn with_settings(enabled: bool, sensitivity_permille: u32) -> (r: Result<
        DetectionGate,
        ConfigError,
    >)
        ensures
            match r {
                Ok(g) => sensitivity_permille > 0 && g.spec_enabled() == enabled
                    && g.spec_sensitivity() == sensitivity_permille,
                Err(e) => sensitivity_permille == 0 && e == ConfigError::InvalidSensitivity,
            },
    {
        if sensitivity_permille == 0 {
            Err(ConfigError::InvalidSensitivity)
        } else {
            Ok(DetectionGate { enabled, sensitivity_permille })
        }
    }

    pub fn is_enabled(&self) -> (r: bool)
        ensures
            r == self.spec_enabled(),
    {
        self.enabled
    }

    /// The sensitivity in thousandths; never zero.
    pub fn sensitivity_permille(&self) -> (r: u32)
        ensures
            r == self.spec_sensitivity(),
            r > 0,
    {
        proof {
            use_type_invariant(self);
        }
        self.sensitivity_permille
    }

    /// Flips the enable flag and returns its new value.
    pub fn toggle(&mut self) -> (r: bool)
        ensures
            r == final(self).spec_enabled(),
            final(self).spec_enabled() == !old(self).spec_enabled(),
            final(self).spec_sensitivity() == old(self).spec_sensitivity(),
    {
        proof {
            use_type_invariant(&*self);
        }
        self.enabled = !self.enabled;
        self.enabled
    }

    pub fn set_enabled(&mut self, enabled: bool)
        ensures
            final(self).spec_enabled() == enabled,
            final(self).spec_sensitivity() == old(self).spec_sensitivity(),
    {
        proof {
            use_type_invariant(&*self);
        }
        self.enabled = enabled;
    }

    /// Changes the sensitivity. Zero is refused and changes nothing.
    pub fn set_sensitivity(&mut self, sensitivity_permille: u32) -> (r: Result<(), ConfigError>)
        ensures
            match r {
                Ok(()) => sensitivity_permille > 0 && final(self).spec_sensitivity()
                    == sensitivity_permille,
                Err(e) => sensitivity_permille == 0 && e == ConfigError::InvalidSensitivity
                    && *final(self) == *old(self),
            },
            final(self).spec_enabled() == old(self).spec_enabled(),
    {
        if sensitivity_permille == 0 {
            Err(ConfigError::InvalidSensitivity)
        } else {
            self.sensitivity_permille = sensitivity_permille;
            Ok(())
        }
    }
}

} // verus!
