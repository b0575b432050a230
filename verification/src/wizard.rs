//! Step-by-step calibration wizard state machine.
//!
//! The rendering of the wizard belongs to the surrounding user interface;
//! this module holds the wizard's state and its transitions.

use vstd::prelude::*;

verus! {

/// Calibration wizard steps.
#[derive(Debug, Clone, Copy, PartialEq, Eq, Structural)]
pub enum CalibrationStep {
    /// Step 1: rotate the dial to the calibration position.
    RotateDial,
    /// Step 2: place the device on the white tile.
    PlaceOnTile,
    /// Step 3: performing calibration.
    Calibrating,
    /// Step 4: calibration complete.
    Complete,
}

/// Calibration wizard state.
#[derive(Debug, Clone, Copy, PartialEq, Eq, Structural)]
pub struct CalibrationWizard {
    /// Whether the wizard modal is visible.
    pub show: bool,
    /// Current step in the calibration process.
    pub step: CalibrationStep,
}

impl CalibrationWizard {
    /// A fresh, hidden wizard at the first step.
    pub fn new() -> (r: Self)
        ensures
            r == (CalibrationWizard { show: false, step: CalibrationStep::RotateDial }),
    {
        CalibrationWizard { show: false, step: CalibrationStep::RotateDial }
    }

    /// Start the calibration wizard from the beginning.
    pub fn start(&mut self)
        ensures
            *final(self) == (CalibrationWizard { show: true, step: CalibrationStep::RotateDial }),
    {
        self.show = true;
        self.step = CalibrationStep::RotateDial;
    }

    /// Close the wizard and reset its state.
    pub fn close(&mut self)
        ensures
            *final(self) == (CalibrationWizard { show: false, step: CalibrationStep::RotateDial }),
    {
        self.show = false;
        self.step = CalibrationStep::RotateDial;
    }

    /// Called when calibration completes successfully: jump to the final
    /// step, keeping the wizard's visibility as it is.
    pub fn on_calibration_success(&mut self)
        ensures
            *final(self) == (CalibrationWizard {
                show: old(self).show,
                step: CalibrationStep::Complete,
            }),
    {
        self.step = CalibrationStep::Complete;
    }

    /// Advance to the given step, keeping visibility.
    pub fn advance(&mut self, step: CalibrationStep)
        ensures
            *final(self) == (CalibrationWizard { show: old(self).show, step }),
    {
        self.step = step;
    }
}

impl Default for CalibrationWizard {
    /// The default wizard is hidden at the first step.
    fn default() -> (r: Self)
        ensures
            r == (CalibrationWizard { show: false, step: CalibrationStep::RotateDial }),
    {
        CalibrationWizard { show: false, step: CalibrationStep::RotateDial }
    }
}

} // verus!
