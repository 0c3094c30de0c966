//! Height ranges and the proving strategy each one calls for.

use crate::config::ChainConfig;
use crate::error::ServiceError;
use crate::error::ValidationError;
use vstd::prelude::*;

verus! {

/// How a target header is proved from a trusted one.
#[derive(Clone, Copy, Debug, PartialEq, Eq, Structural)]
pub enum Strategy {
    /// The target block directly follows the trusted block.
    Step,
    /// The target block lies several heights above the trusted block.
    Skip,
}

/// What becomes of a pair of heights under a skip bound: the first rule it
/// breaks, if any.
pub open spec fn check_heights(
    trusted_height: u64,
    target_height: u64,
    skip_max: u64,
) -> Result<(), ValidationError> {
    if target_height <= trusted_height {
        Err(ValidationError::TargetNotAboveTrusted)
    } else if target_height - trusted_height > skip_max {
        Err(ValidationError::RangeTooLarge)
    } else {
        Ok(())
    }
}

/// The strategy for a height difference: `Step` for adjacent blocks, `Skip`
/// for every other difference.
pub open spec fn strategy_for(trusted_height: u64, target_height: u64) -> Strategy {
    if target_height - trusted_height == 1 {
        Strategy::Step
    } else {
        Strategy::Skip
    }
}

/// Validation, then strategy selection, then the check that the selected
/// strategy exists in this deployment.
pub open spec fn selection(
    trusted_height: u64,
    target_height: u64,
    skip_max: u64,
    step_enabled: bool,
) -> Result<Strategy, ServiceError> {
    match check_heights(trusted_height, target_height, skip_max) {
        Err(e) => Err(ServiceError::Validation(e)),
        Ok(_) => match strategy_for(trusted_height, target_height) {
            Strategy::Step => if step_enabled {
                Ok(Strategy::Step)
            } else {
                Err(ServiceError::StepNotEnabled)
            },
            Strategy::Skip => Ok(Strategy::Skip),
        },
    }
}

/// A trusted height and a target height above it, no further apart than the
/// bound the pair was validated against.
///
/// A value is made by [`HeightRange::new`] alone and never changes.
#[derive(Clone, Copy, Debug, PartialEq, Eq, Structural)]
pub struct HeightRange {
    trusted_height: u64,
    target_height: u64,
    skip_max: u64,
}

impl HeightRange {
    /// The height whose header is already trusted.
    pub closed spec fn trusted(self) -> u64 {
        self.trusted_height
    }

    /// The height whose header is to be proved.
    pub closed spec fn target(self) -> u64 {
        self.target_height
    }

    /// The bound that the range was validated against.
    pub closed spec fn bound(self) -> u64 {
        self.skip_max
    }

    /// The range is not empty and does not exceed its bound.
    pub open spec fn wf(self) -> bool {
        &&& self.trusted() < self.target()
        &&& self.target() - self.trusted() <= self.bound()
    }

    #[verifier::type_invariant]
    spec fn inv(self) -> bool {
        self.wf()
    }

    /// Validates a pair of heights.  An invalid pair is rejected, never
    /// clamped into range.
    pub fn new(trusted_height: u64, target_height: u64, skip_max: u64) -> (res: Result<
        HeightRange,
        ValidationError,
    >)
        ensures
            match res {
                Ok(range) => {
                    &&& check_heights(trusted_height, target_height, skip_max) is Ok
                    &&& range.trusted() == trusted_height
                    &&& range.target() == target_height
                    &&& range.bound() == skip_max
                    &&& range.wf()
                },
                Err(e) => check_heights(trusted_height, target_height, skip_max) == Err::<
                    (),
                    ValidationError,
                >(e),
            },
    {
        if target_height <= trusted_height {
            Err(ValidationError::TargetNotAboveTrusted)
        } else if target_height - trusted_height > skip_max {
            Err(ValidationError::RangeTooLarge)
        } else {
            Ok(HeightRange { trusted_height, target_height, skip_max })
        }
    }

    pub fn trusted_height(&self) -> (h: u64)
        ensures
            h == self.trusted(),
            self.wf(),
    {
        proof {
            use_type_invariant(self);
        }
        self.trusted_height
    }

    pub fn target_height(&self) -> (h: u64)
        ensures
            h == self.target(),
            self.wf(),
    {
        proof {
            use_type_invariant(self);
        }
        self.target_height
    }

    pub fn skip_max(&self) -> (m: u64)
        ensures
            m == self.bound(),
            self.wf(),
    {
        proof {
            use_type_invariant(self);
        }
        self.skip_max
    }

    /// The strategy that proves this range: `Step` exactly where the target
    /// directly follows the trusted height.
    pub fn strategy(&self) -> (s: Strategy)
        ensures
            s == strategy_for(self.trusted(), self.target()),
            s == Strategy::Step <==> self.target() - self.trusted() == 1,
    {
        proof {
            use_type_invariant(self);
        }
        if self.target_height - self.trusted_height == 1 {
            Strategy::Step
        } else {
            Strategy::Skip
        }
    }
}

/// Validates the heights of a request and selects its strategy.
///
/// The heights are validated first; only a valid range reaches selection.
/// `Step` is selected for adjacent heights and `Skip` otherwise.  Where
/// `Step` is selected but the deployment has no step circuit, the request
/// fails: it does not fall back to `Skip`.
pub fn select(
    trusted_height: u64,
    target_height: u64,
    config: &ChainConfig,
    step_enabled: bool,
) -> (res: Result<(HeightRange, Strategy), ServiceError>)
    ensures
        match res {
            Ok((range, strategy)) => {
                &&& selection(trusted_height, target_height, config.skip_max, step_enabled) == Ok::<
                    Strategy,
                    ServiceError,
                >(strategy)
                &&& range.trusted() == trusted_height
                &&& range.target() == target_height
                &&& range.bound() == config.skip_max
                &&& range.wf()
            },
            Err(e) => selection(trusted_height, target_height, config.skip_max, step_enabled)
                == Err::<Strategy, ServiceError>(e),
        },
{
    match HeightRange::new(trusted_height, target_height, config.skip_max) {
        Err(e) => Err(ServiceError::Validation(e)),
        Ok(range) => match range.strategy() {
            Strategy::Step => if step_enabled {
                Ok((range, Strategy::Step))
            } else {
                Err(ServiceError::StepNotEnabled)
            },
            Strategy::Skip => Ok((range, Strategy::Skip)),
        },
    }
}

/// The strategy that [`select`] selects, without the range.
pub fn select_strategy(
    trusted_height: u64,
    target_height: u64,
    config: &ChainConfig,
    step_enabled: bool,
) -> (res: Result<Strategy, ServiceError>)
    ensures
        res == selection(trusted_height, target_height, config.skip_max, step_enabled),
{
    match select(trusted_height, target_height, config, step_enabled) {
        Ok((_, strategy)) => Ok(strategy),
        Err(e) => Err(e),
    }
}

/// Adjacent heights are proved by `Step`, every other accepted range by
/// `Skip`, and a range that is empty, reversed or longer than `skip_max` is
/// rejected by validation, whatever strategy its difference would call for.
pub proof fn lemma_selection_by_delta(
    trusted_height: u64,
    target_height: u64,
    skip_max: u64,
    step_enabled: bool,
)
    ensures
        target_height - trusted_height == 1 && skip_max >= 1 && step_enabled ==> selection(
            trusted_height,
            target_height,
            skip_max,
            step_enabled,
        ) == Ok::<Strategy, ServiceError>(Strategy::Step),
        target_height - trusted_height == 1 && skip_max >= 1 && !step_enabled ==> selection(
            trusted_height,
            target_height,
            skip_max,
            step_enabled,
        ) == Err::<Strategy, ServiceError>(ServiceError::StepNotEnabled),
        2 <= target_height - trusted_height <= skip_max ==> selection(
            trusted_height,
            target_height,
            skip_max,
            step_enabled,
        ) == Ok::<Strategy, ServiceError>(Strategy::Skip),
        target_height - trusted_height <= 0 ==> selection(
            trusted_height,
            target_height,
            skip_max,
            step_enabled,
        ) == Err::<Strategy, ServiceError>(
            ServiceError::Validation(ValidationError::TargetNotAboveTrusted),
        ),
        target_height - trusted_height > skip_max ==> selection(
            trusted_height,
            target_height,
            skip_max,
            step_enabled,
        ) == Err::<Strategy, ServiceError>(ServiceError::Validation(ValidationError::RangeTooLarge)),
{
}

} // verus!
