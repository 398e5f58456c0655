//! Loss descriptors. The engine ships one objective, mean-squared error.
use vstd::prelude::*;

verus! {

/// Mean-squared error: the mean of the squared differences between the
/// prediction and the target, with gradient twice their difference.
#[derive(PartialEq, Eq, Structural, Clone, Copy, Debug)]
pub struct MeanSquared {}

impl MeanSquared {
    pub fn new() -> (r: MeanSquared)
        ensures
            r == (MeanSquared {}),
    {
        MeanSquared {}
    }
}

/// The objective of a model: one variant per loss kind.
#[derive(PartialEq, Eq, Structural, Clone, Copy, Debug)]
pub enum LossConfig {
    MeanSquared(MeanSquared),
}

/// The discriminator under which a loss descriptor is persisted.
pub open spec fn loss_tag(l: LossConfig) -> Seq<char> {
    match l {
        LossConfig::MeanSquared(_) => "Mean Squared Loss"@,
    }
}

/// The loss that a persisted discriminator names, if any.
pub open spec fn loss_of_tag(t: Seq<char>) -> Option<LossConfig> {
    if t == "Mean Squared Loss"@ {
        Some(LossConfig::MeanSquared(MeanSquared {}))
    } else {
        None
    }
}

/// Reading back the discriminator written for a loss gives that loss.
pub proof fn lemma_loss_tag_round_trip(l: LossConfig)
    ensures
        loss_of_tag(loss_tag(l)) == Some(l),
{
    match l {
        LossConfig::MeanSquared(m) => {
            assert(m == MeanSquared {});
        },
    }
}

impl LossConfig {
    /// The discriminator written for this loss in a persisted configuration.
    pub fn tag(&self) -> (r: &'static str)
        ensures
            r@ == loss_tag(*self),
    {
        match self {
            LossConfig::MeanSquared(_) => "Mean Squared Loss",
        }
    }

    /// The loss persisted under `tag`, if any is.
    pub fn from_tag(tag: &str) -> (r: Option<LossConfig>)
        ensures
            r == loss_of_tag(tag@),
            match r {
                Some(l) => loss_tag(l) == tag@,
                None => forall|l: LossConfig| loss_tag(l) != tag@,
            },
    {
        if tag.to_owned() == "Mean Squared Loss".to_owned() {
            Some(LossConfig::MeanSquared(MeanSquared::new()))
        } else {
            proof {
                assert forall|l: LossConfig| loss_tag(l) != tag@ by {
                    match l {
                        LossConfig::MeanSquared(m) => {},
                    }
                }
            }
            None
        }
    }
}

} // verus!
