//! Metric batches.
//!
//! Topic: `nexox/up/metrics/<service>/gauge`
use vstd::prelude::*;

use crate::text::{is_non_empty, non_empty};
use crate::validate::PayloadValidation;

verus! {

/// A batch of metric samples from one service.  The sample type is a
/// parameter: a sample's value is a floating-point number, which this
/// library does not hold, and a batch's rule does not read its samples.
#[derive(Debug, Clone)]
pub struct MetricBatch<S> {
    pub service: String,
    pub samples: Vec<S>,
}

impl<S> MetricBatch<S> {
    /// A batch names its service and holds at least one sample.
    pub open spec fn valid(&self) -> bool {
        non_empty(self.service@) && self.samples@.len() > 0
    }
}

impl<S> PayloadValidation for MetricBatch<S> {
    fn is_valid(&self) -> (b: bool)
        ensures
            b == self.valid(),
    {
        is_non_empty(&self.service) && !self.samples.is_empty()
    }
}

/// A batch is valid exactly when it names its service and holds at least
/// one sample, whatever the samples are.
pub proof fn lemma_metric_batch_rule<S>(b: MetricBatch<S>)
    ensures
        b.service@.len() == 0 ==> !b.valid(),
        b.samples@.len() == 0 ==> !b.valid(),
        b.service@.len() > 0 && b.samples@.len() > 0 ==> b.valid(),
{
}

} // verus!
