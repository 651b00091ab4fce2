//! Reconciling the broker's per-topic results into one outcome.
use rdkafka::admin::TopicResult;
use rdkafka::error::RDKafkaErrorCode;
use vstd::prelude::*;

use crate::config::ConfigError;

verus! {

/// A topic that the broker refused, with its reason.
#[derive(Debug)]
pub struct TopicError {
    pub name: String,
    pub reason: RDKafkaErrorCode,
}

/// Why an invocation failed.
#[derive(Debug)]
pub enum KafkaManError {
    /// The command-line values are invalid.
    Config(ConfigError),
    /// No session with the broker could be established.
    Connection(String),
    /// The broker did not answer the request in time.
    RequestTimeout,
    /// The broker refused a topic of the batch.
    Topic(TopicError),
    /// The selected operation is not implemented.
    NotImplemented,
}

/// The outcome of a batch: success when every item succeeded, otherwise the
/// first failing item, in the order the results came.
pub open spec fn reconcile_spec(results: Seq<TopicResult>) -> Result<(), KafkaManError>
    decreases results.len(),
{
    if results.len() == 0 {
        Ok(())
    } else {
        match results[0] {
            Ok(_) => reconcile_spec(results.drop_first()),
            Err((name, reason)) => Err(KafkaManError::Topic(TopicError { name, reason })),
        }
    }
}

proof fn lemma_reconcile_skip_ok(results: Seq<TopicResult>, i: int)
    requires
        0 <= i < results.len(),
        results[i] is Ok,
    ensures
        reconcile_spec(results.skip(i)) == reconcile_spec(results.skip(i + 1)),
{
    assert(results.skip(i).drop_first() =~= results.skip(i + 1));
}

/// Folds the broker's results of one batch into its outcome: `Ok` exactly
/// when every item is `Ok`, otherwise the first failure.
pub fn reconcile(batch: Vec<TopicResult>) -> (r: Result<(), KafkaManError>)
    ensures
        r == reconcile_spec(batch@),
        r is Ok <==> forall|i: int| 0 <= i < batch@.len() ==> (#[trigger] batch@[i]) is Ok,
{
    let ghost all = batch@;
    let mut results = batch;
    let n = results.len();
    let mut i: usize = 0;
    assert(all.skip(0) =~= all);
    while i < n
        invariant
            0 <= i <= n,
            n == all.len(),
            all == batch@,
            results@ == all,
            reconcile_spec(all) == reconcile_spec(all.skip(i as int)),
            forall|j: int| 0 <= j < i ==> (#[trigger] all[j]) is Ok,
        decreases n - i,
    {
        match &results[i] {
            Ok(_) => {
                proof {
                    lemma_reconcile_skip_ok(all, i as int);
                }
                i = i + 1;
            },
            Err(_) => {
                assert(all.skip(i as int)[0] == all[i as int]);
                let item = results.remove(i);
                match item {
                    Ok(_) => {
                        return Ok(());
                    },
                    Err((name, reason)) => {
                        return Err(KafkaManError::Topic(TopicError { name, reason }));
                    },
                }
            },
        }
    }
    assert(all.skip(n as int) =~= Seq::<TopicResult>::empty());
    Ok(())
}

} // verus!
