//! Shared, reference-counted, read-only access to one configuration record.

use vstd::prelude::*;
use std::rc::Rc;
use crate::config::BufferedConfig;

verus! {

/// Relies on std's Rc::clone: a new handle to the same allocation, by
/// incrementing the reference count; the configuration data is not copied.
#[verifier::external_body]
fn clone_handle(handle: &Rc<BufferedConfig>) -> (r: Rc<BufferedConfig>)
    ensures
        r == *handle,
{
    Rc::clone(handle)
}

/// Consumes a configuration record and puts it behind a shared handle.
///
/// Ownership moves into the handle; every later holder gets read-only access
/// to this one allocation.
pub fn wrap_for_sharing(config: BufferedConfig) -> (handle: Rc<BufferedConfig>)
    ensures
        handle == config,
{
    Rc::new(config)
}

/// A new handle aliasing the same underlying configuration record.
///
/// Only the reference count grows; the record itself is not duplicated,
/// so the cost does not depend on the record's size.
pub fn duplicate_handle(handle: &Rc<BufferedConfig>) -> (r: Rc<BufferedConfig>)
    ensures
        r == *handle,
{
    clone_handle(handle)
}

/// A worker holding one shared handle to the configuration record.
pub struct Worker {
    pub config: Rc<BufferedConfig>,
}

impl Worker {
    /// A worker with its own, independently duplicated handle to the
    /// configuration behind `handle`.
    pub fn new(handle: &Rc<BufferedConfig>) -> (w: Worker)
        ensures
            w.config == *handle,
    {
        Worker { config: duplicate_handle(handle) }
    }
}

/// Builds `count` workers, each holding its own handle to the one
/// configuration record behind `handle`.
pub fn make_workers(handle: &Rc<BufferedConfig>, count: usize) -> (workers: Vec<Worker>)
    ensures
        workers@.len() == count,
        forall|i: int| 0 <= i < count ==> #[trigger] workers@[i].config == *handle,
{
    let mut workers: Vec<Worker> = Vec::new();
    let mut i: usize = 0;
    while i < count
        invariant
            i <= count,
            workers@.len() == i,
            forall|k: int| 0 <= k < i ==> #[trigger] workers@[k].config == *handle,
        decreases count - i,
    {
        workers.push(Worker::new(handle));
        i = i + 1;
    }
    workers
}

/// Workers built over one handle observe identical configuration data:
/// structural equality of their configurations holds pairwise.
pub proof fn lemma_workers_alias_pairwise(workers: Seq<Worker>, handle: Rc<BufferedConfig>)
    requires
        forall|i: int| 0 <= i < workers.len() ==> #[trigger] workers[i].config == handle,
    ensures
        forall|i: int, j: int|
            0 <= i < workers.len() && 0 <= j < workers.len() ==> #[trigger] workers[i].config
                == #[trigger] workers[j].config,
{
}

} // verus!
