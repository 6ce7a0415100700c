//! The configuration record and the operations that borrow or duplicate it.

use vstd::prelude::*;

verus! {

/// A flat record naming a resource path.
///
/// The path is set at construction and never mutated afterwards: the
/// operations of this crate only borrow, duplicate, move, or share it.
pub struct Config {
    pub path: String,
}

impl Config {
    /// Builds a configuration record owning the given path.
    pub fn new(path: String) -> (c: Config)
        ensures
            c.path@ == path@,
    {
        Config { path }
    }

    /// Deep duplication: an independent copy whose path is character-for-character
    /// the caller's. The caller keeps its own record, untouched.
    pub fn duplicate(&self) -> (c: Config)
        ensures
            c.path@ == self.path@,
    {
        Config { path: self.path.clone() }
    }
}

/// A configuration record that also carries a large, pre-sized buffer,
/// to show that allocation metadata survives a move of the record.
pub struct BufferedConfig {
    pub path: String,
    pub very_long_vector: Vec<u64>,
}

/// Relies on std's Vec::capacity: the number of elements the vector can hold
/// without reallocating, which is at least its current length.
#[verifier::external_body]
fn vec_capacity(buffer: &Vec<u64>) -> (c: usize)
    ensures
        c >= buffer@.len(),
{
    buffer.capacity()
}

/// Element-for-element comparison of two buffers.
fn buffers_equal(a: &Vec<u64>, b: &Vec<u64>) -> (r: bool)
    ensures
        r == (a@ == b@),
{
    if a.len() != b.len() {
        return false;
    }
    let n: usize = a.len();
    let mut i: usize = 0;
    while i < n
        invariant
            n == a@.len(),
            n == b@.len(),
            i <= n,
            forall|k: int| 0 <= k < i ==> a@[k] == b@[k],
        decreases n - i,
    {
        if a[i] != b[i] {
            return false;
        }
        i = i + 1;
    }
    proof {
        assert(a@ =~= b@);
    }
    true
}

impl BufferedConfig {
    /// Builds a record whose buffer starts empty with room reserved for
    /// `reserve` elements.
    pub fn new(path: String, reserve: usize) -> (c: BufferedConfig)
        ensures
            c.path@ == path@,
            c.very_long_vector@ == Seq::<u64>::empty(),
    {
        BufferedConfig { path, very_long_vector: Vec::with_capacity(reserve) }
    }

    /// How many elements the buffer can hold without reallocating;
    /// never less than what it currently holds.
    pub fn capacity(&self) -> (c: usize)
        ensures
            c >= self.very_long_vector@.len(),
    {
        vec_capacity(&self.very_long_vector)
    }
}

impl PartialEq for BufferedConfig {
    fn eq(&self, other: &BufferedConfig) -> (r: bool) {
        self.path == other.path && buffers_equal(&self.very_long_vector, &other.very_long_vector)
    }
}

impl vstd::std_specs::cmp::PartialEqSpecImpl for BufferedConfig {
    open spec fn obeys_eq_spec() -> bool {
        true
    }

    open spec fn eq_spec(&self, other: &BufferedConfig) -> bool {
        self.path@ == other.path@ && self.very_long_vector@ == other.very_long_vector@
    }
}

/// A configuration is valid exactly when its path is non-empty.
///
/// The record is only borrowed: the caller's ownership is untouched.
pub fn is_valid_config(config: &Config) -> (valid: bool)
    ensures
        valid == (config.path@.len() > 0),
{
    !config.path.as_str().is_empty()
}

} // verus!
