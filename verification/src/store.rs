//! The result store: outputs of finished jobs, keyed by request id, each
//! handed out once.
use std::collections::HashMap;
use vstd::prelude::*;

verus! {

/// What a lookup of `id` in the results `held` gives: the output stored
/// under that id, if there is one.
pub open spec fn lookup<B>(held: Map<usize, B>, id: usize) -> Option<B> {
    if held.contains_key(id) {
        Some(held[id])
    } else {
        None
    }
}

/// The outputs of finished jobs that nobody has taken yet.
#[verifier::reject_recursive_types(B)]
pub struct ResultStore<B> {
    entries: HashMap<usize, B>,
}

impl<B> View for ResultStore<B> {
    type V = Map<usize, B>;

    closed spec fn view(&self) -> Map<usize, B> {
        self.entries@
    }
}

impl<B> ResultStore<B> {
    /// A store that holds nothing.
    pub fn new() -> (store: ResultStore<B>)
        ensures
            store@ == Map::<usize, B>::empty(),
    {
        ResultStore { entries: HashMap::new() }
    }

    /// Records `output` as the result of request `id`. An output already
    /// held under that id is replaced and returned, not dropped.
    pub fn insert(&mut self, id: usize, output: B) -> (replaced: Option<B>)
        ensures
            final(self)@ == old(self)@.insert(id, output),
            replaced == lookup(old(self)@, id),
    {
        broadcast use vstd::std_specs::hash::group_hash_axioms;

        self.entries.insert(id, output)
    }

    /// Removes and returns the output of request `id`. Gives `None`, and
    /// leaves the store as it is, when nothing is held under that id: the job
    /// has not finished, the id was never issued, or the output was taken
    /// before.
    pub fn take(&mut self, id: usize) -> (output: Option<B>)
        ensures
            output == lookup(old(self)@, id),
            final(self)@ == old(self)@.remove(id),
    {
        broadcast use vstd::std_specs::hash::group_hash_axioms;

        self.entries.remove(&id)
    }

    /// The number of outputs that wait to be taken.
    pub fn len(&self) -> (count: usize)
        ensures
            count == self@.len(),
    {
        self.entries.len()
    }
}

/// The result of a job is taken exactly once: absent before the job has
/// stored it, present with the stored output afterwards, and absent again
/// once it was taken.
pub proof fn law_result_taken_exactly_once<B>(held: Map<usize, B>, id: usize, output: B)
    requires
        !held.contains_key(id),
    ensures
        lookup(held, id) is None,
        lookup(held.insert(id, output), id) == Some(output),
        lookup(held.insert(id, output).remove(id), id) is None,
        held.insert(id, output).remove(id) == held,
{
    assert(held.insert(id, output).remove(id) =~= held);
}

/// Taking an id that the store does not hold gives nothing and changes
/// nothing, and no id is held any more once it was taken.
pub proof fn law_absent_id_gives_nothing<B>(held: Map<usize, B>, id: usize)
    ensures
        !held.contains_key(id) ==> lookup(held, id) is None && held.remove(id) == held,
        lookup(held.remove(id), id) is None,
{
    if !held.contains_key(id) {
        assert(held.remove(id) =~= held);
    }
}

/// Storing or taking the result of one request leaves the results of every
/// other request as they were.
pub proof fn law_other_results_untouched<B>(held: Map<usize, B>, id: usize, other: usize, output: B)
    requires
        id != other,
    ensures
        lookup(held.insert(id, output), other) == lookup(held, other),
        lookup(held.remove(id), other) == lookup(held, other),
{
}

} // verus!
