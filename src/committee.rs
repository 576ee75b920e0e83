use crate::error::VerifyError;
use crate::hash::byte_strings;
use std::collections::HashMap;
use vstd::prelude::*;

verus! {

broadcast use vstd::std_specs::hash::group_hash_axioms;

/// The beacon committees by source-chain height. A committee, once
/// registered at a height, is never replaced.
pub struct CommitteeStore {
    committees: HashMap<u64, Vec<Vec<u8>>>,
}

impl View for CommitteeStore {
    type V = Map<u64, Seq<Seq<u8>>>;

    closed spec fn view(&self) -> Map<u64, Seq<Seq<u8>>> {
        Map::new(
            |h: u64| self.committees@.contains_key(h),
            |h: u64| byte_strings(self.committees@[h]@),
        )
    }
}

impl CommitteeStore {
    /// A store with no committee.
    pub fn new() -> (r: CommitteeStore)
        ensures
            r@ == Map::<u64, Seq<Seq<u8>>>::empty(),
    {
        let r = CommitteeStore { committees: HashMap::new() };
        assert(r@ =~= Map::<u64, Seq<Seq<u8>>>::empty());
        r
    }

    /// Registers the public keys of the committee at `height`, in order. Returns
    /// false, and changes nothing, where a committee stands at that height.
    pub fn register(&mut self, height: u64, keys: Vec<Vec<u8>>) -> (r: bool)
        ensures
            r == !old(self)@.contains_key(height),
            r ==> final(self)@ == old(self)@.insert(height, byte_strings(keys@)),
            !r ==> final(self)@ == old(self)@,
    {
        if self.committees.contains_key(&height) {
            return false;
        }
        let ghost keys_view = byte_strings(keys@);
        self.committees.insert(height, keys);
        assert(self@ =~= old(self)@.insert(height, keys_view));
        true
    }

    /// The committee registered at `height`.
    pub fn lookup(&self, height: u64) -> (r: Result<&Vec<Vec<u8>>, VerifyError>)
        ensures
            self@.contains_key(height) <==> r is Ok,
            r matches Ok(c) ==> byte_strings(c@) == self@[height],
            r matches Err(e) ==> e == VerifyError::UnknownCommitteeHeight,
    {
        match self.committees.get(&height) {
            Some(c) => Ok(c),
            None => Err(VerifyError::UnknownCommitteeHeight),
        }
    }
}

} // verus!
