//! The set of block numbers already rendered, used to process each block at
//! most once.

use vstd::prelude::*;

verus! {

/// The numbers of the blocks already rendered. Grows monotonically; a number
/// is held at most once however often it is submitted.
pub struct KnownBlocks {
    numbers: Vec<u64>,
}

impl View for KnownBlocks {
    type V = Set<u64>;

    closed spec fn view(&self) -> Set<u64> {
        self.numbers@.to_set()
    }
}

impl KnownBlocks {
    #[verifier::type_invariant]
    spec fn inv(self) -> bool {
        self.numbers@.no_duplicates()
    }

    /// An empty set: no block has been rendered yet.
    pub fn new() -> (r: KnownBlocks)
        ensures
            r@ == Set::<u64>::empty(),
    {
        let numbers: Vec<u64> = Vec::new();
        proof {
            assert(numbers@.to_set() =~= Set::<u64>::empty());
        }
        KnownBlocks { numbers }
    }

    /// Whether the block with this number has been rendered already.
    pub fn contains(&self, n: u64) -> (r: bool)
        ensures
            r == self@.contains(n),
    {
        let len: usize = self.numbers.len();
        let mut i: usize = 0;
        while i < len
            invariant
                0 <= i <= len,
                len == self.numbers@.len(),
                forall|j: int| 0 <= j < i ==> self.numbers@[j] != n,
            decreases len - i,
        {
            if self.numbers[i] == n {
                proof {
                    assert(self.numbers@.contains(n));
                }
                return true;
            }
            i = i + 1;
        }
        proof {
            assert(!self.numbers@.contains(n));
        }
        false
    }

    /// Marks the block with this number as rendered. Submitting a number a
    /// second time leaves the set as it is.
    pub fn insert(&mut self, n: u64)
        ensures
            final(self)@ == old(self)@.insert(n),
    {
        proof {
            use_type_invariant(&*self);
        }
        if !self.contains(n) {
            let mut numbers: Vec<u64> = Vec::new();
            std::mem::swap(&mut numbers, &mut self.numbers);
            let ghost before = numbers@;
            proof {
                assert(!before.contains(n));
                before.lemma_push_to_set_commute(n);
            }
            numbers.push(n);
            proof {
                assert(numbers@.no_duplicates());
            }
            self.numbers = numbers;
        } else {
            proof {
                assert(old(self)@.insert(n) =~= old(self)@);
            }
        }
    }
}

} // verus!
