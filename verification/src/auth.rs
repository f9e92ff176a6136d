use vstd::prelude::*;
use crate::address::Address;

verus! {

/// The parties that have authorized the operation at hand.
pub struct Auth {
    pub signers: Vec<Address>,
}

/// Whether `who` is one of `signers`.
pub open spec fn signed_by(signers: Seq<Address>, who: Seq<u8>) -> bool {
    exists|i: int| 0 <= i < signers.len() && #[trigger] signers[i]@ == who
}

impl View for Auth {
    type V = Set<Seq<u8>>;

    open spec fn view(&self) -> Set<Seq<u8>> {
        Set::new(|who: Seq<u8>| signed_by(self.signers@, who))
    }
}

impl Auth {
    /// Nobody has authorized.
    pub fn none() -> (auth: Auth)
        ensures
            auth@ == Set::<Seq<u8>>::empty(),
    {
        let auth = Auth { signers: Vec::new() };
        assert(auth@ =~= Set::<Seq<u8>>::empty());
        auth
    }

    /// Only `who` has authorized.
    pub fn only(who: Address) -> (auth: Auth)
        ensures
            auth@ == Set::<Seq<u8>>::empty().insert(who@),
    {
        let mut auth = Auth::none();
        auth.approve(who);
        auth
    }

    /// Adds `who` to the parties that have authorized.
    pub fn approve(&mut self, who: Address)
        ensures
            final(self)@ == old(self)@.insert(who@),
    {
        let ghost before = self.signers@;
        self.signers.push(who);
        proof {
            let after = self.signers@;
            assert(after[before.len() as int]@ == who@);
            assert forall|other: Seq<u8>| signed_by(after, other) == (other == who@ || signed_by(
                before,
                other,
            )) by {
                if signed_by(after, other) {
                    let i = choose|i: int| 0 <= i < after.len() && #[trigger] after[i]@ == other;
                    if i < before.len() {
                        assert(before[i]@ == other);
                    }
                }
                if signed_by(before, other) {
                    let i = choose|i: int| 0 <= i < before.len() && #[trigger] before[i]@ == other;
                    assert(after[i]@ == other);
                }
            }
            assert(self@ =~= old(self)@.insert(who@));
        }
    }

    /// Whether `who` has authorized.
    pub fn has(&self, who: &Address) -> (authorized: bool)
        ensures
            authorized == self@.contains(who@),
    {
        let mut i: usize = 0;
        while i < self.signers.len()
            invariant
                i <= self.signers@.len(),
                forall|j: int| 0 <= j < i ==> #[trigger] self.signers@[j]@ != who@,
            decreases self.signers@.len() - i,
        {
            if self.signers[i].same(who) {
                return true;
            }
            i += 1;
        }
        false
    }
}

} // verus!
