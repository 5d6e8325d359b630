//! Addresses, and the approvals that accompany an invocation.

use vstd::prelude::*;
use vstd::std_specs::cmp::PartialEqSpecImpl;

verus! {

/// What identifies an address in contracts: the characters of its text form.
pub type AddressId = Seq<char>;

/// The address of an account or of a contract, held in its text form.
///
/// Two addresses are the same address when their texts are equal.
#[derive(Debug)]
pub struct Address {
    text: String,
}

impl View for Address {
    type V = Seq<char>;

    closed spec fn view(&self) -> Seq<char> {
        self.text@
    }
}

impl Address {
    /// The address with the given text form.
    pub fn from_str(text: &str) -> (r: Address)
        ensures
            r@ == text@,
    {
        Address { text: text.to_owned() }
    }

    /// The text form of the address.
    pub fn as_str(&self) -> (r: &str)
        ensures
            r@ == self@,
    {
        self.text.as_str()
    }
}

impl Clone for Address {
    fn clone(&self) -> (r: Self)
        ensures
            r == *self,
    {
        Address { text: self.text.clone() }
    }
}

impl PartialEq for Address {
    fn eq(&self, other: &Self) -> (r: bool) {
        self.text == other.text
    }
}

impl PartialEqSpecImpl for Address {
    open spec fn obeys_eq_spec() -> bool {
        true
    }

    open spec fn eq_spec(&self, other: &Self) -> bool {
        self@ == other@
    }
}

impl Eq for Address {

}

/// The addresses that have approved the current invocation.
///
/// An entry point that needs the approval of an address looks it up here. The
/// same approvals accompany a call that the entry point makes into another
/// contract.
#[derive(Debug)]
pub struct Auth {
    approvers: Vec<Address>,
}

impl View for Auth {
    type V = Set<Seq<char>>;

    closed spec fn view(&self) -> Set<Seq<char>> {
        Set::new(
            |id: Seq<char>|
                exists|i: int| 0 <= i < self.approvers@.len() && (#[trigger] self.approvers@[i])@ == id,
        )
    }
}

impl Auth {
    /// The approvals of nobody.
    pub fn none() -> (r: Auth)
        ensures
            r@ == Set::<Seq<char>>::empty(),
    {
        let r = Auth { approvers: Vec::new() };
        assert(r@ =~= Set::<Seq<char>>::empty());
        r
    }

    /// The approval of one address.
    pub fn of(who: &Address) -> (r: Auth)
        ensures
            r@ == Set::<Seq<char>>::empty().insert(who@),
    {
        Auth::none().and(who)
    }

    /// These approvals together with that of `who`.
    pub fn and(self, who: &Address) -> (r: Auth)
        ensures
            r@ == self@.insert(who@),
    {
        let ghost before = self.approvers@;
        let mut approvers = self.approvers;
        approvers.push(who.clone());
        let r = Auth { approvers };
        proof {
            assert forall|id: Seq<char>| r@.contains(id) <==> self@.insert(who@).contains(id) by {
                if r@.contains(id) {
                    let i = choose|i: int|
                        0 <= i < r.approvers@.len() && (#[trigger] r.approvers@[i])@ == id;
                    if i < before.len() {
                        assert(before[i]@ == id);
                    }
                }
                if self@.contains(id) {
                    let i = choose|i: int|
                        0 <= i < before.len() && (#[trigger] before[i])@ == id;
                    assert(r.approvers@[i]@ == id);
                }
                if id == who@ {
                    assert(r.approvers@[before.len() as int]@ == id);
                }
            }
            assert(r@ =~= self@.insert(who@));
        }
        r
    }

    /// Whether `who` has approved the invocation.
    pub fn includes(&self, who: &Address) -> (r: bool)
        ensures
            r == self@.contains(who@),
    {
        let mut i: usize = 0;
        while i < self.approvers.len()
            invariant
                i <= self.approvers@.len(),
                forall|j: int| 0 <= j < i ==> (#[trigger] self.approvers@[j])@ != who@,
            decreases self.approvers@.len() - i,
        {
            if self.approvers[i] == *who {
                return true;
            }
            i += 1;
        }
        false
    }
}

} // verus!
