//! Warnings that reach the user once, however often they are raised.

use vstd::prelude::*;
use vstd::string::*;
use crate::order::{compare, Order};

verus! {

/// The warnings raised so far, each message once, in the order in which they
/// were first raised.
#[derive(Debug)]
pub struct WarningSink {
    seen: Vec<String>,
}

/// `seen` after `warning` was raised: with it at the end where it is new,
/// unchanged where there is none or it was raised before.
pub open spec fn warned(seen: Seq<Seq<char>>, warning: Option<Seq<char>>) -> Seq<Seq<char>> {
    match warning {
        Some(message) if !seen.contains(message) => seen.push(message),
        _ => seen,
    }
}

impl View for WarningSink {
    type V = Seq<Seq<char>>;

    closed spec fn view(&self) -> Seq<Seq<char>> {
        Seq::new(self.seen@.len(), |i: int| self.seen@[i]@)
    }
}

impl WarningSink {
    #[verifier::type_invariant]
    spec fn no_repetition(&self) -> bool {
        self@.no_duplicates()
    }

    /// A sink into which nothing was raised.
    pub fn new() -> (sink: Self)
        ensures
            sink@ == Seq::<Seq<char>>::empty(),
    {
        let sink = WarningSink { seen: Vec::new() };
        assert(sink@ =~= Seq::<Seq<char>>::empty());
        sink
    }

    /// Whether `message` was raised before.
    pub fn contains(&self, message: &str) -> (r: bool)
        ensures
            r == self@.contains(message@),
    {
        let mut i: usize = 0;
        while i < self.seen.len()
            invariant
                i <= self.seen@.len(),
                forall|j: int| 0 <= j < i ==> self@[j] != message@,
            decreases self.seen.len() - i,
        {
            if let Order::Same = compare(message, self.seen[i].as_str()) {
                assert(self@[i as int] == message@);
                return true;
            }
            i = i + 1;
        }
        false
    }

    /// Raises `message`. The answer is whether it is new, and so to be shown.
    pub fn warn_once(&mut self, message: String) -> (fresh: bool)
        ensures
            fresh == !old(self)@.contains(message@),
            final(self)@ == warned(old(self)@, Some(message@)),
            final(self)@.no_duplicates(),
    {
        proof {
            use_type_invariant(&*self);
        }
        if self.contains(message.as_str()) {
            false
        } else {
            let ghost before = self@;
            let mut seen: Vec<String> = Vec::new();
            core::mem::swap(&mut self.seen, &mut seen);
            seen.push(message);
            proof {
                let after = Seq::new(seen@.len(), |i: int| seen@[i]@);
                assert(after =~= before.push(message@));
                lemma_warned_no_duplicates(before, Some(message@));
            }
            self.seen = seen;
            true
        }
    }

    /// How many messages were raised.
    pub fn len(&self) -> (n: usize)
        ensures
            n == self@.len(),
    {
        self.seen.len()
    }

    /// The message that was raised as number `i`, if there were so many.
    pub fn get(&self, i: usize) -> (message: Option<&String>)
        ensures
            message is Some <==> i < self@.len(),
            message matches Some(text) ==> text@ == self@[i as int],
    {
        if i < self.seen.len() {
            Some(&self.seen[i])
        } else {
            None
        }
    }
}

/// A message is never held twice: raising into a sink without repetition
/// leaves it without repetition.
pub proof fn lemma_warned_no_duplicates(seen: Seq<Seq<char>>, warning: Option<Seq<char>>)
    requires
        seen.no_duplicates(),
    ensures
        warned(seen, warning).no_duplicates(),
        warning matches Some(message) ==> warned(seen, warning).contains(message),
        forall|m: Seq<char>| seen.contains(m) ==> warned(seen, warning).contains(m),
{
    let after = warned(seen, warning);
    assert forall|m: Seq<char>| seen.contains(m) implies after.contains(m) by {
        let k = choose|k: int| 0 <= k < seen.len() && seen[k] == m;
        assert(after[k] == m);
    }
    if let Some(message) = warning {
        if !seen.contains(message) {
            assert(after[seen.len() as int] == message);
        }
    }
}

} // verus!
