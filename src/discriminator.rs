use vstd::prelude::*;

verus! {

/// A position in the host's component tree: a path of child indices.
///
/// The empty path addresses the host itself or the invoking component,
/// depending on the verb; `[1]` is the master space.
#[derive(Debug, Hash)]
pub struct Discriminator(Vec<u32>);

impl View for Discriminator {
    type V = Seq<u32>;

    closed spec fn view(&self) -> Seq<u32> {
        self.0@
    }
}

impl Discriminator {
    /// Creates a discriminator from a path.
    pub fn new(path: Vec<u32>) -> (r: Self)
        ensures
            r@ == path@,
    {
        Discriminator(path)
    }

    /// The discriminator of the master space, `[1]`.
    pub fn master() -> (r: Self)
        ensures
            r@ == seq![1u32],
    {
        let mut v: Vec<u32> = Vec::new();
        v.push(1);
        Discriminator(v)
    }

    /// The empty discriminator.
    pub fn empty() -> (r: Self)
        ensures
            r@ == Seq::<u32>::empty(),
    {
        Discriminator(Vec::new())
    }

    /// The path of child indices.
    pub fn path(&self) -> (r: &Vec<u32>)
        ensures
            r@ == self@,
    {
        &self.0
    }

}

impl Clone for Discriminator {
    fn clone(&self) -> (r: Self)
        ensures
            r@ == self@,
    {
        let mut v: Vec<u32> = Vec::new();
        let mut i: usize = 0;
        while i < self.0.len()
            invariant
                i <= self.0@.len(),
                v@ == self.0@.subrange(0, i as int),
            decreases self.0@.len() - i,
        {
            v.push(self.0[i]);
            i += 1;
        }
        Discriminator(v)
    }
}

impl Default for Discriminator {
    fn default() -> (r: Self)
        ensures
            r@ == Seq::<u32>::empty(),
    {
        Discriminator::empty()
    }
}

impl PartialEq for Discriminator {
    fn eq(&self, other: &Discriminator) -> (r: bool)
        ensures
            r == (self@ == other@),
    {
        if self.0.len() != other.0.len() {
            return false;
        }
        let mut i: usize = 0;
        while i < self.0.len()
            invariant
                self.0@.len() == other.0@.len(),
                i <= self.0@.len(),
                forall|j: int| 0 <= j < i ==> self.0@[j] == other.0@[j],
            decreases self.0@.len() - i,
        {
            if self.0[i] != other.0[i] {
                return false;
            }
            i += 1;
        }
        assert(self.0@ =~= other.0@);
        true
    }
}

impl Eq for Discriminator {}

impl vstd::std_specs::cmp::PartialEqSpecImpl for Discriminator {
    open spec fn obeys_eq_spec() -> bool {
        true
    }

    open spec fn eq_spec(&self, other: &Discriminator) -> bool {
        self@ == other@
    }
}

} // verus!
