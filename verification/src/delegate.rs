//! Ticking collections: values that advance once per frame, gathered so a
//! whole list can be advanced with one call.

use vstd::prelude::*;

use crate::types::TimeDelta;

verus! {

/// A value that advances once per tick. Implementors describe in `ticked`
/// how one tick may change them; `tick` is then held to it.
pub trait Tickable: Sized {
    /// How one tick relates the value before it to the value after it.
    /// Implementors override this to say what their `tick` guarantees.
    open spec fn ticked(pre: Self, post: Self, dt: TimeDelta) -> bool {
        true
    }

    fn tick(&mut self, dt: TimeDelta)
        ensures
            Self::ticked(*old(self), *final(self), dt),
    ;
}

/// A list of tickable values of one type.
pub struct Ticklist<T> {
    pub ts: Vec<T>,
}

impl<T: Tickable> Ticklist<T> {
    /// Tick every value once, in order.
    pub fn tick_all(&mut self, dt: TimeDelta)
        ensures
            final(self).ts@.len() == old(self).ts@.len(),
            forall|i: int|
                0 <= i < old(self).ts@.len() ==> T::ticked(
                    old(self).ts@[i],
                    #[trigger] final(self).ts@[i],
                    dt,
                ),
    {
        let ghost ts0 = self.ts@;
        let mut i: usize = 0;
        while i < self.ts.len()
            invariant
                i <= ts0.len(),
                self.ts@.len() == ts0.len(),
                forall|j: int| 0 <= j < i ==> T::ticked(ts0[j], #[trigger] self.ts@[j], dt),
                forall|j: int| i <= j < ts0.len() ==> #[trigger] self.ts@[j] == ts0[j],
            decreases ts0.len() - i,
        {
            let t = &mut self.ts[i];
            t.tick(dt);
            i = i + 1;
        }
    }

    /// A list holding just `t`.
    pub fn from(t: T) -> (r: Ticklist<T>)
        ensures
            r.ts@ == seq![t],
    {
        let mut ts = Vec::new();
        ts.push(t);
        proof {
            assert(ts@ =~= seq![t]);
        }
        Ticklist { ts }
    }

    pub fn add(&mut self, t: T)
        ensures
            final(self).ts@ == old(self).ts@.push(t),
    {
        self.ts.push(t)
    }
}

} // verus!
