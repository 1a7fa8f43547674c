//! Hand-rolled iteration: a bounded counter, filtering shoes by size, and a
//! memoizing wrapper around a caller-supplied calculation.

use vstd::prelude::*;

verus! {

/// A minimal iteration interface; library users implement it.
pub trait MyIterator {
    /// What the iteration yields.
    type Item;

    /// The next element, or `None` when the iteration is over.
    fn next(&mut self) -> Option<Self::Item>;
}

/// A shoe with a size and a style name.
#[derive(PartialEq, Debug)]
pub struct Shoe {
    /// Size of the shoe.
    pub size: u32,
    /// Name of the style.
    pub style: String,
}

/// The shoes among `shoes` of exactly the given size, in order.
pub open spec fn shoes_of_size(shoes: Seq<Shoe>, shoe_size: u32) -> Seq<Shoe>
    decreases shoes.len(),
{
    if shoes.len() == 0 {
        Seq::empty()
    } else if shoes[0].size == shoe_size {
        seq![shoes[0]] + shoes_of_size(shoes.drop_first(), shoe_size)
    } else {
        shoes_of_size(shoes.drop_first(), shoe_size)
    }
}

/// Keeps the shoes of the given size, in their original order.
pub fn shoes_in_my_size(shoes: Vec<Shoe>, shoe_size: u32) -> (r: Vec<Shoe>)
    ensures
        r@ =~= shoes_of_size(shoes@, shoe_size),
{
    let mut shoes = shoes;
    let ghost orig = shoes@;
    let mut r: Vec<Shoe> = Vec::new();
    while shoes.len() > 0
        invariant
            r@ + shoes_of_size(shoes@, shoe_size) =~= shoes_of_size(orig, shoe_size),
        decreases shoes@.len(),
    {
        let ghost before = shoes@;
        let s = shoes.remove(0);
        proof {
            assert(shoes@ =~= before.drop_first());
        }
        if s.size == shoe_size {
            r.push(s);
        }
    }
    r
}

/// Counts from one to five, then stops.
pub struct Counter {
    count: u32,
}

impl Counter {
    /// How many times `next` has been called.
    pub closed spec fn spec_count(&self) -> u32 {
        self.count
    }

    /// A counter that has not yet produced anything.
    pub fn new() -> (c: Counter)
        ensures
            c.spec_count() == 0,
    {
        Counter { count: 0 }
    }

    /// Advances the counter: the first five calls yield one to five, every
    /// later call yields nothing.
    pub fn next(&mut self) -> (r: Option<u32>)
        requires
            old(self).spec_count() < u32::MAX,
        ensures
            final(self).spec_count() == old(self).spec_count() + 1,
            r == if old(self).spec_count() + 1 < 6 {
                Some((old(self).spec_count() + 1) as u32)
            } else {
                Option::<u32>::None
            },
    {
        self.count = self.count + 1;
        if self.count < 6 {
            Some(self.count)
        } else {
            None
        }
    }
}

/// Remembers what a calculation returned, so that asking again for an
/// argument already seen runs no second call.
pub struct Cacher<T: Fn(u32) -> u32> {
    calculation: T,
    memo: Vec<(u32, u32)>,
}

impl<T: Fn(u32) -> u32> Cacher<T> {
    /// The wrapped calculation.
    pub closed spec fn spec_calculation(&self) -> T {
        self.calculation
    }

    /// Every remembered pair is a genuine input-output pair of the
    /// calculation.
    pub closed spec fn wf(&self) -> bool {
        forall|i: int|
            0 <= i < self.memo@.len() ==> call_ensures(
                self.calculation,
                ((#[trigger] self.memo@[i]).0,),
                self.memo@[i].1,
            )
    }

    /// Wraps a calculation with an empty memory.
    pub fn new(calculation: T) -> (c: Cacher<T>)
        ensures
            c.wf(),
            c.spec_calculation() == calculation,
    {
        Cacher { calculation, memo: Vec::new() }
    }

    /// The calculation's value at `arg`: run it, or answer from memory with a
    /// value the calculation itself returned for `arg` earlier.
    pub fn value(&mut self, arg: u32) -> (v: u32)
        requires
            old(self).wf(),
            call_requires(old(self).spec_calculation(), (arg,)),
        ensures
            final(self).wf(),
            final(self).spec_calculation() == old(self).spec_calculation(),
            call_ensures(old(self).spec_calculation(), (arg,), v),
    {
        let n = self.memo.len();
        let mut i: usize = 0;
        while i < n
            invariant
                self.wf(),
                n == self.memo@.len(),
                i <= n,
        decreases n - i,
        {
            let (a, v) = self.memo[i];
            if a == arg {
                return v;
            }
            i = i + 1;
        }
        let v = (self.calculation)(arg);
        self.memo.push((arg, v));
        v
    }
}

/// What a workout session prescribes.
#[derive(Debug, Clone, Copy, PartialEq, Eq, Structural)]
pub enum WorkoutPlan {
    /// Do this many pushups, then as many situps.
    Exercises(u32),
    /// Take a break and stay hydrated.
    Break,
    /// Run for this many minutes.
    Run(u32),
}

/// The workout generator's whole decision: light sessions exercise by the
/// expensive calculation's count, heavier ones rest on the lucky number three
/// or run; the caller only announces the plan. The calculation runs at most
/// once thanks to the cache.
pub fn generate_workout<T: Fn(u32) -> u32>(
    expensive: &mut Cacher<T>,
    intensity: u32,
    random_number: u32,
) -> (p: WorkoutPlan)
    requires
        old(expensive).wf(),
        call_requires(old(expensive).spec_calculation(), (intensity,)),
    ensures
        final(expensive).wf(),
        final(expensive).spec_calculation() == old(expensive).spec_calculation(),
        intensity < 25 ==> (p matches WorkoutPlan::Exercises(v) && call_ensures(
            old(expensive).spec_calculation(),
            (intensity,),
            v,
        )),
        intensity >= 25 && random_number == 3 ==> p is Break,
        intensity >= 25 && random_number != 3 ==> (p matches WorkoutPlan::Run(v) && call_ensures(
            old(expensive).spec_calculation(),
            (intensity,),
            v,
        )),
{
    if intensity < 25 {
        WorkoutPlan::Exercises(expensive.value(intensity))
    } else if random_number == 3 {
        WorkoutPlan::Break
    } else {
        WorkoutPlan::Run(expensive.value(intensity))
    }
}

} // verus!
