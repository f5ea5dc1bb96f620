//! A calculation that is made once for each argument and remembered.

use std::collections::HashMap;
use vstd::prelude::*;

verus! {

/// A calculation and the results it has given so far.
pub struct Cacher<T> where T: Fn(u32) -> u32 {
    calculation: T,
    value: HashMap<u32, u32>,
}

impl<T> Cacher<T> where T: Fn(u32) -> u32 {
    /// The calculation.
    pub closed spec fn calculation(&self) -> T {
        self.calculation
    }

    /// The results remembered, by argument.
    pub closed spec fn cache(&self) -> Map<u32, u32> {
        self.value@
    }

    /// Every result remembered is one that the calculation gave for its
    /// argument.
    pub closed spec fn wf(&self) -> bool {
        forall|arg: u32| #[trigger]
            self.value@.contains_key(arg) ==> call_ensures(
                self.calculation,
                (arg,),
                self.value@[arg],
            )
    }

    /// What a well-formed cacher remembers came from its calculation.
    pub proof fn lemma_cached_is_calculated(&self, arg: u32)
        requires
            self.wf(),
            self.cache().contains_key(arg),
        ensures
            call_ensures(self.calculation(), (arg,), self.cache()[arg]),
    {
    }

    /// A cacher of `calculation` that remembers nothing yet.
    pub fn new(calculation: T) -> (cacher: Cacher<T>)
        ensures
            cacher.wf(),
            cacher.calculation() == calculation,
            cacher.cache() == Map::<u32, u32>::empty(),
    {
        Cacher { calculation, value: HashMap::new() }
    }

    /// The result of the calculation for `arg`: the one remembered, where
    /// there is one; else a new one, which is then remembered.
    pub fn value(&mut self, arg: u32) -> (v: u32)
        requires
            old(self).wf(),
            call_requires(old(self).calculation(), (arg,)),
        ensures
            final(self).wf(),
            final(self).calculation() == old(self).calculation(),
            old(self).cache().contains_key(arg) ==> {
                &&& v == old(self).cache()[arg]
                &&& final(self).cache() == old(self).cache()
            },
            !old(self).cache().contains_key(arg) ==> {
                &&& call_ensures(old(self).calculation(), (arg,), v)
                &&& final(self).cache() == old(self).cache().insert(arg, v)
            },
    {
        broadcast use vstd::std_specs::hash::group_hash_axioms;

        match self.value.get(&arg) {
            Some(v) => *v,
            None => {
                let v = (self.calculation)(arg);
                self.value.insert(arg, v);
                v
            },
        }
    }
}

/// What to do today.
#[derive(Clone, Copy, Debug, PartialEq, Eq, Structural)]
pub enum Workout {
    /// So many pushups, then so many situps.
    PushupsAndSitups { pushups: u32, situps: u32 },
    /// A day of rest.
    Break,
    /// A run of so many minutes.
    Run { minutes: u32 },
}

/// Plans a workout of the given intensity. A light day is one of pushups and
/// situps; a hard day is a run, or a break when the random number is 3. The
/// numbers come from `calculation`, which is asked once at most.
pub fn generate_workout<T: Fn(u32) -> u32>(
    intensity: u32,
    random_number: u32,
    calculation: T,
) -> (plan: Workout)
    requires
        call_requires(calculation, (intensity,)),
    ensures
        match plan {
            Workout::PushupsAndSitups { pushups, situps } => {
                &&& intensity < 25
                &&& pushups == situps
                &&& call_ensures(calculation, (intensity,), pushups)
            },
            Workout::Break => intensity >= 25 && random_number == 3,
            Workout::Run { minutes } => {
                &&& intensity >= 25
                &&& random_number != 3
                &&& call_ensures(calculation, (intensity,), minutes)
            },
        },
{
    let mut expensive_result = Cacher::new(calculation);

    if intensity < 25 {
        let pushups = expensive_result.value(intensity);
        let situps = expensive_result.value(intensity);
        Workout::PushupsAndSitups { pushups, situps }
    } else {
        if random_number == 3 {
            Workout::Break
        } else {
            Workout::Run { minutes: expensive_result.value(intensity) }
        }
    }
}

} // verus!
