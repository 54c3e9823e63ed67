use vstd::prelude::*;

verus! {

/// A live grain: what its player needs (`voice`), the whole samples it has
/// sounded for, and the number of samples after which it expires.
pub struct Grain<V> {
    pub voice: V,
    pub age: usize,
    pub lifetime: usize,
}

/// What one step does to the population: grain `j` ages by one sample and,
/// once its age reaches its lifetime, the last grain takes its slot.
pub open spec fn advanced<V>(g: Seq<Grain<V>>, j: int) -> Seq<Grain<V>> {
    let aged = Grain { voice: g[j].voice, age: (g[j].age + 1) as usize, lifetime: g[j].lifetime };
    if g[j].age + 1 >= g[j].lifetime {
        g.update(j, g.last()).drop_last()
    } else {
        g.update(j, aged)
    }
}

/// The population of live grains, kept in a reusable arena; a grain's slot
/// is its only identity.
pub struct GrainPool<V> {
    grains: Vec<Grain<V>>,
}

impl<V: Copy> GrainPool<V> {
    pub closed spec fn view(&self) -> Seq<Grain<V>> {
        self.grains@
    }

    /// Every live grain is younger than its lifetime.
    pub open spec fn wf(&self) -> bool {
        forall|i: int| 0 <= i < self.view().len() ==> #[trigger] self.view()[i].age
            < self.view()[i].lifetime
    }

    /// An empty population with room reserved for `capacity` grains.
    pub fn with_capacity(capacity: usize) -> (r: Self)
        ensures
            r.wf(),
            r.view().len() == 0,
    {
        GrainPool { grains: Vec::with_capacity(capacity) }
    }

    pub fn len(&self) -> (r: usize)
        ensures
            r == self.view().len(),
    {
        self.grains.len()
    }

    pub fn is_empty(&self) -> (r: bool)
        ensures
            r == (self.view().len() == 0),
    {
        self.grains.len() == 0
    }

    /// Adds a new grain of age zero that lives for `lifetime` samples.
    pub fn spawn(&mut self, voice: V, lifetime: usize)
        requires
            old(self).wf(),
            lifetime >= 1,
        ensures
            final(self).wf(),
            final(self).view() == old(self).view().push(
                Grain { voice: voice, age: 0, lifetime: lifetime },
            ),
    {
        self.grains.push(Grain { voice, age: 0, lifetime });
        assert forall|i: int| 0 <= i < self.view().len() implies #[trigger] self.view()[i].age
            < self.view()[i].lifetime by {
            if i < old(self).view().len() {
                assert(self.view()[i] == old(self).view()[i]);
            }
        }
    }

    pub fn get(&self, j: usize) -> (r: &Grain<V>)
        requires
            j < self.view().len(),
        ensures
            *r == self.view()[j as int],
    {
        &self.grains[j]
    }

    /// Replaces the player state of grain `j`; its age and lifetime stay.
    pub fn set_voice(&mut self, j: usize, voice: V)
        requires
            old(self).wf(),
            j < old(self).view().len(),
        ensures
            final(self).wf(),
            final(self).view() == old(self).view().update(
                j as int,
                Grain { voice: voice, age: old(self).view()[j as int].age, lifetime: old(self).view()[j as int].lifetime },
            ),
    {
        let age = self.grains[j].age;
        let lifetime = self.grains[j].lifetime;
        self.grains.set(j, Grain { voice, age, lifetime });
    }

    /// Ages grain `j` by one sample and removes it, by moving the last grain
    /// into its slot, once its age reaches its lifetime. Returns whether it
    /// was removed.
    pub fn advance(&mut self, j: usize) -> (removed: bool)
        requires
            old(self).wf(),
            j < old(self).view().len(),
        ensures
            final(self).wf(),
            final(self).view() == advanced(old(self).view(), j as int),
            removed == (old(self).view()[j as int].age + 1 >= old(self).view()[j as int].lifetime),
            removed ==> final(self).view().len() == old(self).view().len() - 1,
            !removed ==> final(self).view().len() == old(self).view().len(),
    {
        let age = self.grains[j].age + 1;
        if age >= self.grains[j].lifetime {
            let _ = self.grains.swap_remove(j);
            true
        } else {
            let voice = self.grains[j].voice;
            let lifetime = self.grains[j].lifetime;
            self.grains.set(j, Grain { voice, age, lifetime });
            false
        }
    }
}

} // verus!
