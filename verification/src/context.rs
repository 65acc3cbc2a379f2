//! Where the tasks of an application are run: a factory hands out spawners,
//! and may itself be made only when the first spawner is asked for.

use vstd::prelude::*;

verus! {

/// Something that hands out spawners.
pub trait SpawnerFactory: Sized {
    type Spawner;

    /// What must hold of the factory before it may be asked for a spawner.
    open spec fn ready(&self) -> bool {
        true
    }

    /// Asked for a spawner, this factory may hand out `spawner` and be `after`
    /// from then on.
    open spec fn spawns(&self, after: Self, spawner: Self::Spawner) -> bool {
        true
    }

    fn spawner(&mut self) -> (spawner: Self::Spawner)
        requires
            old(self).ready(),
        ensures
            old(self).spawns(*final(self), spawner),
    ;
}

/// A factory of spawners that is made when the first spawner is asked for, and
/// kept for all later ones.
pub struct LazyFactorySpawner<SpawnerF, Factory>(Factory, Option<SpawnerF>);

impl<SpawnerF, Factory> LazyFactorySpawner<SpawnerF, Factory> {
    /// What makes the factory.
    pub closed spec fn maker(&self) -> Factory {
        self.0
    }

    /// The factory, once it is made.
    pub closed spec fn made(&self) -> Option<SpawnerF> {
        self.1
    }
}

/// A factory of spawners that `factory` makes when the first spawner is asked
/// for.
pub fn lazy_factory<SpawnerF, Factory>(factory: Factory) -> (lazy: LazyFactorySpawner<
    SpawnerF,
    impl Fn() -> SpawnerF,
>) where Factory: Fn() -> SpawnerF, SpawnerF: SpawnerFactory
    ensures
        lazy.made() is None,
        call_requires(lazy.maker(), ()) == call_requires(factory, ()),
        forall|fresh: SpawnerF| #[trigger]
            call_ensures(lazy.maker(), (), fresh) == call_ensures(factory, (), fresh),
{
    LazyFactorySpawner(factory, None)
}

/// The factory that hands out the next spawner: the one that is there, or
/// else one that `maker` makes.
pub open spec fn serves<SpawnerF, Factory: Fn() -> SpawnerF>(
    maker: Factory,
    made: Option<SpawnerF>,
    serving: SpawnerF,
) -> bool {
    match made {
        Some(there) => serving == there,
        None => call_ensures(maker, (), serving),
    }
}

impl<Factory, SpawnerF> SpawnerFactory for LazyFactorySpawner<SpawnerF, Factory> where
    Factory: Fn() -> SpawnerF,
    SpawnerF: SpawnerFactory,
 {
    type Spawner = SpawnerF::Spawner;

    open spec fn ready(&self) -> bool {
        match self.made() {
            Some(there) => there.ready(),
            None => {
                &&& call_requires(self.maker(), ())
                &&& forall|fresh: SpawnerF| #[trigger]
                    call_ensures(self.maker(), (), fresh) ==> fresh.ready()
            },
        }
    }

    open spec fn spawns(&self, after: Self, spawner: SpawnerF::Spawner) -> bool {
        &&& after.maker() == self.maker()
        &&& after.made() matches Some(kept)
        &&& exists|serving: SpawnerF| #[trigger]
            serves(self.maker(), self.made(), serving) && serving.spawns(kept, spawner)
    }

    fn spawner(&mut self) -> (spawner: SpawnerF::Spawner) {
        let mut serving = match self.1.take() {
            Some(there) => there,
            None => (self.0)(),
        };
        let ghost before = serving;
        let spawner = serving.spawner();
        self.1 = Some(serving);
        assert(serves(old(self).maker(), old(self).made(), before));
        spawner
    }
}

} // verus!
