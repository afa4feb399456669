//! Entities: identities that components and systems hang on, and the
//! components of each type by entity.

use vstd::prelude::*;
use std::collections::{BTreeMap, BTreeSet};

verus! {

broadcast use vstd::std_specs::btree::group_btree_axioms;

/// The identity of one entity.
#[derive(Copy, Clone, Debug, Ord, PartialOrd, Eq, PartialEq, Hash, Structural)]
pub struct Entity(pub u64);

/// The live entities, and the identity the next one gets.
pub struct Entities {
    items: BTreeSet<u64>,
    next_id: u64,
}

impl Entities {
    /// The identities of the live entities.
    pub closed spec fn live(&self) -> Set<u64> {
        self.items@
    }

    /// The identity the next entity gets.
    pub closed spec fn next_id(&self) -> u64 {
        self.next_id
    }

    /// No entities; identities start at 0.
    pub fn new() -> (entities: Self)
        ensures
            entities.live() == Set::<u64>::empty(),
            entities.next_id() == 0,
    {
        Entities { items: BTreeSet::new(), next_id: 0 }
    }

    /// Makes a new entity. Identities are handed out in counting order and
    /// start over after the last 64-bit number.
    pub fn create(&mut self) -> (entity: Entity)
        ensures
            entity == Entity(old(self).next_id()),
            final(self).live() == old(self).live().insert(entity.0),
            final(self).next_id() == (if old(self).next_id() == u64::MAX {
                0
            } else {
                (old(self).next_id() + 1) as u64
            }),
    {
        let id: u64 = self.next_id;
        self.next_id = if id == u64::MAX {
            0
        } else {
            id + 1
        };
        self.items.insert(id);
        Entity(id)
    }

    /// Ends an entity. Ending one that is not live changes nothing.
    pub fn destroy(&mut self, entity: Entity)
        ensures
            final(self).live() == old(self).live().remove(entity.0),
            final(self).next_id() == old(self).next_id(),
    {
        self.items.remove(&entity.0);
    }

    /// Whether `entity` is live.
    pub fn contains(&self, entity: Entity) -> (live: bool)
        ensures
            live == self.live().contains(entity.0),
    {
        self.items.contains(&entity.0)
    }
}

/// A value that can be attached to an entity.
pub trait Component: Copy {

}

/// The components of one type, by the entity each is attached to. An
/// entity has at most one component of a type.
pub struct ComponentMap<T> {
    items: BTreeMap<u64, T>,
}

impl<T: Component> View for ComponentMap<T> {
    type V = Map<u64, T>;

    closed spec fn view(&self) -> Map<u64, T> {
        self.items@
    }
}

impl<T: Component> ComponentMap<T> {
    /// No components.
    pub fn new() -> (components: Self)
        ensures
            components@ == Map::<u64, T>::empty(),
    {
        ComponentMap { items: BTreeMap::new() }
    }

    /// Attaches `component` to `entity` and hands back the component that
    /// it replaces, if there was one.
    pub fn insert(&mut self, entity: Entity, component: T) -> (replaced: Option<T>)
        ensures
            final(self)@ == old(self)@.insert(entity.0, component),
            replaced == (if old(self)@.contains_key(entity.0) {
                Some(old(self)@[entity.0])
            } else {
                None
            }),
    {
        self.items.insert(entity.0, component)
    }

    /// Takes the component of `entity` away and hands it back, if there
    /// was one.
    pub fn remove(&mut self, entity: Entity) -> (removed: Option<T>)
        ensures
            final(self)@ == old(self)@.remove(entity.0),
            removed == (if old(self)@.contains_key(entity.0) {
                Some(old(self)@[entity.0])
            } else {
                None
            }),
    {
        self.items.remove(&entity.0)
    }

    /// The component of `entity`, if it has one.
    pub fn get(&self, entity: Entity) -> (found: Option<T>)
        ensures
            found == (if self@.contains_key(entity.0) {
                Some(self@[entity.0])
            } else {
                None
            }),
    {
        match self.items.get(&entity.0) {
            Some(component) => Some(*component),
            None => None,
        }
    }

    /// The components by entity, to read.
    pub fn map(&self) -> (items: &BTreeMap<u64, T>)
        ensures
            items@ == self@,
    {
        &self.items
    }

    /// The number of entities that have a component.
    pub fn len(&self) -> (count: usize)
        ensures
            count == self@.len(),
    {
        self.items.len()
    }
}

/// The entities of a world.
pub struct ECS {
    pub entities: Entities,
}

/// What a system may do to the world while it runs.
pub struct ProcessContext<'a> {
    pub ecs: &'a mut ECS,
}

impl<'a> ProcessContext<'a> {
    /// Makes a new entity.
    pub fn create_entity(&mut self) -> (entity: Entity)
        ensures
            entity == Entity(old(self).ecs.entities.next_id()),
            final(self).ecs.entities.live() == old(self).ecs.entities.live().insert(entity.0),
    {
        self.ecs.entities.create()
    }

    /// Ends an entity.
    pub fn destroy_entity(&mut self, entity: Entity)
        ensures
            final(self).ecs.entities.live() == old(self).ecs.entities.live().remove(entity.0),
            final(self).ecs.entities.next_id() == old(self).ecs.entities.next_id(),
    {
        self.ecs.entities.destroy(entity);
    }

    /// Attaches `component` to `entity` in the store of its type; a
    /// component that the entity had there is replaced. The entities stay
    /// as they are.
    pub fn add_component<T: Component>(
        &mut self,
        components: &mut ComponentMap<T>,
        entity: Entity,
        component: T,
    )
        ensures
            final(components)@ == old(components)@.insert(entity.0, component),
            final(self).ecs.entities.live() == old(self).ecs.entities.live(),
            final(self).ecs.entities.next_id() == old(self).ecs.entities.next_id(),
    {
        components.insert(entity, component);
    }
}

/// Something that runs over the world once per step.
pub trait System {
    fn process(&self, context: &mut ProcessContext);
}

} // verus!
