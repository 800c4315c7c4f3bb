//! The SOVD entities that discovery reports: components, references to them,
//! and collections of them.

use vstd::prelude::*;
use vstd::hash_map::StringHashMap;

verus! {

/// A component: an addressable SOVD entity with free-form metadata.
pub struct Component {
    pub id: String,
    pub name: String,
    pub metadata: StringHashMap<String>,
}

/// What a component is, as plain values.
#[verifier::ext_equal]
pub struct ComponentView {
    pub id: Seq<char>,
    pub name: Seq<char>,
    pub metadata: Map<Seq<char>, Seq<char>>,
}

impl View for Component {
    type V = ComponentView;

    open spec fn view(&self) -> ComponentView {
        ComponentView {
            id: self.id@,
            name: self.name@,
            metadata: self.metadata@.map_values(|v: String| v@),
        }
    }
}

impl Component {
    /// A component with the given id and name and no metadata.
    pub fn new(id: String, name: String) -> (c: Component)
        ensures
            c@ == (ComponentView { id: id@, name: name@, metadata: Map::empty() }),
    {
        let c = Component { id, name, metadata: StringHashMap::new() };
        assert(c@.metadata =~= Map::empty());
        c
    }

    /// The same component with its metadata replaced.
    pub fn with_metadata(self, metadata: StringHashMap<String>) -> (c: Component)
        ensures
            c.id == self.id,
            c.name == self.name,
            c.metadata@ == metadata@,
    {
        Component { id: self.id, name: self.name, metadata }
    }
}

/// The kinds of entity a reference can point to.
#[derive(Debug, Clone, Copy, PartialEq, Eq)]
pub enum EntityKind {
    Component,
}

/// A reference to an entity by kind and id.
#[derive(Debug, Clone)]
pub struct EntityRef {
    pub kind: EntityKind,
    pub id: String,
}

impl EntityRef {
    /// A reference to the component with the given id.
    pub fn component(id: String) -> (r: EntityRef)
        ensures
            r.kind == EntityKind::Component,
            r.id == id,
    {
        EntityRef { kind: EntityKind::Component, id }
    }
}

/// A set of entities that discovery adds.
pub struct EntityCollection {
    pub components: Vec<Component>,
}

impl EntityCollection {
    /// The collection's components, as plain values, in insertion order.
    pub open spec fn component_views(&self) -> Seq<ComponentView> {
        self.components@.map_values(|c: Component| c@)
    }

    /// An empty collection.
    pub fn new() -> (c: EntityCollection)
        ensures
            c.components@.len() == 0,
    {
        EntityCollection { components: Vec::new() }
    }

    /// Adds a component at the end of the collection.
    pub fn add_component(&mut self, component: Component)
        ensures
            final(self).components@ == old(self).components@.push(component),
    {
        self.components.push(component);
    }
}

impl Default for EntityCollection {
    fn default() -> (c: EntityCollection)
        ensures
            c.components@.len() == 0,
    {
        EntityCollection::new()
    }
}

} // verus!
