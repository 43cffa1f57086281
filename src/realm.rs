//! Scene objects and the realm that owns them.

use crate::handle::Handle;
use crate::pool::Pool;
use vstd::prelude::*;

verus! {

/// The payload of a realm object.
pub trait ObjectData: 'static {
    fn name(&self) -> &'static str;
}

/// A node of the realm's object tree: its data, its parent (none for a
/// root) and its children.
pub struct Object {
    data: Box<dyn ObjectData>,
    parent: Option<Handle<Object>>,
    children: Vec<Handle<Object>>,
}

impl Object {
    /// The value of the parent's handle; 0, the nil handle, for a root.
    pub closed spec fn parent_value(&self) -> nat {
        match self.parent {
            Some(h) => h.value(),
            None => 0,
        }
    }

    pub closed spec fn children(&self) -> Seq<Handle<Object>> {
        self.children@
    }

    /// An object without parent (the nil handle) and without children.
    pub fn new<D: ObjectData>(data: D) -> (r: Object)
        ensures
            r.parent_value() == 0,
            r.children().len() == 0,
    {
        Object { data: Box::new(data), parent: None, children: Vec::new() }
    }

    pub fn with_parent(self, parent: Handle<Object>) -> (r: Object)
        ensures
            r.parent_value() == parent.value(),
            r.children() == self.children(),
    {
        let mut object = self;
        object.parent = Some(parent);
        object
    }

    pub fn parent(&self) -> (r: Handle<Object>)
        ensures
            r.value() == self.parent_value(),
    {
        match self.parent {
            Some(h) => h,
            None => Handle::nil(),
        }
    }

    pub fn with_child(self, child: Handle<Object>) -> (r: Object)
        ensures
            r.parent_value() == self.parent_value(),
            r.children() == self.children().push(child),
    {
        let mut object = self;
        object.children.push(child);
        object
    }

    /// The name its data gives.
    pub fn name(&self) -> &'static str {
        self.data.name()
    }
}

/// Turns a payload into a fresh object.
pub trait IntoObject: ObjectData + Sized {
    fn into_object(self) -> (r: Object)
        ensures
            r.parent_value() == 0,
            r.children().len() == 0,
    {
        Object::new(self)
    }
}

/// The objects of a scene.
pub struct Realm {
    objects: Pool<Object>,
}

impl Realm {
    pub closed spec fn wf(&self) -> bool {
        self.objects.wf()
    }

    /// The objects' slots.
    pub closed spec fn objects(&self) -> Seq<Option<Object>> {
        self.objects@
    }

    pub fn new() -> (r: Self)
        ensures
            r.wf(),
            r.objects().len() == 0,
    {
        Realm { objects: Pool::new() }
    }

    /// Adds an object and returns the handle it can be found by.
    pub fn add_object(&mut self, object: Object) -> (r: Handle<Object>)
        requires
            old(self).wf(),
            old(self).objects().len() < usize::MAX,
        ensures
            final(self).wf(),
            slot_is(final(self).objects(), r, object),
            forall|i: int|
                0 <= i < old(self).objects().len() && i != r.value() ==> final(self).objects()[i]
                    == #[trigger] old(self).objects()[i],
    {
        self.objects.insert(object)
    }

    pub fn get(&self, handle: Handle<Object>) -> (r: Option<&Object>)
        ensures
            r is Some <==> 0 <= crate::pool::slot_of(handle) < self.objects().len()
                && self.objects()[crate::pool::slot_of(handle)] is Some,
            r is Some ==> r->0 == self.objects()[crate::pool::slot_of(handle)]->0,
    {
        self.objects.get(handle)
    }
}

/// Whether `objects` holds `object` in the slot of `handle`.
pub open spec fn slot_is(objects: Seq<Option<Object>>, handle: Handle<Object>, object: Object) -> bool {
    &&& crate::pool::slot_of(handle) == handle.value()
    &&& handle.value() < objects.len()
    &&& objects[handle.value() as int] == Some(object)
}

} // verus!
