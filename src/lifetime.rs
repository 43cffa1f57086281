//! Creation order of device-level objects, for teardown in reverse.

use vstd::prelude::*;

verus! {

/// The kinds of device-level objects the engine creates and destroys itself.
#[derive(Clone, Copy, Debug, PartialEq, Eq, Structural)]
pub enum ObjectKind {
    Instance,
    DebugMessenger,
    Surface,
    Device,
    CommandPool,
    CommandBuffer,
    Semaphore,
    Swapchain,
    PipelineLayout,
    Pipeline,
    Buffer,
}

/// A created object: its kind and the driver's handle.
#[derive(Clone, Copy, Debug, PartialEq, Eq, Structural)]
pub struct GpuObject {
    pub kind: ObjectKind,
    pub raw: u64,
}

/// The objects created so far, so that they can be destroyed in exactly the
/// reverse order of their creation.
pub struct TeardownStack {
    created: Vec<GpuObject>,
}

impl View for TeardownStack {
    /// The objects in the order they were created.
    type V = Seq<GpuObject>;

    closed spec fn view(&self) -> Seq<GpuObject> {
        self.created@
    }
}

impl TeardownStack {
    pub fn new() -> (r: Self)
        ensures
            r@ == Seq::<GpuObject>::empty(),
    {
        TeardownStack { created: Vec::new() }
    }

    /// Records an object just created.
    pub fn created(&mut self, kind: ObjectKind, raw: u64)
        ensures
            final(self)@ == old(self)@.push(GpuObject { kind, raw }),
    {
        self.created.push(GpuObject { kind, raw });
    }

    pub fn len(&self) -> (r: usize)
        ensures
            r == self@.len(),
    {
        self.created.len()
    }

    /// The objects to destroy, last created first.
    pub fn teardown(self) -> (r: Vec<GpuObject>)
        ensures
            r@ == self@.reverse(),
    {
        let mut order: Vec<GpuObject> = Vec::new();
        let mut i = self.created.len();
        while i > 0
            invariant
                i <= self@.len(),
                order@ == self@.subrange(i as int, self@.len() as int).reverse(),
            decreases i,
        {
            order.push(self.created[i - 1]);
            i = i - 1;
            assert(order@ =~= self@.subrange(i as int, self@.len() as int).reverse());
        }
        assert(self@.subrange(0, self@.len() as int) =~= self@);
        order
    }
}

} // verus!
