//! Choosing the physical device and the queue family the engine runs on.

use crate::error::GpuError;
use vstd::prelude::*;

verus! {

/// What one queue family of a physical device offers.
#[derive(Clone, Copy, Debug, PartialEq, Eq, Structural)]
pub struct QueueFamilySupport {
    pub graphics: bool,
    pub compute: bool,
    /// Whether the family can present to the engine's surface.
    pub present: bool,
}

/// A physical device as seen by the selector: its queue families, in the
/// order the driver reports them.
#[derive(Clone, Debug)]
pub struct PhysicalDeviceInfo {
    pub queue_families: Vec<QueueFamilySupport>,
}

/// The chosen device (its position in the enumeration) and queue family.
#[derive(Clone, Copy, Debug, PartialEq, Eq, Structural)]
pub struct DeviceSelection {
    pub device_index: usize,
    pub queue_family_index: u32,
}

pub open spec fn family_qualifies(f: QueueFamilySupport) -> bool {
    f.graphics && f.compute && f.present
}

pub open spec fn device_qualifies(families: Seq<QueueFamilySupport>) -> bool {
    exists|i: int| 0 <= i < families.len() && family_qualifies(#[trigger] families[i])
}

/// The queue family the engine uses on a device: the last one that
/// qualifies, or -1 where none does.
pub open spec fn chosen_family(families: Seq<QueueFamilySupport>) -> int
    decreases families.len(),
{
    if families.len() == 0 {
        -1
    } else if family_qualifies(families.last()) {
        families.len() - 1
    } else {
        chosen_family(families.drop_last())
    }
}

pub open spec fn families_of(devices: Seq<PhysicalDeviceInfo>, i: int) -> Seq<QueueFamilySupport> {
    devices[i].queue_families@
}

proof fn lemma_chosen_family(families: Seq<QueueFamilySupport>)
    ensures
        -1 <= chosen_family(families) < families.len(),
        chosen_family(families) == -1 <==> !device_qualifies(families),
        chosen_family(families) >= 0 ==> family_qualifies(families[chosen_family(families)]),
        forall|k: int|
            chosen_family(families) < k < families.len() ==> !family_qualifies(
                #[trigger] families[k],
            ),
    decreases families.len(),
{
    if families.len() > 0 {
        let init = families.drop_last();
        lemma_chosen_family(init);
        if !family_qualifies(families.last()) {
            assert forall|k: int| 0 <= k < init.len() implies families[k] == init[k] by {}
            if device_qualifies(families) {
                let w = choose|i: int| 0 <= i < families.len() && family_qualifies(families[i]);
                assert(init[w] == families[w]);
            }
            if device_qualifies(init) {
                let w = choose|i: int| 0 <= i < init.len() && family_qualifies(init[i]);
                assert(init[w] == families[w]);
            }
        }
    }
}

/// Picks the first device that has a queue family supporting graphics,
/// compute and presentation at once, together with the last such family of
/// that device.
pub fn select_physical_device(devices: &Vec<PhysicalDeviceInfo>) -> (r: Result<
    DeviceSelection,
    GpuError,
>)
    requires
        forall|i: int|
            0 <= i < devices@.len() ==> (#[trigger] families_of(devices@, i)).len() <= u32::MAX,
    ensures
        r is Ok <==> exists|i: int|
            0 <= i < devices@.len() && device_qualifies(#[trigger] families_of(devices@, i)),
        r is Err ==> r == Err::<DeviceSelection, GpuError>(GpuError::NoSuitableDevice),
        r matches Ok(s) ==> {
            &&& s.device_index < devices@.len()
            &&& device_qualifies(families_of(devices@, s.device_index as int))
            &&& forall|j: int|
                0 <= j < s.device_index ==> !device_qualifies(#[trigger] families_of(devices@, j))
            &&& s.queue_family_index == chosen_family(families_of(devices@, s.device_index as int))
        },
{
    let mut d: usize = 0;
    while d < devices.len()
        invariant
            d <= devices@.len(),
            forall|i: int|
                0 <= i < devices@.len() ==> (#[trigger] families_of(devices@, i)).len() <= u32::MAX,
            forall|j: int| 0 <= j < d ==> !device_qualifies(#[trigger] families_of(devices@, j)),
        decreases devices@.len() - d,
    {
        let families = &devices[d].queue_families;
        let ghost fs = families_of(devices@, d as int);
        assert(fs.len() <= u32::MAX);
        let mut chosen: Option<usize> = None;
        let mut i: usize = 0;
        while i < families.len()
            invariant
                fs == families@,
                i <= fs.len(),
                chosen matches Some(c) ==> c as int == chosen_family(fs.subrange(0, i as int)),
                chosen is None ==> chosen_family(fs.subrange(0, i as int)) == -1,
            decreases fs.len() - i,
        {
            let f = families[i];
            proof {
                let next = fs.subrange(0, i + 1);
                assert(next.drop_last() =~= fs.subrange(0, i as int));
                assert(next.last() == f);
            }
            if f.graphics && f.compute && f.present {
                chosen = Some(i);
            }
            i = i + 1;
        }
        assert(fs.subrange(0, fs.len() as int) =~= fs);
        proof {
            lemma_chosen_family(fs);
        }
        if let Some(c) = chosen {
            return Ok(DeviceSelection { device_index: d, queue_family_index: c as u32 });
        }
        d = d + 1;
    }
    Err(GpuError::NoSuitableDevice)
}

} // verus!
