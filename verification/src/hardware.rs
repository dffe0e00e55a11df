//! The hardware report behind the runtime tier: graphics adapters that are
//! real GPUs, with the dedicated memory the native layer found for them.
use vstd::prelude::*;
use crate::text::str_eq;

verus! {

/// The live hardware probe; the enumeration it performs is platform work
/// done by the shell, which hands the results to the functions below.
#[derive(Debug, Clone, Copy)]
pub struct LiveProbe;

/// The kind of device an adapter enumerates as.
#[derive(Debug, Clone, Copy, PartialEq, Eq, Structural)]
pub enum DeviceType {
    Other,
    IntegratedGpu,
    DiscreteGpu,
    VirtualGpu,
    Cpu,
}

/// An adapter as enumeration reports it.
#[derive(Debug, Clone)]
pub struct AdapterInfo {
    pub name: String,
    pub backend: String,
    pub device_type: DeviceType,
}

#[derive(Debug, Clone, PartialEq, Eq)]
pub struct GpuAdapter {
    pub name: String,
    pub backend: String,
    pub vram_bytes: Option<u64>,
}

#[derive(Debug, Clone, PartialEq, Eq)]
pub struct HardwareReport {
    pub adapters: Vec<GpuAdapter>,
    pub apple_unified_bytes: Option<u64>,
    pub detected_at: String,
}

/// The real GPUs among the enumerated adapters, in order: software
/// rasterizers enumerate as CPU devices and never count.
pub open spec fn gpu_infos(infos: Seq<AdapterInfo>) -> Seq<AdapterInfo>
    decreases infos.len(),
{
    if infos.len() == 0 {
        seq![]
    } else {
        let p = gpu_infos(infos.drop_last());
        if infos.last().device_type != DeviceType::Cpu { p.push(infos.last()) } else { p }
    }
}

pub fn usable_adapters(infos: &Vec<AdapterInfo>) -> (r: Vec<GpuAdapter>)
    ensures
        r@.len() == gpu_infos(infos@).len(),
        forall|i: int| 0 <= i < r@.len() ==> {
            &&& (#[trigger] r@[i]).name@ == gpu_infos(infos@)[i].name@
            &&& r@[i].backend@ == gpu_infos(infos@)[i].backend@
            &&& r@[i].vram_bytes is None
        },
{
    let mut r: Vec<GpuAdapter> = Vec::new();
    let n = infos.len();
    for i in 0..n
        invariant
            n == infos@.len(),
            r@.len() == gpu_infos(infos@.subrange(0, i as int)).len(),
            forall|k: int| 0 <= k < r@.len() ==> {
                &&& (#[trigger] r@[k]).name@ == gpu_infos(infos@.subrange(0, i as int))[k].name@
                &&& r@[k].backend@ == gpu_infos(infos@.subrange(0, i as int))[k].backend@
                &&& r@[k].vram_bytes is None
            },
    {
        proof {
            assert(infos@.subrange(0, i + 1).drop_last() =~= infos@.subrange(0, i as int));
        }
        let info = &infos[i];
        if info.device_type != DeviceType::Cpu {
            r.push(GpuAdapter { name: info.name.clone(), backend: info.backend.clone(), vram_bytes: None });
        }
    }
    proof {
        assert(infos@.subrange(0, n as int) =~= infos@);
    }
    r
}

/// One memory heap of a native device.
#[derive(Debug, Clone, Copy)]
pub struct MemoryHeap {
    pub device_local: bool,
    pub size: u64,
}

/// A physical device as the native graphics layer lists it.
#[derive(Debug, Clone)]
pub struct NativeDevice {
    pub is_cpu: bool,
    pub name: String,
    pub heaps: Vec<MemoryHeap>,
}

/// The largest device-local heap, or zero.
pub open spec fn largest_local(heaps: Seq<MemoryHeap>) -> u64
    decreases heaps.len(),
{
    if heaps.len() == 0 {
        0
    } else {
        let p = largest_local(heaps.drop_last());
        if heaps.last().device_local && heaps.last().size > p { heaps.last().size } else { p }
    }
}

fn largest_local_heap(heaps: &Vec<MemoryHeap>) -> (r: u64)
    ensures
        r == largest_local(heaps@),
{
    let mut best: u64 = 0;
    let n = heaps.len();
    for i in 0..n
        invariant
            n == heaps@.len(),
            best == largest_local(heaps@.subrange(0, i as int)),
    {
        proof {
            assert(heaps@.subrange(0, i + 1).drop_last() =~= heaps@.subrange(0, i as int));
        }
        let h = heaps[i];
        if h.device_local && h.size > best {
            best = h.size;
        }
    }
    proof {
        assert(heaps@.subrange(0, n as int) =~= heaps@);
    }
    best
}

/// The memory the devices give the adapter named `name` that has none yet:
/// the largest device-local heap of the first non-CPU device of that name.
pub open spec fn vram_for(devices: Seq<NativeDevice>, name: Seq<char>) -> Option<u64>
    decreases devices.len(),
{
    if devices.len() == 0 {
        None
    } else if !devices[0].is_cpu && devices[0].name@ == name {
        Some(largest_local(devices[0].heaps@))
    } else {
        vram_for(devices.subrange(1, devices.len() as int), name)
    }
}

/// Every adapter still without memory takes the largest device-local heap
/// of the first real device with its name; adapters already measured keep
/// their value.
pub fn attach_native_vram(adapters: &mut Vec<GpuAdapter>, devices: &Vec<NativeDevice>)
    ensures
        final(adapters)@.len() == old(adapters)@.len(),
        forall|i: int| 0 <= i < final(adapters)@.len() ==> {
            &&& (#[trigger] final(adapters)@[i]).name == old(adapters)@[i].name
            &&& final(adapters)@[i].backend == old(adapters)@[i].backend
            &&& final(adapters)@[i].vram_bytes == match old(adapters)@[i].vram_bytes {
                Some(v) => Some(v),
                None => vram_for(devices@, old(adapters)@[i].name@),
            }
        },
{
    let n = adapters.len();
    let ghost start = adapters@;
    for i in 0..n
        invariant
            n == adapters@.len(),
            n == start.len(),
            forall|k: int| i <= k < n ==> #[trigger] adapters@[k] == start[k],
            forall|k: int| 0 <= k < i ==> {
                &&& (#[trigger] adapters@[k]).name == start[k].name
                &&& adapters@[k].backend == start[k].backend
                &&& adapters@[k].vram_bytes == match start[k].vram_bytes {
                    Some(v) => Some(v),
                    None => vram_for(devices@, start[k].name@),
                }
            },
    {
        if adapters[i].vram_bytes.is_none() {
            let found = device_vram(devices, adapters[i].name.as_str());
            let a = GpuAdapter {
                name: adapters[i].name.clone(),
                backend: adapters[i].backend.clone(),
                vram_bytes: found,
            };
            adapters.set(i, a);
        }
    }
}

fn device_vram(devices: &Vec<NativeDevice>, name: &str) -> (r: Option<u64>)
    ensures
        r == vram_for(devices@, name@),
{
    let n = devices.len();
    let mut j: usize = 0;
    assert(devices@.subrange(0, n as int) =~= devices@);
    while j < n
        invariant
            n == devices@.len(),
            j <= n,
            vram_for(devices@, name@) == vram_for(devices@.subrange(j as int, n as int), name@),
        decreases n - j,
    {
        proof {
            let t = devices@.subrange(j as int, n as int);
            assert(t.subrange(1, t.len() as int) =~= devices@.subrange(j + 1, n as int));
        }
        let d = &devices[j];
        if !d.is_cpu && str_eq(d.name.as_str(), name) {
            return Some(largest_local_heap(&d.heaps));
        }
        j += 1;
    }
    None
}


/// The memory an adapter takes from a device is at least the size of each
/// of its device-local heaps and is the size of one of them; with no
/// device-local heap it is zero.
pub proof fn law_largest_local_heap(heaps: Seq<MemoryHeap>)
    ensures
        forall|i: int| 0 <= i < heaps.len() && #[trigger] heaps[i].device_local ==> heaps[i].size <= largest_local(heaps),
        (exists|i: int| 0 <= i < heaps.len() && #[trigger] heaps[i].device_local) ==> exists|i: int|
            0 <= i < heaps.len() && #[trigger] heaps[i].device_local && heaps[i].size == largest_local(heaps),
        !(exists|i: int| 0 <= i < heaps.len() && #[trigger] heaps[i].device_local) ==> largest_local(heaps) == 0,
    decreases heaps.len(),
{
    if heaps.len() > 0 {
        let init = heaps.drop_last();
        law_largest_local_heap(init);
        assert forall|i: int| 0 <= i < heaps.len() - 1 implies #[trigger] heaps[i] == init[i] by {}
        if exists|i: int| 0 <= i < init.len() && #[trigger] init[i].device_local {
            let j = choose|i: int| 0 <= i < init.len() && #[trigger] init[i].device_local && init[i].size
                == largest_local(init);
            assert(heaps[j] == init[j]);
        }
        if exists|i: int| 0 <= i < heaps.len() && #[trigger] heaps[i].device_local {
            let k = choose|i: int| 0 <= i < heaps.len() && #[trigger] heaps[i].device_local;
            if k < heaps.len() - 1 {
                assert(init[k] == heaps[k]);
            }
        }
    }
}


/// An adapter with no memory yet takes it from the first device of its
/// name that is not the CPU, and from no other; with no such device it gets
/// none.
pub proof fn law_vram_from_first_named_device(devices: Seq<NativeDevice>, name: Seq<char>)
    ensures
        match vram_for(devices, name) {
            Some(v) => exists|i: int|
                0 <= i < devices.len() && !(#[trigger] devices[i]).is_cpu && devices[i].name@ == name && v
                    == largest_local(devices[i].heaps@) && forall|j: int|
                    0 <= j < i ==> (#[trigger] devices[j]).is_cpu || devices[j].name@ != name,
            None => forall|i: int| 0 <= i < devices.len() ==> (#[trigger] devices[i]).is_cpu || devices[i].name@ != name,
        },
    decreases devices.len(),
{
    if devices.len() > 0 && !(!devices[0].is_cpu && devices[0].name@ == name) {
        let rest = devices.subrange(1, devices.len() as int);
        law_vram_from_first_named_device(rest, name);
        match vram_for(rest, name) {
            Some(v) => {
                let i = choose|i: int|
                    0 <= i < rest.len() && !(#[trigger] rest[i]).is_cpu && rest[i].name@ == name && v
                        == largest_local(rest[i].heaps@) && forall|j: int|
                        0 <= j < i ==> (#[trigger] rest[j]).is_cpu || rest[j].name@ != name;
                assert(devices[i + 1] == rest[i]);
                assert forall|j: int| 0 <= j < i + 1 implies (#[trigger] devices[j]).is_cpu || devices[j].name@ != name by {
                    if j > 0 {
                        assert(devices[j] == rest[j - 1]);
                    }
                }
            },
            None => {
                assert forall|i: int| 0 <= i < devices.len() implies (#[trigger] devices[i]).is_cpu || devices[i].name@
                    != name by {
                    if i > 0 {
                        assert(devices[i] == rest[i - 1]);
                    }
                }
            },
        }
    } else if devices.len() > 0 {
        assert(!devices[0].is_cpu && devices[0].name@ == name);
    }
}

} // verus!
