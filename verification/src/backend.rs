//! The backend: its module's name, the instance configuration it asks
//! for, and the devices it offers, each physical device once and then as
//! many mirrors as asked for.

use vstd::prelude::*;
use crate::assoc::AssocList;
use crate::device::has_name;
use crate::instance::InstanceConfig;
use crate::instance::spec_make_version;
use crate::instance::make_version;

verus! {

/// A layer the Vulkan loader offers.
pub struct Layer<'a> {
    pub name: &'a str,
    pub spec_version: u32,
    pub implementation_version: u32,
    pub description: &'a str,
}

/// An instance extension the Vulkan loader offers.
pub struct Extension<'a> {
    pub name: &'a str,
    pub spec_version: u32,
}

/// The backend module of the Vulkan backend.
pub struct RenderBackendModuleVk {}

impl RenderBackendModuleVk {
    pub fn new() -> (r: Self) {
        RenderBackendModuleVk {}
    }

    /// The backend's name.
    pub fn name(&self) -> (r: &'static str)
        ensures
            r@ == "Vulkan"@,
    {
        "Vulkan"
    }

    /// The backend's API tag.
    pub fn api(&self) -> (r: &'static str)
        ensures
            r@ == "vk"@,
    {
        "vk"
    }
}

/// The instance configuration the backend asks for: every offered layer,
/// the surface extensions and debug reporting. The surface extensions must
/// be offered.
pub fn backend_instance_config(layers: &Vec<Layer>, extension_names: &Vec<String>, surface_extensions: &Vec<String>) -> (r: InstanceConfig)
    requires
        forall|i: int| 0 <= i < surface_extensions@.len()
            ==> has_name(extension_names@, (#[trigger] surface_extensions@[i])@),
    ensures
        r.app_name@ == "render-hal-vk"@,
        r.app_version == spec_make_version(1, 0, 0),
        r.layers@.len() == layers@.len(),
        forall|i: int| 0 <= i < layers@.len() ==> (#[trigger] r.layers@[i])@ == layers@[i].name@,
        r.extensions@.len() == surface_extensions@.len() + 1,
        forall|i: int| 0 <= i < surface_extensions@.len() ==> (#[trigger] r.extensions@[i])@ == surface_extensions@[i]@,
        r.extensions@[surface_extensions@.len() as int]@ == "VK_EXT_debug_report"@,
{
    let mut layer_names: Vec<String> = Vec::new();
    let mut i: usize = 0;
    while i < layers.len()
        invariant
            i <= layers@.len(),
            layer_names@.len() == i,
            forall|k: int| 0 <= k < i ==> (#[trigger] layer_names@[k])@ == layers@[k].name@,
        decreases layers@.len() - i,
    {
        layer_names.push(layers[i].name.to_owned());
        i += 1;
    }
    let mut extensions: Vec<String> = Vec::new();
    let mut j: usize = 0;
    while j < surface_extensions.len()
        invariant
            j <= surface_extensions@.len(),
            extensions@.len() == j,
            forall|k: int| 0 <= k < j ==> (#[trigger] extensions@[k])@ == surface_extensions@[k]@,
        decreases surface_extensions@.len() - j,
    {
        extensions.push(surface_extensions[j].clone());
        j += 1;
    }
    extensions.push("VK_EXT_debug_report".to_owned());
    InstanceConfig {
        app_name: "render-hal-vk".to_owned(),
        app_version: make_version(1, 0, 0),
        layers: layer_names,
        extensions,
    }
}

/// Kinds of devices.
#[derive(Clone, Copy, Debug, PartialEq, Eq, Structural)]
pub enum RenderDeviceType {
    Discrete,
    Integrated,
    Virtual,
    Cpu,
    Other,
}

/// What the backend reads of a physical device.
pub struct PhysicalDeviceProperties {
    pub device_name: String,
    pub vendor_id: u32,
    pub device_id: u32,
    pub device_type: i32,
}

/// A device as the backend offers it.
pub struct RenderDeviceInfo {
    pub name: String,
    pub vendor_id: u32,
    pub device_id: u32,
    pub device_index: u32,
    pub device_type: RenderDeviceType,
}

/// Vulkan device types (other, integrated, discrete, virtual, CPU).
pub open spec fn device_type_known(t: i32) -> bool {
    0 <= t <= 4
}

pub open spec fn spec_device_type(t: i32) -> RenderDeviceType {
    if t == 2 {
        RenderDeviceType::Discrete
    } else if t == 1 {
        RenderDeviceType::Integrated
    } else if t == 3 {
        RenderDeviceType::Virtual
    } else if t == 4 {
        RenderDeviceType::Cpu
    } else {
        RenderDeviceType::Other
    }
}

pub fn device_type(t: i32) -> (r: RenderDeviceType)
    requires
        device_type_known(t),
    ensures
        r == spec_device_type(t),
{
    if t == 2 {
        RenderDeviceType::Discrete
    } else if t == 1 {
        RenderDeviceType::Integrated
    } else if t == 3 {
        RenderDeviceType::Virtual
    } else if t == 4 {
        RenderDeviceType::Cpu
    } else {
        RenderDeviceType::Other
    }
}

/// The device info of a physical device at `index`.
pub fn device_info(properties: &PhysicalDeviceProperties, index: u32) -> (r: RenderDeviceInfo)
    requires
        device_type_known(properties.device_type),
    ensures
        r.name@ == properties.device_name@,
        r.vendor_id == properties.vendor_id,
        r.device_id == properties.device_id,
        r.device_index == index,
        r.device_type == spec_device_type(properties.device_type),
{
    RenderDeviceInfo {
        name: properties.device_name.clone(),
        vendor_id: properties.vendor_id,
        device_id: properties.device_id,
        device_index: index,
        device_type: device_type(properties.device_type),
    }
}

/// A copy of a device info.
pub fn copy_device_info(info: &RenderDeviceInfo) -> (r: RenderDeviceInfo)
    ensures
        r.name@ == info.name@,
        r.vendor_id == info.vendor_id,
        r.device_id == info.device_id,
        r.device_index == info.device_index,
        r.device_type == info.device_type,
{
    RenderDeviceInfo {
        name: info.name.clone(),
        vendor_id: info.vendor_id,
        device_id: info.device_id,
        device_index: info.device_index,
        device_type: info.device_type,
    }
}

/// Errors of the backend.
#[derive(Clone, Copy, Debug, PartialEq, Eq, Structural)]
pub enum BackendError {
    /// No physical device was found.
    NoPhysicalDevices,
    /// No device has the given id.
    NoDeviceFound(usize),
}

/// The devices of the backend: the physical devices found, the info of
/// each, the device ids (physical devices first, then mirrors) with the
/// physical device each stands for, and which devices are created.
pub struct RenderBackendVk {
    pub adapters: Vec<PhysicalDeviceProperties>,
    pub device_info: Vec<RenderDeviceInfo>,
    pub device_map: AssocList<u32>,
    pub devices: Vec<bool>,
}

/// The device map after `physical` devices and `mirrors` rounds of
/// mirrors: id `k` stands for physical device `k % physical`.
pub open spec fn spec_device_map(physical: nat, mirrors: nat) -> Map<u64, u32> {
    Map::new(|k: u64| k < physical * (mirrors + 1), |k: u64| physical_of(k, physical))
}

/// The physical device that device id `k` stands for.
pub open spec fn physical_of(k: u64, physical: nat) -> u32 {
    ((k as int) % (physical as int)) as u32
}

impl RenderBackendVk {
    pub open spec fn wf(&self) -> bool {
        &&& self.device_map.wf()
        &&& self.devices@.len() == self.device_info@.len()
    }

    pub fn new() -> (r: Self)
        ensures
            r.wf(),
            r.adapters@.len() == 0,
            r.device_info@.len() == 0,
            r.devices@.len() == 0,
            r.device_map@ == Map::<u64, u32>::empty(),
    {
        RenderBackendVk {
            adapters: Vec::new(),
            device_info: Vec::new(),
            device_map: AssocList::new(),
            devices: Vec::new(),
        }
    }

    /// Whether the physical devices still have to be enumerated.
    pub fn needs_adapters(&self) -> (r: bool)
        ensures
            r == (self.adapters@.len() == 0),
    {
        self.adapters.len() == 0
    }

    /// Offer the devices. The physical devices are taken from `enumerated`
    /// the first time there are any; then each gets its info and id, and
    /// each round of mirrors adds one more id per physical device. Without
    /// physical devices this is an error.
    pub fn enumerate_devices(&mut self, enumerated: Vec<PhysicalDeviceProperties>, mirror_count: u32) -> (r: Result<Vec<RenderDeviceInfo>, BackendError>)
        requires
            old(self).wf(),
            forall|i: int| 0 <= i < enumerated@.len() ==> device_type_known((#[trigger] enumerated@[i]).device_type),
            forall|i: int| 0 <= i < old(self).adapters@.len() ==> device_type_known((#[trigger] old(self).adapters@[i]).device_type),
            enumerated@.len() * (mirror_count + 1) <= u32::MAX,
            old(self).adapters@.len() * (mirror_count + 1) <= u32::MAX,
            old(self).device_info@.len() == 0 ==> old(self).device_map@ == Map::<u64, u32>::empty(),
        ensures
            final(self).wf(),
            old(self).adapters@.len() == 0 ==> final(self).adapters@ == enumerated@,
            old(self).adapters@.len() > 0 ==> final(self).adapters@ == old(self).adapters@,
            final(self).adapters@.len() == 0 <==> r == Err::<Vec<RenderDeviceInfo>, BackendError>(BackendError::NoPhysicalDevices),
            final(self).adapters@.len() > 0 ==> r is Ok,
            final(self).adapters@.len() == 0 ==> {
                &&& final(self).device_info@.len() == 0
                &&& final(self).devices@.len() == 0
                &&& final(self).device_map@ == Map::<u64, u32>::empty()
            },
            final(self).adapters@.len() > 0 && (old(self).adapters@.len() == 0 || old(self).device_info@.len() == 0) ==> {
                let n = final(self).adapters@.len();
                &&& final(self).device_info@.len() == n
                &&& forall|i: int| 0 <= i < n ==> (#[trigger] final(self).device_info@[i]).device_index == i
                    && final(self).device_info@[i].name@ == final(self).adapters@[i].device_name@
                    && final(self).device_info@[i].vendor_id == final(self).adapters@[i].vendor_id
                    && final(self).device_info@[i].device_id == final(self).adapters@[i].device_id
                    && final(self).device_info@[i].device_type == spec_device_type(final(self).adapters@[i].device_type)
                &&& final(self).device_map@ == spec_device_map(n as nat, mirror_count as nat)
                &&& forall|i: int| 0 <= i < n ==> !(#[trigger] final(self).devices@[i])
            },
            old(self).adapters@.len() > 0 && old(self).device_info@.len() > 0 ==> {
                &&& final(self).device_info@ == old(self).device_info@
                &&& final(self).device_map@ == old(self).device_map@
                &&& final(self).devices@ == old(self).devices@
            },
            r matches Ok(infos) ==> infos@.len() == final(self).device_info@.len()
                && forall|i: int| 0 <= i < infos@.len() ==> (#[trigger] infos@[i]).device_index == final(self).device_info@[i].device_index
                    && infos@[i].name@ == final(self).device_info@[i].name@
                    && infos@[i].vendor_id == final(self).device_info@[i].vendor_id
                    && infos@[i].device_id == final(self).device_info@[i].device_id
                    && infos@[i].device_type == final(self).device_info@[i].device_type,
    {
        if self.adapters.len() == 0 {
            self.adapters = enumerated;
            self.device_info = Vec::new();
            self.device_map = AssocList::new();
            self.devices = Vec::new();
        }
        if self.adapters.len() == 0 {
            return Err(BackendError::NoPhysicalDevices);
        }
        if self.device_info.len() == 0 {
            let n = self.adapters.len();
            assert(n <= u32::MAX) by (nonlinear_arith)
                requires n * (mirror_count + 1) <= u32::MAX, n >= 0, mirror_count >= 0;
            let mut info: Vec<RenderDeviceInfo> = Vec::new();
            let mut devices: Vec<bool> = Vec::new();
            let mut map: AssocList<u32> = AssocList::new();
            let mut i: usize = 0;
            while i < n
                invariant
                    n == self.adapters@.len(),
                    n * (mirror_count + 1) <= u32::MAX,
                    n <= u32::MAX,
                    forall|k: int| 0 <= k < n ==> device_type_known((#[trigger] self.adapters@[k]).device_type),
                    i <= n,
                    info@.len() == i,
                    devices@.len() == i,
                    map.wf(),
                    map@ == Map::new(|k: u64| k < i, |k: u64| k as u32),
                    forall|k: int| 0 <= k < i ==> (#[trigger] info@[k]).device_index == k
                        && info@[k].name@ == self.adapters@[k].device_name@
                        && info@[k].vendor_id == self.adapters@[k].vendor_id
                        && info@[k].device_id == self.adapters@[k].device_id
                        && info@[k].device_type == spec_device_type(self.adapters@[k].device_type),
                    forall|k: int| 0 <= k < i ==> !(#[trigger] devices@[k]),
                decreases n - i,
            {
                info.push(device_info(&self.adapters[i], i as u32));
                map.insert(i as u64, i as u32);
                devices.push(false);
                i += 1;
                assert(map@ =~= Map::new(|k: u64| k < i, |k: u64| k as u32));
            }
            let mut m: u32 = 0;
            assert forall|k: u64| k < n implies #[trigger] physical_of(k, n as nat) == k as u32 by {
                vstd::arithmetic::div_mod::lemma_small_mod(k as nat, n as nat);
            }
            assert((n as nat) * (0nat + 1) == n as nat) by (nonlinear_arith);
            assert(map@.dom() =~= spec_device_map(n as nat, 0).dom());
            assert forall|k: u64| map@.contains_key(k) implies map@[k] == spec_device_map(n as nat, 0)[k] by {
                assert(physical_of(k, n as nat) == k as u32);
            }
            assert(map@ =~= spec_device_map(n as nat, 0));
            while m < mirror_count
                invariant
                    n >= 1,
                    n * (mirror_count + 1) <= u32::MAX,
                    m <= mirror_count,
                    map.wf(),
                    map@ == spec_device_map(n as nat, m as nat),
                decreases mirror_count - m,
            {
                let mut d: usize = 0;
                while d < n
                    invariant
                        n >= 1,
                        n * (mirror_count + 1) <= u32::MAX,
                        m < mirror_count,
                        d <= n,
                        map.wf(),
                        map@ == Map::new(|k: u64| k < n * (m + 1) + d, |k: u64| physical_of(k, n as nat)),
                    decreases n - d,
                {
                    proof {
                        assert(n * (m + 1) + d < n * (mirror_count + 1)) by (nonlinear_arith)
                            requires d < n, m < mirror_count;
                        assert((n * (m + 1) + d) % (n as int) == d) by (nonlinear_arith)
                            requires d < n, n >= 1;
                        assert(physical_of((n * (m + 1) + d) as u64, n as nat) == d as u32);
                    }
                    let key = (n * (m as usize + 1) + d) as u64;
                    map.insert(key, d as u32);
                    d += 1;
                    assert(map@ =~= Map::new(|k: u64| k < n * (m + 1) + d, |k: u64| physical_of(k, n as nat)));
                }
                proof {
                    assert(n * (m + 1) + n == n * (m + 2)) by (nonlinear_arith);
                }
                m += 1;
                assert(map@ =~= spec_device_map(n as nat, m as nat));
            }
            assert(map@ =~= spec_device_map(n as nat, mirror_count as nat));
            self.device_info = info;
            self.devices = devices;
            self.device_map = map;
        }
        let mut out: Vec<RenderDeviceInfo> = Vec::new();
        let mut k: usize = 0;
        while k < self.device_info.len()
            invariant
                k <= self.device_info@.len(),
                out@.len() == k,
                forall|i: int| 0 <= i < k ==> (#[trigger] out@[i]).device_index == self.device_info@[i].device_index
                    && out@[i].name@ == self.device_info@[i].name@
                    && out@[i].vendor_id == self.device_info@[i].vendor_id
                    && out@[i].device_id == self.device_info@[i].device_id
                    && out@[i].device_type == self.device_info@[i].device_type,
            decreases self.device_info@.len() - k,
        {
            out.push(copy_device_info(&self.device_info[k]));
            k += 1;
        }
        Ok(out)
    }

    /// The slot of a device id, or an error when there is no such device.
    pub fn device_slot(&self, device_id: usize) -> (r: Result<usize, BackendError>)
        ensures
            device_id < self.devices@.len() ==> r == Ok::<usize, BackendError>(device_id),
            device_id >= self.devices@.len() ==> r == Err::<usize, BackendError>(BackendError::NoDeviceFound(device_id)),
    {
        if device_id >= self.devices.len() {
            Err(BackendError::NoDeviceFound(device_id))
        } else {
            Ok(device_id)
        }
    }

    /// Note that the device with this id was created.
    pub fn create_device(&mut self, device_id: usize) -> (r: Result<(), BackendError>)
        requires
            old(self).wf(),
        ensures
            final(self).wf(),
            device_id < old(self).devices@.len() ==> r is Ok && final(self).devices@ == old(self).devices@.update(device_id as int, true),
            device_id >= old(self).devices@.len() ==> r == Err::<(), BackendError>(BackendError::NoDeviceFound(device_id))
                && final(self).devices@ == old(self).devices@,
            final(self).device_info@ == old(self).device_info@,
            final(self).adapters@ == old(self).adapters@,
            final(self).device_map@ == old(self).device_map@,
    {
        if device_id >= self.devices.len() {
            Err(BackendError::NoDeviceFound(device_id))
        } else {
            self.devices.set(device_id, true);
            Ok(())
        }
    }

    /// Note that the device with this id was destroyed.
    pub fn destroy_device(&mut self, device_id: usize) -> (r: Result<(), BackendError>)
        requires
            old(self).wf(),
        ensures
            final(self).wf(),
            device_id < old(self).devices@.len() ==> r is Ok && final(self).devices@ == old(self).devices@.update(device_id as int, false),
            device_id >= old(self).devices@.len() ==> r == Err::<(), BackendError>(BackendError::NoDeviceFound(device_id))
                && final(self).devices@ == old(self).devices@,
            final(self).device_info@ == old(self).device_info@,
            final(self).adapters@ == old(self).adapters@,
            final(self).device_map@ == old(self).device_map@,
    {
        if device_id >= self.devices.len() {
            Err(BackendError::NoDeviceFound(device_id))
        } else {
            self.devices.set(device_id, false);
            Ok(())
        }
    }

    /// Whether the device with this id is created.
    pub fn get_device(&self, device_id: usize) -> (r: Result<bool, BackendError>)
        ensures
            device_id < self.devices@.len() ==> r == Ok::<bool, BackendError>(self.devices@[device_id as int]),
            device_id >= self.devices@.len() ==> r == Err::<bool, BackendError>(BackendError::NoDeviceFound(device_id)),
    {
        if device_id >= self.devices.len() {
            Err(BackendError::NoDeviceFound(device_id))
        } else {
            Ok(self.devices[device_id])
        }
    }
}

/// A created device is found created until it is destroyed, and a
/// destroyed one is found absent.
pub proof fn lemma_create_then_get(devices: Seq<bool>, id: int, other: int)
    requires
        0 <= id < devices.len(),
        0 <= other < devices.len(),
    ensures
        devices.update(id, true)[id],
        !devices.update(id, true).update(id, false)[id],
        other != id ==> devices.update(id, true)[other] == devices[other],
{
}

} // verus!
