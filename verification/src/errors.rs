//! Error values of the raw Vulkan layer and their classification from
//! `VkResult` codes.

use vstd::prelude::*;
use crate::vulkan;

verus! {

/// The device was lost.
#[derive(Clone, Copy, Debug, PartialEq, Eq, Structural)]
pub struct DeviceLost;

/// The surface was lost.
#[derive(Clone, Copy, Debug, PartialEq, Eq, Structural)]
pub struct SurfaceLost;

/// Out of memory error.
#[derive(Clone, Copy, Debug, PartialEq, Eq, Structural)]
pub enum OomError {
    /// Host memory exhausted.
    OutOfHostMemory,
    /// Device memory exhausted.
    OutOfDeviceMemory,
}

/// Possible errors returned by `Instance` and `PhysicalDevice`.
#[derive(Clone, Debug)]
pub enum InstanceError {
    LibraryLoadError(String),
    LoadError(Vec<&'static str>),
    OomError(OomError),
    InitializationFailed,
    LayerNotPresent,
    ExtensionNotPresent,
    IncompatibleDriver,
}

/// Possible errors returned by `Device`.
#[derive(Clone, Debug)]
pub enum DeviceError {
    LoadError(Vec<&'static str>),
    OomError(OomError),
    DeviceLost(DeviceLost),
    InitializationFailed,
    ExtensionNotPresent,
    FeatureNotPresent,
    TooManyObjects,
}

/// Possible errors returned by surface operations.
#[derive(Clone, Debug)]
pub enum SurfaceError {
    OomError(OomError),
    DeviceLost(DeviceLost),
    SurfaceLost(SurfaceLost),
    WindowInUse,
}

/// Failure to load the Vulkan library, as reported by the loader.
#[derive(Clone, Debug)]
pub enum VkLoadingError {
    LibraryLoadError(String),
}

/// Failure to create an instance or a device, as reported by the loader:
/// either missing entry points or a `VkResult` error code.
#[derive(Clone, Debug)]
pub enum VkInstanceError {
    LoadError(Vec<&'static str>),
    VkError(i32),
}

impl DeviceLost {
    pub fn from_vk_result(result: i32) -> (r: Self)
        requires
            result == vulkan::RESULT_ERROR_DEVICE_LOST,
    {
        DeviceLost
    }
}

impl SurfaceLost {
    pub fn from_vk_result(result: i32) -> (r: Self)
        requires
            result == vulkan::RESULT_ERROR_SURFACE_LOST_KHR,
    {
        SurfaceLost
    }
}

impl OomError {
    /// Codes that name an out-of-memory condition.
    pub open spec fn is_oom_code(result: i32) -> bool {
        result == vulkan::RESULT_ERROR_OUT_OF_HOST_MEMORY || result == vulkan::RESULT_ERROR_OUT_OF_DEVICE_MEMORY
    }

    pub open spec fn spec_from_vk_result(result: i32) -> OomError {
        if result == vulkan::RESULT_ERROR_OUT_OF_HOST_MEMORY {
            OomError::OutOfHostMemory
        } else {
            OomError::OutOfDeviceMemory
        }
    }

    /// Classify an out-of-memory code; no other code is accepted.
    pub fn from_vk_result(result: i32) -> (r: Self)
        requires
            OomError::is_oom_code(result),
        ensures
            r == OomError::spec_from_vk_result(result),
    {
        if result == vulkan::RESULT_ERROR_OUT_OF_HOST_MEMORY {
            OomError::OutOfHostMemory
        } else {
            OomError::OutOfDeviceMemory
        }
    }
}

impl InstanceError {
    /// Codes that `from_vk_result` classifies.
    pub open spec fn is_instance_code(result: i32) -> bool {
        ||| OomError::is_oom_code(result)
        ||| result == vulkan::RESULT_ERROR_INITIALIZATION_FAILED
        ||| result == vulkan::RESULT_ERROR_LAYER_NOT_PRESENT
        ||| result == vulkan::RESULT_ERROR_EXTENSION_NOT_PRESENT
        ||| result == vulkan::RESULT_ERROR_INCOMPATIBLE_DRIVER
    }

    pub open spec fn spec_from_vk_result(result: i32) -> InstanceError {
        if OomError::is_oom_code(result) {
            InstanceError::OomError(OomError::spec_from_vk_result(result))
        } else if result == vulkan::RESULT_ERROR_INITIALIZATION_FAILED {
            InstanceError::InitializationFailed
        } else if result == vulkan::RESULT_ERROR_LAYER_NOT_PRESENT {
            InstanceError::LayerNotPresent
        } else if result == vulkan::RESULT_ERROR_EXTENSION_NOT_PRESENT {
            InstanceError::ExtensionNotPresent
        } else {
            InstanceError::IncompatibleDriver
        }
    }

    pub fn from_loading_error(error: VkLoadingError) -> (r: Self)
        ensures
            match error {
                VkLoadingError::LibraryLoadError(name) => r == InstanceError::LibraryLoadError(name),
            },
    {
        match error {
            VkLoadingError::LibraryLoadError(name) => InstanceError::LibraryLoadError(name),
        }
    }

    pub fn from_instance_error(error: VkInstanceError) -> (r: Self)
        requires
            error matches VkInstanceError::VkError(code) ==> InstanceError::is_instance_code(code),
        ensures
            match error {
                VkInstanceError::LoadError(names) => r == InstanceError::LoadError(names),
                VkInstanceError::VkError(code) => r == InstanceError::spec_from_vk_result(code),
            },
    {
        match error {
            VkInstanceError::LoadError(names) => InstanceError::LoadError(names),
            VkInstanceError::VkError(result) => InstanceError::from_vk_result(result),
        }
    }

    /// Classify an instance-creation error code; only codes in
    /// `is_instance_code` are accepted.
    pub fn from_vk_result(result: i32) -> (r: Self)
        requires
            InstanceError::is_instance_code(result),
        ensures
            r == InstanceError::spec_from_vk_result(result),
    {
        if result == vulkan::RESULT_ERROR_OUT_OF_HOST_MEMORY {
            InstanceError::OomError(OomError::OutOfHostMemory)
        } else if result == vulkan::RESULT_ERROR_OUT_OF_DEVICE_MEMORY {
            InstanceError::OomError(OomError::OutOfDeviceMemory)
        } else if result == vulkan::RESULT_ERROR_INITIALIZATION_FAILED {
            InstanceError::InitializationFailed
        } else if result == vulkan::RESULT_ERROR_LAYER_NOT_PRESENT {
            InstanceError::LayerNotPresent
        } else if result == vulkan::RESULT_ERROR_EXTENSION_NOT_PRESENT {
            InstanceError::ExtensionNotPresent
        } else {
            InstanceError::IncompatibleDriver
        }
    }
}

impl DeviceError {
    /// Codes that `from_vk_result` classifies.
    pub open spec fn is_device_code(result: i32) -> bool {
        ||| OomError::is_oom_code(result)
        ||| result == vulkan::RESULT_ERROR_DEVICE_LOST
        ||| result == vulkan::RESULT_ERROR_INITIALIZATION_FAILED
        ||| result == vulkan::RESULT_ERROR_EXTENSION_NOT_PRESENT
        ||| result == vulkan::RESULT_ERROR_FEATURE_NOT_PRESENT
        ||| result == vulkan::RESULT_ERROR_TOO_MANY_OBJECTS
    }

    pub open spec fn spec_from_vk_result(result: i32) -> DeviceError {
        if OomError::is_oom_code(result) {
            DeviceError::OomError(OomError::spec_from_vk_result(result))
        } else if result == vulkan::RESULT_ERROR_DEVICE_LOST {
            DeviceError::DeviceLost(DeviceLost)
        } else if result == vulkan::RESULT_ERROR_INITIALIZATION_FAILED {
            DeviceError::InitializationFailed
        } else if result == vulkan::RESULT_ERROR_EXTENSION_NOT_PRESENT {
            DeviceError::ExtensionNotPresent
        } else if result == vulkan::RESULT_ERROR_FEATURE_NOT_PRESENT {
            DeviceError::FeatureNotPresent
        } else {
            DeviceError::TooManyObjects
        }
    }

    pub fn from_device_error(error: VkInstanceError) -> (r: Self)
        requires
            error matches VkInstanceError::VkError(code) ==> DeviceError::is_device_code(code),
        ensures
            match error {
                VkInstanceError::LoadError(names) => r == DeviceError::LoadError(names),
                VkInstanceError::VkError(code) => r == DeviceError::spec_from_vk_result(code),
            },
    {
        match error {
            VkInstanceError::LoadError(names) => DeviceError::LoadError(names),
            VkInstanceError::VkError(result) => DeviceError::from_vk_result(result),
        }
    }

    /// Classify a device error code; only codes in `is_device_code` are
    /// accepted.
    pub fn from_vk_result(result: i32) -> (r: Self)
        requires
            DeviceError::is_device_code(result),
        ensures
            r == DeviceError::spec_from_vk_result(result),
    {
        if result == vulkan::RESULT_ERROR_OUT_OF_HOST_MEMORY {
            DeviceError::OomError(OomError::OutOfHostMemory)
        } else if result == vulkan::RESULT_ERROR_OUT_OF_DEVICE_MEMORY {
            DeviceError::OomError(OomError::OutOfDeviceMemory)
        } else if result == vulkan::RESULT_ERROR_DEVICE_LOST {
            DeviceError::DeviceLost(DeviceLost)
        } else if result == vulkan::RESULT_ERROR_INITIALIZATION_FAILED {
            DeviceError::InitializationFailed
        } else if result == vulkan::RESULT_ERROR_EXTENSION_NOT_PRESENT {
            DeviceError::ExtensionNotPresent
        } else if result == vulkan::RESULT_ERROR_FEATURE_NOT_PRESENT {
            DeviceError::FeatureNotPresent
        } else {
            DeviceError::TooManyObjects
        }
    }
}

impl SurfaceError {
    /// Codes that `from_vk_result` classifies.
    pub open spec fn is_surface_code(result: i32) -> bool {
        ||| OomError::is_oom_code(result)
        ||| result == vulkan::RESULT_ERROR_DEVICE_LOST
        ||| result == vulkan::RESULT_ERROR_SURFACE_LOST_KHR
        ||| result == vulkan::RESULT_ERROR_NATIVE_WINDOW_IN_USE_KHR
    }

    pub open spec fn spec_from_vk_result(result: i32) -> SurfaceError {
        if OomError::is_oom_code(result) {
            SurfaceError::OomError(OomError::spec_from_vk_result(result))
        } else if result == vulkan::RESULT_ERROR_DEVICE_LOST {
            SurfaceError::DeviceLost(DeviceLost)
        } else if result == vulkan::RESULT_ERROR_SURFACE_LOST_KHR {
            SurfaceError::SurfaceLost(SurfaceLost)
        } else {
            SurfaceError::WindowInUse
        }
    }

    /// Classify a surface error code; only codes in `is_surface_code` are
    /// accepted.
    pub fn from_vk_result(result: i32) -> (r: Self)
        requires
            SurfaceError::is_surface_code(result),
        ensures
            r == SurfaceError::spec_from_vk_result(result),
    {
        if result == vulkan::RESULT_ERROR_OUT_OF_HOST_MEMORY {
            SurfaceError::OomError(OomError::OutOfHostMemory)
        } else if result == vulkan::RESULT_ERROR_OUT_OF_DEVICE_MEMORY {
            SurfaceError::OomError(OomError::OutOfDeviceMemory)
        } else if result == vulkan::RESULT_ERROR_DEVICE_LOST {
            SurfaceError::DeviceLost(DeviceLost)
        } else if result == vulkan::RESULT_ERROR_SURFACE_LOST_KHR {
            SurfaceError::SurfaceLost(SurfaceLost)
        } else {
            SurfaceError::WindowInUse
        }
    }
}

} // verus!
