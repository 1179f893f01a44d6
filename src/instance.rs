use vstd::prelude::*;

verus! {

/// A graphics API version as major, minor and patch numbers.
#[derive(Clone, Copy, Debug, PartialEq, Eq, Structural)]
pub struct ApiVersion {
    pub major: u32,
    pub minor: u32,
    pub patch: u32,
}

/// The API version from which the portability subset must be enumerated
/// explicitly on platforms that need it.
pub const PORTABILITY_MAJOR: u32 = 1;
pub const PORTABILITY_MINOR: u32 = 3;
pub const PORTABILITY_PATCH: u32 = 216;

/// Lexicographic order on (major, minor, patch).
pub open spec fn version_at_least(v: ApiVersion, w: ApiVersion) -> bool {
    v.major > w.major || (v.major == w.major && (v.minor > w.minor || (v.minor == w.minor
        && v.patch >= w.patch)))
}

pub open spec fn portability_threshold() -> ApiVersion {
    ApiVersion { major: PORTABILITY_MAJOR, minor: PORTABILITY_MINOR, patch: PORTABILITY_PATCH }
}

impl ApiVersion {
    pub fn new(major: u32, minor: u32, patch: u32) -> (r: ApiVersion)
        ensures
            r.major == major,
            r.minor == minor,
            r.patch == patch,
    {
        ApiVersion { major, minor, patch }
    }

    /// Whether `self` is the same version as `other` or a later one.
    pub fn at_least(&self, other: &ApiVersion) -> (r: bool)
        ensures
            r == version_at_least(*self, *other),
    {
        if self.major != other.major {
            self.major > other.major
        } else if self.minor != other.minor {
            self.minor > other.minor
        } else {
            self.patch >= other.patch
        }
    }
}

/// Instance extensions that the lifecycle core may ask for beyond those the
/// window system requires.
#[derive(Clone, Copy, Debug, PartialEq, Eq, Structural)]
pub enum InstanceExtension {
    GetPhysicalDeviceProperties2,
    PortabilityEnumeration,
}

/// What instance creation must add to the window system's requirements.
#[derive(Clone, Debug)]
pub struct InstancePlan {
    /// Whether the portability-enumeration creation flag is set.
    pub enumerate_portability: bool,
    /// Extensions to enable in addition to the window system's own.
    pub extra_extensions: Vec<InstanceExtension>,
}

/// Whether the portability subset has to be enabled, given whether the
/// platform needs it and the version of the loaded API.
pub open spec fn needs_portability(platform_requires: bool, api: ApiVersion) -> bool {
    platform_requires && version_at_least(api, portability_threshold())
}

pub open spec fn portability_extensions() -> Seq<InstanceExtension> {
    seq![InstanceExtension::GetPhysicalDeviceProperties2, InstanceExtension::PortabilityEnumeration]
}

/// Decides the creation flag and extra extensions of the API instance. The
/// platform capability is a value, not a compile-time branch, so the same
/// decision runs everywhere.
pub fn plan_instance(platform_requires_portability: bool, api: ApiVersion) -> (r: InstancePlan)
    ensures
        r.enumerate_portability == needs_portability(platform_requires_portability, api),
        r.enumerate_portability ==> r.extra_extensions@ == portability_extensions(),
        !r.enumerate_portability ==> r.extra_extensions@.len() == 0,
{
    let threshold = ApiVersion::new(PORTABILITY_MAJOR, PORTABILITY_MINOR, PORTABILITY_PATCH);
    if platform_requires_portability && api.at_least(&threshold) {
        let mut extra: Vec<InstanceExtension> = Vec::new();
        extra.push(InstanceExtension::GetPhysicalDeviceProperties2);
        extra.push(InstanceExtension::PortabilityEnumeration);
        InstancePlan { enumerate_portability: true, extra_extensions: extra }
    } else {
        InstancePlan { enumerate_portability: false, extra_extensions: Vec::new() }
    }
}

} // verus!
