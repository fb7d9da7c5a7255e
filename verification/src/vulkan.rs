//! Vulkan capabilities that the Android native presenter needs: API version
//! decoding and the device extensions for importing hardware buffers and
//! exporting fences.

use vstd::prelude::*;
use crate::text::{str_equal, str_views};
use vstd::string::StringExecFns;

verus! {

pub const VK_EXT_AHB: &'static str = "VK_ANDROID_external_memory_android_hardware_buffer";
pub const VK_EXT_EXTERNAL_MEMORY: &'static str = "VK_KHR_external_memory";
pub const VK_EXT_EXTERNAL_MEMORY_FD: &'static str = "VK_KHR_external_memory_fd";
pub const VK_EXT_EXTERNAL_SEMAPHORE: &'static str = "VK_KHR_external_semaphore";
pub const VK_EXT_EXTERNAL_SEMAPHORE_FD: &'static str = "VK_KHR_external_semaphore_fd";
pub const VK_EXT_DEDICATED_ALLOCATION: &'static str = "VK_KHR_dedicated_allocation";
pub const VK_EXT_GET_MEMORY_REQUIREMENTS2: &'static str = "VK_KHR_get_memory_requirements2";
pub const VK_EXT_BIND_MEMORY2: &'static str = "VK_KHR_bind_memory2";
pub const VK_EXT_QUEUE_FAMILY_FOREIGN: &'static str = "VK_EXT_queue_family_foreign";
pub const VK_EXT_SAMPLER_YCBCR_CONVERSION: &'static str = "VK_KHR_sampler_ycbcr_conversion";

/// Major, minor and patch numbers packed into a Vulkan API version: bits
/// 22 and up, bits 12 to 21, and bits 0 to 11.
pub open spec fn version_parts(v: u32) -> (u32, u32, u32) {
    ((v / 0x400000) as u32, ((v / 0x1000) % 0x400) as u32, (v % 0x1000) as u32)
}

/// The major, minor and patch numbers of a Vulkan API version.
pub fn vulkan_api_version_tuple(api_version: u32) -> (r: (u32, u32, u32))
    ensures
        r == version_parts(api_version),
{
    let major = api_version >> 22;
    let minor = (api_version >> 12) & 0x3ff;
    let patch = api_version & 0xfff;
    assert(major == api_version / 0x400000) by (bit_vector)
        requires
            major == api_version >> 22,
    ;
    assert(minor == (api_version / 0x1000) % 0x400) by (bit_vector)
        requires
            minor == (api_version >> 12) & 0x3ff,
    ;
    assert(patch == api_version % 0x1000) by (bit_vector)
        requires
            patch == api_version & 0xfff,
    ;
    (major, minor, patch)
}

/// The version is Vulkan 1.1 or later.
pub open spec fn at_least_1_1(v: u32) -> bool {
    version_parts(v).0 > 1 || (version_parts(v).0 == 1 && version_parts(v).1 >= 1)
}

/// Whether an API version is Vulkan 1.1 or later.
pub fn vulkan_api_at_least_1_1(api_version: u32) -> (r: bool)
    ensures
        r == at_least_1_1(api_version),
{
    let (major, minor, _) = vulkan_api_version_tuple(api_version);
    major > 1 || (major == 1 && minor >= 1)
}

/// The three parts put back together give the version.
pub proof fn lemma_version_parts_recompose(v: u32)
    ensures
        version_parts(v).0 * 0x400000 + version_parts(v).1 * 0x1000 + version_parts(v).2 == v,
        version_parts(v).1 < 0x400,
        version_parts(v).2 < 0x1000,
{
    let a = v / 0x400000;
    let b = v / 0x1000;
    assert(b == a * 0x400 + b % 0x400);
    assert(v == b * 0x1000 + v % 0x1000);
}

/// Which of the presenter's Vulkan extensions a device offers.
#[derive(Clone, Copy, Debug, PartialEq, Eq, Structural)]
pub struct VulkanNativePresenterExtensionSupport {
    pub android_hardware_buffer: bool,
    pub external_memory: bool,
    pub external_memory_fd: bool,
    pub external_semaphore: bool,
    pub external_semaphore_fd: bool,
    pub dedicated_allocation: bool,
    pub get_memory_requirements2: bool,
    pub bind_memory2: bool,
    pub queue_family_foreign: bool,
    pub sampler_ycbcr_conversion: bool,
}

/// `s` after the promotions of Vulkan 1.1: from 1.1 on, external memory and
/// semaphores, dedicated allocation, memory requirements 2, bind memory 2
/// and YCbCr conversion are core.
pub open spec fn promoted(s: VulkanNativePresenterExtensionSupport, api_version: u32) -> VulkanNativePresenterExtensionSupport {
    if at_least_1_1(api_version) {
        VulkanNativePresenterExtensionSupport {
            external_memory: true,
            external_semaphore: true,
            dedicated_allocation: true,
            get_memory_requirements2: true,
            bind_memory2: true,
            sampler_ycbcr_conversion: true,
            ..s
        }
    } else {
        s
    }
}

/// `items` if `missing`, nothing otherwise.
pub open spec fn when_missing(missing: bool, item: &str) -> Seq<Seq<char>> {
    if missing { seq![item@] } else { Seq::empty() }
}

/// The required capabilities that `s` lacks, by name.
pub open spec fn required_missing_names(s: VulkanNativePresenterExtensionSupport) -> Seq<Seq<char>> {
    when_missing(!s.android_hardware_buffer, "VK_ANDROID_external_memory_android_hardware_buffer")
        + when_missing(!s.external_memory, "VK_KHR_external_memory/core1.1")
        + when_missing(!s.external_semaphore, "VK_KHR_external_semaphore/core1.1")
        + when_missing(!s.external_semaphore_fd, "VK_KHR_external_semaphore_fd")
}

/// The advisory capabilities that `s` lacks, by name.
pub open spec fn advisory_missing_names(s: VulkanNativePresenterExtensionSupport) -> Seq<Seq<char>> {
    when_missing(!s.dedicated_allocation, "VK_KHR_dedicated_allocation/core1.1")
        + when_missing(!s.get_memory_requirements2, "VK_KHR_get_memory_requirements2/core1.1")
        + when_missing(!s.bind_memory2, "VK_KHR_bind_memory2/core1.1")
        + when_missing(!s.queue_family_foreign, "VK_EXT_queue_family_foreign")
        + when_missing(!s.sampler_ycbcr_conversion, "VK_KHR_sampler_ycbcr_conversion/core1.1")
}

/// "true" or "false".
pub open spec fn bool_text(b: bool) -> Seq<char> {
    if b { "true"@ } else { "false"@ }
}

/// The one-line description of `s`.
pub open spec fn description(s: VulkanNativePresenterExtensionSupport) -> Seq<char> {
    "AHB="@ + bool_text(s.android_hardware_buffer) + " external_memory="@ + bool_text(
        s.external_memory,
    ) + " external_memory_fd="@ + bool_text(s.external_memory_fd) + " external_semaphore="@
        + bool_text(s.external_semaphore) + " external_semaphore_fd="@ + bool_text(
        s.external_semaphore_fd,
    ) + " dedicated_allocation="@ + bool_text(s.dedicated_allocation)
        + " get_memory_requirements2="@ + bool_text(s.get_memory_requirements2)
        + " bind_memory2="@ + bool_text(s.bind_memory2) + " queue_family_foreign="@ + bool_text(
        s.queue_family_foreign,
    ) + " sampler_ycbcr_conversion="@ + bool_text(s.sampler_ycbcr_conversion)
}

/// Support read from the names in `enabled`, before promotions.
pub open spec fn support_from_names(enabled: Seq<Seq<char>>) -> VulkanNativePresenterExtensionSupport {
    VulkanNativePresenterExtensionSupport {
        android_hardware_buffer: enabled.contains(VK_EXT_AHB@),
        external_memory: enabled.contains(VK_EXT_EXTERNAL_MEMORY@),
        external_memory_fd: enabled.contains(VK_EXT_EXTERNAL_MEMORY_FD@),
        external_semaphore: enabled.contains(VK_EXT_EXTERNAL_SEMAPHORE@),
        external_semaphore_fd: enabled.contains(VK_EXT_EXTERNAL_SEMAPHORE_FD@),
        dedicated_allocation: enabled.contains(VK_EXT_DEDICATED_ALLOCATION@),
        get_memory_requirements2: enabled.contains(VK_EXT_GET_MEMORY_REQUIREMENTS2@),
        bind_memory2: enabled.contains(VK_EXT_BIND_MEMORY2@),
        queue_family_foreign: enabled.contains(VK_EXT_QUEUE_FAMILY_FOREIGN@),
        sampler_ycbcr_conversion: enabled.contains(VK_EXT_SAMPLER_YCBCR_CONVERSION@),
    }
}

fn name_listed(enabled: &[&str], name: &str) -> (r: bool)
    ensures
        r == str_views(enabled@).contains(name@),
{
    let mut i: usize = 0;
    while i < enabled.len()
        invariant
            0 <= i <= enabled@.len(),
            forall|j: int| 0 <= j < i ==> enabled@[j]@ != name@,
        decreases enabled@.len() - i,
    {
        if str_equal(enabled[i], name) {
            assert(str_views(enabled@)[i as int] == name@);
            return true;
        }
        i = i + 1;
    }
    assert forall|j: int| 0 <= j < str_views(enabled@).len() implies str_views(enabled@)[j] != name@ by {
        assert(str_views(enabled@)[j] == enabled@[j]@);
    }
    false
}

fn push_flag(s: &mut String, label: &str, b: bool)
    ensures
        final(s)@ == old(s)@ + label@ + bool_text(b),
{
    s.append(label);
    if b {
        s.append("true");
    } else {
        s.append("false");
    }
}

impl VulkanNativePresenterExtensionSupport {
    /// Support for the extensions named in `enabled`, with the promotions of
    /// `api_version` applied.
    pub fn from_enabled_extensions(enabled: &[&str], api_version: u32) -> (r: Self)
        ensures
            r == promoted(support_from_names(str_views(enabled@)), api_version),
    {
        let mut support = VulkanNativePresenterExtensionSupport {
            android_hardware_buffer: name_listed(enabled, VK_EXT_AHB),
            external_memory: name_listed(enabled, VK_EXT_EXTERNAL_MEMORY),
            external_memory_fd: name_listed(enabled, VK_EXT_EXTERNAL_MEMORY_FD),
            external_semaphore: name_listed(enabled, VK_EXT_EXTERNAL_SEMAPHORE),
            external_semaphore_fd: name_listed(enabled, VK_EXT_EXTERNAL_SEMAPHORE_FD),
            dedicated_allocation: name_listed(enabled, VK_EXT_DEDICATED_ALLOCATION),
            get_memory_requirements2: name_listed(enabled, VK_EXT_GET_MEMORY_REQUIREMENTS2),
            bind_memory2: name_listed(enabled, VK_EXT_BIND_MEMORY2),
            queue_family_foreign: name_listed(enabled, VK_EXT_QUEUE_FAMILY_FOREIGN),
            sampler_ycbcr_conversion: name_listed(enabled, VK_EXT_SAMPLER_YCBCR_CONVERSION),
        };
        support.apply_core_promotions(api_version);
        support
    }

    /// Support as `supports` reports it for each extension name, with the
    /// promotions of `api_version` applied.
    pub fn from_support_predicate<F: Fn(&str) -> bool>(api_version: u32, supports: F) -> (r: Self)
        requires
            forall|name: &str| call_requires(supports, (name,)),
        ensures
            exists|raw: Self| #![trigger promoted(raw, api_version)]
                r == promoted(raw, api_version)
                && call_ensures(supports, (VK_EXT_AHB,), raw.android_hardware_buffer)
                && call_ensures(supports, (VK_EXT_EXTERNAL_MEMORY,), raw.external_memory)
                && call_ensures(supports, (VK_EXT_EXTERNAL_MEMORY_FD,), raw.external_memory_fd)
                && call_ensures(supports, (VK_EXT_EXTERNAL_SEMAPHORE,), raw.external_semaphore)
                && call_ensures(supports, (VK_EXT_EXTERNAL_SEMAPHORE_FD,), raw.external_semaphore_fd)
                && call_ensures(supports, (VK_EXT_DEDICATED_ALLOCATION,), raw.dedicated_allocation)
                && call_ensures(supports, (VK_EXT_GET_MEMORY_REQUIREMENTS2,), raw.get_memory_requirements2)
                && call_ensures(supports, (VK_EXT_BIND_MEMORY2,), raw.bind_memory2)
                && call_ensures(supports, (VK_EXT_QUEUE_FAMILY_FOREIGN,), raw.queue_family_foreign)
                && call_ensures(supports, (VK_EXT_SAMPLER_YCBCR_CONVERSION,), raw.sampler_ycbcr_conversion),
    {
        let raw = VulkanNativePresenterExtensionSupport {
            android_hardware_buffer: supports(VK_EXT_AHB),
            external_memory: supports(VK_EXT_EXTERNAL_MEMORY),
            external_memory_fd: supports(VK_EXT_EXTERNAL_MEMORY_FD),
            external_semaphore: supports(VK_EXT_EXTERNAL_SEMAPHORE),
            external_semaphore_fd: supports(VK_EXT_EXTERNAL_SEMAPHORE_FD),
            dedicated_allocation: supports(VK_EXT_DEDICATED_ALLOCATION),
            get_memory_requirements2: supports(VK_EXT_GET_MEMORY_REQUIREMENTS2),
            bind_memory2: supports(VK_EXT_BIND_MEMORY2),
            queue_family_foreign: supports(VK_EXT_QUEUE_FAMILY_FOREIGN),
            sampler_ycbcr_conversion: supports(VK_EXT_SAMPLER_YCBCR_CONVERSION),
        };
        let mut support = raw;
        support.apply_core_promotions(api_version);
        support
    }

    /// Marks the capabilities that Vulkan 1.1 made core as present when the
    /// API version is 1.1 or later.
    pub fn apply_core_promotions(&mut self, api_version: u32)
        ensures
            *final(self) == promoted(*old(self), api_version),
    {
        if vulkan_api_at_least_1_1(api_version) {
            self.external_memory = true;
            self.external_semaphore = true;
            self.dedicated_allocation = true;
            self.get_memory_requirements2 = true;
            self.bind_memory2 = true;
            self.sampler_ycbcr_conversion = true;
        }
    }

    /// Names of the required capabilities that are missing.
    pub fn required_missing(&self) -> (r: Vec<&'static str>)
        ensures
            str_views(r@) == required_missing_names(*self),
    {
        let mut missing: Vec<&'static str> = Vec::new();
        if !self.android_hardware_buffer {
            missing.push("VK_ANDROID_external_memory_android_hardware_buffer");
        }
        if !self.external_memory {
            missing.push("VK_KHR_external_memory/core1.1");
        }
        if !self.external_semaphore {
            missing.push("VK_KHR_external_semaphore/core1.1");
        }
        if !self.external_semaphore_fd {
            missing.push("VK_KHR_external_semaphore_fd");
        }
        assert(str_views(missing@) =~= required_missing_names(*self));
        missing
    }

    /// Names of the advisory capabilities that are missing.
    pub fn advisory_missing(&self) -> (r: Vec<&'static str>)
        ensures
            str_views(r@) == advisory_missing_names(*self),
    {
        let mut missing: Vec<&'static str> = Vec::new();
        if !self.dedicated_allocation {
            missing.push("VK_KHR_dedicated_allocation/core1.1");
        }
        if !self.get_memory_requirements2 {
            missing.push("VK_KHR_get_memory_requirements2/core1.1");
        }
        if !self.bind_memory2 {
            missing.push("VK_KHR_bind_memory2/core1.1");
        }
        if !self.queue_family_foreign {
            missing.push("VK_EXT_queue_family_foreign");
        }
        if !self.sampler_ycbcr_conversion {
            missing.push("VK_KHR_sampler_ycbcr_conversion/core1.1");
        }
        assert(str_views(missing@) =~= advisory_missing_names(*self));
        missing
    }

    /// One line naming every capability and whether it is present.
    pub fn describe(&self) -> (r: String)
        ensures
            r@ == description(*self),
    {
        let mut s = String::new();
        push_flag(&mut s, "AHB=", self.android_hardware_buffer);
        push_flag(&mut s, " external_memory=", self.external_memory);
        push_flag(&mut s, " external_memory_fd=", self.external_memory_fd);
        push_flag(&mut s, " external_semaphore=", self.external_semaphore);
        push_flag(&mut s, " external_semaphore_fd=", self.external_semaphore_fd);
        push_flag(&mut s, " dedicated_allocation=", self.dedicated_allocation);
        push_flag(&mut s, " get_memory_requirements2=", self.get_memory_requirements2);
        push_flag(&mut s, " bind_memory2=", self.bind_memory2);
        push_flag(&mut s, " queue_family_foreign=", self.queue_family_foreign);
        push_flag(&mut s, " sampler_ycbcr_conversion=", self.sampler_ycbcr_conversion);
        assert(s@ =~= description(*self));
        s
    }
}

/// The names among the first `n` of `names` whose flag is set, in order.
pub open spec fn kept_names(names: Seq<&str>, flags: Seq<bool>, n: int) -> Seq<&str>
    decreases n,
{
    if n <= 0 {
        Seq::empty()
    } else if flags[n - 1] {
        kept_names(names, flags, n - 1).push(names[n - 1])
    } else {
        kept_names(names, flags, n - 1)
    }
}

/// The extension names as string slices, in the presenter's order.
pub open spec fn extension_strs() -> Seq<&'static str> {
    seq![
        VK_EXT_AHB,
        VK_EXT_EXTERNAL_MEMORY,
        VK_EXT_EXTERNAL_MEMORY_FD,
        VK_EXT_EXTERNAL_SEMAPHORE,
        VK_EXT_EXTERNAL_SEMAPHORE_FD,
        VK_EXT_DEDICATED_ALLOCATION,
        VK_EXT_GET_MEMORY_REQUIREMENTS2,
        VK_EXT_BIND_MEMORY2,
        VK_EXT_QUEUE_FAMILY_FOREIGN,
        VK_EXT_SAMPLER_YCBCR_CONVERSION,
    ]
}

/// The presenter's extensions that `supports` reports, in the presenter's
/// order: each name is asked once, and kept exactly when the answer is true.
pub fn custom_device_explicit_extensions<F: Fn(&str) -> bool>(supports: F) -> (r: Vec<&'static str>)
    requires
        forall|name: &str| call_requires(supports, (name,)),
    ensures
        exists|flags: Seq<bool>|
            flags.len() == 10 && (forall|i: int|
                0 <= i < 10 ==> call_ensures(supports, (#[trigger] extension_strs()[i],), flags[i]))
                && r@ == kept_names(extension_strs(), flags, 10),
{
    let names: [&'static str; 10] = [
        VK_EXT_AHB,
        VK_EXT_EXTERNAL_MEMORY,
        VK_EXT_EXTERNAL_MEMORY_FD,
        VK_EXT_EXTERNAL_SEMAPHORE,
        VK_EXT_EXTERNAL_SEMAPHORE_FD,
        VK_EXT_DEDICATED_ALLOCATION,
        VK_EXT_GET_MEMORY_REQUIREMENTS2,
        VK_EXT_BIND_MEMORY2,
        VK_EXT_QUEUE_FAMILY_FOREIGN,
        VK_EXT_SAMPLER_YCBCR_CONVERSION,
    ];
    assert(names@ =~= extension_strs());
    let mut out: Vec<&'static str> = Vec::new();
    let ghost mut flags: Seq<bool> = Seq::empty();
    let mut i: usize = 0;
    while i < 10
        invariant
            0 <= i <= 10,
            names@ == extension_strs(),
            forall|name: &str| call_requires(supports, (name,)),
            flags.len() == i,
            forall|k: int| 0 <= k < i ==> call_ensures(supports, (#[trigger] extension_strs()[k],), flags[k]),
            out@ == kept_names(extension_strs(), flags, i as int),
        decreases 10 - i,
    {
        let name = names[i];
        let keep = supports(name);
        if keep {
            out.push(name);
        }
        proof {
            let old_flags = flags;
            flags = flags.push(keep);
            assert(kept_names(extension_strs(), flags, i as int) =~= kept_names(extension_strs(), old_flags, i as int)) by {
                lemma_kept_prefix(extension_strs(), old_flags, flags, i as int);
            }
        }
        i = i + 1;
    }
    out
}

proof fn lemma_kept_prefix(names: Seq<&str>, a: Seq<bool>, b: Seq<bool>, n: int)
    requires
        0 <= n <= a.len(),
        n <= b.len(),
        forall|k: int| 0 <= k < n ==> a[k] == b[k],
    ensures
        kept_names(names, a, n) == kept_names(names, b, n),
    decreases n,
{
    if n > 0 {
        lemma_kept_prefix(names, a, b, n - 1);
    }
}

/// What a device lacks from the required list is exactly what blocks the
/// presenter: the list is empty when, and only when, hardware buffers,
/// external memory, external semaphores and semaphore fds are all present.
/// Applying the promotions twice is the same as once.
pub proof fn lemma_support_checks(s: VulkanNativePresenterExtensionSupport, api_version: u32)
    ensures
        required_missing_names(s).len() == 0 <==> (s.android_hardware_buffer && s.external_memory
            && s.external_semaphore && s.external_semaphore_fd),
        promoted(promoted(s, api_version), api_version) == promoted(s, api_version),
        at_least_1_1(api_version) ==> advisory_missing_names(promoted(s, api_version)).len() <= 1,
{
}

/// Whether memory type `index` is allowed by the bit mask `memory_type_bits`.
pub open spec fn memory_type_allowed(memory_type_bits: u32, index: int) -> bool {
    memory_type_bits & (1u32 << (index as u32)) != 0
}

/// Whether `flags` has every bit of `wanted`.
pub open spec fn flags_contain(flags: u32, wanted: u32) -> bool {
    flags & wanted == wanted
}

/// Whether memory type `index` is allowed and has the preferred properties.
pub open spec fn memory_type_preferred(
    memory_type_bits: u32,
    type_flags: Seq<u32>,
    preferred: u32,
    index: int,
) -> bool {
    memory_type_allowed(memory_type_bits, index) && flags_contain(type_flags[index], preferred)
}

/// Picks a Vulkan memory type: among the types allowed by
/// `memory_type_bits`, the first whose property flags (`type_flags`, one
/// entry per memory type of the device) contain `preferred_flags`, else the
/// first allowed type, else none.
pub fn choose_vulkan_memory_type(memory_type_bits: u32, type_flags: &[u32], preferred_flags: u32) -> (r:
    Option<u32>)
    requires
        type_flags@.len() <= 32,
    ensures
        match r {
            Some(i) => {
                &&& i < type_flags@.len()
                &&& memory_type_allowed(memory_type_bits, i as int)
                &&& {
                    ||| flags_contain(type_flags@[i as int], preferred_flags) && forall|j: int|
                        0 <= j < i ==> !#[trigger] memory_type_preferred(
                            memory_type_bits,
                            type_flags@,
                            preferred_flags,
                            j,
                        )
                    ||| (forall|j: int|
                        0 <= j < type_flags@.len() ==> !#[trigger] memory_type_preferred(
                            memory_type_bits,
                            type_flags@,
                            preferred_flags,
                            j,
                        )) && forall|j: int|
                        0 <= j < i ==> !#[trigger] memory_type_allowed(memory_type_bits, j)
                }
            },
            None => forall|j: int|
                0 <= j < type_flags@.len() ==> !#[trigger] memory_type_allowed(memory_type_bits, j),
        },
{
    let count = type_flags.len();
    let mut first_compatible: Option<u32> = None;
    let mut index: usize = 0;
    while index < count
        invariant
            count == type_flags@.len(),
            count <= 32,
            0 <= index <= count,
            forall|j: int|
                0 <= j < index ==> !#[trigger] memory_type_preferred(
                    memory_type_bits,
                    type_flags@,
                    preferred_flags,
                    j,
                ),
            match first_compatible {
                Some(c) => c < index && memory_type_allowed(memory_type_bits, c as int) && forall|
                    j: int,
                | 0 <= j < c ==> !#[trigger] memory_type_allowed(memory_type_bits, j),
                None => forall|j: int|
                    0 <= j < index ==> !#[trigger] memory_type_allowed(memory_type_bits, j),
            },
        decreases count - index,
    {
        let i: u32 = index as u32;
        if (memory_type_bits & (1u32 << i)) != 0 {
            if first_compatible.is_none() {
                first_compatible = Some(i);
            }
            let flags = type_flags[index];
            if flags & preferred_flags == preferred_flags {
                return Some(i);
            }
        }
        index = index + 1;
    }
    first_compatible
}

} // verus!
