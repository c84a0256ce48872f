//! Choosing a physical device, its queue families and its sample count, and
//! planning the queues of the logical device.

use vstd::prelude::*;
use crate::vk_flags::{
    contains, has_bits, API_VERSION_1_4, PHYSICAL_DEVICE_TYPE_DISCRETE_GPU, QUEUE_COMPUTE,
    QUEUE_GRAPHICS, QUEUE_TRANSFER, SAMPLE_COUNT_1, SAMPLE_COUNT_16, SAMPLE_COUNT_2,
    SAMPLE_COUNT_32, SAMPLE_COUNT_4, SAMPLE_COUNT_64, SAMPLE_COUNT_8,
    INSTANCE_CREATE_ENUMERATE_PORTABILITY, VALIDATION_FEATURE_ENABLE_BEST_PRACTICES,
    VALIDATION_FEATURE_ENABLE_SYNCHRONIZATION_VALIDATION,
};
use crate::vk_models::{PhysicalDeviceInfo, QueueFamily, VkQueueFamilyIndices};

verus! {

// ---------------------------------------------------------------------------
// Choosing the best-scoring queue family
// ---------------------------------------------------------------------------

/// Index `i` holds the highest score of `s`, and no earlier index holds that
/// same score; `None` entries are families that cannot do the work at all.
pub open spec fn is_first_best(s: Seq<Option<int>>, i: int) -> bool {
    &&& 0 <= i < s.len()
    &&& s[i] is Some
    &&& forall|j: int| 0 <= j < s.len() && #[trigger] s[j] is Some ==> s[j]->0 <= s[i]->0
    &&& forall|j: int| 0 <= j < i && #[trigger] s[j] is Some ==> s[j]->0 < s[i]->0
}

/// `r` is the first index of highest score in `s`, or `None` when every
/// entry of `s` is `None`.
pub open spec fn picks_first_best(s: Seq<Option<int>>, r: Option<u32>) -> bool {
    match r {
        Some(i) => is_first_best(s, i as int),
        None => forall|j: int| 0 <= j < s.len() ==> #[trigger] s[j] is None,
    }
}

/// Score of a family for graphics work: only families that support graphics
/// and presentation qualify; the queue count, plus 10 for compute support and
/// 5 for transfer support.
pub open spec fn graphics_score(f: QueueFamily) -> Option<int> {
    if has_bits(f.queue_flags, QUEUE_GRAPHICS) && f.present_support {
        Some(
            f.queue_count + (if has_bits(f.queue_flags, QUEUE_COMPUTE) { 10int } else { 0int })
                + (if has_bits(f.queue_flags, QUEUE_TRANSFER) { 5int } else { 0int }),
        )
    } else {
        None
    }
}

/// Score of a family for compute work: the queue count, plus 20 for a family
/// without graphics support.
pub open spec fn compute_score(f: QueueFamily) -> Option<int> {
    if has_bits(f.queue_flags, QUEUE_COMPUTE) {
        Some(f.queue_count + (if !has_bits(f.queue_flags, QUEUE_GRAPHICS) { 20int } else { 0int }))
    } else {
        None
    }
}

/// Score of a family for transfer work: the queue count, plus 30 for a
/// family with neither graphics nor compute support.
pub open spec fn transfer_score(f: QueueFamily) -> Option<int> {
    if has_bits(f.queue_flags, QUEUE_TRANSFER) {
        Some(
            f.queue_count + (if !has_bits(f.queue_flags, QUEUE_GRAPHICS) && !has_bits(
                f.queue_flags,
                QUEUE_COMPUTE,
            ) { 30int } else { 0int }),
        )
    } else {
        None
    }
}

pub open spec fn graphics_scores(fams: Seq<QueueFamily>) -> Seq<Option<int>> {
    fams.map_values(|f: QueueFamily| graphics_score(f))
}

pub open spec fn compute_scores(fams: Seq<QueueFamily>) -> Seq<Option<int>> {
    fams.map_values(|f: QueueFamily| compute_score(f))
}

pub open spec fn transfer_scores(fams: Seq<QueueFamily>) -> Seq<Option<int>> {
    fams.map_values(|f: QueueFamily| transfer_score(f))
}

pub open spec fn score_fits(s: Option<int>) -> bool {
    s is None || s->0 <= u32::MAX
}

/// Every score of every family fits in a `u32`, and every family index does.
pub open spec fn queue_families_in_range(fams: Seq<QueueFamily>) -> bool {
    &&& fams.len() <= u32::MAX + 1
    &&& forall|i: int|
        0 <= i < fams.len() ==> {
            &&& score_fits(#[trigger] graphics_score(fams[i]))
            &&& score_fits(compute_score(fams[i]))
            &&& score_fits(transfer_score(fams[i]))
        }
}

/// `idx` holds, for each kind of work, the first family of highest score.
pub open spec fn is_best_queue_families(fams: Seq<QueueFamily>, idx: VkQueueFamilyIndices) -> bool {
    &&& picks_first_best(graphics_scores(fams), idx.graphics_family)
    &&& picks_first_best(compute_scores(fams), idx.compute_family)
    &&& picks_first_best(transfer_scores(fams), idx.transfer_family)
}

/// The choice after looking at one more entry: the new entry wins when it
/// qualifies and either nothing was chosen yet or it scores strictly higher.
pub open spec fn pick_step(cur: Option<u32>, best: int, k: int, sk: Option<int>) -> Option<u32> {
    if sk is Some && (cur is None || sk->0 > best) {
        Some(k as u32)
    } else {
        cur
    }
}

proof fn lemma_pick_step(s: Seq<Option<int>>, k: int, cur: Option<u32>, best: int)
    requires
        0 <= k < s.len(),
        k <= u32::MAX,
        picks_first_best(s.take(k), cur),
        cur is Some ==> best == s[cur->0 as int]->0,
    ensures
        picks_first_best(s.take(k + 1), pick_step(cur, best, k, s[k])),
{
    let t = s.take(k + 1);
    assert forall|j: int| 0 <= j < k implies #[trigger] t[j] == s.take(k)[j] by {}
    assert(t[k] == s[k]);
    match cur {
        Some(c) => {
            assert(s.take(k)[c as int] == s[c as int]);
        },
        None => {},
    }
}

/// Among `families`, finds for graphics (with presentation), compute and
/// transfer work the first family of highest score (see `graphics_score`,
/// `compute_score`, `transfer_score`).
pub fn vk_find_best_queue_families(families: &Vec<QueueFamily>) -> (r: VkQueueFamilyIndices)
    requires
        queue_families_in_range(families@),
    ensures
        is_best_queue_families(families@, r),
{
    let mut indices = VkQueueFamilyIndices::default();
    let mut best_graphics_score: u32 = 0;
    let mut best_compute_score: u32 = 0;
    let mut best_transfer_score: u32 = 0;
    let ghost gs = graphics_scores(families@);
    let ghost cs = compute_scores(families@);
    let ghost ts = transfer_scores(families@);

    let n = families.len();
    let mut i: usize = 0;
    while i < n
        invariant
            n == families@.len(),
            0 <= i <= n,
            queue_families_in_range(families@),
            gs == graphics_scores(families@),
            cs == compute_scores(families@),
            ts == transfer_scores(families@),
            picks_first_best(gs.take(i as int), indices.graphics_family),
            picks_first_best(cs.take(i as int), indices.compute_family),
            picks_first_best(ts.take(i as int), indices.transfer_family),
            indices.graphics_family is Some ==> best_graphics_score == gs[indices.graphics_family->0 as int]->0,
            indices.compute_family is Some ==> best_compute_score == cs[indices.compute_family->0 as int]->0,
            indices.transfer_family is Some ==> best_transfer_score == ts[indices.transfer_family->0 as int]->0,
        decreases n - i,
    {
        let family = families[i];
        let flags = family.queue_flags;
        let queue_count = family.queue_count;
        let idx = i as u32;
        proof {
            assert(score_fits(graphics_score(families@[i as int])));
            lemma_pick_step(gs, i as int, indices.graphics_family, best_graphics_score as int);
            lemma_pick_step(cs, i as int, indices.compute_family, best_compute_score as int);
            lemma_pick_step(ts, i as int, indices.transfer_family, best_transfer_score as int);
        }

        // Graphics queue (highest priority)
        if contains(flags, QUEUE_GRAPHICS) {
            if family.present_support {
                let mut score = queue_count;
                if contains(flags, QUEUE_COMPUTE) {
                    score += 10;
                }
                if contains(flags, QUEUE_TRANSFER) {
                    score += 5;
                }
                if indices.graphics_family.is_none() || score > best_graphics_score {
                    indices.graphics_family = Some(idx);
                    best_graphics_score = score;
                }
            }
        }

        // Compute queue (prefer dedicated)
        if contains(flags, QUEUE_COMPUTE) {
            let mut score = queue_count;
            if !contains(flags, QUEUE_GRAPHICS) {
                score += 20;
            }
            if indices.compute_family.is_none() || score > best_compute_score {
                indices.compute_family = Some(idx);
                best_compute_score = score;
            }
        }

        // Transfer queue (prefer dedicated)
        if contains(flags, QUEUE_TRANSFER) {
            let mut score = queue_count;
            if !contains(flags, QUEUE_GRAPHICS) && !contains(flags, QUEUE_COMPUTE) {
                score += 30;
            }
            if indices.transfer_family.is_none() || score > best_transfer_score {
                indices.transfer_family = Some(idx);
                best_transfer_score = score;
            }
        }
        i += 1;
    }
    proof {
        assert(gs.take(n as int) =~= gs);
        assert(cs.take(n as int) =~= cs);
        assert(ts.take(n as int) =~= ts);
    }
    indices
}


/// At most one index of a sequence of scores is the first of highest score,
/// so a choice that `picks_first_best` describes is unique.
pub proof fn lemma_first_best_unique(s: Seq<Option<int>>, i: int, j: int)
    requires
        is_first_best(s, i),
        is_first_best(s, j),
    ensures
        i == j,
{
    if i < j {
        assert(s[i] is Some);
    } else if j < i {
        assert(s[j] is Some);
    }
}

/// Some family of `fams` supports graphics and can present to the surface.
pub open spec fn has_graphics_and_present_family(fams: Seq<QueueFamily>) -> bool {
    exists|i: int|
        0 <= i < fams.len() && has_bits(#[trigger] fams[i].queue_flags, QUEUE_GRAPHICS)
            && fams[i].present_support
}

/// Some family of `fams` has all the bits of `bits`.
pub open spec fn has_family_with(fams: Seq<QueueFamily>, bits: u32) -> bool {
    exists|i: int| 0 <= i < fams.len() && has_bits(#[trigger] fams[i].queue_flags, bits)
}

/// The best queue families leave a kind of work without a family exactly
/// when no family of the device can do it: graphics needs graphics and
/// presentation, compute needs compute, transfer needs transfer.
pub proof fn lemma_best_queue_families_found(fams: Seq<QueueFamily>, idx: VkQueueFamilyIndices)
    requires
        is_best_queue_families(fams, idx),
    ensures
        idx.graphics_family is Some <==> has_graphics_and_present_family(fams),
        idx.compute_family is Some <==> has_family_with(fams, QUEUE_COMPUTE),
        idx.transfer_family is Some <==> has_family_with(fams, QUEUE_TRANSFER),
{
    let gs = graphics_scores(fams);
    let cs = compute_scores(fams);
    let ts = transfer_scores(fams);
    if has_graphics_and_present_family(fams) {
        let i = choose|i: int|
            0 <= i < fams.len() && has_bits(#[trigger] fams[i].queue_flags, QUEUE_GRAPHICS)
                && fams[i].present_support;
        assert(gs[i] is Some);
    }
    if idx.graphics_family is Some {
        let g = idx.graphics_family->0 as int;
        assert(gs[g] is Some);
        assert(has_bits(fams[g].queue_flags, QUEUE_GRAPHICS));
    }
    if has_family_with(fams, QUEUE_COMPUTE) {
        let i = choose|i: int| 0 <= i < fams.len() && has_bits(#[trigger] fams[i].queue_flags, QUEUE_COMPUTE);
        assert(cs[i] is Some);
    }
    if idx.compute_family is Some {
        let c = idx.compute_family->0 as int;
        assert(cs[c] is Some);
        assert(has_bits(fams[c].queue_flags, QUEUE_COMPUTE));
    }
    if has_family_with(fams, QUEUE_TRANSFER) {
        let i = choose|i: int| 0 <= i < fams.len() && has_bits(#[trigger] fams[i].queue_flags, QUEUE_TRANSFER);
        assert(ts[i] is Some);
    }
    if idx.transfer_family is Some {
        let t = idx.transfer_family->0 as int;
        assert(ts[t] is Some);
        assert(has_bits(fams[t].queue_flags, QUEUE_TRANSFER));
    }
}

/// Dedicated families are preferred: a family that can also do graphics is
/// not chosen for compute over a compute-only family unless it has at least
/// 20 more queues, and a family that can also do graphics or compute is not
/// chosen for transfer over a transfer-only family unless it has at least 30
/// more queues.
pub proof fn lemma_dedicated_families_preferred(
    fams: Seq<QueueFamily>,
    idx: VkQueueFamilyIndices,
    dedicated: int,
    shared: int,
)
    requires
        is_best_queue_families(fams, idx),
        0 <= dedicated < fams.len(),
        0 <= shared < fams.len(),
        fams.len() <= u32::MAX + 1,
    ensures
        has_bits(fams[dedicated].queue_flags, QUEUE_COMPUTE) && !has_bits(
            fams[dedicated].queue_flags,
            QUEUE_GRAPHICS,
        ) && has_bits(fams[shared].queue_flags, QUEUE_COMPUTE) && has_bits(
            fams[shared].queue_flags,
            QUEUE_GRAPHICS,
        ) && fams[shared].queue_count < fams[dedicated].queue_count + 20 ==> idx.compute_family != Some(
            shared as u32,
        ),
        has_bits(fams[dedicated].queue_flags, QUEUE_TRANSFER) && !has_bits(
            fams[dedicated].queue_flags,
            QUEUE_GRAPHICS,
        ) && !has_bits(fams[dedicated].queue_flags, QUEUE_COMPUTE) && has_bits(
            fams[shared].queue_flags,
            QUEUE_TRANSFER,
        ) && (has_bits(fams[shared].queue_flags, QUEUE_GRAPHICS) || has_bits(
            fams[shared].queue_flags,
            QUEUE_COMPUTE,
        )) && fams[shared].queue_count < fams[dedicated].queue_count + 30 ==> idx.transfer_family
            != Some(shared as u32),
{
    let cs = compute_scores(fams);
    let ts = transfer_scores(fams);
    assert(cs[dedicated] == compute_score(fams[dedicated]));
    assert(cs[shared] == compute_score(fams[shared]));
    assert(ts[dedicated] == transfer_score(fams[dedicated]));
    assert(ts[shared] == transfer_score(fams[shared]));
    if idx.transfer_family == Some(shared as u32) {
        assert(is_first_best(ts, shared));
        if ts[dedicated] is Some {
            assert(ts[dedicated]->0 <= ts[shared]->0);
        }
    }
    if idx.compute_family == Some(shared as u32) {
        assert(is_first_best(cs, shared));
        if cs[dedicated] is Some {
            assert(cs[dedicated]->0 <= cs[shared]->0);
        }
    }
}

/// Tells whether some queue family of the device supports graphics and can
/// present to the surface.
pub fn vk_is_physical_device_has_graphics_and_present_family(families: &Vec<QueueFamily>) -> (r: bool)
    ensures
        r == has_graphics_and_present_family(families@),
{
    let n = families.len();
    let mut i: usize = 0;
    while i < n
        invariant
            n == families@.len(),
            0 <= i <= n,
            forall|j: int|
                0 <= j < i ==> !(has_bits(#[trigger] families@[j].queue_flags, QUEUE_GRAPHICS)
                    && families@[j].present_support),
        decreases n - i,
    {
        if contains(families[i].queue_flags, QUEUE_GRAPHICS) && families[i].present_support {
            return true;
        }
        i += 1;
    }
    false
}

// ---------------------------------------------------------------------------
// Sample count
// ---------------------------------------------------------------------------

/// Both the color and the depth attachments support the sample count `s`.
pub open spec fn sample_count_supported(color: u32, depth: u32, s: u32) -> bool {
    has_bits(color, s) && has_bits(depth, s)
}

/// `r` is the highest of the counts 2, 4, ..., 64 that both attachments
/// support, or 1 when they share none of them.
pub open spec fn is_max_usable_sample_count(color: u32, depth: u32, r: u32) -> bool {
    &&& (r == SAMPLE_COUNT_1 || r == SAMPLE_COUNT_2 || r == SAMPLE_COUNT_4 || r == SAMPLE_COUNT_8
        || r == SAMPLE_COUNT_16 || r == SAMPLE_COUNT_32 || r == SAMPLE_COUNT_64)
    &&& (r == SAMPLE_COUNT_1 || sample_count_supported(color, depth, r))
    &&& (r < SAMPLE_COUNT_2 ==> !sample_count_supported(color, depth, SAMPLE_COUNT_2))
    &&& (r < SAMPLE_COUNT_4 ==> !sample_count_supported(color, depth, SAMPLE_COUNT_4))
    &&& (r < SAMPLE_COUNT_8 ==> !sample_count_supported(color, depth, SAMPLE_COUNT_8))
    &&& (r < SAMPLE_COUNT_16 ==> !sample_count_supported(color, depth, SAMPLE_COUNT_16))
    &&& (r < SAMPLE_COUNT_32 ==> !sample_count_supported(color, depth, SAMPLE_COUNT_32))
    &&& (r < SAMPLE_COUNT_64 ==> !sample_count_supported(color, depth, SAMPLE_COUNT_64))
}

proof fn lemma_and_has_bits(a: u32, b: u32, c: u32)
    ensures
        has_bits(a & b, c) <==> (has_bits(a, c) && has_bits(b, c)),
{
    assert(((a & b) & c == c) <==> (a & c == c && b & c == c)) by (bit_vector);
}

/// The highest sample count that both the color and the depth attachments of
/// a framebuffer support (see `is_max_usable_sample_count`).
pub fn vk_get_max_usable_sample_count(color_sample_counts: u32, depth_sample_counts: u32) -> (r: u32)
    ensures
        is_max_usable_sample_count(color_sample_counts, depth_sample_counts, r),
{
    let counts = color_sample_counts & depth_sample_counts;
    proof {
        lemma_and_has_bits(color_sample_counts, depth_sample_counts, SAMPLE_COUNT_2);
        lemma_and_has_bits(color_sample_counts, depth_sample_counts, SAMPLE_COUNT_4);
        lemma_and_has_bits(color_sample_counts, depth_sample_counts, SAMPLE_COUNT_8);
        lemma_and_has_bits(color_sample_counts, depth_sample_counts, SAMPLE_COUNT_16);
        lemma_and_has_bits(color_sample_counts, depth_sample_counts, SAMPLE_COUNT_32);
        lemma_and_has_bits(color_sample_counts, depth_sample_counts, SAMPLE_COUNT_64);
    }
    if contains(counts, SAMPLE_COUNT_64) {
        return SAMPLE_COUNT_64;
    }
    if contains(counts, SAMPLE_COUNT_32) {
        return SAMPLE_COUNT_32;
    }
    if contains(counts, SAMPLE_COUNT_16) {
        return SAMPLE_COUNT_16;
    }
    if contains(counts, SAMPLE_COUNT_8) {
        return SAMPLE_COUNT_8;
    }
    if contains(counts, SAMPLE_COUNT_4) {
        return SAMPLE_COUNT_4;
    }
    if contains(counts, SAMPLE_COUNT_2) {
        return SAMPLE_COUNT_2;
    }
    SAMPLE_COUNT_1
}

// ---------------------------------------------------------------------------
// Device suitability and choice
// ---------------------------------------------------------------------------

/// The device is a discrete GPU with Vulkan 1.4 or later and every feature
/// the renderer relies on.
pub open spec fn is_physical_device_suitable(d: PhysicalDeviceInfo) -> bool {
    &&& d.api_version >= API_VERSION_1_4
    &&& d.device_type == PHYSICAL_DEVICE_TYPE_DISCRETE_GPU
    &&& d.geometry_shader
    &&& d.sampler_anisotropy
    &&& d.shader_draw_parameters
    &&& d.buffer_device_address
    &&& d.draw_indirect_count
    &&& d.synchronization2
    &&& d.dynamic_rendering
    &&& d.host_image_copy
    &&& d.push_descriptor
    &&& d.unified_image_layouts
    &&& d.task_shader
    &&& d.mesh_shader
}

/// Tells whether the device is suitable (see `is_physical_device_suitable`).
pub fn vk_is_physical_device_suitable(device: &PhysicalDeviceInfo) -> (r: bool)
    ensures
        r == is_physical_device_suitable(*device),
{
    device.api_version >= API_VERSION_1_4 && device.device_type == PHYSICAL_DEVICE_TYPE_DISCRETE_GPU
        && device.geometry_shader && device.sampler_anisotropy && device.shader_draw_parameters
        && device.buffer_device_address && device.draw_indirect_count && device.synchronization2
        && device.dynamic_rendering && device.host_image_copy && device.push_descriptor
        && device.unified_image_layouts && device.task_shader && device.mesh_shader
}

/// Whether a device is suitable depends on the Vulkan version its driver
/// reports only through "1.4 or later": no version before 1.4 is suitable,
/// a suitable device stays suitable whatever later version (patch, minor or
/// major) it reports, and a discrete GPU reporting any version from 1.4 on,
/// with every feature the renderer relies on, is suitable.
pub proof fn lemma_suitability_from_version_1_4(d: PhysicalDeviceInfo, v: u32)
    ensures
        v < API_VERSION_1_4 ==> !is_physical_device_suitable(PhysicalDeviceInfo { api_version: v, ..d }),
        is_physical_device_suitable(d) && v >= d.api_version ==> is_physical_device_suitable(
            PhysicalDeviceInfo { api_version: v, ..d },
        ),
        is_physical_device_suitable(d) ==> d.api_version >= API_VERSION_1_4 && d.device_type
            == PHYSICAL_DEVICE_TYPE_DISCRETE_GPU,
        (d.api_version >= API_VERSION_1_4 && d.device_type == PHYSICAL_DEVICE_TYPE_DISCRETE_GPU
            && d.geometry_shader && d.sampler_anisotropy && d.shader_draw_parameters
            && d.buffer_device_address && d.draw_indirect_count && d.synchronization2
            && d.dynamic_rendering && d.host_image_copy && d.push_descriptor
            && d.unified_image_layouts && d.task_shader && d.mesh_shader) ==> is_physical_device_suitable(d),
{
}

/// The device can run the renderer: it is suitable and has a graphics family
/// that presents to the surface.
pub open spec fn device_qualifies(d: PhysicalDeviceInfo) -> bool {
    is_physical_device_suitable(d) && has_graphics_and_present_family(d.queue_families@)
}

/// The device chosen to render on, with its queue families, the family of
/// its graphics queue and the sample count of its color and depth images.
#[derive(Debug, Clone, Copy)]
pub struct PhysicalDeviceChoice {
    pub device_index: usize,
    pub queue_family_indices: VkQueueFamilyIndices,
    pub queue_family_index: u32,
    pub msaa_samples: u32,
}

/// `c` describes the choice of device `devices[c.device_index]`.
pub open spec fn describes_choice(devices: Seq<PhysicalDeviceInfo>, c: PhysicalDeviceChoice) -> bool {
    let d = devices[c.device_index as int];
    &&& c.device_index < devices.len()
    &&& is_best_queue_families(d.queue_families@, c.queue_family_indices)
    &&& c.queue_family_indices.graphics_family == Some(c.queue_family_index)
    &&& is_max_usable_sample_count(
        d.framebuffer_color_sample_counts,
        d.framebuffer_depth_sample_counts,
        c.msaa_samples,
    )
}

/// Device `i` is the first of `devices` that qualifies.
pub open spec fn is_first_qualifying(devices: Seq<PhysicalDeviceInfo>, i: int) -> bool {
    &&& 0 <= i < devices.len()
    &&& device_qualifies(devices[i])
    &&& forall|j: int| 0 <= j < i ==> !device_qualifies(#[trigger] devices[j])
}

/// Picks the first device that qualifies (see `device_qualifies`), with its
/// best queue families, the family of its graphics queue and its highest
/// usable sample count. Some device must qualify (the renderer cannot run
/// otherwise), and the scores of the chosen device's families must fit in a
/// `u32`.
pub fn vk_pick_physical_device(devices: &Vec<PhysicalDeviceInfo>) -> (r: PhysicalDeviceChoice)
    requires
        exists|i: int| 0 <= i < devices@.len() && device_qualifies(#[trigger] devices@[i]),
        forall|i: int|
            is_first_qualifying(devices@, i) ==> queue_families_in_range(
                #[trigger] devices@[i].queue_families@,
            ),
    ensures
        is_first_qualifying(devices@, r.device_index as int),
        describes_choice(devices@, r),
{
    let n = devices.len();
    let mut i: usize = 0;
    while i < n
        invariant
            n == devices@.len(),
            0 <= i <= n,
            forall|j: int| 0 <= j < i ==> !device_qualifies(#[trigger] devices@[j]),
            exists|j: int| 0 <= j < devices@.len() && device_qualifies(#[trigger] devices@[j]),
            forall|j: int|
                is_first_qualifying(devices@, j) ==> queue_families_in_range(
                    #[trigger] devices@[j].queue_families@,
                ),
        decreases n - i,
    {
        let device = &devices[i];
        if vk_is_physical_device_suitable(device)
            && vk_is_physical_device_has_graphics_and_present_family(&device.queue_families) {
            assert(is_first_qualifying(devices@, i as int));
            let msaa_samples = vk_get_max_usable_sample_count(
                device.framebuffer_color_sample_counts,
                device.framebuffer_depth_sample_counts,
            );
            let queue_family_indices = vk_find_best_queue_families(&device.queue_families);
            proof {
                lemma_best_queue_families_found(device.queue_families@, queue_family_indices);
            }
            let queue_family_index = match queue_family_indices.graphics_family {
                Some(g) => g,
                None => {
                    assert(false);
                    0
                },
            };
            return PhysicalDeviceChoice {
                device_index: i,
                queue_family_indices,
                queue_family_index,
                msaa_samples,
            };
        }
        i += 1;
    }
    assert(false);
    PhysicalDeviceChoice {
        device_index: 0,
        queue_family_indices: VkQueueFamilyIndices::default(),
        queue_family_index: 0,
        msaa_samples: SAMPLE_COUNT_1,
    }
}

/// Tells whether some device qualifies (see `device_qualifies`).
pub fn vk_some_device_qualifies(devices: &Vec<PhysicalDeviceInfo>) -> (r: bool)
    ensures
        r == exists|i: int| 0 <= i < devices@.len() && device_qualifies(#[trigger] devices@[i]),
{
    let n = devices.len();
    let mut i: usize = 0;
    while i < n
        invariant
            n == devices@.len(),
            0 <= i <= n,
            forall|j: int| 0 <= j < i ==> !device_qualifies(#[trigger] devices@[j]),
        decreases n - i,
    {
        if vk_is_physical_device_suitable(&devices[i])
            && vk_is_physical_device_has_graphics_and_present_family(&devices[i].queue_families) {
            assert(device_qualifies(devices@[i as int]));
            return true;
        }
        i += 1;
    }
    false
}

/// Tells whether every score of every family, and every family index, fits
/// in a `u32` (see `queue_families_in_range`).
pub fn vk_queue_families_in_range(families: &Vec<QueueFamily>) -> (r: bool)
    ensures
        r == queue_families_in_range(families@),
{
    let n = families.len();
    if n as u64 > 0x1_0000_0000u64 {
        return false;
    }
    let mut i: usize = 0;
    while i < n
        invariant
            n == families@.len(),
            0 <= i <= n,
            forall|j: int|
                0 <= j < i ==> {
                    &&& score_fits(#[trigger] graphics_score(families@[j]))
                    &&& score_fits(compute_score(families@[j]))
                    &&& score_fits(transfer_score(families@[j]))
                },
        decreases n - i,
    {
        let f = families[i];
        let g = contains(f.queue_flags, QUEUE_GRAPHICS);
        let c = contains(f.queue_flags, QUEUE_COMPUTE);
        let t = contains(f.queue_flags, QUEUE_TRANSFER);
        let count = f.queue_count as u64;
        let gs = count + if c { 10 } else { 0 } + if t { 5 } else { 0 };
        let cs = count + if !g { 20 } else { 0 };
        let ts = count + if !g && !c { 30 } else { 0 };
        if (g && f.present_support && gs > 0xFFFF_FFFFu64) || (c && cs > 0xFFFF_FFFFu64) || (t && ts
            > 0xFFFF_FFFFu64) {
            assert(!(score_fits(graphics_score(families@[i as int])) && score_fits(
                compute_score(families@[i as int]),
            ) && score_fits(transfer_score(families@[i as int]))));
            return false;
        }
        i += 1;
    }
    true
}

// ---------------------------------------------------------------------------
// Logical device
// ---------------------------------------------------------------------------

/// The queue families for which the logical device is asked to create a
/// queue: the graphics family, then the compute family when it is another.
pub open spec fn requested_queue_families(idx: VkQueueFamilyIndices) -> Seq<u32> {
    let g = idx.graphics_family->0;
    match idx.compute_family {
        Some(c) => if c != g { seq![g, c] } else { seq![g] },
        None => seq![g],
    }
}

/// The family of the queue used for compute work: the compute family, or
/// the graphics family when there is none.
pub open spec fn compute_queue_family(idx: VkQueueFamilyIndices) -> u32 {
    match idx.compute_family {
        Some(c) => c,
        None => idx.graphics_family->0,
    }
}

/// The device features the renderer enables at device creation (core
/// features, Vulkan 1.1 to 1.4 features, mesh shaders and unified image
/// layouts); every other feature stays disabled.
#[derive(Debug, Clone, Copy, PartialEq, Eq, Structural)]
pub struct DeviceFeatures {
    pub sampler_anisotropy: bool,
    pub pipeline_statistics_query: bool,
    pub inherited_queries: bool,
    pub shader_clip_distance: bool,
    pub shader_draw_parameters: bool,
    pub draw_indirect_count: bool,
    pub timeline_semaphore: bool,
    pub buffer_device_address: bool,
    pub synchronization2: bool,
    pub dynamic_rendering: bool,
    pub host_image_copy: bool,
    pub push_descriptor: bool,
    pub unified_image_layouts: bool,
    pub task_shader: bool,
    pub mesh_shader: bool,
}

/// Every feature listed is enabled.
pub open spec fn enabled_device_features() -> DeviceFeatures {
    DeviceFeatures {
        sampler_anisotropy: true,
        pipeline_statistics_query: true,
        inherited_queries: true,
        shader_clip_distance: true,
        shader_draw_parameters: true,
        draw_indirect_count: true,
        timeline_semaphore: true,
        buffer_device_address: true,
        synchronization2: true,
        dynamic_rendering: true,
        host_image_copy: true,
        push_descriptor: true,
        unified_image_layouts: true,
        task_shader: true,
        mesh_shader: true,
    }
}

/// The device extensions enabled at device creation: swapchains, mesh
/// shaders and unified image layouts, and the portability subset where the
/// platform needs it (macOS and iOS).
pub open spec fn device_extension_names(portability_subset: bool) -> Seq<Seq<char>> {
    let base = seq!["VK_KHR_swapchain"@, "VK_EXT_mesh_shader"@, "VK_KHR_unified_image_layouts"@];
    if portability_subset {
        base.push("VK_KHR_portability_subset"@)
    } else {
        base
    }
}

/// The logical device: one queue for each family listed, the families from
/// which the graphics queue and the compute queue come, the device
/// extensions and the enabled features.
#[derive(Debug)]
pub struct LogicalDevicePlan {
    pub queue_families: Vec<u32>,
    pub graphics_queue_family: u32,
    pub compute_queue_family: u32,
    pub extensions: Vec<&'static str>,
    pub features: DeviceFeatures,
}

/// Plans the logical device for the chosen queue families: one queue of the
/// graphics family, one of the compute family when it is another family,
/// and queue 0 of each as the graphics and compute queues; the device
/// extensions (see `device_extension_names`) and features (see
/// `enabled_device_features`).
pub fn vk_create_logical_device(queue_family_indices: &VkQueueFamilyIndices, portability_subset: bool) -> (r: LogicalDevicePlan)
    requires
        queue_family_indices.graphics_family is Some,
    ensures
        r.queue_families@ == requested_queue_families(*queue_family_indices),
        r.graphics_queue_family == queue_family_indices.graphics_family->0,
        r.compute_queue_family == compute_queue_family(*queue_family_indices),
        r.extensions@.map_values(|e: &str| e@) == device_extension_names(portability_subset),
        r.features == enabled_device_features(),
{
    let queue_family = match queue_family_indices.graphics_family {
        Some(g) => g,
        None => 0,
    };
    let mut queue_families: Vec<u32> = Vec::new();
    queue_families.push(queue_family);
    if let Some(compute_family) = queue_family_indices.compute_family {
        if compute_family != queue_family {
            queue_families.push(compute_family);
        }
    }
    let compute_queue_family = match queue_family_indices.compute_family {
        Some(c) => c,
        None => queue_family,
    };
    let mut extensions: Vec<&'static str> = Vec::new();
    extensions.push("VK_KHR_swapchain");
    extensions.push("VK_EXT_mesh_shader");
    extensions.push("VK_KHR_unified_image_layouts");
    if portability_subset {
        extensions.push("VK_KHR_portability_subset");
    }
    assert(extensions@.map_values(|e: &str| e@) =~= device_extension_names(portability_subset));
    LogicalDevicePlan {
        queue_families,
        graphics_queue_family: queue_family,
        compute_queue_family,
        extensions,
        features: DeviceFeatures {
            sampler_anisotropy: true,
            pipeline_statistics_query: true,
            inherited_queries: true,
            shader_clip_distance: true,
            shader_draw_parameters: true,
            draw_indirect_count: true,
            timeline_semaphore: true,
            buffer_device_address: true,
            synchronization2: true,
            dynamic_rendering: true,
            host_image_copy: true,
            push_descriptor: true,
            unified_image_layouts: true,
            task_shader: true,
            mesh_shader: true,
        },
    }
}

/// A suitable device has every enabled feature that the suitability check
/// reads, so creating the logical device does not ask it for one of those
/// features it lacks.
pub proof fn lemma_suitable_device_has_enabled_features(d: PhysicalDeviceInfo)
    requires
        is_physical_device_suitable(d),
    ensures
        enabled_device_features().sampler_anisotropy ==> d.sampler_anisotropy,
        enabled_device_features().shader_draw_parameters ==> d.shader_draw_parameters,
        enabled_device_features().draw_indirect_count ==> d.draw_indirect_count,
        enabled_device_features().buffer_device_address ==> d.buffer_device_address,
        enabled_device_features().synchronization2 ==> d.synchronization2,
        enabled_device_features().dynamic_rendering ==> d.dynamic_rendering,
        enabled_device_features().host_image_copy ==> d.host_image_copy,
        enabled_device_features().push_descriptor ==> d.push_descriptor,
        enabled_device_features().unified_image_layouts ==> d.unified_image_layouts,
        enabled_device_features().task_shader ==> d.task_shader,
        enabled_device_features().mesh_shader ==> d.mesh_shader,
{
}

/// Each family is asked for a queue at most once, and both the graphics
/// queue and the compute queue come from a family that was asked for one.
pub proof fn lemma_logical_device_queues_requested(idx: VkQueueFamilyIndices)
    requires
        idx.graphics_family is Some,
    ensures
        requested_queue_families(idx).no_duplicates(),
        requested_queue_families(idx).contains(idx.graphics_family->0),
        requested_queue_families(idx).contains(compute_queue_family(idx)),
{
    let s = requested_queue_families(idx);
    assert(s[0] == idx.graphics_family->0);
    if s.len() == 2 {
        assert(s[1] == compute_queue_family(idx));
    }
}

/// The device is always created with swapchain support, and with the
/// extensions of the mesh-shader and unified-image-layout features it
/// enables, each extension once; it asks for the portability subset
/// exactly where the platform needs it.
pub proof fn lemma_device_extensions_cover_features(portability_subset: bool)
    ensures
        device_extension_names(portability_subset).contains("VK_KHR_swapchain"@),
        enabled_device_features().mesh_shader ==> device_extension_names(portability_subset).contains(
            "VK_EXT_mesh_shader"@,
        ),
        enabled_device_features().unified_image_layouts ==> device_extension_names(portability_subset).contains(
            "VK_KHR_unified_image_layouts"@,
        ),
        device_extension_names(portability_subset).contains("VK_KHR_portability_subset"@) <==> portability_subset,
        device_extension_names(portability_subset).no_duplicates(),
{
    reveal_strlit("VK_KHR_swapchain");
    reveal_strlit("VK_EXT_mesh_shader");
    reveal_strlit("VK_KHR_unified_image_layouts");
    reveal_strlit("VK_KHR_portability_subset");
    let n = device_extension_names(portability_subset);
    assert(n[0] == "VK_KHR_swapchain"@);
    assert(n[1] == "VK_EXT_mesh_shader"@);
    assert(n[2] == "VK_KHR_unified_image_layouts"@);
    assert("VK_KHR_swapchain"@ != "VK_KHR_portability_subset"@);
    assert("VK_EXT_mesh_shader"@.len() != "VK_KHR_portability_subset"@.len());
    assert("VK_KHR_unified_image_layouts"@.len() != "VK_KHR_portability_subset"@.len());
    assert("VK_KHR_swapchain"@ != "VK_EXT_mesh_shader"@);
    assert("VK_KHR_swapchain"@ != "VK_KHR_unified_image_layouts"@);
    assert("VK_EXT_mesh_shader"@ != "VK_KHR_unified_image_layouts"@);
    if portability_subset {
        assert(n[3] == "VK_KHR_portability_subset"@);
    }
}

// ---------------------------------------------------------------------------
// Instance
// ---------------------------------------------------------------------------

/// The application's name, given to Vulkan as application and engine name.
pub const APP_NAME: &'static str = "Ash Triangle";

/// The application and engine version, `VK_MAKE_API_VERSION(0, 0, 1, 0)`.
pub const APP_VERSION: u32 = 0x1000;

/// The parameters of the Vulkan instance: application information, the
/// extensions it asks for besides those the window system requires, its
/// layers and validation features, and its creation flags.
#[derive(Debug)]
pub struct InstancePlan {
    pub application_name: &'static str,
    pub application_version: u32,
    pub engine_name: &'static str,
    pub engine_version: u32,
    pub api_version: u32,
    pub extensions: Vec<&'static str>,
    pub layers: Vec<&'static str>,
    pub validation_features: Vec<i32>,
    pub flags: u32,
}

/// The extensions the instance asks for besides the window system's: debug
/// utilities, and where the platform needs portability (macOS and iOS) the
/// portability enumeration and physical-device-properties-2 extensions.
pub open spec fn instance_extension_names(portability: bool) -> Seq<Seq<char>> {
    if portability {
        seq![
            "VK_EXT_debug_utils"@,
            "VK_KHR_portability_enumeration"@,
            "VK_KHR_get_physical_device_properties2"@,
        ]
    } else {
        seq!["VK_EXT_debug_utils"@]
    }
}

/// The layers of the instance: the Khronos validation layer when validating.
pub open spec fn instance_layer_names(validation: bool) -> Seq<Seq<char>> {
    if validation {
        seq!["VK_LAYER_KHRONOS_validation"@]
    } else {
        seq![]
    }
}

/// The validation features enabled when validating: synchronization
/// validation and best practices.
pub open spec fn instance_validation_features(validation: bool) -> Seq<i32> {
    if validation {
        seq![VALIDATION_FEATURE_ENABLE_SYNCHRONIZATION_VALIDATION, VALIDATION_FEATURE_ENABLE_BEST_PRACTICES]
    } else {
        seq![]
    }
}

/// The instance always asks for debug utilities; it asks for portability
/// enumeration exactly where the platform needs portability, which is also
/// exactly where its flags enumerate portability devices; and it has a
/// layer, and validation features, exactly when validating.
pub proof fn lemma_instance_options_agree(portability: bool, validation: bool)
    ensures
        instance_extension_names(portability).contains("VK_EXT_debug_utils"@),
        instance_extension_names(portability).contains("VK_KHR_portability_enumeration"@) <==> portability,
        instance_extension_names(portability).no_duplicates(),
        instance_layer_names(validation).len() > 0 <==> validation,
        instance_validation_features(validation).len() > 0 <==> validation,
        validation ==> instance_layer_names(validation).contains("VK_LAYER_KHRONOS_validation"@),
{
    reveal_strlit("VK_EXT_debug_utils");
    reveal_strlit("VK_KHR_portability_enumeration");
    reveal_strlit("VK_KHR_get_physical_device_properties2");
    let n = instance_extension_names(portability);
    assert(n[0] == "VK_EXT_debug_utils"@);
    assert("VK_EXT_debug_utils"@.len() != "VK_KHR_portability_enumeration"@.len());
    assert("VK_EXT_debug_utils"@.len() != "VK_KHR_get_physical_device_properties2"@.len());
    assert("VK_KHR_portability_enumeration"@.len() != "VK_KHR_get_physical_device_properties2"@.len());
    if portability {
        assert(n[1] == "VK_KHR_portability_enumeration"@);
    }
    if validation {
        assert(instance_layer_names(validation)[0] == "VK_LAYER_KHRONOS_validation"@);
    }
}

/// Plans the instance for Vulkan 1.4: the application named `APP_NAME` at
/// version 0.1.0, its extensions (see `instance_extension_names`), layers
/// and validation features when `validation` (debug builds), and the
/// portability-enumeration flag when `portability` (macOS and iOS).
pub fn vk_create_instance(portability: bool, validation: bool) -> (r: InstancePlan)
    ensures
        r.application_name@ == APP_NAME@,
        r.engine_name@ == APP_NAME@,
        r.application_version == APP_VERSION,
        r.engine_version == APP_VERSION,
        r.api_version == API_VERSION_1_4,
        r.extensions@.map_values(|e: &str| e@) == instance_extension_names(portability),
        r.layers@.map_values(|e: &str| e@) == instance_layer_names(validation),
        r.validation_features@ == instance_validation_features(validation),
        r.flags == (if portability { INSTANCE_CREATE_ENUMERATE_PORTABILITY } else { 0 }),
{
    let mut extensions: Vec<&'static str> = Vec::new();
    extensions.push("VK_EXT_debug_utils");
    if portability {
        extensions.push("VK_KHR_portability_enumeration");
        extensions.push("VK_KHR_get_physical_device_properties2");
    }
    assert(extensions@.map_values(|e: &str| e@) =~= instance_extension_names(portability));
    let mut layers: Vec<&'static str> = Vec::new();
    let mut validation_features: Vec<i32> = Vec::new();
    if validation {
        layers.push("VK_LAYER_KHRONOS_validation");
        validation_features.push(VALIDATION_FEATURE_ENABLE_SYNCHRONIZATION_VALIDATION);
        validation_features.push(VALIDATION_FEATURE_ENABLE_BEST_PRACTICES);
    }
    assert(layers@.map_values(|e: &str| e@) =~= instance_layer_names(validation));
    assert(validation_features@ =~= instance_validation_features(validation));
    InstancePlan {
        application_name: APP_NAME,
        application_version: APP_VERSION,
        engine_name: APP_NAME,
        engine_version: APP_VERSION,
        api_version: API_VERSION_1_4,
        extensions,
        layers,
        validation_features,
        flags: if portability { INSTANCE_CREATE_ENUMERATE_PORTABILITY } else { 0 },
    }
}

} // verus!
