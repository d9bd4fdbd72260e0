//! The runtime state and its operations.
//!
//! A session owns one `NeuralRuntime`: a modelled backing buffer (logical
//! length and capacity, in elements), the lane-capability flag fixed at
//! construction, the operation counter that seeds the generator, and the
//! byte-usage tally. The compute operations take buffers of IEEE-754 bit
//! patterns and return everything the engine decides: the validation verdict,
//! the per-index formula choice of the activation transform, the raw draw
//! each connection consumes, the spike count, and the summation split of the
//! efficiency score. The host evaluates the named per-element formulas on the
//! chosen path.

use vstd::prelude::*;
use vstd::wrapping::u32_specs;

use crate::bits::is_spike_bits;
use crate::bits::is_le_zero_bits;
use crate::bits::spike_bits;
use crate::bits::le_zero_bits;
use crate::rng::raw_draw;
use crate::rng::draw_raw;
use crate::validate::ValidationError;
use crate::validate::validation_of;
use crate::validate::validate;

verus! {

/// Elements per lane group on the vectorized path.
pub const LANE_WIDTH: usize = 4;

/// Initial capacity of the backing buffer, in elements.
pub const INITIAL_POOL_CAPACITY: usize = 1048576;

/// Logical length above which deallocation clears the backing buffer and
/// releases its capacity.
pub const POOL_RESET_LIMIT: usize = 1048576;

/// The counter after one more operation: a wrapping increment.
pub open spec fn bumped(c: u32) -> u32 {
    u32_specs::wrapping_add(c, 1)
}

/// Which formula the activation transform applies at one index.
#[derive(Clone, Copy, Debug, PartialEq, Eq, Structural)]
pub enum ActivationKind {
    /// The exact scaled nonlinearity: tanh of half the input.
    Exact,
    /// The fast rational approximation s / (1 + |s|), where s is half the
    /// input; applied to full lane groups on the vectorized path.
    Approximate,
}

/// How the efficiency score's two summations are split: the number of full
/// lane groups each buffer is accumulated by before the scalar remainder.
#[derive(Clone, Copy, Debug, PartialEq, Eq, Structural)]
pub enum MeshPlan {
    /// Either buffer is empty: the score is zero, nothing is summed.
    Zero,
    /// Both buffers are summed: each over its full lane groups, then its
    /// remainder left to right.
    Compute { neuron_groups: usize, synapse_groups: usize },
}

/// The vectorized path is taken: the capability is present and the buffer
/// fills at least one lane group.
pub open spec fn lane_path(simd: bool, len: int) -> bool {
    simd && len >= LANE_WIDTH
}

/// The formula applied at index `i` of an activation input of length `len`:
/// the approximation on every full lane group of the vectorized path, the
/// exact nonlinearity on the tail and everywhere on the scalar path.
pub open spec fn activation_kind_at(simd: bool, len: int, i: int) -> ActivationKind {
    if lane_path(simd, len) && i < LANE_WIDTH * (len / (LANE_WIDTH as int)) {
        ActivationKind::Approximate
    } else {
        ActivationKind::Exact
    }
}

/// Short inputs always take the scalar path: below the lane width the
/// activation transform applies the exact nonlinearity at every index,
/// whatever the lane capability.
pub proof fn lemma_short_input_is_scalar(simd: bool, len: int, i: int)
    requires
        len < LANE_WIDTH,
    ensures
        activation_kind_at(simd, len, i) == ActivationKind::Exact,
{
}

/// Full lane groups a buffer of length `len` is accumulated by.
pub open spec fn lane_groups(simd: bool, len: int) -> int {
    if lane_path(simd, len) {
        len / (LANE_WIDTH as int)
    } else {
        0
    }
}

/// Spikes among the first `n` elements: those comparing strictly greater
/// than the 0.1 threshold.
pub open spec fn spike_count_below(s: Seq<u32>, n: int) -> int
    decreases n,
{
    if n <= 0 {
        0
    } else {
        spike_count_below(s, n - 1) + if is_spike_bits(s[n - 1]) {
            1int
        } else {
            0int
        }
    }
}

/// Spikes in a whole buffer.
pub open spec fn spike_count(s: Seq<u32>) -> int {
    spike_count_below(s, s.len() as int)
}

/// One session's runtime state.
pub struct NeuralRuntime {
    /// Logical length of the backing buffer, in elements.
    pub pool_len: usize,
    /// Capacity of the backing buffer, in elements.
    pub pool_cap: usize,
    /// Whether lane-grouped paths are taken; fixed at construction.
    pub simd_enabled: bool,
    /// Operations performed so far; seeds the generator.
    pub operations_count: u32,
    /// Bytes recorded as allocated.
    pub memory_usage: usize,
}

/// The capacity the backing buffer has after an allocation of `size` bytes:
/// grown to what the allocation needs when the current capacity falls short.
pub open spec fn grown_cap(len: usize, cap: usize, size: usize) -> int {
    if len + size / 4 > cap {
        len + size / 4
    } else {
        cap as int
    }
}

impl NeuralRuntime {
    /// Well-formedness: the logical length fits the capacity, and the usage
    /// report stays within the machine word.
    pub open spec fn inv(&self) -> bool {
        &&& self.pool_len <= self.pool_cap
        &&& self.memory_usage + 4 * self.pool_cap <= usize::MAX
    }

    /// A fresh session: an empty pool with the initial capacity, the lane
    /// capability fixed on, and zeroed counters.
    pub fn new() -> (r: NeuralRuntime)
        ensures
            r == (NeuralRuntime {
                pool_len: 0,
                pool_cap: INITIAL_POOL_CAPACITY,
                simd_enabled: true,
                operations_count: 0,
                memory_usage: 0,
            }),
            r.inv(),
    {
        NeuralRuntime {
            pool_len: 0,
            pool_cap: INITIAL_POOL_CAPACITY,
            simd_enabled: Self::detect_simd_support(),
            operations_count: 0,
            memory_usage: 0,
        }
    }

    /// Lane capability of the platform. Detection is a fixed affirmative
    /// stub: the hosts this engine targets provide the lanes.
    fn detect_simd_support() -> (r: bool)
        ensures
            r,
    {
        true
    }

    /// Whether the vectorized paths are available to this session.
    pub fn simd_supported(&self) -> (r: bool)
        ensures
            r == self.simd_enabled,
    {
        self.simd_enabled
    }

    /// The raw generator word this session would draw now, a closed function
    /// of the operation counter alone.
    pub fn pseudo_random_raw(&self) -> (r: u64)
        ensures
            r == raw_draw(self.operations_count),
    {
        draw_raw(self.operations_count)
    }

    /// The activation transform's decisions on one input buffer.
    ///
    /// Gates the buffer first: on a violation the verdict is returned and the
    /// state is untouched. On success the operation counter is incremented
    /// exactly once and the returned plan names, per index, the formula the
    /// transform applies there: the fast approximation on every full lane
    /// group of the vectorized path (taken when the capability is present and
    /// the buffer fills a group), the exact nonlinearity on the remainder and
    /// on the whole scalar path.
    pub fn calculate_neural_activation(&mut self, inputs: &Vec<u32>) -> (r: Result<
        Vec<ActivationKind>,
        ValidationError,
    >)
        ensures
            (match validation_of(inputs@) {
                Some(e) => r == Err::<Vec<ActivationKind>, ValidationError>(e) && *final(self)
                    == *old(self),
                None => r is Ok && *final(self) == (NeuralRuntime {
                    operations_count: bumped(old(self).operations_count),
                    ..*old(self)
                }),
            }),
            r is Ok <==> inputs@.len() <= crate::validate::MAX_INPUT_LEN && (forall|k: int|
                0 <= k < inputs@.len() ==> crate::validate::elem_ok(#[trigger] inputs@[k])),
            r matches Ok(kinds) ==> kinds@.len() == inputs@.len() && (forall|i: int|
                0 <= i < inputs@.len() ==> kinds@[i] == activation_kind_at(
                    old(self).simd_enabled,
                    inputs@.len() as int,
                    i,
                )),
    {
        if let Err(e) = validate(inputs) {
            return Err(e);
        }
        self.operations_count = self.operations_count.wrapping_add(1);

        let n = inputs.len();
        let mut kinds: Vec<ActivationKind> = Vec::new();
        if self.simd_enabled && n >= LANE_WIDTH {
            let groups = n / LANE_WIDTH;
            assert(LANE_WIDTH * (groups as int) <= n as int);
            let mut g: usize = 0;
            while g < groups
                invariant
                    groups == n as int / (LANE_WIDTH as int),
                    LANE_WIDTH * (groups as int) <= n as int,
                    g <= groups,
                    kinds@.len() == LANE_WIDTH * g,
                    forall|k: int|
                        0 <= k < kinds@.len() ==> kinds@[k] == ActivationKind::Approximate,
                decreases groups - g,
            {
                let mut j: usize = 0;
                while j < LANE_WIDTH
                    invariant
                        g < groups,
                        j <= LANE_WIDTH,
                        kinds@.len() == LANE_WIDTH * g + j,
                        forall|k: int|
                            0 <= k < kinds@.len() ==> kinds@[k] == ActivationKind::Approximate,
                    decreases LANE_WIDTH - j,
                {
                    kinds.push(ActivationKind::Approximate);
                    j = j + 1;
                }
                g = g + 1;
            }
            let mut i: usize = groups * LANE_WIDTH;
            while i < n
                invariant
                    groups == n as int / (LANE_WIDTH as int),
                    LANE_WIDTH * (groups as int) <= i <= n as int,
                    kinds@.len() == i,
                    forall|k: int|
                        0 <= k < LANE_WIDTH * (groups as int) ==> kinds@[k]
                            == ActivationKind::Approximate,
                    forall|k: int|
                        LANE_WIDTH * (groups as int) <= k < kinds@.len() ==> kinds@[k]
                            == ActivationKind::Exact,
                decreases n - i,
            {
                kinds.push(ActivationKind::Exact);
                i = i + 1;
            }
        } else {
            let mut i: usize = 0;
            while i < n
                invariant
                    i <= n,
                    kinds@.len() == i,
                    forall|k: int| 0 <= k < kinds@.len() ==> kinds@[k] == ActivationKind::Exact,
                decreases n - i,
            {
                kinds.push(ActivationKind::Exact);
                i = i + 1;
            }
        }
        Ok(kinds)
    }

    /// The draws the jitter pass consumes on one connection buffer.
    ///
    /// Increments the operation counter exactly once, then draws one raw
    /// generator word per connection, in index order, on either path. The
    /// generator is a closed function of the counter, which does not change
    /// between the draws of one call, so every returned word of a call equals
    /// the draw at the incremented counter — this is what makes the pass
    /// reproducible regardless of the path taken. The host maps each word
    /// into the unit interval and applies the documented jitter-and-clamp
    /// formula to its connection.
    pub fn optimize_connections(&mut self, connections: &Vec<u32>) -> (draws: Vec<u64>)
        ensures
            *final(self) == (NeuralRuntime {
                operations_count: bumped(old(self).operations_count),
                ..*old(self)
            }),
            draws@.len() == connections@.len(),
            forall|i: int|
                0 <= i < draws@.len() ==> draws@[i] == raw_draw(final(self).operations_count),
    {
        self.operations_count = self.operations_count.wrapping_add(1);
        let n = connections.len();
        let mut draws: Vec<u64> = Vec::new();
        let mut i: usize = 0;
        while i < n
            invariant
                i <= n,
                draws@.len() == i,
                forall|k: int|
                    0 <= k < draws@.len() ==> draws@[k] == raw_draw(self.operations_count),
            decreases n - i,
        {
            let d = draw_raw(self.operations_count);
            draws.push(d);
            i = i + 1;
        }
        draws
    }

    /// The spike count of one train, or the degenerate verdict.
    ///
    /// Increments the operation counter exactly once. Returns `None` exactly
    /// when the train is empty or the window compares less than or equal to
    /// zero — the rate is then zero by definition. Otherwise returns the
    /// number of elements comparing strictly greater than the 0.1 threshold,
    /// counted identically on the lane-grouped and the scalar path; the host
    /// divides by the window (in seconds) for the rate.
    pub fn process_spike_train(&mut self, spikes: &Vec<u32>, window_ms_bits: u32) -> (r: Option<
        usize,
    >)
        ensures
            *final(self) == (NeuralRuntime {
                operations_count: bumped(old(self).operations_count),
                ..*old(self)
            }),
            r is None <==> spikes@.len() == 0 || is_le_zero_bits(window_ms_bits),
            r matches Some(c) ==> c as int == spike_count(spikes@) && c <= spikes@.len(),
    {
        self.operations_count = self.operations_count.wrapping_add(1);
        if spikes.len() == 0 || le_zero_bits(window_ms_bits) {
            return None;
        }
        let n = spikes.len();
        let mut count: usize = 0;
        if self.simd_enabled && n >= LANE_WIDTH {
            let groups = n / LANE_WIDTH;
            assert(LANE_WIDTH * (groups as int) <= n as int);
            let mut g: usize = 0;
            while g < groups
                invariant
                    n == spikes@.len(),
                    groups == n as int / (LANE_WIDTH as int),
                    LANE_WIDTH * (groups as int) <= n as int,
                    g <= groups,
                    count <= LANE_WIDTH * g,
                    count as int == spike_count_below(spikes@, LANE_WIDTH * (g as int)),
                decreases groups - g,
            {
                let base = g * LANE_WIDTH;
                let mut j: usize = 0;
                while j < LANE_WIDTH
                    invariant
                        n == spikes@.len(),
                        g < groups,
                        LANE_WIDTH * (groups as int) <= n as int,
                        groups == n as int / (LANE_WIDTH as int),
                        base == LANE_WIDTH * g,
                        j <= LANE_WIDTH,
                        count <= base + j,
                        count as int == spike_count_below(spikes@, base + j),
                    decreases LANE_WIDTH - j,
                {
                    if spike_bits(spikes[base + j]) {
                        count = count + 1;
                    }
                    j = j + 1;
                }
                g = g + 1;
            }
            let mut i: usize = groups * LANE_WIDTH;
            while i < n
                invariant
                    n == spikes@.len(),
                    i <= n,
                    count <= i,
                    count as int == spike_count_below(spikes@, i as int),
                decreases n - i,
            {
                if spike_bits(spikes[i]) {
                    count = count + 1;
                }
                i = i + 1;
            }
        } else {
            let mut i: usize = 0;
            while i < n
                invariant
                    n == spikes@.len(),
                    i <= n,
                    count <= i,
                    count as int == spike_count_below(spikes@, i as int),
                decreases n - i,
            {
                if spike_bits(spikes[i]) {
                    count = count + 1;
                }
                i = i + 1;
            }
        }
        Some(count)
    }

    /// The summation split of the efficiency score on two buffers.
    ///
    /// Increments the operation counter exactly once. The score is the mean
    /// of the first buffer times the mean of the second; it is zero when
    /// either buffer is empty, and the plan says so. Otherwise the plan gives,
    /// per buffer, the number of full lane groups its sum accumulates before
    /// the scalar remainder: the buffer's length over the lane width on the
    /// vectorized path, zero on the scalar path.
    pub fn calculate_mesh_efficiency(&mut self, neurons: &Vec<u32>, synapses: &Vec<u32>) -> (r:
        MeshPlan)
        ensures
            *final(self) == (NeuralRuntime {
                operations_count: bumped(old(self).operations_count),
                ..*old(self)
            }),
            r is Zero <==> neurons@.len() == 0 || synapses@.len() == 0,
            r matches MeshPlan::Compute { neuron_groups, synapse_groups } ==> neuron_groups as int
                == lane_groups(old(self).simd_enabled, neurons@.len() as int) && synapse_groups
                as int == lane_groups(old(self).simd_enabled, synapses@.len() as int),
    {
        self.operations_count = self.operations_count.wrapping_add(1);
        if neurons.len() == 0 || synapses.len() == 0 {
            return MeshPlan::Zero;
        }
        let neuron_groups = if self.simd_enabled && neurons.len() >= LANE_WIDTH {
            neurons.len() / LANE_WIDTH
        } else {
            0
        };
        let synapse_groups = if self.simd_enabled && synapses.len() >= LANE_WIDTH {
            synapses.len() / LANE_WIDTH
        } else {
            0
        };
        MeshPlan::Compute { neuron_groups, synapse_groups }
    }

    /// Bytes the session reports as used: the recorded usage plus the backing
    /// buffer's capacity in bytes.
    pub fn get_memory_usage(&self) -> (r: usize)
        requires
            self.inv(),
        ensures
            r == self.memory_usage + 4 * self.pool_cap,
    {
        self.memory_usage + self.pool_cap * 4
    }

    /// Records an allocation of `size` bytes.
    ///
    /// Grows the backing buffer's logical length by the elements the size
    /// spans (four bytes each), reserving capacity first when the current
    /// capacity falls short, adds the size to the recorded usage, and returns
    /// the previous logical length in bytes. The caller keeps the tallies
    /// within the machine word.
    pub fn allocate_memory(&mut self, size: usize) -> (ptr: usize)
        requires
            old(self).inv(),
            old(self).memory_usage + size + 4 * grown_cap(
                old(self).pool_len,
                old(self).pool_cap,
                size,
            ) <= usize::MAX,
        ensures
            final(self).inv(),
            final(self).pool_len == old(self).pool_len + size / 4,
            final(self).pool_cap == grown_cap(old(self).pool_len, old(self).pool_cap, size),
            final(self).memory_usage == old(self).memory_usage + size,
            final(self).simd_enabled == old(self).simd_enabled,
            final(self).operations_count == old(self).operations_count,
            ptr == 4 * old(self).pool_len,
    {
        let required = size / 4;
        if self.pool_len + required > self.pool_cap {
            self.pool_cap = self.pool_len + required;
        }
        let ptr_elems = self.pool_len;
        self.pool_len = self.pool_len + required;
        self.memory_usage = self.memory_usage + size;
        ptr_elems * 4
    }

    /// Records a deallocation of `size` bytes.
    ///
    /// Subtracts the size from the recorded usage, saturating at zero. When
    /// the backing buffer's logical length exceeds the reset limit, clears it
    /// and releases its capacity — a coarse, size-triggered full reset, not
    /// incremental reclamation.
    pub fn deallocate_memory(&mut self, size: usize)
        requires
            old(self).inv(),
        ensures
            final(self).inv(),
            final(self).memory_usage == (if old(self).memory_usage >= size {
                old(self).memory_usage - size
            } else {
                0int
            }),
            (if old(self).pool_len > POOL_RESET_LIMIT {
                final(self).pool_len == 0 && final(self).pool_cap == 0
            } else {
                final(self).pool_len == old(self).pool_len && final(self).pool_cap == old(
                    self,
                ).pool_cap
            }),
            final(self).simd_enabled == old(self).simd_enabled,
            final(self).operations_count == old(self).operations_count,
    {
        if self.memory_usage >= size {
            self.memory_usage = self.memory_usage - size;
        } else {
            self.memory_usage = 0;
        }
        if self.pool_len > POOL_RESET_LIMIT {
            self.pool_len = 0;
            self.pool_cap = 0;
        }
    }

    /// Operations performed so far.
    pub fn get_operations_count(&self) -> (r: u32)
        ensures
            r == self.operations_count,
    {
        self.operations_count
    }

    /// Zeroes the operation counter and the recorded usage; the backing
    /// buffer and the lane capability are untouched.
    pub fn reset_metrics(&mut self)
        ensures
            *final(self) == (NeuralRuntime {
                operations_count: 0,
                memory_usage: 0,
                ..*old(self)
            }),
    {
        self.operations_count = 0;
        self.memory_usage = 0;
    }
}

/// A fresh session, as `NeuralRuntime::new` makes it.
pub fn create_neural_runtime() -> (r: NeuralRuntime)
    ensures
        r == (NeuralRuntime {
            pool_len: 0,
            pool_cap: INITIAL_POOL_CAPACITY,
            simd_enabled: true,
            operations_count: 0,
            memory_usage: 0,
        }),
        r.inv(),
{
    NeuralRuntime::new()
}

/// Lane capability of the platform, as construction fixes it.
pub fn check_simd_support() -> (r: bool)
    ensures
        r,
{
    true
}

} // verus!
