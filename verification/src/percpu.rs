//! The per-core area: one contiguous region holding every core's state
//! record at a fixed stride, and the addressing arithmetic that resolves
//! "the record of the core executing right now" from a single register
//! value.
//!
//! The area is allocated once, at the boot core's bring-up, sized to the
//! configured core count. Each core's record sits at `base + cpu_id *
//! stride`; bring-up constructs the boot core's record first and each
//! further core's record as that core comes online. A slot yields a record
//! only once it has been constructed.
//!
//! The resolver works without thread-local storage: bring-up binds a
//! dedicated hardware register to the record's address, and the low bits of
//! that address, cut out with a mask wide enough to cover one stride, give
//! the record's offset inside the area. The arithmetic here proves exactly
//! when that recovery is sound: the base must be aligned to the mask width
//! and the slot's offset must fit under the mask.

use vstd::arithmetic::div_mod::{
    lemma_div_by_multiple, lemma_fundamental_div_mod, lemma_mod_bound, lemma_mod_multiples_basic,
    lemma_mod_multiples_vanish, lemma_small_mod,
};
use vstd::arithmetic::power2::{lemma_pow2_unfold, pow2};
use vstd::bits::{lemma_usize_low_bits_mask_is_mod, lemma_usize_pow2_no_overflow,
    lemma_usize_shl_is_mul, low_bits_mask};
use vstd::prelude::*;

use crate::id::TaskId;
use crate::processor::{fresh_core, CoreView, Processor};
use crate::stack_pool::RunningStack;

verus! {

/// The number of binary digits of `n`: the smallest `b` with `n < pow2(b)`.
pub open spec fn bit_width(n: nat) -> nat
    decreases n,
{
    if n == 0 {
        0
    } else {
        1 + bit_width(n / 2)
    }
}

/// `bit_width(n)` brackets `n` between two neighbouring powers of two.
pub proof fn lemma_bit_width_bounds(n: nat)
    ensures
        n < pow2(bit_width(n)),
        n > 0 ==> pow2((bit_width(n) - 1) as nat) <= n,
    decreases n,
{
    if n == 0 {
        assert(pow2(0) == 1) by {
            vstd::arithmetic::power2::lemma2_to64();
        }
    } else {
        lemma_bit_width_bounds(n / 2);
        lemma_pow2_unfold(bit_width(n));
        if n / 2 > 0 {
            lemma_pow2_unfold((bit_width(n) - 1) as nat);
        } else {
            assert(pow2(0) == 1) by {
                vstd::arithmetic::power2::lemma2_to64();
            }
        }
    }
}

/// A positive number is at least as large as its own bit width.
pub proof fn lemma_bit_width_le_self(n: nat)
    ensures
        n >= 1 ==> bit_width(n) <= n,
    decreases n,
{
    if n == 1 {
        assert(bit_width(1) == 1 + bit_width(0));
    } else if n >= 2 {
        lemma_bit_width_le_self(n / 2);
        assert(bit_width(n) == 1 + bit_width(n / 2));
    }
}

/// The number of low bits that suffice to address any offset inside a
/// region of `size` bytes: the bit width of `size`.
pub fn get_bits(size: usize) -> (r: usize)
    ensures
        r == bit_width(size as nat),
{
    let mut n: usize = size;
    let mut b: usize = 0;
    while n > 0
        invariant
            n <= size,
            b + bit_width(n as nat) == bit_width(size as nat),
        decreases n,
    {
        proof {
            lemma_bit_width_le_self(size as nat);
        }
        n = n / 2;
        b = b + 1;
    }
    b
}

/// One record's stride inside the area: the record size rounded up to the
/// 64-byte cache line, so that records of distinct cores never share a
/// line.
pub fn record_stride(record_size: usize) -> (r: usize)
    requires
        record_size <= usize::MAX - 63,
    ensures
        r == ((record_size + 63) as int / 64) * 64,
        r as int % 64 == 0,
        record_size <= r,
        r <= record_size + 63,
{
    let r = ((record_size + 63) / 64) * 64;
    proof {
        lemma_fundamental_div_mod((record_size + 63) as int, 64);
        lemma_mod_multiples_basic((record_size + 63) as int / 64, 64);
        lemma_mod_bound((record_size + 63) as int, 64);
    }
    r
}

/// The byte size of the whole per-core area: one stride per configured
/// core. `None` when that does not fit the address space, which makes
/// bring-up fail fatally.
pub fn area_total_size(stride: usize, core_count: usize) -> (r: Option<usize>)
    ensures
        stride * core_count <= usize::MAX ==> r == Some((stride * core_count) as usize),
        stride * core_count > usize::MAX ==> r is None,
{
    stride.checked_mul(core_count)
}

/// Mathematical view of the per-core area: the slot contents in core-id
/// order (`None` until that core's bring-up constructs its record), the
/// published base address, and the fixed stride between records.
#[verifier::ext_equal]
pub ghost struct AreaView {
    pub cores: Seq<Option<CoreView>>,
    pub base: usize,
    pub stride: usize,
}

impl AreaView {
    /// The configured core count.
    pub open spec fn core_count(self) -> nat {
        self.cores.len()
    }

    /// Whether core `i`'s record has been constructed.
    pub open spec fn constructed(self, i: int) -> bool {
        0 <= i < self.cores.len() && self.cores[i] is Some
    }

    /// Core `i`'s record.
    pub open spec fn record(self, i: int) -> CoreView {
        self.cores[i].unwrap()
    }

    /// Whether every configured core has been brought up.
    pub open spec fn all_constructed(self) -> bool {
        forall|i: int| 0 <= i < self.cores.len() ==> #[trigger] self.constructed(i)
    }

    /// Well-formedness of the area: at least one core, a positive stride
    /// whose mask fits the machine word, a base aligned to that mask's
    /// width, all record addresses representable, and each constructed
    /// record carrying the id of its own slot.
    pub open spec fn wf(self) -> bool {
        &&& self.cores.len() >= 1
        &&& self.stride > 0
        &&& bit_width(self.stride as nat) < usize::BITS
        &&& self.base as int % pow2(bit_width(self.stride as nat)) as int == 0
        &&& self.base + self.cores.len() * self.stride <= usize::MAX
        &&& forall|i: int|
            #![trigger self.cores[i]]
            0 <= i < self.cores.len() && self.cores[i] is Some
                ==> self.cores[i].unwrap().cpu_id == i
    }

    /// The area with core `i`'s record replaced by `c`.
    pub open spec fn with_record(self, i: int, c: CoreView) -> AreaView {
        AreaView { cores: self.cores.update(i, Some(c)), ..self }
    }

    /// What the dedicated register must hold for the resolver to find core
    /// `i`: the address of slot `i`, with the slot's offset under the mask
    /// that one stride's bit width spans. Binding a register outside these
    /// bounds is the documented precondition violation of the resolver.
    pub open spec fn valid_register_value(self, tp: usize, i: int) -> bool {
        &&& self.constructed(i)
        &&& tp == self.base + i * self.stride
        &&& i * self.stride < pow2(bit_width(self.stride as nat))
    }
}

/// The view of one slot: the record's view once constructed.
pub open spec fn slot_view(slot: Option<Processor>) -> Option<CoreView> {
    match slot {
        Some(p) => Some(p@),
        None => None,
    }
}

/// The per-core area: every core's state record, indexed by core id.
pub struct PerCpuArea {
    slots: Vec<Option<Processor>>,
    base: usize,
    stride: usize,
}

impl View for PerCpuArea {
    type V = AreaView;

    closed spec fn view(&self) -> AreaView {
        AreaView {
            cores: self.slots@.map_values(|slot: Option<Processor>| slot_view(slot)),
            base: self.base,
            stride: self.stride,
        }
    }
}

impl PerCpuArea {
    /// Runs exactly once, on the first core: takes the zeroed region the
    /// external allocator carved out (its published `base`), lays out one
    /// empty slot per configured core, constructs the boot core's record,
    /// and leaves every other slot unconstructed for its own core's
    /// bring-up.
    pub fn bring_up_primary(cpu_id: usize, core_count: usize, base: usize, stride: usize) -> (r:
        PerCpuArea)
        requires
            core_count >= 1,
            cpu_id < core_count,
            stride > 0,
            bit_width(stride as nat) < usize::BITS,
            base as int % pow2(bit_width(stride as nat)) as int == 0,
            base + core_count * stride <= usize::MAX,
        ensures
            r@.wf(),
            r@.base == base,
            r@.stride == stride,
            r@.core_count() == core_count,
            r@.constructed(cpu_id as int),
            r@.record(cpu_id as int) == fresh_core(cpu_id, true),
            forall|i: int| 0 <= i < core_count && i != cpu_id ==> !r@.constructed(i),
    {
        let mut slots: Vec<Option<Processor>> = Vec::new();
        let mut i: usize = 0;
        while i < core_count
            invariant
                i <= core_count,
                slots@.len() == i,
                forall|j: int| 0 <= j < i ==> slots@[j] is None,
            decreases core_count - i,
        {
            slots.push(None);
            i = i + 1;
        }
        let mut area = PerCpuArea { slots, base, stride };
        area.construct_slot(cpu_id, true);
        area
    }

    /// Runs once per additional core, after the primary has published the
    /// base: constructs this core's record in its own slot. Its
    /// precondition — a core id inside the configured range whose slot is
    /// still empty — is the caller's to sequence: a kernel that breaks it
    /// gets corrupted state, not a reported error.
    pub fn bring_up_secondary(&mut self, cpu_id: usize)
        requires
            old(self)@.wf(),
            cpu_id < old(self)@.core_count(),
            !old(self)@.constructed(cpu_id as int),
        ensures
            final(self)@.wf(),
            final(self)@ == (AreaView {
                cores: old(self)@.cores.update(cpu_id as int, Some(fresh_core(cpu_id, false))),
                ..old(self)@
            }),
    {
        self.construct_slot(cpu_id, false);
    }

    /// Constructs core `cpu_id`'s record in place.
    fn construct_slot(&mut self, cpu_id: usize, is_boot_core: bool)
        requires
            cpu_id < old(self)@.core_count(),
        ensures
            final(self)@ == (AreaView {
                cores: old(self)@.cores.update(
                    cpu_id as int,
                    Some(fresh_core(cpu_id, is_boot_core)),
                ),
                ..old(self)@
            }),
    {
        let slot = &mut self.slots[cpu_id];
        *slot = Some(Processor::new(cpu_id, is_boot_core));
        proof {
            assert(self@.cores =~= old(self)@.cores.update(
                cpu_id as int,
                Some(fresh_core(cpu_id, is_boot_core)),
            ));
        }
    }

    /// The configured core count.
    pub fn core_count(&self) -> (r: usize)
        ensures
            r == self@.core_count(),
    {
        self.slots.len()
    }

    /// Whether core `cpu`'s record has been constructed: true from the
    /// moment that core's bring-up ran.
    pub fn is_constructed(&self, cpu: usize) -> (r: bool)
        requires
            cpu < self@.core_count(),
        ensures
            r == self@.constructed(cpu as int),
    {
        self.slots[cpu].is_some()
    }

    /// Borrows core `cpu`'s record. A slot yields a record only once that
    /// core's bring-up has constructed it.
    pub fn record_at(&self, cpu: usize) -> (r: &Processor)
        requires
            self@.constructed(cpu as int),
        ensures
            r@ == self@.record(cpu as int),
    {
        self.slots[cpu].as_ref().unwrap()
    }

    /// References to all configured records, in core-id order: for use by
    /// bring-up and load balancing only, once every core is up.
    pub fn enumerate_all(&self) -> (r: Vec<&Processor>)
        requires
            self@.all_constructed(),
        ensures
            r@.len() == self@.core_count(),
            forall|i: int| 0 <= i < r@.len() ==> #[trigger] r@[i]@ == self@.record(i),
    {
        let mut v: Vec<&Processor> = Vec::new();
        let mut i: usize = 0;
        while i < self.slots.len()
            invariant
                i <= self@.core_count(),
                self@.all_constructed(),
                v@.len() == i,
                forall|j: int| 0 <= j < i ==> #[trigger] v@[j]@ == self@.record(j),
            decreases self@.core_count() - i,
        {
            proof {
                assert(self@.constructed(i as int));
            }
            v.push(self.record_at(i));
            i = i + 1;
        }
        v
    }
}

/// Task, stack and field operations on one core's slot. Each call names
/// the core it works on; after bring-up that index is the calling core's
/// own, resolved from the dedicated register.
impl PerCpuArea {
    /// Enqueues `task` at the back of core `cpu`'s ready queue.
    pub fn add_task(&mut self, cpu: usize, task: TaskId)
        requires
            old(self)@.wf(),
            old(self)@.constructed(cpu as int),
        ensures
            final(self)@.wf(),
            final(self)@ == old(self)@.with_record(cpu as int, (CoreView {
                tasks: old(self)@.record(cpu as int).tasks.push(task),
                ..old(self)@.record(cpu as int)
            })),
    {
        let slot = &mut self.slots[cpu];
        match slot {
            Some(p) => p.add_task(task),
            None => {},
        }
        proof {
            assert(self@.cores =~= old(self)@.with_record(cpu as int, (CoreView {
                tasks: old(self)@.record(cpu as int).tasks.push(task),
                ..old(self)@.record(cpu as int)
            })).cores);
        }
    }

    /// Re-enqueues a task core `cpu` just stopped running. The front hint
    /// is accepted but placement is always at the back: a documented
    /// limitation, kept as stated rather than silently corrected.
    pub fn put_prev_task(&mut self, cpu: usize, task: TaskId, _front: bool)
        requires
            old(self)@.wf(),
            old(self)@.constructed(cpu as int),
        ensures
            final(self)@.wf(),
            final(self)@ == old(self)@.with_record(cpu as int, (CoreView {
                tasks: old(self)@.record(cpu as int).tasks.push(task),
                ..old(self)@.record(cpu as int)
            })),
    {
        let slot = &mut self.slots[cpu];
        match slot {
            Some(p) => p.put_prev_task(task, _front),
            None => {},
        }
        proof {
            assert(self@.cores =~= old(self)@.with_record(cpu as int, (CoreView {
                tasks: old(self)@.record(cpu as int).tasks.push(task),
                ..old(self)@.record(cpu as int)
            })).cores);
        }
    }

    /// Pops one task from the front of core `cpu`'s ready queue; `None`
    /// when the queue is empty.
    pub fn pick_next_task(&mut self, cpu: usize) -> (r: Option<TaskId>)
        requires
            old(self)@.wf(),
            old(self)@.constructed(cpu as int),
        ensures
            final(self)@.wf(),
            old(self)@.record(cpu as int).tasks.len() == 0 ==> r is None && final(self)@ == old(
                self,
            )@,
            old(self)@.record(cpu as int).tasks.len() > 0 ==> r == Some(
                old(self)@.record(cpu as int).tasks[0],
            ) && final(self)@ == old(self)@.with_record(cpu as int, (CoreView {
                tasks: old(self)@.record(cpu as int).tasks.drop_first(),
                ..old(self)@.record(cpu as int)
            })),
    {
        let slot = &mut self.slots[cpu];
        let r = match slot {
            Some(p) => p.pick_next_task(),
            None => None,
        };
        proof {
            if old(self)@.record(cpu as int).tasks.len() == 0 {
                assert(self@.cores =~= old(self)@.cores);
                assert(self@ =~= old(self)@);
            } else {
                assert(self@.cores =~= old(self)@.with_record(cpu as int, (CoreView {
                    tasks: old(self)@.record(cpu as int).tasks.drop_first(),
                    ..old(self)@.record(cpu as int)
                })).cores);
            }
        }
        r
    }

    /// Records `task` as the task presently executing on core `cpu`.
    pub fn set_current_task(&mut self, cpu: usize, task: TaskId)
        requires
            old(self)@.wf(),
            old(self)@.constructed(cpu as int),
        ensures
            final(self)@.wf(),
            final(self)@ == old(self)@.with_record(cpu as int, (CoreView {
                current: Some(task),
                ..old(self)@.record(cpu as int)
            })),
    {
        let slot = &mut self.slots[cpu];
        match slot {
            Some(p) => p.set_current_task(task),
            None => {},
        }
        proof {
            assert(self@.cores =~= old(self)@.with_record(cpu as int, (CoreView {
                current: Some(task),
                ..old(self)@.record(cpu as int)
            })).cores);
        }
    }

    /// Overwrites core `cpu`'s scheduler handle.
    pub fn set_scheduler_ptr(&mut self, cpu: usize, scheduler_ptr: usize)
        requires
            old(self)@.wf(),
            old(self)@.constructed(cpu as int),
        ensures
            final(self)@.wf(),
            final(self)@ == old(self)@.with_record(cpu as int, (CoreView {
                scheduler_ptr,
                ..old(self)@.record(cpu as int)
            })),
    {
        let slot = &mut self.slots[cpu];
        match slot {
            Some(p) => p.set_scheduler_ptr(scheduler_ptr),
            None => {},
        }
        proof {
            assert(self@.cores =~= old(self)@.with_record(cpu as int, (CoreView {
                scheduler_ptr,
                ..old(self)@.record(cpu as int)
            })).cores);
        }
    }

    /// Overwrites core `cpu`'s next timer deadline. No monotonicity is
    /// enforced: a later write with a smaller tick simply wins.
    pub fn set_timer_next_deadline(&mut self, cpu: usize, deadline: u64)
        requires
            old(self)@.wf(),
            old(self)@.constructed(cpu as int),
        ensures
            final(self)@.wf(),
            final(self)@ == old(self)@.with_record(cpu as int, (CoreView {
                next_timer_deadline: deadline,
                ..old(self)@.record(cpu as int)
            })),
    {
        let slot = &mut self.slots[cpu];
        match slot {
            Some(p) => p.set_timer_next_deadline(deadline),
            None => {},
        }
        proof {
            assert(self@.cores =~= old(self)@.with_record(cpu as int, (CoreView {
                next_timer_deadline: deadline,
                ..old(self)@.record(cpu as int)
            })).cores);
        }
    }

    /// Seeds core `cpu`'s stack-pool slot with its boot stack.
    pub fn init_running_stack(&mut self, cpu: usize, curr_boot_stack: usize)
        requires
            old(self)@.wf(),
            old(self)@.constructed(cpu as int),
        ensures
            final(self)@.wf(),
            final(self)@ == old(self)@.with_record(cpu as int, (CoreView {
                stack: Some(RunningStack { base: curr_boot_stack }),
                ..old(self)@.record(cpu as int)
            })),
    {
        let slot = &mut self.slots[cpu];
        match slot {
            Some(p) => p.init_running_stack(curr_boot_stack),
            None => {},
        }
        proof {
            assert(self@.cores =~= old(self)@.with_record(cpu as int, (CoreView {
                stack: Some(RunningStack { base: curr_boot_stack }),
                ..old(self)@.record(cpu as int)
            })).cores);
        }
    }

    /// Removes and returns ownership of core `cpu`'s installed stack.
    pub fn pick_current_stack(&mut self, cpu: usize) -> (r: RunningStack)
        requires
            old(self)@.wf(),
            old(self)@.constructed(cpu as int),
            old(self)@.record(cpu as int).stack is Some,
        ensures
            final(self)@.wf(),
            r == old(self)@.record(cpu as int).stack.unwrap(),
            final(self)@ == old(self)@.with_record(cpu as int, (CoreView {
                stack: None,
                ..old(self)@.record(cpu as int)
            })),
    {
        let slot = &mut self.slots[cpu];
        let r = match slot {
            Some(p) => p.pick_current_stack(),
            None => RunningStack { base: 0 },
        };
        proof {
            assert(self@.cores =~= old(self)@.with_record(cpu as int, (CoreView {
                stack: None,
                ..old(self)@.record(cpu as int)
            })).cores);
        }
        r
    }

    /// Installs `stack` as core `cpu`'s active stack.
    pub fn set_current_stack(&mut self, cpu: usize, stack: RunningStack)
        requires
            old(self)@.wf(),
            old(self)@.constructed(cpu as int),
        ensures
            final(self)@.wf(),
            final(self)@ == old(self)@.with_record(cpu as int, (CoreView {
                stack: Some(stack),
                ..old(self)@.record(cpu as int)
            })),
    {
        let slot = &mut self.slots[cpu];
        match slot {
            Some(p) => p.set_current_stack(stack),
            None => {},
        }
        proof {
            assert(self@.cores =~= old(self)@.with_record(cpu as int, (CoreView {
                stack: Some(stack),
                ..old(self)@.record(cpu as int)
            })).cores);
        }
    }
}

/// The number of tasks waiting on core `i`.
pub open spec fn queue_len_of(cores: Seq<Option<CoreView>>, i: int) -> nat {
    cores[i].unwrap().tasks.len()
}

/// The scan from slot `i` onward, carrying `best`, the least-loaded slot
/// seen so far: a strictly shorter queue displaces the carried slot, so
/// ties keep the earlier one.
pub open spec fn least_loaded_from(cores: Seq<Option<CoreView>>, i: int, best: int) -> int
    decreases cores.len() - i,
{
    if i >= cores.len() {
        best
    } else if queue_len_of(cores, i) < queue_len_of(cores, best) {
        least_loaded_from(cores, i + 1, i)
    } else {
        least_loaded_from(cores, i + 1, best)
    }
}

/// The core the placement protocol selects: the one with the shortest
/// ready queue, ties broken by the smallest core id.
pub open spec fn least_loaded(cores: Seq<Option<CoreView>>) -> int {
    least_loaded_from(cores, 1, 0)
}

proof fn lemma_least_loaded_from(cores: Seq<Option<CoreView>>, i: int, best: int)
    requires
        1 <= i <= cores.len(),
        0 <= best < i,
        forall|k: int| 0 <= k < i ==> queue_len_of(cores, best) <= #[trigger] queue_len_of(cores, k),
        forall|k: int| 0 <= k < best ==> #[trigger] queue_len_of(cores, k) > queue_len_of(
            cores,
            best,
        ),
    ensures
        0 <= least_loaded_from(cores, i, best) < cores.len(),
        forall|k: int|
            0 <= k < cores.len() ==> queue_len_of(cores, least_loaded_from(cores, i, best))
                <= #[trigger] queue_len_of(cores, k),
        forall|k: int|
            0 <= k < least_loaded_from(cores, i, best) ==> #[trigger] queue_len_of(cores, k)
                > queue_len_of(cores, least_loaded_from(cores, i, best)),
    decreases cores.len() - i,
{
    if i < cores.len() {
        if queue_len_of(cores, i) < queue_len_of(cores, best) {
            lemma_least_loaded_from(cores, i + 1, i);
        } else {
            lemma_least_loaded_from(cores, i + 1, best);
        }
    }
}

/// The law of least-loaded selection: the selected slot exists, no core
/// has a shorter ready queue, and every earlier core has a strictly longer
/// one — so among the shortest queues the smallest core id wins.
pub proof fn lemma_least_loaded_characterization(cores: Seq<Option<CoreView>>)
    requires
        cores.len() >= 1,
    ensures
        0 <= least_loaded(cores) < cores.len(),
        forall|k: int|
            0 <= k < cores.len() ==> queue_len_of(cores, least_loaded(cores))
                <= #[trigger] queue_len_of(cores, k),
        forall|k: int|
            0 <= k < least_loaded(cores) ==> #[trigger] queue_len_of(cores, k) > queue_len_of(
                cores,
                least_loaded(cores),
            ),
{
    lemma_least_loaded_from(cores, 1, 0);
}

/// The placement protocol.
impl PerCpuArea {
    /// Scans all cores and returns the least-loaded one, ties broken by
    /// the smallest core id. The scan and any later push are separate
    /// steps: under concurrent callers the snapshot may be stale by the
    /// time a task is pushed, a documented race of the protocol.
    fn select_cpu(&self) -> (r: usize)
        requires
            self@.wf(),
            self@.all_constructed(),
        ensures
            r as int == least_loaded(self@.cores),
            r < self@.core_count(),
    {
        proof {
            assert(self@.constructed(0));
        }
        let mut best: usize = 0;
        let mut best_len: usize = self.record_at(0).ready_len();
        let mut i: usize = 1;
        while i < self.slots.len()
            invariant
                self@.wf(),
                self@.all_constructed(),
                1 <= i <= self@.core_count(),
                best < i,
                best_len == queue_len_of(self@.cores, best as int),
                least_loaded_from(self@.cores, i as int, best as int) == least_loaded(self@.cores),
            decreases self@.core_count() - i,
        {
            proof {
                assert(self@.constructed(i as int));
            }
            let l = self.record_at(i).ready_len();
            if l < best_len {
                best = i;
                best_len = l;
            }
            i = i + 1;
        }
        best
    }

    /// The sole load-balancing decision: used once per task, at creation.
    /// Places `task` on the least-loaded core's queue, ties broken by the
    /// smallest core id. A task placed here stays on that core: no
    /// migration follows.
    pub fn first_add_task(&mut self, task: TaskId)
        requires
            old(self)@.wf(),
            old(self)@.all_constructed(),
        ensures
            final(self)@.wf(),
            final(self)@ == old(self)@.with_record(least_loaded(old(self)@.cores), (CoreView {
                tasks: old(self)@.record(least_loaded(old(self)@.cores)).tasks.push(task),
                ..old(self)@.record(least_loaded(old(self)@.cores))
            })),
    {
        let cpu = self.select_cpu();
        proof {
            assert(self@.constructed(cpu as int));
        }
        self.add_task(cpu, task);
    }
}

/// The resolver and the register binding.
impl PerCpuArea {
    /// The value bring-up binds into core `cpu`'s dedicated register: the
    /// address of that core's record, `base + cpu * stride`.
    pub fn register_value_for(&self, cpu: usize) -> (r: usize)
        requires
            self@.wf(),
            cpu < self@.core_count(),
        ensures
            r == self@.base + cpu * self@.stride,
    {
        proof {
            assert(cpu as int * self@.stride as int + self@.stride as int <= self@.core_count()
                as int * self@.stride as int) by (nonlinear_arith)
                requires
                    (cpu as int) < self@.core_count() as int,
                    self@.stride as int >= 0,
            ;
        }
        self.base + cpu * self.stride
    }

    /// Resolves the calling core's record from the value `tp` its
    /// dedicated register holds. The register must have been bound by
    /// bring-up to a constructed slot whose offset fits under the stride's
    /// bit mask; calling with anything else is the documented precondition
    /// violation of resolving before bring-up.
    pub fn get_percpu(&self, tp: usize) -> (r: &Processor)
        requires
            self@.wf(),
            exists|i: int| self@.valid_register_value(tp, i),
        ensures
            forall|i: int| self@.valid_register_value(tp, i) ==> r@ == self@.record(i),
    {
        let bits = get_bits(self.stride);
        proof {
            lemma_usize_pow2_no_overflow(bit_width(self.stride as nat));
            lemma_usize_shl_is_mul(1, bits);
        }
        let mask = (1usize << bits) - 1;
        let off = tp & mask;
        let idx = off / self.stride;
        proof {
            let i = choose|i: int| self@.valid_register_value(tp, i);
            let b = bit_width(self.stride as nat);
            let p = pow2(b) as int;
            assert(mask == low_bits_mask(b) as usize);
            lemma_usize_low_bits_mask_is_mod(tp, b);
            lemma_fundamental_div_mod(self.base as int, p);
            lemma_mod_multiples_vanish(self.base as int / p, i * self.stride as int, p);
            lemma_small_mod((i * self.stride as int) as nat, p as nat);
            assert(off == i * self.stride as int);
            lemma_div_by_multiple(i, self.stride as int);
            assert(idx as int == i);
            assert forall|j: int| self@.valid_register_value(tp, j) implies j == i by {
                let s = self@.stride as int;
                assert(j * s == i * s);
                assert(j == i) by (nonlinear_arith)
                    requires
                        j * s == i * s,
                        s > 0,
                ;
            }
        }
        self.record_at(idx)
    }
}

/// The law of the register binding: the value bring-up binds for a
/// constructed core — the address of its slot — is valid for resolution,
/// so the resolver hands back exactly that core's record. The slot's
/// offset must fit under the stride's bit mask; for the boot core (offset
/// zero) and the first secondary (offset one stride) it always does.
pub proof fn lemma_register_binding_resolvable(v: AreaView, cpu: int, tp: usize)
    requires
        v.wf(),
        v.constructed(cpu),
        tp == v.base + cpu * v.stride,
        cpu <= 1 || cpu * v.stride < pow2(bit_width(v.stride as nat)),
    ensures
        v.valid_register_value(tp, cpu),
{
    lemma_bit_width_bounds(v.stride as nat);
    if cpu == 0 {
        assert(cpu * v.stride == 0);
    } else if cpu == 1 {
        assert(cpu * v.stride == v.stride);
    }
}

/// The published base address of the per-core area.
pub fn percpu_area_base(area: &PerCpuArea) -> (r: usize)
    ensures
        r == area@.base,
{
    area.base
}

} // verus!
