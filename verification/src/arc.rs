//! The shared cell: one heap-allocated payload jointly owned through counted
//! handles. An owning handle guarantees the payload is present; a weak handle
//! only keeps the allocation's block alive and may try to win ownership back.
//! Two counters drive the lifecycle: the strong count (owning handles) gates
//! the payload's destruction, the total count (handles of either kind) gates
//! the block's release, and `strong <= total` always. The protocol is stated
//! twice here: as a ghost transition relation (`step`/`steps`) over which the
//! lifecycle laws are proved for arbitrary histories, and as executable
//! operations on an explicit allocation record, each of whose contracts names
//! the ghost step it performs.

use vstd::prelude::*;
use core::marker::PhantomData;

verus! {

/// Ceiling on the handle counters: a clone that would push a counter past it
/// aborts instead of wrapping, which bounds the number of live handles and
/// protects the lifecycle invariants from silent wraparound.
pub const COUNT_CEILING: u8 = 127;

/// Mathematical state of one allocation record: how many owning handles live,
/// how many handles of either kind live, and whether the payload is present.
/// `total == 0` marks the record as freed.
pub struct AllocState<T> {
    pub strong: nat,
    pub total: nat,
    pub payload: Option<T>,
}

impl<T> AllocState<T> {
    /// The record's internal invariant: every owning handle also counts as one
    /// handle overall, and the payload is present exactly while an owning
    /// handle lives.
    pub open spec fn wf(self) -> bool {
        &&& self.strong <= self.total
        &&& (self.strong > 0 <==> self.payload is Some)
    }

    /// Some handle still references the record, so its block is retained.
    pub open spec fn live(self) -> bool {
        self.total > 0
    }

    /// Only weak handles remain: the payload is gone, the block is retained.
    pub open spec fn weak_only(self) -> bool {
        self.strong == 0 && self.total > 0
    }

    /// The last handle of any kind is gone and the block has been released.
    pub open spec fn freed(self) -> bool {
        self.total == 0
    }

    /// At least one live weak handle exists (owning handles account for
    /// `strong` of the `total` references).
    pub open spec fn has_weak(self) -> bool {
        self.total > self.strong
    }
}

/// The protocol's state-changing operations, one per handle event.
pub enum Op {
    CloneOwning,
    DropOwning,
    CloneWeak,
    DropWeak,
    Upgrade,
}

/// The transition relation of the counter protocol: which operation is enabled
/// in which state, and what it does to the counters and the payload.
pub open spec fn step<T>(op: Op, pre: AllocState<T>, post: AllocState<T>) -> bool {
    match op {
        Op::CloneOwning => {
            &&& pre.strong >= 1
            &&& post.strong == pre.strong + 1
            &&& post.total == pre.total + 1
            &&& post.payload == pre.payload
        },
        Op::DropOwning => {
            &&& pre.strong >= 1
            &&& post.strong == pre.strong - 1
            &&& post.total == pre.total - 1
            &&& post.payload == (if pre.strong == 1 { None::<T> } else { pre.payload })
        },
        Op::CloneWeak => {
            &&& pre.live()
            &&& post.strong == pre.strong
            &&& post.total == pre.total + 1
            &&& post.payload == pre.payload
        },
        Op::DropWeak => {
            &&& pre.has_weak()
            &&& post.strong == pre.strong
            &&& post.total == pre.total - 1
            &&& post.payload == pre.payload
        },
        Op::Upgrade => {
            &&& pre.has_weak()
            &&& if pre.strong == 0 {
                    post == pre
                } else {
                    &&& post.strong == pre.strong + 1
                    &&& post.total == pre.total + 1
                    &&& post.payload == pre.payload
                }
        },
    }
}

/// A whole history: `post` is reached from `pre` by taking the listed
/// operations in order.
pub open spec fn steps<T>(pre: AllocState<T>, ops: Seq<Op>, post: AllocState<T>) -> bool
    decreases ops.len(),
{
    if ops.len() == 0 {
        post == pre
    } else {
        exists|mid: AllocState<T>|
            #[trigger] step(ops[0], pre, mid) && steps(mid, ops.drop_first(), post)
    }
}

/// Every single protocol step preserves the record's invariant: in particular
/// the payload is never destroyed while an owning handle lives, and is always
/// gone once none does.
pub proof fn lemma_step_preserves_wf<T>(op: Op, pre: AllocState<T>, post: AllocState<T>)
    requires
        pre.wf(),
        step(op, pre, post),
    ensures
        post.wf(),
{
}

/// The record's invariant holds along any history of handle events, however
/// the clones, drops and upgrades are interleaved.
pub proof fn lemma_steps_preserve_wf<T>(pre: AllocState<T>, ops: Seq<Op>, post: AllocState<T>)
    requires
        pre.wf(),
        steps(pre, ops, post),
    ensures
        post.wf(),
    decreases ops.len(),
{
    if ops.len() > 0 {
        let mid = choose|mid: AllocState<T>|
            #[trigger] step(ops[0], pre, mid) && steps(mid, ops.drop_first(), post);
        lemma_step_preserves_wf(ops[0], pre, mid);
        lemma_steps_preserve_wf(mid, ops.drop_first(), post);
    }
}

/// Once the strong count has reached zero it stays zero: no single step
/// revives the payload, so a failed upgrade can never be followed by a
/// successful one on the same record.
pub proof fn lemma_weak_only_is_absorbing<T>(op: Op, pre: AllocState<T>, post: AllocState<T>)
    requires
        pre.wf(),
        pre.strong == 0,
        step(op, pre, post),
    ensures
        post.strong == 0,
        post.payload is None,
{
}

/// The absorbing property over a whole history: after the payload is gone,
/// every later state still has it gone, so every later upgrade fails too.
pub proof fn lemma_upgrade_monotonic<T>(pre: AllocState<T>, ops: Seq<Op>, post: AllocState<T>)
    requires
        pre.wf(),
        pre.strong == 0,
        steps(pre, ops, post),
    ensures
        post.strong == 0,
        post.payload is None,
    decreases ops.len(),
{
    if ops.len() > 0 {
        let mid = choose|mid: AllocState<T>|
            #[trigger] step(ops[0], pre, mid) && steps(mid, ops.drop_first(), post);
        lemma_weak_only_is_absorbing(ops[0], pre, mid);
        lemma_step_preserves_wf(ops[0], pre, mid);
        lemma_upgrade_monotonic(mid, ops.drop_first(), post);
    }
}

/// A freed record admits no further step at all: the block is freed at most
/// once, and nothing ever touches it afterwards.
pub proof fn lemma_freed_is_terminal<T>(pre: AllocState<T>, ops: Seq<Op>, post: AllocState<T>)
    requires
        pre.wf(),
        pre.freed(),
        steps(pre, ops, post),
    ensures
        ops.len() == 0,
        post == pre,
{
}

/// Only dropping the last live handle frees the block, and by then the payload
/// has already been destroyed: destruction always happens before the free.
pub proof fn lemma_free_needs_last_drop<T>(op: Op, pre: AllocState<T>, post: AllocState<T>)
    requires
        pre.wf(),
        step(op, pre, post),
        post.freed(),
    ensures
        op == Op::DropOwning || op == Op::DropWeak,
        pre.total == 1,
        post.payload is None,
{
}

/// The allocation record as an executable value: the model keeps the heap
/// block explicit and threads it through every handle operation, so that the
/// counter protocol itself is ordinary verified code.
pub struct ArcData<T> {
    strong: u8,
    total: u8,
    payload: Option<T>,
}

impl<T> View for ArcData<T> {
    type V = AllocState<T>;

    closed spec fn view(&self) -> AllocState<T> {
        AllocState {
            strong: self.strong as nat,
            total: self.total as nat,
            payload: self.payload,
        }
    }
}

impl<T> ArcData<T> {
    /// Number of live owning handles.
    pub fn strong_count(&self) -> (r: u8)
        ensures
            r as nat == self@.strong,
    {
        self.strong
    }

    /// Number of live handles of either kind.
    pub fn total_count(&self) -> (r: u8)
        ensures
            r as nat == self@.total,
    {
        self.total
    }

    /// Whether the payload is still present (it is, exactly while an owning
    /// handle lives).
    pub fn has_payload(&self) -> (r: bool)
        ensures
            r <==> self@.payload is Some,
    {
        self.payload.is_some()
    }

    /// Whether the block has been released (no handle of any kind remains).
    pub fn is_freed(&self) -> (r: bool)
        ensures
            r <==> self@.freed(),
    {
        self.total == 0
    }
}

/// An owning handle: while one lives, the payload of its record is present
/// and readable. Dropping it is an explicit, counted event.
pub struct Arc<T> {
    marker: PhantomData<T>,
}

/// A weak handle: it keeps the block alive but not the payload, and can only
/// try to win back an owning handle through `upgrade`.
pub struct Weak<T> {
    marker: PhantomData<T>,
}

impl<T> Arc<T> {
    /// Create the record with both counters at one and the payload present,
    /// and return the first owning handle. There is no error path.
    pub fn new(value: T) -> (r: (Arc<T>, ArcData<T>))
        ensures
            r.1@ == (AllocState { strong: 1nat, total: 1nat, payload: Some(value) }),
            r.1@.wf(),
    {
        (
            Arc { marker: PhantomData },
            ArcData { strong: 1, total: 1, payload: Some(value) },
        )
    }

    /// Dereference: the payload is present whenever an owning handle lives, so
    /// this always succeeds.
    pub fn deref<'a>(&self, data: &'a ArcData<T>) -> (r: &'a T)
        requires
            data@.wf(),
            data@.strong >= 1,
        ensures
            data@.payload == Some(*r),
    {
        match data.payload.as_ref() {
            Some(r) => r,
            None => unreached(),
        }
    }

    /// Clone an owning handle: the new handle raises the total count (it is
    /// one more handle) and the strong count (it is an owning one); the
    /// payload is untouched. A count at the ceiling would abort instead, so
    /// that case is excluded here.
    pub fn clone(&self, data: &mut ArcData<T>) -> (r: Arc<T>)
        requires
            old(data)@.wf(),
            old(data)@.strong >= 1,
            old(data)@.total < COUNT_CEILING,
        ensures
            final(data)@.wf(),
            step::<T>(Op::CloneOwning, old(data)@, final(data)@),
            final(data)@.strong == old(data)@.strong + 1,
            final(data)@.total == old(data)@.total + 1,
            final(data)@.payload == old(data)@.payload,
    {
        data.total = data.total + 1;
        data.strong = data.strong + 1;
        Arc { marker: PhantomData }
    }

    /// Produce a weak handle from an owning one: one more handle overall, no
    /// effect on the strong count or the payload.
    pub fn downgrade(&self, data: &mut ArcData<T>) -> (r: Weak<T>)
        requires
            old(data)@.wf(),
            old(data)@.strong >= 1,
            old(data)@.total < COUNT_CEILING,
        ensures
            final(data)@.wf(),
            step::<T>(Op::CloneWeak, old(data)@, final(data)@),
            final(data)@.strong == old(data)@.strong,
            final(data)@.total == old(data)@.total + 1,
            final(data)@.payload == old(data)@.payload,
    {
        data.total = data.total + 1;
        Weak { marker: PhantomData }
    }

    /// Exclusive mutable access, granted if and only if this handle is the
    /// sole live reference of any kind. Nothing else changes; the payload ends
    /// up as whatever the caller wrote through the returned reference.
    pub fn get_mut<'a>(&self, data: &'a mut ArcData<T>) -> (r: Option<&'a mut T>)
        requires
            old(data)@.wf(),
            old(data)@.strong >= 1,
        ensures
            r is Some <==> old(data)@.total == 1,
            r is None ==> final(data)@ == old(data)@,
            r is Some ==> old(data)@.payload == Some(*r.unwrap()),
            r is Some ==> final(data)@ == (AllocState {
                strong: old(data)@.strong,
                total: old(data)@.total,
                payload: Some(*final(r.unwrap())),
            }),
    {
        if data.total == 1 {
            data.payload.as_mut()
        } else {
            None
        }
    }

    /// Drop an owning handle: take back its strong reference and, with it, its
    /// weak-equivalent one. If it was the last owning handle the payload is
    /// destroyed in place; if it was the last handle of any kind the block is
    /// freed as well, and always in that order.
    pub fn drop(self, data: &mut ArcData<T>)
        requires
            old(data)@.wf(),
            old(data)@.strong >= 1,
        ensures
            final(data)@.wf(),
            step::<T>(Op::DropOwning, old(data)@, final(data)@),
            final(data)@.strong == old(data)@.strong - 1,
            final(data)@.total == old(data)@.total - 1,
            old(data)@.strong == 1 ==> final(data)@.payload is None,
            old(data)@.strong > 1 ==> final(data)@.payload == old(data)@.payload,
            final(data)@.freed() <==> old(data)@.total == 1,
    {
        let was_last_strong = was_last(data.strong);
        data.strong = data.strong - 1;
        if was_last_strong {
            data.payload = None;
        }
        data.total = data.total - 1;
    }
}

impl<T> Weak<T> {
    /// Clone a weak handle: one more handle overall, nothing else. A count at
    /// the ceiling would abort instead, so that case is excluded here.
    pub fn clone(&self, data: &mut ArcData<T>) -> (r: Weak<T>)
        requires
            old(data)@.wf(),
            old(data)@.has_weak(),
            old(data)@.total < COUNT_CEILING,
        ensures
            final(data)@.wf(),
            step::<T>(Op::CloneWeak, old(data)@, final(data)@),
            final(data)@.strong == old(data)@.strong,
            final(data)@.total == old(data)@.total + 1,
            final(data)@.payload == old(data)@.payload,
    {
        data.total = data.total + 1;
        Weak { marker: PhantomData }
    }

    /// Try to win back an owning handle. It succeeds if and only if some
    /// owning handle still lives at the moment of the call; once the strong
    /// count has reached zero the answer is final.
    pub fn upgrade(&self, data: &mut ArcData<T>) -> (r: Option<Arc<T>>)
        requires
            old(data)@.wf(),
            old(data)@.has_weak(),
            old(data)@.total < COUNT_CEILING,
        ensures
            final(data)@.wf(),
            step::<T>(Op::Upgrade, old(data)@, final(data)@),
            r is Some <==> old(data)@.strong >= 1,
            r is None ==> final(data)@ == old(data)@ && old(data)@.weak_only(),
            r is Some ==> final(data)@.strong == old(data)@.strong + 1
                && final(data)@.total == old(data)@.total + 1
                && final(data)@.payload == old(data)@.payload,
    {
        match upgrade_step(data.strong) {
            UpgradeStep::NoValue => None,
            UpgradeStep::Raise(next) => {
                data.strong = next;
                data.total = data.total + 1;
                Some(Arc { marker: PhantomData })
            },
            UpgradeStep::PastCeiling => unreached(),
        }
    }

    /// Drop a weak handle: take back its single reference to the block. It
    /// never touches the strong count or the payload; if it was the last
    /// handle of any kind the block is freed.
    pub fn drop(self, data: &mut ArcData<T>)
        requires
            old(data)@.wf(),
            old(data)@.has_weak(),
        ensures
            final(data)@.wf(),
            step::<T>(Op::DropWeak, old(data)@, final(data)@),
            final(data)@.strong == old(data)@.strong,
            final(data)@.total == old(data)@.total - 1,
            final(data)@.payload == old(data)@.payload,
            final(data)@.freed() <==> old(data)@.total == 1,
    {
        data.total = data.total - 1;
    }
}

/// What the upgrade protocol decides after reading the strong count: give up,
/// abort on a count past the ceiling, or try to raise the count by one (by
/// compare-and-swap, in a concurrent setting).
pub enum UpgradeStep {
    NoValue,
    PastCeiling,
    Raise(u8),
}

/// One round of the upgrade decision, as a pure function of the strong count a
/// thread has just read.
pub fn upgrade_step(n: u8) -> (r: UpgradeStep)
    ensures
        n == 0 ==> r == UpgradeStep::NoValue,
        n > COUNT_CEILING ==> r == UpgradeStep::PastCeiling,
        0 < n <= COUNT_CEILING ==> r == (UpgradeStep::Raise((n + 1) as u8)),
{
    if n == 0 {
        UpgradeStep::NoValue
    } else if n > COUNT_CEILING {
        UpgradeStep::PastCeiling
    } else {
        UpgradeStep::Raise(n + 1)
    }
}

/// A drop's decision: the handle just removed was the last one counted if and
/// only if the pre-decrement counter value was exactly one.
pub fn was_last(prev: u8) -> (r: bool)
    ensures
        r <==> prev == 1,
{
    prev == 1
}

/// The clone paths' overflow guard: a pre-increment count past the ceiling
/// means the process must abort rather than let the counter wrap.
pub fn past_ceiling(prev: u8) -> (r: bool)
    ensures
        r <==> prev > COUNT_CEILING,
{
    prev > COUNT_CEILING
}

} // verus!
