//! Lifetime bookkeeping for GPU objects: a ledger that records every object
//! in creation order and hands them back for destruction in reverse order,
//! either the swapchain-scoped ones alone (on a rebuild) or all of them.

use vstd::prelude::*;

verus! {

/// The kind of a GPU object, which decides how it is destroyed.
#[derive(Clone, Copy, Debug, PartialEq, Eq, Structural)]
pub enum ObjectKind {
    DebugMessenger,
    Surface,
    Swapchain,
    Image,
    ImageView,
    DeviceMemory,
    Buffer,
    Sampler,
    RenderPass,
    DescriptorSetLayout,
    DescriptorPool,
    PipelineLayout,
    Pipeline,
    Framebuffer,
    CommandPool,
    CommandBuffer,
    Semaphore,
    Fence,
}

/// How long an object lives.
#[derive(Clone, Copy, Debug, PartialEq, Eq, Structural)]
pub enum Scope {
    /// Lives until full teardown.
    Application,
    /// Depends on the swapchain's extent or image count; rebuilt with it.
    Swapchain,
}

/// A created GPU object: its kind, raw handle and scope.
#[derive(Clone, Copy, Debug, PartialEq, Eq, Structural)]
pub struct GpuObject {
    pub kind: ObjectKind,
    pub handle: u64,
    pub scope: Scope,
}

pub open spec fn is_swapchain_scoped(o: GpuObject) -> bool {
    o.scope == Scope::Swapchain
}

pub open spec fn is_application_scoped(o: GpuObject) -> bool {
    o.scope == Scope::Application
}

/// Every live GPU object, in the order of creation.
pub struct ObjectLedger {
    pub live: Vec<GpuObject>,
}

impl View for ObjectLedger {
    type V = Seq<GpuObject>;

    open spec fn view(&self) -> Seq<GpuObject> {
        self.live@
    }
}

fn reversed(v: &Vec<GpuObject>) -> (r: Vec<GpuObject>)
    ensures
        r@ == v@.reverse(),
{
    let n = v.len();
    let mut r: Vec<GpuObject> = Vec::new();
    let mut k: usize = 0;
    while k < n
        invariant
            n == v@.len(),
            k <= n,
            r@ == Seq::new(k as nat, |t: int| v@[n - 1 - t]),
        decreases n - k,
    {
        r.push(v[n - 1 - k]);
        k = k + 1;
        assert(r@ =~= Seq::new(k as nat, |t: int| v@[n - 1 - t]));
    }
    assert(r@ =~= v@.reverse());
    r
}

impl ObjectLedger {
    /// A ledger with nothing recorded.
    pub fn new() -> (r: ObjectLedger)
        ensures
            r@ == Seq::<GpuObject>::empty(),
    {
        ObjectLedger { live: Vec::new() }
    }

    /// Records a newly created object.
    pub fn record(&mut self, object: GpuObject)
        ensures
            final(self)@ == old(self)@.push(object),
    {
        self.live.push(object);
    }

    /// Number of live objects.
    pub fn len(&self) -> (r: usize)
        ensures
            r == self@.len(),
    {
        self.live.len()
    }

    /// Removes the swapchain-scoped objects and returns them, most recently
    /// created first; the other objects stay, in their order.
    pub fn release_swapchain(&mut self) -> (r: Vec<GpuObject>)
        ensures
            r@ == old(self)@.filter(|o: GpuObject| is_swapchain_scoped(o)).reverse(),
            final(self)@ == old(self)@.filter(|o: GpuObject| is_application_scoped(o)),
    {
        let ghost all = self@;
        let n = self.live.len();
        let mut kept: Vec<GpuObject> = Vec::new();
        let mut scoped: Vec<GpuObject> = Vec::new();
        let mut i: usize = 0;
        while i < n
            invariant
                n == all.len(),
                self@ == all,
                i <= n,
                kept@ == all.take(i as int).filter(|o: GpuObject| is_application_scoped(o)),
                scoped@ == all.take(i as int).filter(|o: GpuObject| is_swapchain_scoped(o)),
            decreases n - i,
        {
            let o = self.live[i];
            proof {
                let next = all.take(i + 1);
                assert(next.drop_last() =~= all.take(i as int));
                assert(next.last() == o);
                reveal(Seq::filter);

            }
            match o.scope {
                Scope::Swapchain => scoped.push(o),
                Scope::Application => kept.push(o),
            }
            i = i + 1;
        }
        assert(all.take(n as int) =~= all);
        self.live = kept;
        reversed(&scoped)
    }

    /// Removes every object and returns them all, most recently created first.
    pub fn release_all(&mut self) -> (r: Vec<GpuObject>)
        ensures
            r@ == old(self)@.reverse(),
            final(self)@ == Seq::<GpuObject>::empty(),
    {
        let r = reversed(&self.live);
        self.live = Vec::new();
        r
    }
}

proof fn lemma_scopes_partition(s: Seq<GpuObject>)
    ensures
        s.filter(|o: GpuObject| is_swapchain_scoped(o)).to_multiset().add(
            s.filter(|o: GpuObject| is_application_scoped(o)).to_multiset(),
        ) =~= s.to_multiset(),
    decreases s.len(),
{
    broadcast use vstd::seq_lib::group_to_multiset_ensures;
    broadcast use vstd::multiset::group_multiset_axioms;

    reveal(Seq::filter);
    if s.len() > 0 {
        lemma_scopes_partition(s.drop_last());
        assert(s.drop_last().push(s.last()) =~= s);
    }
}

/// Tearing down everything recorded in an empty ledger leaks nothing and
/// frees nothing twice: releasing it all at once returns each created
/// object exactly once, in the reverse order of creation; releasing the
/// swapchain scope first and then the rest, as a full shutdown does, also
/// returns each created object exactly once, and each scope in the reverse
/// order of its creation.
pub proof fn lemma_teardown_releases_everything(created: Seq<GpuObject>)
    ensures
        ({
            let all_at_once = created.reverse();
            let swapchain_first = created.filter(|o: GpuObject| is_swapchain_scoped(o)).reverse();
            let then_rest = created.filter(|o: GpuObject| is_application_scoped(o)).reverse();
            &&& all_at_once.len() == created.len()
            &&& forall|i: int|
                0 <= i < created.len() ==> #[trigger] all_at_once[i] == created[created.len() - 1 - i]
            &&& all_at_once.to_multiset() =~= created.to_multiset()
            &&& (swapchain_first + then_rest).to_multiset() =~= created.to_multiset()
        }),
{
    broadcast use vstd::seq_lib::lemma_multiset_commutative;

    let sw = created.filter(|o: GpuObject| is_swapchain_scoped(o));
    let app = created.filter(|o: GpuObject| is_application_scoped(o));
    created.lemma_reverse_to_multiset();
    sw.lemma_reverse_to_multiset();
    app.lemma_reverse_to_multiset();
    lemma_scopes_partition(created);
}

} // verus!
