//! The queue lifecycle: the exact sequence of native operations that building
//! a queue performs, the teardown sequence that releases what was acquired,
//! and the bridge-side record of which native resources are held.
//!
//! The native calls themselves are made by unverified glue that walks the
//! plans computed here, performing one operation at a time and reporting back
//! how far it got.

use vstd::prelude::*;

use crate::config::{AddressFamily, QueueConfig};
use crate::QueueError;

verus! {

/// One operation against the native logging library.
#[derive(Clone, Copy, PartialEq, Eq, Structural, Debug)]
pub enum NativeOp {
    /// Open the logging context.
    Open,
    /// Unbind a protocol family (by its raw value) from the context.
    UnbindFamily(u16),
    /// Bind a protocol family (by its raw value) to the context.
    BindFamily(u16),
    /// Bind the numbered logging group.
    BindGroup(u16),
    /// Set the copy mode (raw value) and copy range on the bound group.
    SetMode(u8, u32),
    /// Set the flag bits on the bound group.
    SetFlags(u16),
    /// Release the group binding.
    UnbindGroup,
    /// Close the logging context.
    Close,
}

/// The bind (and optional unbind-before-bind) operations for a list of
/// protocol families, in list order.
pub open spec fn spec_family_ops(fams: Seq<AddressFamily>, unbind: bool) -> Seq<NativeOp>
    decreases fams.len(),
{
    if fams.len() == 0 {
        seq![]
    } else {
        spec_family_ops(fams.drop_last(), unbind) + (if unbind {
            seq![
                NativeOp::UnbindFamily(fams.last().spec_raw()),
                NativeOp::BindFamily(fams.last().spec_raw()),
            ]
        } else {
            seq![NativeOp::BindFamily(fams.last().spec_raw())]
        })
    }
}

/// The copy-mode operation a configuration asks for: present exactly when
/// both a copy mode and a range are configured.
pub open spec fn spec_mode_ops(c: QueueConfig) -> Seq<NativeOp> {
    match (c.copy_mode, c.range) {
        (Some(mode), Some(range)) => seq![NativeOp::SetMode(mode.spec_raw(), range)],
        _ => seq![],
    }
}

/// The flags operation a configuration asks for: present exactly when flags
/// are configured.
pub open spec fn spec_flags_ops(c: QueueConfig) -> Seq<NativeOp> {
    match c.flags {
        Some(flags) => seq![NativeOp::SetFlags(flags.bits)],
        None => seq![],
    }
}

/// The whole build sequence: open the context, bind every requested family
/// (unbinding first when asked), bind the requested group, then apply copy
/// mode and flags where configured.
pub open spec fn spec_build_plan(c: QueueConfig) -> Seq<NativeOp> {
    seq![NativeOp::Open] + spec_family_ops(c.address_families@, c.unbind) + seq![
        NativeOp::BindGroup(c.group_num),
    ] + spec_mode_ops(c) + spec_flags_ops(c)
}

/// Compute the build sequence for a configuration.
pub fn build_plan(c: &QueueConfig) -> (plan: Vec<NativeOp>)
    ensures
        plan@ == spec_build_plan(*c),
{
    let mut plan: Vec<NativeOp> = Vec::new();
    plan.push(NativeOp::Open);
    let n = c.address_families.len();
    let mut i: usize = 0;
    while i < n
        invariant
            i <= n,
            n == c.address_families@.len(),
            plan@ == seq![NativeOp::Open] + spec_family_ops(
                c.address_families@.take(i as int),
                c.unbind,
            ),
        decreases n - i,
    {
        let fam = c.address_families[i];
        if c.unbind {
            plan.push(NativeOp::UnbindFamily(fam.raw()));
        }
        plan.push(NativeOp::BindFamily(fam.raw()));
        proof {
            let fams = c.address_families@;
            assert(fams.take(i + 1).drop_last() =~= fams.take(i as int));
            assert(fams.take(i + 1).last() == fams[i as int]);
            assert(plan@ =~= seq![NativeOp::Open] + spec_family_ops(
                fams.take(i + 1),
                c.unbind,
            ));
        }
        i = i + 1;
    }
    proof {
        assert(c.address_families@.take(n as int) =~= c.address_families@);
    }
    plan.push(NativeOp::BindGroup(c.group_num));
    if let (Some(mode), Some(range)) = (c.copy_mode, c.range) {
        plan.push(NativeOp::SetMode(mode.raw(), range));
    }
    if let Some(flags) = c.flags {
        plan.push(NativeOp::SetFlags(flags.bits));
    }
    proof {
        assert(plan@ =~= spec_build_plan(*c));
    }
    plan
}

/// Membership in a concatenation is membership in either part.
proof fn lemma_contains_concat<A>(a: Seq<A>, b: Seq<A>, x: A)
    ensures
        (a + b).contains(x) <==> a.contains(x) || b.contains(x),
{
    if a.contains(x) {
        let i = choose|i: int| 0 <= i < a.len() && a[i] == x;
        assert((a + b)[i] == x);
    }
    if b.contains(x) {
        let i = choose|i: int| 0 <= i < b.len() && b[i] == x;
        assert((a + b)[a.len() + i] == x);
    }
    if (a + b).contains(x) {
        let i = choose|i: int| 0 <= i < (a + b).len() && (a + b)[i] == x;
        if i < a.len() {
            assert(a[i] == x);
        } else {
            assert(b[i - a.len()] == x);
        }
    }
}

/// The family operations are binds and unbinds of families, nothing else.
proof fn lemma_family_ops_shape(fams: Seq<AddressFamily>, unbind: bool)
    ensures
        forall|i: int|
            0 <= i < spec_family_ops(fams, unbind).len() ==> {
                let op = #[trigger] spec_family_ops(fams, unbind)[i];
                op is UnbindFamily || op is BindFamily
            },
    decreases fams.len(),
{
    if fams.len() > 0 {
        lemma_family_ops_shape(fams.drop_last(), unbind);
    }
}

/// Within the family operations, with unbind-before-bind requested every bind
/// of a family directly follows the unbind of that same family; without it no
/// unbind appears at all.
proof fn lemma_family_ops_unbind(fams: Seq<AddressFamily>, unbind: bool)
    ensures
        !unbind ==> forall|i: int|
            0 <= i < spec_family_ops(fams, unbind).len()
                ==> !(#[trigger] spec_family_ops(fams, unbind)[i] is UnbindFamily),
        unbind ==> forall|i: int|
            0 <= i < spec_family_ops(fams, unbind).len()
                ==> (#[trigger] spec_family_ops(fams, unbind)[i] matches NativeOp::BindFamily(f)
                ==> 0 < i && spec_family_ops(fams, unbind)[i - 1] == NativeOp::UnbindFamily(f)),
    decreases fams.len(),
{
    if fams.len() == 0 {
    } else {
        lemma_family_ops_unbind(fams.drop_last(), unbind);
        let prefix = spec_family_ops(fams.drop_last(), unbind);
        let ops = spec_family_ops(fams, unbind);
        let last_raw = fams.last().spec_raw();
        if unbind {
            assert forall|i: int|
                0 <= i < ops.len() implies (#[trigger] ops[i] matches NativeOp::BindFamily(f)
                ==> 0 < i && ops[i - 1] == NativeOp::UnbindFamily(f)) by {
                if i < prefix.len() {
                    assert(ops[i] == prefix[i]);
                    if 0 < i {
                        assert(ops[i - 1] == prefix[i - 1]);
                    }
                } else if i == prefix.len() {
                    assert(ops[i] == NativeOp::UnbindFamily(last_raw));
                } else {
                    assert(ops[i] == NativeOp::BindFamily(last_raw));
                    assert(ops[i - 1] == NativeOp::UnbindFamily(last_raw));
                }
            }
        } else {
            assert forall|i: int| 0 <= i < ops.len() implies !(#[trigger] ops[i] is UnbindFamily) by {
                if i < prefix.len() {
                    assert(ops[i] == prefix[i]);
                } else {
                    assert(ops[i] == NativeOp::BindFamily(last_raw));
                }
            }
        }
    }
}

/// Binding an already-bound family is refused by the kernel, so the build
/// sequence must unbind first exactly when asked to: with `unbind` clear it
/// never unbinds a family, and with `unbind` set every family bind directly
/// follows the unbind of that same family.
pub proof fn lemma_unbind_before_bind(c: QueueConfig)
    ensures
        !c.unbind ==> forall|i: int|
            0 <= i < spec_build_plan(c).len()
                ==> !(#[trigger] spec_build_plan(c)[i] is UnbindFamily),
        c.unbind ==> forall|i: int|
            0 <= i < spec_build_plan(c).len()
                ==> (#[trigger] spec_build_plan(c)[i] matches NativeOp::BindFamily(f)
                ==> 0 < i && spec_build_plan(c)[i - 1] == NativeOp::UnbindFamily(f)),
{
    let fam_ops = spec_family_ops(c.address_families@, c.unbind);
    let plan = spec_build_plan(c);
    lemma_family_ops_unbind(c.address_families@, c.unbind);
    lemma_family_ops_shape(c.address_families@, c.unbind);
    if c.unbind {
        assert forall|i: int|
            0 <= i < plan.len() implies (#[trigger] plan[i] matches NativeOp::BindFamily(f)
            ==> 0 < i && plan[i - 1] == NativeOp::UnbindFamily(f)) by {
            lemma_build_plan_index(c, i);
            if plan[i] is BindFamily {
                assert(1 <= i < 1 + fam_ops.len());
                assert(plan[i] == fam_ops[i - 1]);
                assert(0 < i - 1);
                lemma_build_plan_index(c, i - 1);
                assert(plan[i - 1] == fam_ops[i - 2]);
            }
        }
    } else {
        assert forall|i: int| 0 <= i < plan.len() implies !(#[trigger] plan[i] is UnbindFamily) by {
            lemma_build_plan_index(c, i);
        }
    }
}

/// The family operations bind every family of the list.
proof fn lemma_family_ops_bind_each(fams: Seq<AddressFamily>, unbind: bool)
    ensures
        forall|k: int|
            0 <= k < fams.len() ==> spec_family_ops(fams, unbind).contains(
                NativeOp::BindFamily(#[trigger] fams[k].spec_raw()),
            ),
    decreases fams.len(),
{
    if fams.len() > 0 {
        lemma_family_ops_bind_each(fams.drop_last(), unbind);
        let prefix = spec_family_ops(fams.drop_last(), unbind);
        let ops = spec_family_ops(fams, unbind);
        assert forall|k: int|
            0 <= k < fams.len() implies ops.contains(
            NativeOp::BindFamily(#[trigger] fams[k].spec_raw()),
        ) by {
            if k < fams.len() - 1 {
                assert(fams.drop_last()[k] == fams[k]);
                let x = NativeOp::BindFamily(fams[k].spec_raw());
                let i = choose|i: int| 0 <= i < prefix.len() && prefix[i] == x;
                assert(ops[i] == x);
            } else {
                assert(ops.last() == NativeOp::BindFamily(fams.last().spec_raw()));
            }
        }
    }
}

/// The build sequence binds every requested family: for each family of the
/// configuration it holds the bind of that family's raw value.
pub proof fn lemma_every_family_bound(c: QueueConfig)
    ensures
        forall|k: int|
            0 <= k < c.address_families@.len() ==> spec_build_plan(c).contains(
                NativeOp::BindFamily(#[trigger] c.address_families@[k].spec_raw()),
            ),
{
    let fam_ops = spec_family_ops(c.address_families@, c.unbind);
    lemma_family_ops_bind_each(c.address_families@, c.unbind);
    assert forall|k: int|
        0 <= k < c.address_families@.len() implies spec_build_plan(c).contains(
        NativeOp::BindFamily(#[trigger] c.address_families@[k].spec_raw()),
    ) by {
        let x = NativeOp::BindFamily(c.address_families@[k].spec_raw());
        let i = choose|i: int| 0 <= i < fam_ops.len() && fam_ops[i] == x;
        assert(spec_build_plan(c)[1 + i] == x) by {
            lemma_build_plan_index(c, 1 + i);
        }
    }
}

/// The build sequence binds exactly one group, the requested one: a group
/// bind stands at exactly one position of the plan, and it carries the
/// configured group number.
pub proof fn lemma_group_bound_once(c: QueueConfig)
    ensures
        spec_build_plan(c).contains(NativeOp::BindGroup(c.group_num)),
        forall|i: int|
            0 <= i < spec_build_plan(c).len() && #[trigger] spec_build_plan(c)[i] is BindGroup
                ==> spec_build_plan(c)[i] == NativeOp::BindGroup(c.group_num),
        forall|i: int, j: int|
            0 <= i < spec_build_plan(c).len() && 0 <= j < spec_build_plan(c).len()
                && spec_build_plan(c)[i] is BindGroup && spec_build_plan(c)[j] is BindGroup ==> i
                == j,
{
    let fam_ops = spec_family_ops(c.address_families@, c.unbind);
    let plan = spec_build_plan(c);
    lemma_family_ops_shape(c.address_families@, c.unbind);
    assert(plan[fam_ops.len() as int + 1] == NativeOp::BindGroup(c.group_num)) by {
        lemma_build_plan_index(c, fam_ops.len() as int + 1);
    }
    assert(plan.contains(NativeOp::BindGroup(c.group_num)));
    assert forall|i: int|
        0 <= i < plan.len() && #[trigger] plan[i] is BindGroup implies i == fam_ops.len() + 1 by {
        lemma_build_plan_index(c, i);
    }
}

/// What stands at each index of the build sequence, by region.
spec fn plan_entry_characterized(c: QueueConfig, i: int) -> bool {
    let fam_ops = spec_family_ops(c.address_families@, c.unbind);
    let plan = spec_build_plan(c);
    &&& i == 0 ==> plan[i] == NativeOp::Open
    &&& 1 <= i < 1 + fam_ops.len() ==> plan[i] == fam_ops[i - 1]
    &&& i == 1 + fam_ops.len() ==> plan[i] == NativeOp::BindGroup(c.group_num)
    &&& 1 + fam_ops.len() < i ==> (plan[i] is SetMode || plan[i] is SetFlags)
}

/// Index decomposition of the build sequence into its regions.
proof fn lemma_build_plan_index(c: QueueConfig, i: int)
    requires
        0 <= i < spec_build_plan(c).len(),
    ensures
        plan_entry_characterized(c, i),
{
    let fam_ops = spec_family_ops(c.address_families@, c.unbind);
    let head = seq![NativeOp::Open] + fam_ops + seq![NativeOp::BindGroup(c.group_num)];
    let tail = spec_mode_ops(c) + spec_flags_ops(c);
    assert(spec_build_plan(c) =~= head + tail);
    if i >= head.len() {
        assert(spec_build_plan(c)[i] == tail[i - head.len()]);
    }
}

/// The teardown sequence for a queue holding the given resources: release
/// the group binding first if one is held, then close the context.
pub open spec fn spec_teardown_plan(context_open: bool, group_bound: bool) -> Seq<NativeOp> {
    if !context_open {
        seq![]
    } else if group_bound {
        seq![NativeOp::UnbindGroup, NativeOp::Close]
    } else {
        seq![NativeOp::Close]
    }
}

/// Compute the teardown sequence for the resources currently held.
pub fn teardown_plan(context_open: bool, group_bound: bool) -> (plan: Vec<NativeOp>)
    ensures
        plan@ == spec_teardown_plan(context_open, group_bound),
{
    let mut plan: Vec<NativeOp> = Vec::new();
    if context_open {
        if group_bound {
            plan.push(NativeOp::UnbindGroup);
        }
        plan.push(NativeOp::Close);
    }
    proof {
        assert(plan@ =~= spec_teardown_plan(context_open, group_bound));
    }
    plan
}

/// Whether the first `k` operations of a plan acquire the native context.
pub open spec fn spec_context_acquired(plan: Seq<NativeOp>, k: int) -> bool {
    exists|i: int| 0 <= i < k && #[trigger] plan[i] is Open
}

/// Whether the first `k` operations of a plan acquire a group binding.
pub open spec fn spec_group_acquired(plan: Seq<NativeOp>, k: int) -> bool {
    exists|i: int| 0 <= i < k && #[trigger] plan[i] is BindGroup
}

/// Building either completes or leaves no native resource behind: if the
/// build sequence fails after its first `k` operations succeeded, the
/// teardown computed from what those operations acquired releases the
/// context exactly when it was opened and the group binding exactly when it
/// was bound — nothing is leaked and nothing is released twice.
pub proof fn lemma_build_failure_releases_all(c: QueueConfig, k: int)
    requires
        0 <= k <= spec_build_plan(c).len(),
    ensures
        ({
            let plan = spec_build_plan(c);
            let context = spec_context_acquired(plan, k);
            let group = spec_group_acquired(plan, k);
            let teardown = spec_teardown_plan(context, group);
            &&& context <==> k >= 1
            &&& group ==> context
            &&& teardown.contains(NativeOp::Close) <==> context
            &&& teardown.contains(NativeOp::UnbindGroup) <==> group
            &&& forall|i: int, j: int|
                0 <= i < teardown.len() && 0 <= j < teardown.len() && teardown[i] is Close
                    && teardown[j] is Close ==> i == j
            &&& forall|i: int, j: int|
                0 <= i < teardown.len() && 0 <= j < teardown.len() && teardown[i] is UnbindGroup
                    && teardown[j] is UnbindGroup ==> i == j
        }),
{
    let plan = spec_build_plan(c);
    let context = spec_context_acquired(plan, k);
    let group = spec_group_acquired(plan, k);
    let teardown = spec_teardown_plan(context, group);
    assert(plan[0] == NativeOp::Open);
    if k >= 1 {
        assert(spec_context_acquired(plan, k));
    }
    if context {
        assert(teardown[0] is UnbindGroup || teardown[0] is Close);
        assert(teardown.last() == NativeOp::Close);
        assert(teardown.contains(NativeOp::Close)) by {
            assert(teardown[teardown.len() - 1] == NativeOp::Close);
        }
    }
    if group {
        let i = choose|i: int| 0 <= i < k && #[trigger] plan[i] is BindGroup;
        assert(k >= 1);
        assert(teardown[0] == NativeOp::UnbindGroup);
        assert(teardown.contains(NativeOp::UnbindGroup));
    }
}

/// Dropping a queue releases what it holds exactly once, in reverse order of
/// acquisition: a held group binding is released exactly once before the one
/// close of the context; without an open context nothing is released.
pub proof fn lemma_teardown_exactly_once(context_open: bool, group_bound: bool)
    ensures
        ({
            let teardown = spec_teardown_plan(context_open, group_bound);
            &&& !context_open ==> teardown.len() == 0
            &&& context_open ==> teardown.contains(NativeOp::Close)
            &&& context_open && group_bound ==> teardown.contains(NativeOp::UnbindGroup)
            &&& !group_bound ==> !teardown.contains(NativeOp::UnbindGroup)
            &&& forall|i: int, j: int|
                0 <= i < teardown.len() && 0 <= j < teardown.len() && teardown[i] is Close
                    && teardown[j] is Close ==> i == j
            &&& forall|i: int, j: int|
                0 <= i < teardown.len() && 0 <= j < teardown.len() && teardown[i] is UnbindGroup
                    && teardown[j] is UnbindGroup ==> i == j
            &&& forall|i: int, j: int|
                0 <= i < teardown.len() && 0 <= j < teardown.len() && teardown[i] is UnbindGroup
                    && teardown[j] is Close ==> i < j
        }),
{
    let teardown = spec_teardown_plan(context_open, group_bound);
    if context_open {
        assert(teardown.last() == NativeOp::Close);
        assert(teardown.contains(NativeOp::Close)) by {
            assert(teardown[teardown.len() - 1] == NativeOp::Close);
        }
        if group_bound {
            assert(teardown[0] == NativeOp::UnbindGroup);
            assert(teardown.contains(NativeOp::UnbindGroup));
        }
    }
}

/// The build sequence applies a copy mode exactly when the configuration
/// holds both a copy mode and a range, and flag bits exactly when the
/// configuration holds flags — and then exactly the configured values.
pub proof fn lemma_configuration_applied(c: QueueConfig)
    ensures
        forall|m: u8, r: u32|
            #[trigger] spec_build_plan(c).contains(NativeOp::SetMode(m, r)) <==> (match (
                c.copy_mode,
                c.range,
            ) {
                (Some(mode), Some(range)) => m == mode.spec_raw() && r == range,
                _ => false,
            }),
        forall|b: u16|
            #[trigger] spec_build_plan(c).contains(NativeOp::SetFlags(b)) <==> (match c.flags {
                Some(flags) => b == flags.bits,
                None => false,
            }),
{
    let fam_ops = spec_family_ops(c.address_families@, c.unbind);
    let head = seq![NativeOp::Open] + fam_ops + seq![NativeOp::BindGroup(c.group_num)];
    let tail = spec_mode_ops(c) + spec_flags_ops(c);
    lemma_family_ops_shape(c.address_families@, c.unbind);
    assert(spec_build_plan(c) =~= head + tail);
    assert forall|m: u8, r: u32|
        #[trigger] spec_build_plan(c).contains(NativeOp::SetMode(m, r)) <==> (match (
        c.copy_mode,
        c.range,
    ) {
        (Some(mode), Some(range)) => m == mode.spec_raw() && r == range,
        _ => false,
    }) by {
        let x = NativeOp::SetMode(m, r);
        lemma_contains_concat(head, tail, x);
        lemma_contains_concat(seq![NativeOp::Open] + fam_ops, seq![NativeOp::BindGroup(c.group_num)], x);
        lemma_contains_concat(seq![NativeOp::Open], fam_ops, x);
        lemma_contains_concat(spec_mode_ops(c), spec_flags_ops(c), x);
        assert(!fam_ops.contains(x));
        if spec_mode_ops(c).contains(x) {
            assert(spec_mode_ops(c)[0] == x);
        }
        match (c.copy_mode, c.range) {
            (Some(mode), Some(range)) => {
                if m == mode.spec_raw() && r == range {
                    assert(spec_mode_ops(c)[0] == x);
                    assert(spec_mode_ops(c).contains(x));
                }
            },
            _ => {},
        }
    }
    assert forall|b: u16|
        #[trigger] spec_build_plan(c).contains(NativeOp::SetFlags(b)) <==> (match c.flags {
        Some(flags) => b == flags.bits,
        None => false,
    }) by {
        let x = NativeOp::SetFlags(b);
        lemma_contains_concat(head, tail, x);
        lemma_contains_concat(seq![NativeOp::Open] + fam_ops, seq![NativeOp::BindGroup(c.group_num)], x);
        lemma_contains_concat(seq![NativeOp::Open], fam_ops, x);
        lemma_contains_concat(spec_mode_ops(c), spec_flags_ops(c), x);
        assert(!fam_ops.contains(x));
        if spec_flags_ops(c).contains(x) {
            assert(spec_flags_ops(c)[0] == x);
        }
        match c.flags {
            Some(flags) => {
                if b == flags.bits {
                    assert(spec_flags_ops(c)[0] == x);
                    assert(spec_flags_ops(c).contains(x));
                }
            },
            None => {},
        }
    }
}

/// The bridge-side record of which native resources a queue currently holds.
///
/// The unverified glue updates it after each successful native call, so that
/// per-group operations are only attempted once a group is bound, and
/// teardown releases exactly what is held.
#[derive(Clone, Copy, PartialEq, Eq, Structural, Debug)]
pub struct QueueState {
    /// Whether the native logging context is open.
    pub context_open: bool,
    /// Whether a logging group is bound (at most one at a time).
    pub group_bound: bool,
    /// Whether the callback has been registered on the bound group.
    pub callback_registered: bool,
}

impl QueueState {
    /// Resources are acquired in order: a group needs an open context, and a
    /// callback registration needs a bound group.
    pub open spec fn wf(self) -> bool {
        &&& self.group_bound ==> self.context_open
        &&& self.callback_registered ==> self.group_bound
    }

    /// The state before any native call: nothing held.
    pub fn initial() -> (r: QueueState)
        ensures
            r == (QueueState { context_open: false, group_bound: false, callback_registered: false }),
            r.wf(),
    {
        QueueState { context_open: false, group_bound: false, callback_registered: false }
    }

    /// Note that the native open succeeded.
    pub fn on_opened(&mut self)
        requires
            !old(self).context_open,
            old(self).wf(),
    ensures
            *final(self) == (QueueState {
                context_open: true,
                group_bound: false,
                callback_registered: false,
            }),
            final(self).wf(),
    {
        self.context_open = true;
    }

    /// Note that the native group bind succeeded.
    pub fn on_group_bound(&mut self)
        requires
            old(self).context_open,
            old(self).wf(),
    ensures
            *final(self) == (QueueState {
                group_bound: true,
                ..*old(self)
            }),
            final(self).wf(),
    {
        self.group_bound = true;
    }

    /// Note that the callback was registered on the bound group.
    pub fn on_callback_registered(&mut self)
        requires
            old(self).group_bound,
            old(self).wf(),
    ensures
            *final(self) == (QueueState {
                callback_registered: true,
                ..*old(self)
            }),
            final(self).wf(),
    {
        self.callback_registered = true;
    }

    /// Whether a per-group operation (copy mode, flags, callback
    /// registration) may proceed: it needs a bound group, else it fails as
    /// the native layer has nothing to apply it to.
    pub fn configure_ready(&self) -> (r: Result<(), QueueError>)
        ensures
            r is Ok <==> self.group_bound,
            r is Err ==> r == Err::<(), QueueError>(QueueError::GroupNotBound),
    {
        if self.group_bound {
            Ok(())
        } else {
            Err(QueueError::GroupNotBound)
        }
    }

    /// Compute the teardown sequence for what is held and mark everything
    /// released.  Run once when the owning scope ends, whatever path led
    /// there.
    pub fn teardown(&mut self) -> (plan: Vec<NativeOp>)
        ensures
            plan@ == spec_teardown_plan(old(self).context_open, old(self).group_bound),
            *final(self) == (QueueState {
                context_open: false,
                group_bound: false,
                callback_registered: false,
            }),
            final(self).wf(),
    {
        let plan = teardown_plan(self.context_open, self.group_bound);
        self.context_open = false;
        self.group_bound = false;
        self.callback_registered = false;
        plan
    }
}

} // verus!

