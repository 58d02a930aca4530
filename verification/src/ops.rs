use vstd::prelude::*;

use crate::device::DeviceView;

verus! {

/// One mutation of the registry: an append or a positional delete. This is
/// the abstract counterpart of `DeviceMonitor::add_device` and
/// `DeviceMonitor::remove_device`, whose contracts are stated through
/// `apply_op`.
pub ghost enum RegistryOp {
    Add { name: Seq<char>, ip: Seq<char> },
    Remove { index: int },
}

/// The registry state after one operation: an add appends an unprobed
/// device, a remove deletes the entry at `index` when it is in range and
/// otherwise changes nothing.
pub open spec fn apply_op(s: Seq<DeviceView>, op: RegistryOp) -> Seq<DeviceView> {
    match op {
        RegistryOp::Add { name, ip } => s.push(DeviceView { name, ip, status: false }),
        RegistryOp::Remove { index } => if 0 <= index < s.len() {
            s.remove(index)
        } else {
            s
        },
    }
}

/// The registry state after a whole sequence of operations, applied in order.
pub open spec fn apply_ops(s: Seq<DeviceView>, ops: Seq<RegistryOp>) -> Seq<DeviceView>
    decreases ops.len(),
{
    if ops.len() == 0 {
        s
    } else {
        apply_ops(apply_op(s, ops[0]), ops.drop_first())
    }
}

/// How many of the operations are adds.
pub open spec fn count_adds(ops: Seq<RegistryOp>) -> nat
    decreases ops.len(),
{
    if ops.len() == 0 {
        0
    } else {
        (if ops[0] is Add {
            1nat
        } else {
            0nat
        }) + count_adds(ops.drop_first())
    }
}

/// How many of the operations are removes whose index is in range at the
/// moment they are applied — the only removes that change the registry.
pub open spec fn count_effective_removes(s: Seq<DeviceView>, ops: Seq<RegistryOp>) -> nat
    decreases ops.len(),
{
    if ops.len() == 0 {
        0
    } else {
        (match ops[0] {
            RegistryOp::Remove { index } => if 0 <= index < s.len() {
                1nat
            } else {
                0nat
            },
            RegistryOp::Add { .. } => 0nat,
        }) + count_effective_removes(apply_op(s, ops[0]), ops.drop_first())
    }
}

/// Law: after any sequence of adds and removes, the number of devices in the
/// registry equals the starting count, plus the number of adds, minus the
/// number of removes whose index was in range when they were applied.
pub proof fn lemma_length_after_ops(s: Seq<DeviceView>, ops: Seq<RegistryOp>)
    ensures
        apply_ops(s, ops).len() + count_effective_removes(s, ops) == s.len() + count_adds(ops),
    decreases ops.len(),
{
    if ops.len() > 0 {
        lemma_length_after_ops(apply_op(s, ops[0]), ops.drop_first());
    }
}

/// Law: removing the entry at an in-range position removes exactly that
/// entry and keeps the relative order of all others — every earlier entry
/// keeps its place and every later entry moves forward by one.
pub proof fn lemma_remove_keeps_order(s: Seq<DeviceView>, i: int)
    requires
        0 <= i < s.len(),
    ensures
        s.remove(i).len() == s.len() - 1,
        forall|j: int| 0 <= j < i ==> #[trigger] s.remove(i)[j] == s[j],
        forall|j: int| i <= j < s.len() - 1 ==> #[trigger] s.remove(i)[j] == s[j + 1],
{
    s.remove_ensures(i);
}

} // verus!
