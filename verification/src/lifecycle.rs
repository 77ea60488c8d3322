use vstd::prelude::*;

verus! {

/// An object that bring-up creates and teardown destroys.
#[derive(Clone, Copy, Debug, PartialEq, Eq, Structural)]
pub enum Component {
    Instance,
    DebugMessenger,
    Surface,
    LogicalDevice,
    SwapChain,
}

/// Whether `c` reads `d` and so has to be destroyed before it.
pub open spec fn depends_on(c: Component, d: Component) -> bool {
    match c {
        Component::Instance => false,
        Component::DebugMessenger => d == Component::Instance,
        Component::Surface => d == Component::Instance,
        Component::LogicalDevice => d == Component::Instance,
        Component::SwapChain => d == Component::LogicalDevice || d == Component::Surface,
    }
}

/// The order in which objects are destroyed: the reverse of the order in
/// which they were created.
pub open spec fn teardown_order(live: Seq<Component>) -> Seq<Component> {
    live.reverse()
}

/// One step of teardown.
#[derive(Clone, Copy, Debug, PartialEq, Eq, Structural)]
pub enum TeardownStep {
    /// Wait until the device has finished all work handed to its queues.
    WaitDeviceIdle,
    /// Destroy the object.
    Destroy(Component),
}

/// The steps that destroy one object: the logical device is waited for
/// first, every other object is destroyed at once.
pub open spec fn steps_for(c: Component) -> Seq<TeardownStep> {
    if c == Component::LogicalDevice {
        seq![TeardownStep::WaitDeviceIdle, TeardownStep::Destroy(c)]
    } else {
        seq![TeardownStep::Destroy(c)]
    }
}

/// The steps of teardown: the objects in the reverse of the order in which
/// they were created, each with the steps that destroy it.
pub open spec fn teardown_steps(live: Seq<Component>) -> Seq<TeardownStep>
    decreases live.len(),
{
    if live.len() == 0 {
        Seq::empty()
    } else {
        steps_for(live.last()) + teardown_steps(live.drop_last())
    }
}

/// The objects that a list of steps destroys, in the order of the steps.
pub open spec fn destroyed_by(steps: Seq<TeardownStep>) -> Seq<Component>
    decreases steps.len(),
{
    if steps.len() == 0 {
        Seq::empty()
    } else {
        match steps[0] {
            TeardownStep::Destroy(c) => seq![c] + destroyed_by(steps.drop_first()),
            TeardownStep::WaitDeviceIdle => destroyed_by(steps.drop_first()),
        }
    }
}

/// Every object was created once, and after all that it reads.
pub open spec fn ordered_by_dependency(live: Seq<Component>) -> bool {
    &&& forall|i: int, j: int| 0 <= i < j < live.len() ==> live[i] != live[j]
    &&& forall|j: int, d: Component|
        0 <= j < live.len() && #[trigger] depends_on(live[j], d) ==> exists|i: int|
            0 <= i < j && live[i] == d
}

/// The order of bring-up.
pub open spec fn bring_up(enable_validation: bool, with_surface: bool) -> Seq<Component> {
    seq![Component::Instance] + (if enable_validation {
        seq![Component::DebugMessenger]
    } else {
        Seq::empty()
    }) + (if with_surface {
        seq![Component::Surface]
    } else {
        Seq::empty()
    }) + seq![Component::LogicalDevice] + (if with_surface {
        seq![Component::SwapChain]
    } else {
        Seq::empty()
    })
}

/// Teardown destroys every object before the objects it reads: for objects
/// created in an order that respects what each reads, whatever stands at
/// place `a` of the teardown order and reads what stands at place `b` comes
/// first.
pub proof fn teardown_respects_dependencies(live: Seq<Component>, a: int, b: int)
    requires
        ordered_by_dependency(live),
        0 <= a < live.len(),
        0 <= b < live.len(),
        depends_on(teardown_order(live)[a], teardown_order(live)[b]),
    ensures
        a < b,
{
}

/// The device is idle when it goes: wherever teardown destroys the logical
/// device, the step just before waits for the device to fall idle.
pub proof fn device_is_idle_when_destroyed(live: Seq<Component>, k: int)
    requires
        0 <= k < teardown_steps(live).len(),
        teardown_steps(live)[k] == TeardownStep::Destroy(Component::LogicalDevice),
    ensures
        k > 0,
        teardown_steps(live)[k - 1] == TeardownStep::WaitDeviceIdle,
    decreases live.len(),
{
    let head = steps_for(live.last());
    if k >= head.len() {
        device_is_idle_when_destroyed(live.drop_last(), k - head.len());
    }
}

/// Teardown destroys what `teardown_order` names, in that order: the steps
/// that destroy an object, read one after the other, are the objects in the
/// reverse of the order in which they were created.
pub proof fn teardown_steps_follow_order(live: Seq<Component>)
    ensures
        destroyed_by(teardown_steps(live)) == teardown_order(live),
    decreases live.len(),
{
    if live.len() > 0 {
        let head = steps_for(live.last());
        let rest = live.drop_last();
        teardown_steps_follow_order(rest);
        lemma_destroyed_by_concat(head, teardown_steps(rest));
        assert(destroyed_by(head) =~= seq![live.last()]) by {
            reveal_with_fuel(destroyed_by, 3);
        }
    }
}

/// The objects that a list of steps destroys are those of its parts, one
/// after the other.
pub proof fn lemma_destroyed_by_concat(a: Seq<TeardownStep>, b: Seq<TeardownStep>)
    ensures
        destroyed_by(a + b) == destroyed_by(a) + destroyed_by(b),
    decreases a.len(),
{
    if a.len() > 0 {
        assert((a + b).drop_first() =~= a.drop_first() + b);
        lemma_destroyed_by_concat(a.drop_first(), b);
    }
}

/// Bring-up creates every object once, and after all that it reads.
pub proof fn bring_up_is_ordered(enable_validation: bool, with_surface: bool)
    ensures
        ordered_by_dependency(bring_up(enable_validation, with_surface)),
{
    let order = bring_up(enable_validation, with_surface);
    assert forall|j: int, d: Component|
        0 <= j < order.len() && #[trigger] depends_on(order[j], d) implies exists|i: int|
        0 <= i < j && order[i] == d by {
        if d == Component::Instance {
            assert(order[0] == d);
        } else if d == Component::Surface {
            if enable_validation {
                assert(order[2] == d);
            } else {
                assert(order[1] == d);
            }
        } else {
            assert(order[j - 1] == d);
        }
    }
}

/// The message sink is destroyed before the instance it is registered with,
/// whenever both are alive.
pub proof fn debug_messenger_destroyed_before_instance(live: Seq<Component>, a: int, b: int)
    requires
        ordered_by_dependency(live),
        0 <= a < live.len(),
        0 <= b < live.len(),
        teardown_order(live)[a] == Component::DebugMessenger,
        teardown_order(live)[b] == Component::Instance,
    ensures
        a < b,
{
    teardown_respects_dependencies(live, a, b);
}

} // verus!
