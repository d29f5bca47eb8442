//! The message interceptor's decision: which window messages are swallowed
//! while forwarding is on.

use vstd::prelude::*;
use crate::registry::registered;
use crate::registry::ForwardingRegistry;
use crate::registry::RegistryState;

verus! {

/// The message code of "the pointer left the window".
pub const WM_MOUSELEAVE: u32 = 0x02A3;

/// The identifier under which the interceptor is attached, the same for
/// every window.
pub const SUBCLASS_ID: usize = 1;

/// What becomes of a message that reaches the interceptor.
#[derive(Clone, Copy, Debug, PartialEq, Eq, Structural)]
pub enum Disposition {
    /// The message is consumed; `result` is handed back in place of its
    /// default effect.
    Handled { result: isize },
    /// The message goes on to the default chain unchanged.
    PassThrough,
}

/// A "pointer left" message is consumed while forwarding is on; every other
/// message passes.
pub open spec fn disposition(r: RegistryState, message: u32) -> Disposition {
    if message == WM_MOUSELEAVE && r.active {
        Disposition::Handled { result: 0 }
    } else {
        Disposition::PassThrough
    }
}

/// Decides what the interceptor does with `message`.
pub fn sub_class_proc(registry: &ForwardingRegistry, message: u32) -> (outcome: Disposition)
    ensures
        outcome == disposition(registry@, message),
{
    if message == WM_MOUSELEAVE && registry.is_active() {
        Disposition::Handled { result: 0 }
    } else {
        Disposition::PassThrough
    }
}

/// While a window is registered, a "pointer left" message is swallowed;
/// once nothing is registered, it passes.
pub proof fn lemma_leave_swallowed_while_registered(r: RegistryState, label: Seq<char>)
    requires
        r.consistent(),
    ensures
        registered(r.windows, label) ==> disposition(r, WM_MOUSELEAVE) == (Disposition::Handled {
            result: 0,
        }),
        r.windows.len() == 0 ==> disposition(r, WM_MOUSELEAVE) == Disposition::PassThrough,
{
}

} // verus!
