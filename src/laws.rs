//! Laws of the render loop, stated over [`ThrobberModel`] and proved.
use vstd::prelude::*;

use crate::throbber::{Action, ThrobberModel};
use vstd::arithmetic::div_mod::lemma_add_mod_noop_right;

verus! {

/// Passes of the render loop keep the model valid.
pub proof fn lemma_after_valid(m: ThrobberModel, n: nat)
    requires
        m.valid(),
    ensures
        m.after(n).valid(),
        m.after(n).animation == m.animation,
        m.after(n).frame_time_nanos == m.frame_time_nanos,
        m.after(n).enabled == m.enabled,
        m.after(n).terminated == m.terminated,
    decreases n,
{
    if n > 0 {
        lemma_after_valid(m, (n - 1) as nat);
    }
}

/// Counting from `start`, the glyph drawn on the `n`-th pass of the render
/// loop is the one at position `n mod L`, `L` being the animation's length.
pub proof fn lemma_nth_frame_after_start(m: ThrobberModel, n: nat)
    requires
        m.valid(),
        !m.terminated,
    ensures
        m.started().after(n).frame == n % m.animation.len(),
        m.started().after(n).action() == (Action::Render {
            glyph: m.animation[(n % m.animation.len()) as int],
            pause_nanos: m.frame_time_nanos,
        }),
    decreases n,
{
    let len = m.animation.len() as int;
    lemma_after_valid(m.started(), n);
    if n > 0 {
        let k = (n - 1) as nat;
        lemma_nth_frame_after_start(m, k);
        lemma_after_valid(m.started(), k);
        lemma_add_mod_noop_right(1, k as int, len);
        assert((1 + k as int % len) % len == (1 + k as int) % len);
    } else {
        assert(0int % len == 0) by {
            vstd::arithmetic::div_mod::lemma_small_mod(0, len as nat);
        }
    }
}

/// While drawing is off, the render loop draws nothing and the state does not
/// change, however many passes it makes.
pub proof fn lemma_disabled_renders_nothing(m: ThrobberModel, n: nat)
    requires
        !m.enabled,
    ensures
        m.after(n) == m,
        !(m.after(n).action() is Render),
    decreases n,
{
    if n > 0 {
        lemma_disabled_renders_nothing(m, (n - 1) as nat);
    }
}

/// Once killed, the render loop leaves on its next pass, whether drawing was
/// on or off, and starting or stopping the throbber afterwards does not change that.
pub proof fn lemma_killed_renders_nothing(m: ThrobberModel, n: nat)
    ensures
        m.killed().after(n) == m.killed(),
        m.killed().after(n).action() == Action::Exit,
        m.killed().started().after(n).action() == Action::Exit,
        m.killed().stopped().after(n).action() == Action::Exit,
    decreases n,
{
    if n > 0 {
        lemma_killed_renders_nothing(m, (n - 1) as nat);
        lemma_dead_stays_dead(m.killed().started(), n);
        lemma_dead_stays_dead(m.killed().stopped(), n);
    }
}

/// A killed throbber's state no longer changes under the render loop.
pub proof fn lemma_dead_stays_dead(m: ThrobberModel, n: nat)
    requires
        m.terminated,
    ensures
        m.after(n) == m,
        m.after(n).action() == Action::Exit,
    decreases n,
{
    if n > 0 {
        lemma_dead_stays_dead(m, (n - 1) as nat);
    }
}

/// `stop` followed by `start` leaves the same state as `start` alone.
pub proof fn lemma_stop_then_start(m: ThrobberModel)
    ensures
        m.stopped().started() == m.started(),
{
}

} // verus!
