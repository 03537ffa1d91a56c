//! The edge interrupt service. On each rising-edge event the hardware runs
//! the handler; the handler, inside one critical section, flips the owned
//! output line and clears the triggering condition. Both effects happen in
//! the same masked section or not at all: a partial execution (condition
//! cleared but level not flipped, or the reverse) would leave the system in
//! a divergent state.

use vstd::prelude::*;
use crate::cell::SharedCell;
use crate::errors::CellError;
use crate::gpio::{Level, OutputPin, TriggerInput};

verus! {

/// The two handles the startup context hands over before unmasking the
/// interrupt line.
pub struct SharedResources {
    pub led: SharedCell<OutputPin>,
    pub button: SharedCell<TriggerInput>,
}

/// Witness that both handles are installed. Only `install_all` constructs
/// one, and the outer layer unmasks the interrupt line only in exchange for
/// it — so unmasking before installation is impossible by construction, not
/// by discipline.
pub struct ArmToken {
    _seal: (),
}

impl SharedResources {
    pub open spec fn both_installed(&self) -> bool {
        self.led.is_installed() && self.button.is_installed()
    }

    /// Both slots empty at power-on.
    pub fn new() -> (r: SharedResources)
        ensures
            !r.led.is_installed(),
            !r.button.is_installed(),
    {
        SharedResources { led: SharedCell::new(), button: SharedCell::new() }
    }

    /// Transfer ownership of both handles into the cells — exactly once, at
    /// startup — and hand back the token that permits unmasking.
    pub fn install_all(&mut self, led: OutputPin, button: TriggerInput) -> (t: ArmToken)
        requires
            !old(self).led.is_installed(),
            !old(self).button.is_installed(),
        ensures
            final(self).led.contents() == Some(led),
            final(self).button.contents() == Some(button),
    {
        self.led.install(led);
        self.button.install(button);
        ArmToken { _seal: () }
    }
}

/// The observable state the service acts on: the output's logic level and
/// the input's latched pending condition.
pub struct EdgeState {
    pub level: Level,
    pub pending: bool,
}

/// The observable state of installed shared resources.
pub open spec fn edge_state(sh: SharedResources) -> EdgeState
    recommends
        sh.both_installed(),
{
    EdgeState { level: sh.led.value().level_spec(), pending: sh.button.value().pending_spec() }
}

/// The service's effect as a pure transition: flip the level, clear the
/// pending condition.
pub open spec fn service_step(s: EdgeState) -> EdgeState {
    EdgeState { level: s.level.spec_toggled(), pending: false }
}

/// The state after `n` service invocations starting from `s`.
pub open spec fn run_edges(s: EdgeState, n: nat) -> EdgeState
    decreases n,
{
    if n == 0 {
        s
    } else {
        service_step(run_edges(s, (n - 1) as nat))
    }
}

/// One invocation of the service. Succeeds exactly when both handles are
/// installed, and then performs the whole transition: the level flips, the
/// pending condition is cleared, and the line's configuration is untouched.
/// Before installation it always reports the failure and changes nothing —
/// the outer layer treats that as fatal and halts, matching the rule that a
/// missing handle must never be silently skipped.
pub fn on_rising_edge(sh: &mut SharedResources) -> (r: Result<(), CellError>)
    ensures
        r is Ok <==> old(sh).both_installed(),
        r is Ok ==> final(sh).both_installed()
            && edge_state(*final(sh)) == service_step(edge_state(*old(sh)))
            && final(sh).button.value().edge_spec() == old(sh).button.value().edge_spec()
            && final(sh).button.value().pull_spec() == old(sh).button.value().pull_spec(),
        r is Err ==> *final(sh) == *old(sh) && r == Result::<(), CellError>::Err(CellError::NotInstalled),
{
    if !sh.led.installed() || !sh.button.installed() {
        return Err(CellError::NotInstalled);
    }
    let led = sh.led.borrow_mut();
    led.toggle();
    let button = sh.button.borrow_mut();
    button.clear_interrupt();
    Ok(())
}

/// Toggling is exactly once per recorded edge, however often an undebounced
/// line re-fires: after `n` service invocations the level equals the initial
/// level flipped `n mod 2` times, and once any invocation has run, the
/// pending condition is clear.
pub proof fn lemma_toggle_parity(s: EdgeState, n: nat)
    ensures
        run_edges(s, n).level == (if n % 2 == 0 {
            s.level
        } else {
            s.level.spec_toggled()
        }),
        n > 0 ==> !run_edges(s, n).pending,
    decreases n,
{
    if n > 0 {
        lemma_toggle_parity(s, (n - 1) as nat);
    }
}

} // verus!
