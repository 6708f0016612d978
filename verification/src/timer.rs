//! The wall clock, as the machine sees it: a callback that tells the
//! milliseconds since the epoch.

use vstd::prelude::*;

verus! {

/// Whether every value of the callback type may be called without an argument.
pub open spec fn always_tells<F: FnMut() -> u64>() -> bool {
    forall|callback: F| #[trigger] call_requires(callback, ())
}

pub struct Timer<F> {
    get_ms_callback: F,
}

impl<F: FnMut() -> u64> Timer<F> {
    /// The callback that the timer asks.
    pub closed spec fn callback(self) -> F {
        self.get_ms_callback
    }

    pub fn new(get_ms_callback: F) -> (timer: Self)
        ensures
            timer.callback() == get_ms_callback,
    {
        Self { get_ms_callback }
    }

    /// Asks the callback once and hands its answer on.
    pub fn get_ms_since_epoch(&mut self) -> (ms: u64)
        requires
            always_tells::<F>(),
        ensures
            call_ensures(old(self).callback(), (), ms),
    {
        (self.get_ms_callback)()
    }
}

} // verus!
