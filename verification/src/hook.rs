use vstd::prelude::*;

use crate::decode::{x86_decode, Bitness};
use crate::error::Error;
use crate::hook_arch::{hook_code, outcome_is, HookArch};

verus! {

/// The outcome of the checks on the addresses of a new hook, in the order
/// they are made.
pub open spec fn address_check(
    target: usize,
    hook: usize,
    target_executable: bool,
    hook_executable: bool,
) -> Result<(), Error> {
    if target == hook {
        Err(Error::SameAddress)
    } else if !target_executable || !hook_executable {
        Err(Error::NotExecutable)
    } else {
        Ok(())
    }
}

/// Refuses a hook on itself.
pub fn check_distinct(target: usize, hook: usize) -> (r: Result<(), Error>)
    ensures
        r == (if target == hook {
            Err::<(), Error>(Error::SameAddress)
        } else {
            Ok::<(), Error>(())
        }),
{
    if target == hook {
        Err(Error::SameAddress)
    } else {
        Ok(())
    }
}

/// Decides whether a hook of `hook` at the instruction at `target` can be
/// built and builds its code: `target_executable` and `hook_executable` say
/// whether the two addresses lie in executable memory, and `code` holds the
/// bytes at `target`.
pub fn prepare(
    target: usize,
    hook: usize,
    target_executable: bool,
    hook_executable: bool,
    code: &[u8],
    bitness: Bitness,
) -> (r: Result<HookArch, Error>)
    requires
        target + code.len() <= usize::MAX,
    ensures
        match address_check(target, hook, target_executable, hook_executable) {
            Err(e) => r == Err::<HookArch, Error>(e),
            Ok(_) => outcome_is(
                r,
                hook_code(
                    target,
                    hook,
                    x86_decode(bitness.spec_bits(), code@, target as u64),
                    code@,
                    bitness,
                ),
            ),
        },
{
    if let Err(e) = check_distinct(target, hook) {
        return Err(e);
    }
    if !target_executable || !hook_executable {
        return Err(Error::NotExecutable);
    }
    HookArch::new(target, hook, code, bitness)
}

/// What toggling a hook requires.
#[derive(Debug, Clone, Copy, PartialEq, Eq, Structural)]
pub enum ToggleStep {
    /// The hook is already in the requested state.
    Unchanged,
    /// The target's code must be patched (after making it writable).
    Patch,
}

/// An architecture-independent function hook: the memory that holds its
/// code, the patcher that redirects the target to it, and whether it is
/// enabled.
pub struct Hook<M, P> {
    hook: M,
    patcher: P,
    enabled: bool,
}

impl<M, P> Hook<M, P> {
    /// Whether the hook is enabled.
    pub closed spec fn enabled(self) -> bool {
        self.enabled
    }

    /// The memory that holds the hook's code.
    pub closed spec fn memory(self) -> M {
        self.hook
    }

    /// The patcher of the target.
    pub closed spec fn patch(self) -> P {
        self.patcher
    }

    /// The same hook, recorded as enabled or disabled.
    pub closed spec fn with_enabled(self, enabled: bool) -> Hook<M, P> {
        Hook { enabled, ..self }
    }

    /// A hook whose code lies in `hook` and whose target `patcher` patches;
    /// it starts disabled.
    pub fn from_parts(hook: M, patcher: P) -> (r: Hook<M, P>)
        ensures
            !r.enabled(),
            r.memory() == hook,
            r.patch() == patcher,
    {
        Hook { hook, patcher, enabled: false }
    }

    /// Returns whether the hook is enabled or not.
    pub fn is_enabled(&self) -> (r: bool)
        ensures
            r == self.enabled(),
    {
        self.enabled
    }

    /// What must happen for the hook to become enabled (`true`) or disabled.
    pub fn toggle_step(&self, enabled: bool) -> (r: ToggleStep)
        ensures
            r == (if self.enabled() == enabled {
                ToggleStep::Unchanged
            } else {
                ToggleStep::Patch
            }),
    {
        if self.enabled == enabled {
            ToggleStep::Unchanged
        } else {
            ToggleStep::Patch
        }
    }

    /// Records that the target has been patched into the given state.
    pub fn set_enabled(&mut self, enabled: bool)
        ensures
            *final(self) == old(self).with_enabled(enabled),
            final(self).enabled() == enabled,
            final(self).memory() == old(self).memory(),
            final(self).patch() == old(self).patch(),
    {
        self.enabled = enabled;
    }

    /// The memory that holds the hook's code.
    pub fn code(&self) -> (r: &M)
        ensures
            *r == self.memory(),
    {
        &self.hook
    }

    /// The patcher of the target, for the patch itself.
    pub fn patcher_mut(&mut self) -> (r: &mut P)
        ensures
            *r == old(self).patch(),
            final(self).patch() == *final(r),
            final(self).enabled() == old(self).enabled(),
            final(self).memory() == old(self).memory(),
    {
        &mut self.patcher
    }
}


/// Toggling into the state a hook is already in asks for nothing, and once a
/// hook is recorded in a state, toggling into that state again asks for nothing.
pub proof fn lemma_toggle_idempotent<M, P>(h: Hook<M, P>, enabled: bool)
    ensures
        h.with_enabled(enabled).enabled() == enabled,
        h.enabled() == enabled ==> h.with_enabled(enabled) == h,
{
}

/// A hook that is enabled and then disabled is the hook it was before:
/// the same code, the same patcher, disabled.
pub proof fn lemma_enable_disable_restores<M, P>(h: Hook<M, P>)
    requires
        !h.enabled(),
    ensures
        h.with_enabled(true).with_enabled(false) == h,
        h.with_enabled(true).enabled(),
        h.with_enabled(true).memory() == h.memory(),
        h.with_enabled(true).patch() == h.patch(),
{
}

/// A hook after a request to enable (`true`) or disable it: recorded in the
/// requested state when the request succeeded, as it was when it failed.
/// (A request for the state the hook is already in succeeds without a
/// patch, and leaves it as it is: see [`lemma_toggle_idempotent`].)
pub open spec fn toggled<M, P>(h: Hook<M, P>, enabled: bool, succeeded: bool) -> Hook<M, P> {
    if succeeded {
        h.with_enabled(enabled)
    } else {
        h
    }
}

/// A hook after a sequence of requests, each a pair of the requested state
/// and whether the request succeeded.
pub open spec fn apply_toggles<M, P>(h: Hook<M, P>, requests: Seq<(bool, bool)>) -> Hook<M, P>
    decreases requests.len(),
{
    if requests.len() == 0 {
        h
    } else {
        apply_toggles(toggled(h, requests[0].0, requests[0].1), requests.drop_first())
    }
}

/// The state that the last successful request asked for, or `current` when
/// no request succeeded.
pub open spec fn last_successful(requests: Seq<(bool, bool)>, current: bool) -> bool
    decreases requests.len(),
{
    if requests.len() == 0 {
        current
    } else {
        last_successful(
            requests.drop_first(),
            if requests[0].1 {
                requests[0].0
            } else {
                current
            },
        )
    }
}

/// After any sequence of enable and disable requests, a hook is enabled
/// exactly when the last request that succeeded was to enable it (disabled
/// when none succeeded, as a new hook is); failed requests change nothing,
/// and the hook's code and patcher stay the same throughout.
pub proof fn lemma_enabled_after_toggles<M, P>(h: Hook<M, P>, requests: Seq<(bool, bool)>)
    ensures
        apply_toggles(h, requests).enabled() == last_successful(requests, h.enabled()),
        apply_toggles(h, requests).memory() == h.memory(),
        apply_toggles(h, requests).patch() == h.patch(),
    decreases requests.len(),
{
    if requests.len() > 0 {
        lemma_enabled_after_toggles(toggled(h, requests[0].0, requests[0].1), requests.drop_first());
    }
}

/// A hook at any instruction of a function, not only at its start.
///
/// The hook is disabled when it is made.
pub struct RawHook<M, P>(Hook<M, P>);

impl<M, P> RawHook<M, P> {
    /// The hook underneath.
    pub closed spec fn inner(self) -> Hook<M, P> {
        self.0
    }

    /// The raw hook around another hook.
    pub closed spec fn with_inner(self, hook: Hook<M, P>) -> RawHook<M, P> {
        RawHook(hook)
    }

    /// Wraps a hook that is still disabled.
    pub fn new(hook: Hook<M, P>) -> (r: RawHook<M, P>)
        requires
            !hook.enabled(),
        ensures
            r.inner() == hook,
            r == r.with_inner(hook),
            !r.inner().enabled(),
    {
        RawHook(hook)
    }

    /// Returns whether the hook is enabled or not.
    pub fn is_enabled(&self) -> (r: bool)
        ensures
            r == self.inner().enabled(),
    {
        self.0.is_enabled()
    }

    /// The hook underneath.
    pub fn hook(&self) -> (r: &Hook<M, P>)
        ensures
            *r == self.inner(),
    {
        &self.0
    }

    /// The hook underneath, to enable or disable it.
    pub fn hook_mut(&mut self) -> (r: &mut Hook<M, P>)
        ensures
            *r == old(self).inner(),
            final(self).inner() == *final(r),
            *final(self) == old(self).with_inner(*final(r)),
    {
        &mut self.0
    }
}


/// A raw hook reports the state of the hook underneath: made disabled, after
/// any sequence of enable and disable requests on that hook it is enabled
/// exactly when the last request that succeeded was to enable it.
pub proof fn lemma_raw_hook_after_toggles<M, P>(r: RawHook<M, P>, requests: Seq<(bool, bool)>)
    requires
        !r.inner().enabled(),
    ensures
        r.with_inner(apply_toggles(r.inner(), requests)).inner().enabled() == last_successful(
            requests,
            false,
        ),
{
    lemma_enabled_after_toggles(r.inner(), requests);
}

} // verus!
