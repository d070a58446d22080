use vstd::prelude::*;
use crate::error::ControlError;

verus! {

/// Proof of exclusive ownership of one device. Only [`Arbiter::try_acquire`]
/// makes one, and only the arbiter of the same device takes it back.
#[derive(Debug)]
pub struct AccessToken {
    device: u64,
}

impl AccessToken {
    /// The device that the token grants.
    pub closed spec fn device_of(&self) -> u64 {
        self.device
    }

    /// The device that the token grants.
    pub fn device(&self) -> (r: u64)
        ensures
            r == self.device_of(),
    {
        self.device
    }
}

/// The single owner of one device: grants access to one caller at a time and
/// never waits for a holder to finish. A process keeps one arbiter for each
/// device, under the device's own number.
#[derive(Debug)]
pub struct Arbiter {
    held: bool,
    device: u64,
}

/// The outcome of one attempt to acquire: whether the device is held
/// afterwards, and whether this attempt was granted.
pub open spec fn acquire_step(held: bool) -> (bool, bool) {
    if held {
        (true, false)
    } else {
        (true, true)
    }
}

/// How many of `n` attempts, made in turn with no release among them and
/// starting from `held`, are granted.
pub open spec fn grants(held: bool, n: nat) -> nat
    decreases n,
{
    if n == 0 {
        0
    } else {
        let (h, g) = acquire_step(held);
        (if g {
            1nat
        } else {
            0nat
        }) + grants(h, (n - 1) as nat)
    }
}

impl Arbiter {
    pub closed spec fn is_held(&self) -> bool {
        self.held
    }

    /// The device that the arbiter guards.
    pub closed spec fn device_of(&self) -> u64 {
        self.device
    }

    /// A free arbiter for the device numbered `device`.
    pub fn new(device: u64) -> (r: Arbiter)
        ensures
            !r.is_held(),
            r.device_of() == device,
    {
        Arbiter { held: false, device }
    }

    /// The device that the arbiter guards.
    pub fn device(&self) -> (r: u64)
        ensures
            r == self.device_of(),
    {
        self.device
    }

    /// Grants the device if no one holds it; reports `DeviceBusy` at once
    /// otherwise.
    pub fn try_acquire(&mut self) -> (r: Result<AccessToken, ControlError>)
        ensures
            final(self).is_held() == acquire_step(old(self).is_held()).0,
            final(self).device_of() == old(self).device_of(),
            r is Ok == acquire_step(old(self).is_held()).1,
            r is Ok ==> r->Ok_0.device_of() == old(self).device_of(),
            r is Err ==> r == Err::<AccessToken, ControlError>(ControlError::DeviceBusy),
    {
        if self.held {
            Err(ControlError::DeviceBusy)
        } else {
            self.held = true;
            Ok(AccessToken { device: self.device })
        }
    }

    /// Takes back a token of this device: the device is free afterwards.
    pub fn release(&mut self, token: AccessToken)
        requires
            token.device_of() == old(self).device_of(),
        ensures
            !final(self).is_held(),
            final(self).device_of() == old(self).device_of(),
    {
        let AccessToken { device: _ } = token;
        self.held = false;
    }

    /// Whether some caller holds the device. Advisory only: the answer may be
    /// stale by the time it is used.
    pub fn held(&self) -> (r: bool)
        ensures
            r == self.is_held(),
    {
        self.held
    }
}

/// Among any number of attempts to acquire a free device made before the
/// winner releases it, exactly one is granted; on a held device none is.
pub proof fn exactly_one_grant(n: nat)
    requires
        n >= 1,
    ensures
        grants(false, n) == 1,
        grants(true, n) == 0,
{
    lemma_held_grants_none(n);
    lemma_held_grants_none((n - 1) as nat);
}

proof fn lemma_held_grants_none(n: nat)
    ensures
        grants(true, n) == 0,
    decreases n,
{
    if n > 0 {
        lemma_held_grants_none((n - 1) as nat);
    }
}

} // verus!
