//! Key containers. Each packet-number space is gated by one container holding
//! the epoch's encryption keys in one of three states. A container starts
//! `Pending` (no material yet: packets must be buffered, not dropped), becomes
//! `Ready` when the handshake supplies material, and can be made `Invalid` by
//! a one-way, idempotent `invalid` operation after which the space's packets
//! are undecryptable and discardable.
use vstd::prelude::*;

verus! {

/// The lifecycle state of one epoch's keys.
#[derive(Clone, Copy, PartialEq, Eq, Structural, Debug)]
pub enum KeyState {
    /// No key material yet; packets of this epoch must be buffered.
    Pending,
    /// Key material available; packets of this epoch can be decrypted.
    Ready,
    /// Keys discarded; nothing of this epoch will ever decrypt again.
    Invalid,
}

/// A container for one epoch's keys, transitionable independently of every
/// other container.
#[derive(Clone, Copy, PartialEq, Eq, Structural, Debug)]
pub struct KeyContainer {
    pub state: KeyState,
}

/// What `invalid` leaves behind: the container with its keys discarded,
/// whatever state it was in before.
pub open spec fn invalidated() -> KeyContainer {
    KeyContainer { state: KeyState::Invalid }
}

/// What supplying key material leaves behind: `Ready`, except that discarded
/// keys never come back.
pub open spec fn made_ready(k: KeyContainer) -> KeyContainer {
    if k.state == KeyState::Invalid {
        k
    } else {
        KeyContainer { state: KeyState::Ready }
    }
}

impl KeyContainer {
    /// A fresh container with no key material.
    pub fn new_pending() -> (k: KeyContainer)
        ensures
            k == (KeyContainer { state: KeyState::Pending }),
    {
        KeyContainer { state: KeyState::Pending }
    }

    /// Supply the epoch's key material. Discarded keys stay discarded: the
    /// transition to `Invalid` is one-way.
    pub fn set_ready(&mut self)
        ensures
            *final(self) == made_ready(*old(self)),
    {
        match self.state {
            KeyState::Invalid => {},
            _ => {
                self.state = KeyState::Ready;
            },
        }
    }

    /// Discard the keys. One-way and idempotent: calling it any number of
    /// times leaves the container `Invalid`.
    pub fn invalid(&mut self)
        ensures
            *final(self) == invalidated(),
    {
        self.state = KeyState::Invalid;
    }

    /// Whether the keys have been discarded.
    pub fn is_invalid(&self) -> (b: bool)
        ensures
            b == (self.state == KeyState::Invalid),
    {
        match self.state {
            KeyState::Invalid => true,
            _ => false,
        }
    }
}

/// Discarding keys is one-way: a discarded container is a fixed point,
/// under a second discard as much as under key material arriving late.
pub proof fn lemma_discard_fixed_point()
    ensures
        invalidated().state == KeyState::Invalid,
        made_ready(invalidated()) == invalidated(),
{
}

} // verus!
