//! Choosing between the bootstrap and the native consensus strategy for each
//! parent block, with the native strategy built on first use.
use vstd::prelude::*;

verus! {

/// The consensus strategy chosen for one parent block.
#[derive(PartialEq, Eq, Structural, Clone, Copy, Debug)]
pub enum ConsensusMode {
    /// Relay-chain driven; available from genesis.
    Bootstrap,
    /// The chain's own strategy; available once the runtime offers it.
    Native,
}

/// The mode for a parent block, from the outcome of probing that block's
/// runtime for the native capability. A failed probe counts as absent.
pub open spec fn mode_of_probe<E>(probe: Result<bool, E>) -> ConsensusMode {
    match probe {
        Ok(true) => ConsensusMode::Native,
        _ => ConsensusMode::Bootstrap,
    }
}

/// Picks the mode for one parent block. Nothing is remembered between calls:
/// every block is decided by its own probe.
pub fn select_mode<E>(probe: Result<bool, E>) -> (r: ConsensusMode)
    ensures
        r == mode_of_probe(probe),
{
    match probe {
        Ok(true) => ConsensusMode::Native,
        _ => ConsensusMode::Bootstrap,
    }
}

/// A value that is built by `F` the first time it is needed.
pub enum BuildOnAccess<R, F> {
    Uninitialized(Option<F>),
    Initialized(R),
}

impl<R, F: FnOnce() -> R> BuildOnAccess<R, F> {
    /// Not yet built, and holding the builder.
    pub fn new(builder: F) -> (r: Self)
        ensures
            r == BuildOnAccess::<R, F>::Uninitialized(Some(builder)),
    {
        BuildOnAccess::Uninitialized(Some(builder))
    }

    /// Either built, or holding a builder that may be called.
    pub open spec fn can_build(&self) -> bool {
        match self {
            BuildOnAccess::Initialized(_) => true,
            BuildOnAccess::Uninitialized(Some(f)) => f.requires(()),
            BuildOnAccess::Uninitialized(None) => false,
        }
    }

    pub fn is_initialized(&self) -> (r: bool)
        ensures
            r == self is Initialized,
    {
        match self {
            BuildOnAccess::Initialized(_) => true,
            BuildOnAccess::Uninitialized(_) => false,
        }
    }

    /// The value, built now if this is the first access. A built value is
    /// handed out as it is, and the builder is not called again.
    pub fn get_mut(&mut self) -> (r: &mut R)
        requires
            old(self).can_build(),
        ensures
            match *old(self) {
                BuildOnAccess::Initialized(v) => *r == v,
                BuildOnAccess::Uninitialized(Some(f)) => f.ensures((), *r),
                BuildOnAccess::Uninitialized(None) => false,
            },
            *final(self) == BuildOnAccess::<R, F>::Initialized(*final(r)),
        decreases 0nat,
    {
        let mut current = BuildOnAccess::Uninitialized(None);
        core::mem::swap(self, &mut current);
        let value = match current {
            BuildOnAccess::Initialized(v) => v,
            BuildOnAccess::Uninitialized(builder) => {
                let f = builder.unwrap();
                f()
            },
        };
        *self = BuildOnAccess::Initialized(value);
        match self {
            BuildOnAccess::Initialized(r) => r,
            // Cannot happen: `self` was set to `Initialized` just above.
            BuildOnAccess::Uninitialized(_) => self.get_mut(),
        }
    }
}

/// A consensus strategy that waits for the runtime upgrade to the native
/// strategy: blocks whose parent lacks the capability go to the relay-chain
/// strategy, the others to the native strategy, which is built on first use.
/// Block production and block verification each hold one.
pub struct WaitForAuraConsensus<B, N, F> {
    pub aura: BuildOnAccess<N, F>,
    pub relay_chain: B,
}

impl<B, N, F: FnOnce() -> N> WaitForAuraConsensus<B, N, F> {
    pub fn new(relay_chain: B, build_aura: F) -> (r: Self)
        ensures
            r.aura == BuildOnAccess::<N, F>::Uninitialized(Some(build_aura)),
            r.relay_chain == relay_chain,
    {
        WaitForAuraConsensus { aura: BuildOnAccess::new(build_aura), relay_chain }
    }

    /// Decides the mode for one parent block from its probe outcome and, when
    /// that is the native mode, makes sure the native strategy is built. The
    /// relay-chain strategy is never touched, and an already built native
    /// strategy is kept as it is.
    pub fn select<E>(&mut self, probe: Result<bool, E>) -> (r: ConsensusMode)
        requires
            old(self).aura.can_build(),
        ensures
            r == mode_of_probe(probe),
            final(self).relay_chain == old(self).relay_chain,
            final(self).aura.can_build(),
            r == ConsensusMode::Bootstrap ==> final(self).aura == old(self).aura,
            r == ConsensusMode::Native ==> match old(self).aura {
                BuildOnAccess::Initialized(v) => final(self).aura == BuildOnAccess::<N, F>::Initialized(v),
                BuildOnAccess::Uninitialized(Some(f)) => final(self).aura matches BuildOnAccess::Initialized(v) && f.ensures((), v),
                BuildOnAccess::Uninitialized(None) => false,
            },
    {
        let mode = select_mode(probe);
        if mode == ConsensusMode::Native {
            let _built = self.aura.get_mut();
        }
        mode
    }

    /// The native strategy, built now if it was not yet.
    pub fn aura_mut(&mut self) -> (r: &mut N)
        requires
            old(self).aura.can_build(),
        ensures
            match old(self).aura {
                BuildOnAccess::Initialized(v) => *r == v,
                BuildOnAccess::Uninitialized(Some(f)) => f.ensures((), *r),
                BuildOnAccess::Uninitialized(None) => false,
            },
            final(self).aura == BuildOnAccess::<N, F>::Initialized(*final(r)),
            final(self).relay_chain == old(self).relay_chain,
    {
        self.aura.get_mut()
    }

    /// The relay-chain strategy.
    pub fn relay_chain_mut(&mut self) -> (r: &mut B)
        ensures
            *r == old(self).relay_chain,
            final(self).relay_chain == *final(r),
            final(self).aura == old(self).aura,
    {
        &mut self.relay_chain
    }
}

} // verus!
