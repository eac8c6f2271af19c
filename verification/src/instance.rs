//! Peripheral instances: the descriptor of a MAC register block and the
//! singleton discipline that gives at most one live handle to each physical
//! controller at any time.

use vstd::prelude::*;

use crate::pins::InstanceId;
use crate::sealed;

verus! {

/// Base address of the [`InstanceId::Eth0`] controller's register block.
pub const ETH0_BASE: u32 = 0x40028000;

/// Where the register block of a controller instance sits in the address
/// space.
pub open spec fn base_of(instance: InstanceId) -> u32 {
    match instance {
        InstanceId::Eth0 => ETH0_BASE,
    }
}

/// Descriptor of one MAC register block: which controller instance it belongs
/// to and where its registers sit. Consumers address registers by offset from
/// the base; the descriptor itself performs no access.
pub struct Eth {
    instance: InstanceId,
    base: u32,
}

impl Eth {
    /// Controller instance the block belongs to.
    pub closed spec fn spec_instance(&self) -> InstanceId {
        self.instance
    }

    /// Base address of the block.
    pub closed spec fn spec_base(&self) -> u32 {
        self.base
    }

    /// The descriptor points at the documented base of its instance.
    pub open spec fn wf(&self) -> bool {
        self.spec_base() == base_of(self.spec_instance())
    }

    /// Controller instance the block belongs to.
    pub fn instance(&self) -> (instance: InstanceId)
        ensures
            instance == self.spec_instance(),
    {
        self.instance
    }

    /// Base address of the block.
    pub fn base(&self) -> (base: u32)
        ensures
            base == self.spec_base(),
    {
        self.base
    }
}

/// The Ethernet MAC peripheral of the target package: the singleton owner of
/// the [`InstanceId::Eth0`] register block and of the exclusive right to
/// issue bus transactions on it. Values exist only through
/// [`Peripherals::take_eth`], so no two live handles can coexist.
pub struct ETH {
    _seal: (),
}

impl sealed::Instance for ETH {
    open spec fn id() -> InstanceId {
        InstanceId::Eth0
    }

    fn regs() -> (block: Eth) {
        Eth { instance: InstanceId::Eth0, base: ETH0_BASE }
    }
}

impl ETH {
    /// The register block this handle owns; holding the handle is the
    /// exclusive right to use it.
    pub fn regs(&self) -> (block: Eth)
        ensures
            block.wf(),
            block.spec_instance() == InstanceId::Eth0,
    {
        Eth { instance: InstanceId::Eth0, base: ETH0_BASE }
    }
}

/// A controller instance: a sealed singleton with an identifier in the pin
/// capability registry and an accessor to its register block.
pub trait Instance: sealed::Instance + Send + 'static {

}

impl Instance for ETH {

}

/// The peripheral singletons of the package, handing out at most one live
/// handle per controller. Acquired once at system initialisation and threaded
/// explicitly through the call graph instead of living in global mutable
/// state.
pub struct Peripherals {
    eth_live: bool,
}

impl Peripherals {
    /// Whether a live [`ETH`] handle is currently out.
    pub closed spec fn eth_taken(&self) -> bool {
        self.eth_live
    }

    /// The full set, every handle still available.
    pub fn new() -> (p: Peripherals)
        ensures
            !p.eth_taken(),
    {
        Peripherals { eth_live: false }
    }

    /// Acquire the MAC singleton. Succeeds exactly while no live handle
    /// exists; a second acquisition while one is held is rejected.
    pub fn take_eth(&mut self) -> (handle: Option<ETH>)
        ensures
            handle is Some <==> !old(self).eth_taken(),
            final(self).eth_taken(),
    {
        if self.eth_live {
            None
        } else {
            self.eth_live = true;
            Some(ETH { _seal: () })
        }
    }

    /// Release a live handle, making a later re-acquisition possible. The
    /// handle is consumed, so no access outlives the release.
    pub fn release_eth(&mut self, handle: ETH)
        ensures
            !final(self).eth_taken(),
    {
        let ETH { _seal } = handle;
        self.eth_live = false;
    }
}

} // verus!
