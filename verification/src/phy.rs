//! PHY driver protocol: reset, initialisation and link polling, written
//! against any [`StationManagement`] bus and polymorphic over concrete
//! transceiver chip variants.

use vstd::prelude::*;

use crate::smi::StationManagement;

verus! {

/// Basic control register address.
pub const BCR: u8 = 0;

/// Basic status register address.
pub const BSR: u8 = 1;

/// Special status register address: speed and duplex as resolved by the chip.
pub const SSR: u8 = 31;

/// Basic control register: software reset.
pub const BCR_RESET: u16 = 0x8000;

/// Basic control register: enable auto-negotiation.
pub const BCR_AN_ENABLE: u16 = 0x1000;

/// Basic status register: link is up.
pub const BSR_LINK_UP: u16 = 0x0004;

/// Special status register: resolved speed is 100 Mbps.
pub const SSR_SPEED_100: u16 = 0x0008;

/// Special status register: resolved duplex is full.
pub const SSR_DUPLEX_FULL: u16 = 0x0010;

/// How many times a reset waits for the readiness bit before proceeding
/// anyway. The bound is what matters: the driver must return even when the
/// device never reports readiness, because no other recovery path exists at
/// this layer.
pub const RESET_POLL_LIMIT: u32 = 100;

/// The basic status register reports the link as up.
pub open spec fn link_up(bsr: u16) -> bool {
    bsr & BSR_LINK_UP == BSR_LINK_UP
}

/// The special status register reports full duplex.
pub open spec fn duplex_full(ssr: u16) -> bool {
    ssr & SSR_DUPLEX_FULL == SSR_DUPLEX_FULL
}

/// The special status register reports 100 Mbps.
pub open spec fn speed_100(ssr: u16) -> bool {
    ssr & SSR_SPEED_100 == SSR_SPEED_100
}

/// The one link condition the surrounding MAC is wired for: link up, full
/// duplex and 100 Mbps, all simultaneously. Down, half-duplex, 10 Mbps and
/// still-negotiating states all fall outside it.
pub open spec fn link_qualifies(bsr: u16, ssr: u16) -> bool {
    link_up(bsr) && duplex_full(ssr) && speed_100(ssr)
}

/// Classify a sampled (status, special-status) register pair.
pub fn classify_link(bsr: u16, ssr: u16) -> (up: bool)
    ensures
        up == link_qualifies(bsr, ssr),
{
    (bsr & BSR_LINK_UP == BSR_LINK_UP) && (ssr & SSR_DUPLEX_FULL == SSR_DUPLEX_FULL) && (ssr
        & SSR_SPEED_100 == SSR_SPEED_100)
}

/// A link sample qualifies exactly when all three fields agree, so flipping
/// any one of the three fields alone flips the classification to false.
pub proof fn lemma_flip_any_field_downs_link(bsr: u16, ssr: u16)
    requires
        link_qualifies(bsr, ssr),
    ensures
        !link_qualifies(bsr ^ BSR_LINK_UP, ssr),
        !link_qualifies(bsr, ssr ^ SSR_DUPLEX_FULL),
        !link_qualifies(bsr, ssr ^ SSR_SPEED_100),
{
    assert(bsr & 0x0004u16 == 0x0004u16 ==> (bsr ^ 0x0004u16) & 0x0004u16 != 0x0004u16)
        by (bit_vector);
    assert(ssr & 0x0010u16 == 0x0010u16 ==> (ssr ^ 0x0010u16) & 0x0010u16 != 0x0010u16)
        by (bit_vector);
    assert(ssr & 0x0008u16 == 0x0008u16 ==> (ssr ^ 0x0008u16) & 0x0008u16 != 0x0008u16)
        by (bit_vector);
    assert((ssr ^ 0x0010u16) & 0x0008u16 == ssr & 0x0008u16) by (bit_vector);
    assert((ssr ^ 0x0008u16) & 0x0010u16 == ssr & 0x0010u16) by (bit_vector);
}

/// Driver operations an Ethernet PHY chip variant supplies, each written
/// against any station-management bus.
///
/// The per-variant spec functions pin the observable behaviour down: what a
/// reset and an initialisation leave in the register file, and which register
/// contents count as a usable link.
pub trait PHY {
    /// Register file left behind by [`Self::phy_reset`], as a function of the
    /// register file it started from.
    spec fn reset_post(pre: Seq<u16>, post: Seq<u16>) -> bool;

    /// Register file left behind by [`Self::phy_init`], as a function of the
    /// register file it started from.
    spec fn init_post(pre: Seq<u16>, post: Seq<u16>) -> bool;

    /// Which register contents this variant reports as a usable link.
    spec fn link_spec(regs: Seq<u16>) -> bool;

    /// Upper bound on the bus transactions one reset may issue. The driver
    /// must come back within it even when the device never reports
    /// readiness: the system has no other recovery path at this layer.
    spec fn reset_tx_bound() -> nat;

    /// Reset the PHY and wait, boundedly, for it to come out of reset; if
    /// readiness is never observed within the bound, proceed anyway.
    fn phy_reset<S: StationManagement>(sm: &mut S)
        requires
            old(sm).inv(),
        ensures
            final(sm).inv(),
            Self::reset_post(old(sm).regs(), final(sm).regs()),
            final(sm).tx_count() <= old(sm).tx_count() + Self::reset_tx_bound(),
    ;

    /// Write the configuration registers that select auto-negotiation and the
    /// operating mode the surrounding MAC is wired for.
    fn phy_init<S: StationManagement>(sm: &mut S)
        requires
            old(sm).inv(),
        ensures
            final(sm).inv(),
            Self::init_post(old(sm).regs(), final(sm).regs()),
    ;

    /// Sample the link and report whether it is usable. Polling is a pure
    /// observation: the register file is left exactly as it was found.
    fn poll_link<S: StationManagement>(sm: &mut S) -> (up: bool)
        requires
            old(sm).inv(),
        ensures
            final(sm).inv(),
            final(sm).regs() == old(sm).regs(),
            up == Self::link_spec(old(sm).regs()),
    ;
}

/// Driver for the LAN8742A family of 100BASE-TX transceivers.
pub struct Lan8742a;

impl PHY for Lan8742a {
    /// A reset leaves the reset request in the basic control register; every
    /// other register is untouched by the driver.
    open spec fn reset_post(pre: Seq<u16>, post: Seq<u16>) -> bool {
        post == pre.update(BCR as int, BCR_RESET)
    }

    /// Initialisation enables auto-negotiation and leaves every other
    /// register untouched.
    open spec fn init_post(pre: Seq<u16>, post: Seq<u16>) -> bool {
        post == pre.update(BCR as int, BCR_AN_ENABLE)
    }

    /// A usable link is exactly link-up, full duplex and 100 Mbps at once, as
    /// sampled from the basic and special status registers.
    open spec fn link_spec(regs: Seq<u16>) -> bool {
        link_qualifies(regs[BSR as int], regs[SSR as int])
    }

    /// One write to request the reset, then at most the bounded number of
    /// readiness polls.
    open spec fn reset_tx_bound() -> nat {
        (1 + RESET_POLL_LIMIT) as nat
    }

    fn phy_reset<S: StationManagement>(sm: &mut S) {
        proof {
            sm.lemma_inv_regs_len();
        }
        sm.smi_write(BCR, BCR_RESET);
        let ghost after_request = sm.regs();
        let ghost tx_start = sm.tx_count();
        let mut polls: u32 = 0;
        while polls < RESET_POLL_LIMIT
            invariant_except_break
                sm.tx_count() == tx_start + polls,
            invariant
                sm.inv(),
                sm.regs() == after_request,
                after_request.len() == 32,
                polls <= RESET_POLL_LIMIT,
                after_request[BCR as int] == BCR_RESET,
            ensures
                sm.inv(),
                sm.regs() == after_request,
                sm.tx_count() <= tx_start + RESET_POLL_LIMIT,
            decreases RESET_POLL_LIMIT - polls,
        {
            let bcr = sm.smi_read(BCR);
            if bcr & BCR_RESET == 0 {
                break ;
            }
            polls = polls + 1;
        }
    }

    fn phy_init<S: StationManagement>(sm: &mut S) {
        proof {
            sm.lemma_inv_regs_len();
        }
        sm.smi_write(BCR, BCR_AN_ENABLE);
    }

    fn poll_link<S: StationManagement>(sm: &mut S) -> (up: bool) {
        proof {
            sm.lemma_inv_regs_len();
        }
        let bsr = sm.smi_read(BSR);
        let ssr = sm.smi_read(SSR);
        classify_link(bsr, ssr)
    }
}

} // verus!
