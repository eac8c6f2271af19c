//! Station-management interface (SMI): synchronous read and write of the
//! 16-bit PHY registers over the two-wire management bus (MDIO/MDC).

use vstd::prelude::*;

verus! {

/// Number of addressable PHY registers; register addresses run over `[0, 31]`.
pub const PHY_REG_COUNT: usize = 32;

/// Station management access to an Ethernet PHY.
///
/// The transceiver's register file is modelled by [`Self::regs`], a sequence
/// of [`PHY_REG_COUNT`] 16-bit values indexed by register address. At this
/// layer the only transitions of that state are the writes issued through the
/// bus itself: the driver above is a passive observer that reads registers and
/// classifies what it sees, it never drives negotiation.
///
/// Each call blocks the calling context until the bus transaction completes;
/// the handle is exclusively borrowed for the duration of the call, so no
/// second transaction can overlap it and the handle cannot be relocated while
/// the transaction is tied to the live hardware. Out-of-range register
/// addresses are a programming error, excluded by precondition rather than
/// handled at run time.
pub trait StationManagement {
    /// Model of the PHY register file as observed through this bus.
    spec fn regs(&self) -> Seq<u16>;

    /// Completed bus transactions, reads and writes together. Protocol
    /// contracts bound their cost in it.
    spec fn tx_count(&self) -> nat;

    /// Well-formedness of the bus handle.
    spec fn inv(&self) -> bool;

    /// A well-formed bus exposes exactly the [`PHY_REG_COUNT`] registers.
    proof fn lemma_inv_regs_len(&self)
        requires
            self.inv(),
        ensures
            self.regs().len() == PHY_REG_COUNT,
    ;

    /// Read a register over SMI.
    fn smi_read(&mut self, reg: u8) -> (val: u16)
        requires
            old(self).inv(),
            reg < 32,
        ensures
            final(self).inv(),
            final(self).regs() == old(self).regs(),
            val == old(self).regs()[reg as int],
            final(self).tx_count() == old(self).tx_count() + 1,
    ;

    /// Write a register over SMI.
    fn smi_write(&mut self, reg: u8, val: u16)
        requires
            old(self).inv(),
            reg < 32,
        ensures
            final(self).inv(),
            final(self).regs() == old(self).regs().update(reg as int, val),
            final(self).tx_count() == old(self).tx_count() + 1,
    ;
}

/// Round trip over the bus model: writing `val` to register `reg` and then
/// reading `reg` back yields `val`, whatever the register file held before,
/// and no other register is disturbed. By [`StationManagement::smi_write`]
/// the register file after the write is the update below, and by
/// [`StationManagement::smi_read`] the read returns exactly its entry at
/// `reg`.
pub proof fn lemma_write_read_round_trip(regs: Seq<u16>, reg: int, val: u16)
    requires
        regs.len() == PHY_REG_COUNT,
        0 <= reg < 32,
    ensures
        regs.update(reg, val)[reg] == val,
        forall|other: int|
            0 <= other < regs.len() && other != reg ==> regs.update(reg, val)[other] == regs[other],
{
}

/// A simulated loop-back bus: a plain register file standing in for the
/// hardware transceiver, used to exercise the driver protocol off the target.
/// Reading a register returns exactly what was last written to it, and the
/// bus counts its transactions so a harness can observe how many a protocol
/// step issued.
pub struct SimBus {
    words: Vec<u16>,
    transactions: u64,
    tx: Ghost<nat>,
}

impl SimBus {
    /// A simulated bus with every register cleared and no transactions yet.
    pub fn new() -> (bus: SimBus)
        ensures
            bus.inv(),
            bus.regs().len() == PHY_REG_COUNT,
            forall|i: int| 0 <= i < bus.regs().len() ==> bus.regs()[i] == 0u16,
            bus.tx_count() == 0,
    {
        let mut words: Vec<u16> = Vec::new();
        while words.len() < PHY_REG_COUNT
            invariant
                words@.len() <= PHY_REG_COUNT,
                forall|i: int| 0 <= i < words@.len() ==> words@[i] == 0u16,
            decreases PHY_REG_COUNT - words.len(),
        {
            words.push(0u16);
        }
        SimBus { words, transactions: 0, tx: Ghost(0) }
    }

    /// How many bus transactions have completed, saturating at the counter's
    /// width; below saturation it equals the model's [`Self::tx_count`].
    pub fn transactions(&self) -> (count: u64)
        requires
            self.inv(),
        ensures
            count <= self.tx_count(),
            self.tx_count() <= u64::MAX ==> count == self.tx_count(),
    {
        self.transactions
    }

    /// Record one more completed transaction.
    fn record_transaction(&mut self)
        requires
            old(self).inv(),
        ensures
            final(self).inv(),
            final(self).words == old(self).words,
            final(self).tx@ == old(self).tx@ + 1,
    {
        if self.transactions < u64::MAX {
            self.transactions = self.transactions + 1;
        }
        self.tx = Ghost(self.tx@ + 1);
    }
}

impl StationManagement for SimBus {
    closed spec fn regs(&self) -> Seq<u16> {
        self.words@
    }

    closed spec fn tx_count(&self) -> nat {
        self.tx@
    }

    closed spec fn inv(&self) -> bool {
        &&& self.words@.len() == PHY_REG_COUNT
        &&& if self.tx@ <= u64::MAX { self.transactions == self.tx@ } else {
            self.transactions == u64::MAX
        }
    }

    proof fn lemma_inv_regs_len(&self) {
    }

    fn smi_read(&mut self, reg: u8) -> (val: u16) {
        self.record_transaction();
        self.words[reg as usize]
    }

    fn smi_write(&mut self, reg: u8, val: u16) {
        self.record_transaction();
        self.words[reg as usize] = val;
    }
}

} // verus!
