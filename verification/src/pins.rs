//! Pin capability registry: the static table that decides which physical pin
//! may carry which Ethernet signal role, and under which alternate-function
//! selector.
//!
//! The table is closed over the known hardware: a binding for a triple the
//! silicon does not support is refused by the verifier before the system is
//! built, never discovered at run time. The GPIO subsystem consumes the
//! `(pin, selector)` pairs and performs the actual mode switch; nothing here
//! mutates a pin.

use vstd::prelude::*;

verus! {

/// The Ethernet controller instances of the target package.
#[derive(PartialEq, Eq, Structural, Clone, Copy, Debug)]
pub enum InstanceId {
    Eth0,
}

/// The physical pins the target package routes to an Ethernet controller.
#[derive(PartialEq, Eq, Structural, Clone, Copy, Debug)]
pub enum PinId {
    PA1,
    PA2,
    PA7,
    PB11,
    PB12,
    PB13,
    PC1,
    PC4,
    PC5,
    PG11,
    PG13,
    PG14,
}

/// The nine Ethernet signal roles a pin may carry.
#[derive(PartialEq, Eq, Structural, Clone, Copy, Debug)]
pub enum SignalRole {
    /// Reference clock.
    RefClk,
    /// Management data line of the SMI bus.
    Mdio,
    /// Management clock line of the SMI bus.
    Mdc,
    /// Carrier sense / data valid.
    CrsDv,
    /// Receive-data lane 0.
    Rxd0,
    /// Receive-data lane 1.
    Rxd1,
    /// Transmit-data lane 0.
    Txd0,
    /// Transmit-data lane 1.
    Txd1,
    /// Transmit enable.
    TxEn,
}

/// One row of the static capability table.
#[derive(PartialEq, Eq, Structural, Clone, Copy, Debug)]
pub struct PinEntry {
    /// Controller instance the row belongs to.
    pub instance: InstanceId,
    /// Physical pin.
    pub pin: PinId,
    /// Signal role the pin may carry for that instance.
    pub role: SignalRole,
    /// Alternate-function selector that routes the role onto the pin.
    pub af: u8,
}

/// The alternate-function selector for a triple, or `None` where the silicon
/// does not support the binding. This is the single source of truth the rest
/// of the registry is proved against: exactly one selector per valid triple,
/// none at all per invalid one.
pub open spec fn af_sel(instance: InstanceId, pin: PinId, role: SignalRole) -> Option<u8> {
    match (instance, pin, role) {
        (InstanceId::Eth0, PinId::PA1, SignalRole::RefClk) => Some(11u8),
        (InstanceId::Eth0, PinId::PA2, SignalRole::Mdio) => Some(11u8),
        (InstanceId::Eth0, PinId::PC1, SignalRole::Mdc) => Some(11u8),
        (InstanceId::Eth0, PinId::PA7, SignalRole::CrsDv) => Some(11u8),
        (InstanceId::Eth0, PinId::PC4, SignalRole::Rxd0) => Some(11u8),
        (InstanceId::Eth0, PinId::PC5, SignalRole::Rxd1) => Some(11u8),
        (InstanceId::Eth0, PinId::PB12, SignalRole::Txd0) => Some(11u8),
        (InstanceId::Eth0, PinId::PG13, SignalRole::Txd0) => Some(11u8),
        (InstanceId::Eth0, PinId::PB13, SignalRole::Txd1) => Some(11u8),
        (InstanceId::Eth0, PinId::PG14, SignalRole::Txd1) => Some(11u8),
        (InstanceId::Eth0, PinId::PB11, SignalRole::TxEn) => Some(11u8),
        (InstanceId::Eth0, PinId::PG11, SignalRole::TxEn) => Some(11u8),
        _ => None,
    }
}

/// The capability table as a sequence of rows, one row per valid triple.
pub open spec fn spec_table() -> Seq<PinEntry> {
    seq![
        PinEntry { instance: InstanceId::Eth0, pin: PinId::PA1, role: SignalRole::RefClk, af: 11u8 },
        PinEntry { instance: InstanceId::Eth0, pin: PinId::PA2, role: SignalRole::Mdio, af: 11u8 },
        PinEntry { instance: InstanceId::Eth0, pin: PinId::PC1, role: SignalRole::Mdc, af: 11u8 },
        PinEntry { instance: InstanceId::Eth0, pin: PinId::PA7, role: SignalRole::CrsDv, af: 11u8 },
        PinEntry { instance: InstanceId::Eth0, pin: PinId::PC4, role: SignalRole::Rxd0, af: 11u8 },
        PinEntry { instance: InstanceId::Eth0, pin: PinId::PC5, role: SignalRole::Rxd1, af: 11u8 },
        PinEntry { instance: InstanceId::Eth0, pin: PinId::PB12, role: SignalRole::Txd0, af: 11u8 },
        PinEntry { instance: InstanceId::Eth0, pin: PinId::PG13, role: SignalRole::Txd0, af: 11u8 },
        PinEntry { instance: InstanceId::Eth0, pin: PinId::PB13, role: SignalRole::Txd1, af: 11u8 },
        PinEntry { instance: InstanceId::Eth0, pin: PinId::PG14, role: SignalRole::Txd1, af: 11u8 },
        PinEntry { instance: InstanceId::Eth0, pin: PinId::PB11, role: SignalRole::TxEn, af: 11u8 },
        PinEntry { instance: InstanceId::Eth0, pin: PinId::PG11, role: SignalRole::TxEn, af: 11u8 },
    ]
}

/// Look an alternate-function selector up at run time, for callers that walk
/// the board description dynamically.
pub fn lookup_af(instance: InstanceId, pin: PinId, role: SignalRole) -> (sel: Option<u8>)
    ensures
        sel == af_sel(instance, pin, role),
{
    match (instance, pin, role) {
        (InstanceId::Eth0, PinId::PA1, SignalRole::RefClk) => Some(11u8),
        (InstanceId::Eth0, PinId::PA2, SignalRole::Mdio) => Some(11u8),
        (InstanceId::Eth0, PinId::PC1, SignalRole::Mdc) => Some(11u8),
        (InstanceId::Eth0, PinId::PA7, SignalRole::CrsDv) => Some(11u8),
        (InstanceId::Eth0, PinId::PC4, SignalRole::Rxd0) => Some(11u8),
        (InstanceId::Eth0, PinId::PC5, SignalRole::Rxd1) => Some(11u8),
        (InstanceId::Eth0, PinId::PB12, SignalRole::Txd0) => Some(11u8),
        (InstanceId::Eth0, PinId::PG13, SignalRole::Txd0) => Some(11u8),
        (InstanceId::Eth0, PinId::PB13, SignalRole::Txd1) => Some(11u8),
        (InstanceId::Eth0, PinId::PG14, SignalRole::Txd1) => Some(11u8),
        (InstanceId::Eth0, PinId::PB11, SignalRole::TxEn) => Some(11u8),
        (InstanceId::Eth0, PinId::PG11, SignalRole::TxEn) => Some(11u8),
        _ => None,
    }
}

/// The capability table as a vector of rows, for the GPIO subsystem to walk
/// once during board setup.
pub fn table() -> (rows: Vec<PinEntry>)
    ensures
        rows@ == spec_table(),
{
    let mut rows: Vec<PinEntry> = Vec::new();
    rows.push(PinEntry { instance: InstanceId::Eth0, pin: PinId::PA1, role: SignalRole::RefClk, af: 11u8 });
    rows.push(PinEntry { instance: InstanceId::Eth0, pin: PinId::PA2, role: SignalRole::Mdio, af: 11u8 });
    rows.push(PinEntry { instance: InstanceId::Eth0, pin: PinId::PC1, role: SignalRole::Mdc, af: 11u8 });
    rows.push(PinEntry { instance: InstanceId::Eth0, pin: PinId::PA7, role: SignalRole::CrsDv, af: 11u8 });
    rows.push(PinEntry { instance: InstanceId::Eth0, pin: PinId::PC4, role: SignalRole::Rxd0, af: 11u8 });
    rows.push(PinEntry { instance: InstanceId::Eth0, pin: PinId::PC5, role: SignalRole::Rxd1, af: 11u8 });
    rows.push(PinEntry { instance: InstanceId::Eth0, pin: PinId::PB12, role: SignalRole::Txd0, af: 11u8 });
    rows.push(PinEntry { instance: InstanceId::Eth0, pin: PinId::PG13, role: SignalRole::Txd0, af: 11u8 });
    rows.push(PinEntry { instance: InstanceId::Eth0, pin: PinId::PB13, role: SignalRole::Txd1, af: 11u8 });
    rows.push(PinEntry { instance: InstanceId::Eth0, pin: PinId::PG14, role: SignalRole::Txd1, af: 11u8 });
    rows.push(PinEntry { instance: InstanceId::Eth0, pin: PinId::PB11, role: SignalRole::TxEn, af: 11u8 });
    rows.push(PinEntry { instance: InstanceId::Eth0, pin: PinId::PG11, role: SignalRole::TxEn, af: 11u8 });
    proof {
        assert(rows@ =~= spec_table());
    }
    rows
}

/// Every row of the capability table binds, and to exactly the selector the
/// row documents: the table and the lookup function agree row by row.
pub proof fn lemma_table_rows_bind()
    ensures
        forall|i: int|
            0 <= i < spec_table().len() ==> af_sel(
                spec_table()[i].instance,
                spec_table()[i].pin,
                spec_table()[i].role,
            ) == Some(spec_table()[i].af),
{
}

/// The lookup function answers `Some(sel)` exactly for the triples the table
/// lists, and then `sel` is the listed selector; triples outside the table
/// have no selector at all.
pub proof fn lemma_lookup_matches_table(instance: InstanceId, pin: PinId, role: SignalRole, sel: u8)
    ensures
        af_sel(instance, pin, role) == Some(sel) <==> spec_table().contains(
            (PinEntry { instance, pin, role, af: sel }),
        ),
{
    if af_sel(instance, pin, role) == Some(sel) {
        match (instance, pin, role) {
            (InstanceId::Eth0, PinId::PA1, SignalRole::RefClk) => {
                assert(spec_table()[0] == (PinEntry { instance, pin, role, af: sel }));
            },
            (InstanceId::Eth0, PinId::PA2, SignalRole::Mdio) => {
                assert(spec_table()[1] == (PinEntry { instance, pin, role, af: sel }));
            },
            (InstanceId::Eth0, PinId::PC1, SignalRole::Mdc) => {
                assert(spec_table()[2] == (PinEntry { instance, pin, role, af: sel }));
            },
            (InstanceId::Eth0, PinId::PA7, SignalRole::CrsDv) => {
                assert(spec_table()[3] == (PinEntry { instance, pin, role, af: sel }));
            },
            (InstanceId::Eth0, PinId::PC4, SignalRole::Rxd0) => {
                assert(spec_table()[4] == (PinEntry { instance, pin, role, af: sel }));
            },
            (InstanceId::Eth0, PinId::PC5, SignalRole::Rxd1) => {
                assert(spec_table()[5] == (PinEntry { instance, pin, role, af: sel }));
            },
            (InstanceId::Eth0, PinId::PB12, SignalRole::Txd0) => {
                assert(spec_table()[6] == (PinEntry { instance, pin, role, af: sel }));
            },
            (InstanceId::Eth0, PinId::PG13, SignalRole::Txd0) => {
                assert(spec_table()[7] == (PinEntry { instance, pin, role, af: sel }));
            },
            (InstanceId::Eth0, PinId::PB13, SignalRole::Txd1) => {
                assert(spec_table()[8] == (PinEntry { instance, pin, role, af: sel }));
            },
            (InstanceId::Eth0, PinId::PG14, SignalRole::Txd1) => {
                assert(spec_table()[9] == (PinEntry { instance, pin, role, af: sel }));
            },
            (InstanceId::Eth0, PinId::PB11, SignalRole::TxEn) => {
                assert(spec_table()[10] == (PinEntry { instance, pin, role, af: sel }));
            },
            (InstanceId::Eth0, PinId::PG11, SignalRole::TxEn) => {
                assert(spec_table()[11] == (PinEntry { instance, pin, role, af: sel }));
            },
            _ => {
            },
        }
    }
    if spec_table().contains((PinEntry { instance, pin, role, af: sel })) {
        let i = choose|i: int|
            0 <= i < spec_table().len() && spec_table()[i] == (PinEntry {
                instance,
                pin,
                role,
                af: sel,
            });
        lemma_table_rows_bind();
        assert(af_sel(spec_table()[i].instance, spec_table()[i].pin, spec_table()[i].role) == Some(
            spec_table()[i].af,
        ));
    }
}

/// No duplicate role for the same (instance, pin): two distinct rows of the
/// table never bind one pin of one instance to the same role twice.
pub proof fn lemma_no_duplicate_bindings()
    ensures
        forall|i: int, j: int|
            0 <= i < j < spec_table().len() ==> !(spec_table()[i].instance
                == spec_table()[j].instance && spec_table()[i].pin == spec_table()[j].pin
                && spec_table()[i].role == spec_table()[j].role),
{
}

/// The nine signal roles, each exactly once.
pub open spec fn all_roles() -> Seq<SignalRole> {
    seq![
        SignalRole::RefClk,
        SignalRole::Mdio,
        SignalRole::Mdc,
        SignalRole::CrsDv,
        SignalRole::Rxd0,
        SignalRole::Rxd1,
        SignalRole::Txd0,
        SignalRole::Txd1,
        SignalRole::TxEn,
    ]
}

/// The nine signal roles as a vector, mirroring [`all_roles`], for callers
/// that enumerate roles at run time.
pub fn all_roles_list() -> (roles: Vec<SignalRole>)
    ensures
        roles@ == all_roles(),
{
    let mut roles: Vec<SignalRole> = Vec::new();
    roles.push(SignalRole::RefClk);
    roles.push(SignalRole::Mdio);
    roles.push(SignalRole::Mdc);
    roles.push(SignalRole::CrsDv);
    roles.push(SignalRole::Rxd0);
    roles.push(SignalRole::Rxd1);
    roles.push(SignalRole::Txd0);
    roles.push(SignalRole::Txd1);
    roles.push(SignalRole::TxEn);
    proof {
        assert(roles@ =~= all_roles());
    }
    roles
}

/// The table lists at least one pin that may carry the role.
pub open spec fn role_representable(role: SignalRole) -> bool {
    exists|pin: PinId| #[trigger] af_sel(InstanceId::Eth0, pin, role) is Some
}

/// Exactly nine distinct signal roles exist, and the table represents every
/// one of them: each role has at least one pin it can be bound to.
pub proof fn lemma_nine_roles_representable()
    ensures
        all_roles().len() == 9,
        forall|i: int, j: int| 0 <= i < j < all_roles().len() ==> all_roles()[i] != all_roles()[j],
        forall|role: SignalRole| all_roles().contains(role),
        forall|role: SignalRole| #[trigger] role_representable(role),
{
    assert forall|role: SignalRole| all_roles().contains(role) by {
        match role {
            SignalRole::RefClk => assert(all_roles()[0] == role),
            SignalRole::Mdio => assert(all_roles()[1] == role),
            SignalRole::Mdc => assert(all_roles()[2] == role),
            SignalRole::CrsDv => assert(all_roles()[3] == role),
            SignalRole::Rxd0 => assert(all_roles()[4] == role),
            SignalRole::Rxd1 => assert(all_roles()[5] == role),
            SignalRole::Txd0 => assert(all_roles()[6] == role),
            SignalRole::Txd1 => assert(all_roles()[7] == role),
            SignalRole::TxEn => assert(all_roles()[8] == role),
        }
    }
    assert forall|role: SignalRole| #[trigger] role_representable(role) by {
        match role {
            SignalRole::RefClk => assert(af_sel(InstanceId::Eth0, PinId::PA1, role) is Some),
            SignalRole::Mdio => assert(af_sel(InstanceId::Eth0, PinId::PA2, role) is Some),
            SignalRole::Mdc => assert(af_sel(InstanceId::Eth0, PinId::PC1, role) is Some),
            SignalRole::CrsDv => assert(af_sel(InstanceId::Eth0, PinId::PA7, role) is Some),
            SignalRole::Rxd0 => assert(af_sel(InstanceId::Eth0, PinId::PC4, role) is Some),
            SignalRole::Rxd1 => assert(af_sel(InstanceId::Eth0, PinId::PC5, role) is Some),
            SignalRole::Txd0 => assert(af_sel(InstanceId::Eth0, PinId::PB12, role) is Some),
            SignalRole::Txd1 => assert(af_sel(InstanceId::Eth0, PinId::PB13, role) is Some),
            SignalRole::TxEn => assert(af_sel(InstanceId::Eth0, PinId::PB11, role) is Some),
        }
    }
}

/// A pin bound to a signal role of one controller instance, carrying the
/// alternate-function selector the table documents for the triple. Values of
/// this type exist only for triples the table lists.
#[derive(PartialEq, Eq, Structural, Clone, Copy, Debug)]
pub struct PinBinding {
    instance: InstanceId,
    pin: PinId,
    role: SignalRole,
    af: u8,
}

impl PinBinding {
    /// The binding is one the table lists, under exactly its selector.
    pub closed spec fn wf(&self) -> bool {
        af_sel(self.instance, self.pin, self.role) == Some(self.af)
    }

    /// Controller instance of the binding.
    pub closed spec fn spec_instance(&self) -> InstanceId {
        self.instance
    }

    /// Physical pin of the binding.
    pub closed spec fn spec_pin(&self) -> PinId {
        self.pin
    }

    /// Signal role of the binding.
    pub closed spec fn spec_role(&self) -> SignalRole {
        self.role
    }

    /// Alternate-function selector of the binding.
    pub closed spec fn spec_af(&self) -> u8 {
        self.af
    }

    /// Bind a pin to a signal role. The precondition is the build-time
    /// rejection: a caller holding a triple outside the table fails
    /// verification, so the system is unbuildable rather than wrong at run
    /// time.
    pub fn bind(instance: InstanceId, pin: PinId, role: SignalRole) -> (b: PinBinding)
        requires
            af_sel(instance, pin, role) is Some,
        ensures
            b.wf(),
            b.spec_instance() == instance,
            b.spec_pin() == pin,
            b.spec_role() == role,
            af_sel(instance, pin, role) == Some(b.spec_af()),
    {
        let sel = lookup_af(instance, pin, role);
        let af = sel.unwrap();
        PinBinding { instance, pin, role, af }
    }

    /// Bind a pin to a signal role from a dynamically supplied triple,
    /// succeeding exactly on the triples the table lists.
    pub fn try_bind(instance: InstanceId, pin: PinId, role: SignalRole) -> (b: Option<PinBinding>)
        ensures
            b is Some <==> af_sel(instance, pin, role) is Some,
            match b {
                Some(binding) => binding.wf() && binding.spec_instance() == instance
                    && binding.spec_pin() == pin && binding.spec_role() == role
                    && af_sel(instance, pin, role) == Some(binding.spec_af()),
                None => af_sel(instance, pin, role) is None,
            },
    {
        match lookup_af(instance, pin, role) {
            Some(af) => Some(PinBinding { instance, pin, role, af }),
            None => None,
        }
    }

    /// Controller instance of the binding.
    pub fn instance(&self) -> (instance: InstanceId)
        ensures
            instance == self.spec_instance(),
    {
        self.instance
    }

    /// Physical pin of the binding.
    pub fn pin(&self) -> (pin: PinId)
        ensures
            pin == self.spec_pin(),
    {
        self.pin
    }

    /// Signal role of the binding.
    pub fn role(&self) -> (role: SignalRole)
        ensures
            role == self.spec_role(),
    {
        self.role
    }

    /// The alternate-function selector the GPIO subsystem must program for
    /// this binding.
    pub fn af(&self) -> (af: u8)
        requires
            self.wf(),
        ensures
            af_sel(self.spec_instance(), self.spec_pin(), self.spec_role()) == Some(af),
    {
        self.af
    }
}

} // verus!
