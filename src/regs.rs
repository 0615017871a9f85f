//! The general-purpose register file of a guest hart.
use vstd::prelude::*;

verus! {

/// Number of integer registers of RV64, `x0` included.
pub const GPR_COUNT: usize = 32;

/// ABI names of the integer registers, in encoding order.
#[derive(Clone, Copy, Debug, PartialEq, Eq, Structural)]
pub enum GprIndex {
    Zero,
    RA,
    SP,
    GP,
    TP,
    T0,
    T1,
    T2,
    S0,
    S1,
    A0,
    A1,
    A2,
    A3,
    A4,
    A5,
    A6,
    A7,
    S2,
    S3,
    S4,
    S5,
    S6,
    S7,
    S8,
    S9,
    S10,
    S11,
    T3,
    T4,
    T5,
    T6,
}

/// The register number that an ABI name stands for.
pub open spec fn gpr_num(r: GprIndex) -> nat {
    match r {
        GprIndex::Zero => 0,
        GprIndex::RA => 1,
        GprIndex::SP => 2,
        GprIndex::GP => 3,
        GprIndex::TP => 4,
        GprIndex::T0 => 5,
        GprIndex::T1 => 6,
        GprIndex::T2 => 7,
        GprIndex::S0 => 8,
        GprIndex::S1 => 9,
        GprIndex::A0 => 10,
        GprIndex::A1 => 11,
        GprIndex::A2 => 12,
        GprIndex::A3 => 13,
        GprIndex::A4 => 14,
        GprIndex::A5 => 15,
        GprIndex::A6 => 16,
        GprIndex::A7 => 17,
        GprIndex::S2 => 18,
        GprIndex::S3 => 19,
        GprIndex::S4 => 20,
        GprIndex::S5 => 21,
        GprIndex::S6 => 22,
        GprIndex::S7 => 23,
        GprIndex::S8 => 24,
        GprIndex::S9 => 25,
        GprIndex::S10 => 26,
        GprIndex::S11 => 27,
        GprIndex::T3 => 28,
        GprIndex::T4 => 29,
        GprIndex::T5 => 30,
        GprIndex::T6 => 31,
    }
}

impl GprIndex {
    /// The register number, `0..32`.
    pub fn num(self) -> (r: usize)
        ensures
            r as nat == gpr_num(self),
            r < GPR_COUNT,
    {
        match self {
            GprIndex::Zero => 0,
            GprIndex::RA => 1,
            GprIndex::SP => 2,
            GprIndex::GP => 3,
            GprIndex::TP => 4,
            GprIndex::T0 => 5,
            GprIndex::T1 => 6,
            GprIndex::T2 => 7,
            GprIndex::S0 => 8,
            GprIndex::S1 => 9,
            GprIndex::A0 => 10,
            GprIndex::A1 => 11,
            GprIndex::A2 => 12,
            GprIndex::A3 => 13,
            GprIndex::A4 => 14,
            GprIndex::A5 => 15,
            GprIndex::A6 => 16,
            GprIndex::A7 => 17,
            GprIndex::S2 => 18,
            GprIndex::S3 => 19,
            GprIndex::S4 => 20,
            GprIndex::S5 => 21,
            GprIndex::S6 => 22,
            GprIndex::S7 => 23,
            GprIndex::S8 => 24,
            GprIndex::S9 => 25,
            GprIndex::S10 => 26,
            GprIndex::S11 => 27,
            GprIndex::T3 => 28,
            GprIndex::T4 => 29,
            GprIndex::T5 => 30,
            GprIndex::T6 => 31,
        }
    }

    /// The ABI name of register `n`, if `n` names one.
    pub fn from_raw(n: u32) -> (r: Option<GprIndex>)
        ensures
            r is Some <==> n < 32,
            r matches Some(g) ==> gpr_num(g) == n as nat,
    {
        match n {
            0 => Some(GprIndex::Zero),
            1 => Some(GprIndex::RA),
            2 => Some(GprIndex::SP),
            3 => Some(GprIndex::GP),
            4 => Some(GprIndex::TP),
            5 => Some(GprIndex::T0),
            6 => Some(GprIndex::T1),
            7 => Some(GprIndex::T2),
            8 => Some(GprIndex::S0),
            9 => Some(GprIndex::S1),
            10 => Some(GprIndex::A0),
            11 => Some(GprIndex::A1),
            12 => Some(GprIndex::A2),
            13 => Some(GprIndex::A3),
            14 => Some(GprIndex::A4),
            15 => Some(GprIndex::A5),
            16 => Some(GprIndex::A6),
            17 => Some(GprIndex::A7),
            18 => Some(GprIndex::S2),
            19 => Some(GprIndex::S3),
            20 => Some(GprIndex::S4),
            21 => Some(GprIndex::S5),
            22 => Some(GprIndex::S6),
            23 => Some(GprIndex::S7),
            24 => Some(GprIndex::S8),
            25 => Some(GprIndex::S9),
            26 => Some(GprIndex::S10),
            27 => Some(GprIndex::S11),
            28 => Some(GprIndex::T3),
            29 => Some(GprIndex::T4),
            30 => Some(GprIndex::T5),
            31 => Some(GprIndex::T6),
            _ => None,
        }
    }
}

/// The integer registers of a guest hart. Slot `n` holds `xn`; slot 0 stays
/// zero, so that the file holds 31 live registers.
#[derive(Clone, Copy, Debug)]
pub struct GeneralPurposeRegisters {
    regs: [u64; 32],
}

impl View for GeneralPurposeRegisters {
    type V = Seq<u64>;

    closed spec fn view(&self) -> Seq<u64> {
        self.regs@
    }
}

impl GeneralPurposeRegisters {
    /// Thirty-two slots, and `x0` reads as zero.
    pub open spec fn wf(&self) -> bool {
        &&& self@.len() == GPR_COUNT
        &&& self@[0] == 0
    }

    /// The value of register `r` in the model.
    pub open spec fn spec_reg(&self, r: GprIndex) -> u64 {
        self@[gpr_num(r) as int]
    }

    /// A register file with every register zero.
    pub fn new() -> (r: Self)
        ensures
            r.wf(),
            r@ == Seq::new(32, |i: int| 0u64),
    {
        let r = GeneralPurposeRegisters { regs: [0u64; 32] };
        assert(r@ =~= Seq::new(32, |i: int| 0u64));
        r
    }

    /// Reads register `index`.
    pub fn reg(&self, index: GprIndex) -> (r: u64)
        requires
            self.wf(),
        ensures
            r == self.spec_reg(index),
    {
        self.regs[index.num()]
    }

    /// Writes `val` to register `index`; a write to `x0` is dropped.
    pub fn set_reg(&mut self, index: GprIndex, val: u64)
        requires
            old(self).wf(),
        ensures
            final(self).wf(),
            index == GprIndex::Zero ==> final(self)@ == old(self)@,
            index != GprIndex::Zero ==> final(self)@ == old(self)@.update(
                gpr_num(index) as int,
                val,
            ),
    {
        let n = index.num();
        if n != 0 {
            self.regs[n] = val;
        }
    }

    /// The argument registers `a0` to `a7`, in order.
    pub fn a_regs(&self) -> (r: [u64; 8])
        requires
            self.wf(),
        ensures
            r@ == self@.subrange(10, 18),
    {
        let r = [
            self.regs[10],
            self.regs[11],
            self.regs[12],
            self.regs[13],
            self.regs[14],
            self.regs[15],
            self.regs[16],
            self.regs[17],
        ];
        assert(r@ =~= self@.subrange(10, 18));
        r
    }
}

} // verus!
