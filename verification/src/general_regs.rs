//! The general-purpose register file as it lies in a saved frame.

use vstd::prelude::*;

verus! {

/// The 32 general-purpose registers, in the order in which the trap entry
/// code stores them and the return code loads them again.
///
/// The first slot belongs to the wired zero register: it is stored like the
/// others, but the processor never takes a value back from it.
#[derive(Debug, Clone, Copy)]
pub struct GeneralRegs {
    /// Wired zero.
    pub zero: usize,
    /// Assembler temporary.
    pub at: usize,
    /// Return values.
    pub v0: usize,
    pub v1: usize,
    /// Arguments.
    pub a0: usize,
    pub a1: usize,
    pub a2: usize,
    pub a3: usize,
    /// Caller-saved temporaries.
    pub t0: usize,
    pub t1: usize,
    pub t2: usize,
    pub t3: usize,
    pub t4: usize,
    pub t5: usize,
    pub t6: usize,
    pub t7: usize,
    /// Callee-saved registers.
    pub s0: usize,
    pub s1: usize,
    pub s2: usize,
    pub s3: usize,
    pub s4: usize,
    pub s5: usize,
    pub s6: usize,
    pub s7: usize,
    /// More caller-saved temporaries.
    pub t8: usize,
    pub t9: usize,
    /// Kernel scratch.
    pub k0: usize,
    pub k1: usize,
    /// Global pointer.
    pub gp: usize,
    /// Stack pointer.
    pub sp: usize,
    /// Frame pointer.
    pub fp: usize,
    /// Return address.
    pub ra: usize,
}

impl GeneralRegs {
    /// The register file with every slot zero.
    pub open spec fn zeroed() -> GeneralRegs {
        GeneralRegs {
            zero: 0,
            at: 0,
            v0: 0,
            v1: 0,
            a0: 0,
            a1: 0,
            a2: 0,
            a3: 0,
            t0: 0,
            t1: 0,
            t2: 0,
            t3: 0,
            t4: 0,
            t5: 0,
            t6: 0,
            t7: 0,
            s0: 0,
            s1: 0,
            s2: 0,
            s3: 0,
            s4: 0,
            s5: 0,
            s6: 0,
            s7: 0,
            t8: 0,
            t9: 0,
            k0: 0,
            k1: 0,
            gp: 0,
            sp: 0,
            fp: 0,
            ra: 0,
        }
    }

    /// The slots as one sequence of machine words, first stored first.
    pub open spec fn words(self) -> Seq<usize> {
        seq![
            self.zero,
            self.at,
            self.v0,
            self.v1,
            self.a0,
            self.a1,
            self.a2,
            self.a3,
            self.t0,
            self.t1,
            self.t2,
            self.t3,
            self.t4,
            self.t5,
            self.t6,
            self.t7,
            self.s0,
            self.s1,
            self.s2,
            self.s3,
            self.s4,
            self.s5,
            self.s6,
            self.s7,
            self.t8,
            self.t9,
            self.k0,
            self.k1,
            self.gp,
            self.sp,
            self.fp,
            self.ra,
        ]
    }

    /// The register file occupies exactly 32 machine words.
    pub proof fn lemma_words_len(self)
        ensures
            self.words().len() == 32,
    {
    }
}

impl Default for GeneralRegs {
    fn default() -> (regs: GeneralRegs)
        ensures
            regs == GeneralRegs::zeroed(),
    {
        GeneralRegs {
            zero: 0,
            at: 0,
            v0: 0,
            v1: 0,
            a0: 0,
            a1: 0,
            a2: 0,
            a3: 0,
            t0: 0,
            t1: 0,
            t2: 0,
            t3: 0,
            t4: 0,
            t5: 0,
            t6: 0,
            t7: 0,
            s0: 0,
            s1: 0,
            s2: 0,
            s3: 0,
            s4: 0,
            s5: 0,
            s6: 0,
            s7: 0,
            t8: 0,
            t9: 0,
            k0: 0,
            k1: 0,
            gp: 0,
            sp: 0,
            fp: 0,
            ra: 0,
        }
    }
}

} // verus!
