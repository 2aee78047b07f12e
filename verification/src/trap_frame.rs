//! The frame that the trap entry code saves, and how a frame is made up for a
//! thread that has never run.

use vstd::prelude::*;
use crate::cp0::{
    bit_is_set, lemma_with_bit_clear, lemma_with_bit_set, with_bit_clear, with_bit_set, Cause,
    Status, STATUS_EXL, STATUS_IE, STATUS_UM,
};
use crate::general_regs::GeneralRegs;
use crate::text::{render_record, record_text, views, NamedWord};

verus! {

/// Saved registers on a trap.
#[derive(Clone)]
pub struct TrapFrame {
    /// Non-zero if the kernel stack was not 16-byte aligned on entry.
    pub unaligned_kstack: usize,
    /// Three words that the calling convention reserves.
    pub unused: [usize; 3],
    /// Coprocessor-0 status.
    pub status: Status,
    /// Coprocessor-0 cause.
    pub cause: Cause,
    /// Where execution resumes.
    pub epc: usize,
    /// The address that faulted, for memory faults.
    pub vaddr: usize,
    /// Multiply and divide results.
    pub hi: usize,
    pub lo: usize,
    /// General registers.
    pub general: GeneralRegs,
}

/// The status word a new thread starts with: the given word with the
/// privilege mode chosen, interrupts enabled and the exception level raised.
pub open spec fn new_thread_status(current: Status, user: bool) -> Status {
    let mode = if user {
        with_bit_set(current.bits, STATUS_UM)
    } else {
        with_bit_clear(current.bits, STATUS_UM)
    };
    Status { bits: with_bit_set(with_bit_set(mode, STATUS_IE), STATUS_EXL) }
}

/// A new thread's status word has the three flags as asked and every other
/// bit as in the word it was made from.
pub proof fn lemma_new_thread_status(current: Status, user: bool)
    ensures
        new_thread_status(current, user).spec_is_user_mode() == user,
        new_thread_status(current, user).spec_has_ie(),
        new_thread_status(current, user).spec_has_exl(),
        forall|n: u32|
            n < 32 && n != STATUS_IE && n != STATUS_EXL && n != STATUS_UM ==> bit_is_set(
                new_thread_status(current, user).bits,
                n,
            ) == #[trigger] bit_is_set(current.bits, n),
{
    let mode = if user {
        with_bit_set(current.bits, STATUS_UM)
    } else {
        with_bit_clear(current.bits, STATUS_UM)
    };
    let ie = with_bit_set(mode, STATUS_IE);
    assert forall|n: u32|
        n < 32 && n != STATUS_IE && n != STATUS_EXL && n != STATUS_UM implies bit_is_set(
        new_thread_status(current, user).bits,
        n,
    ) == #[trigger] bit_is_set(current.bits, n) by {
        lemma_with_bit_set(current.bits, STATUS_UM, n);
        lemma_with_bit_clear(current.bits, STATUS_UM, n);
        lemma_with_bit_set(mode, STATUS_IE, n);
        lemma_with_bit_set(ie, STATUS_EXL, n);
    }
    lemma_with_bit_set(current.bits, STATUS_UM, STATUS_UM);
    lemma_with_bit_clear(current.bits, STATUS_UM, STATUS_UM);
    lemma_with_bit_set(mode, STATUS_IE, STATUS_IE);
    lemma_with_bit_set(ie, STATUS_EXL, STATUS_EXL);
    lemma_with_bit_set(mode, STATUS_IE, STATUS_UM);
    lemma_with_bit_set(ie, STATUS_EXL, STATUS_UM);
    lemma_with_bit_set(ie, STATUS_EXL, STATUS_IE);
}

impl TrapFrame {
    /// The frame of a thread that has never run: every word zero but the
    /// resume address, the stack pointer, the first argument register and the
    /// status word.
    pub open spec fn fresh(entry: usize, arg: usize, sp: usize, status: Status) -> TrapFrame {
        TrapFrame {
            unaligned_kstack: 0,
            unused: [0usize, 0usize, 0usize],
            status: status,
            cause: Cause { bits: 0 },
            epc: entry,
            vaddr: 0,
            hi: 0,
            lo: 0,
            general: GeneralRegs { a0: arg, sp: sp, ..GeneralRegs::zeroed() },
        }
    }

    /// Constructs the frame for a new kernel thread.
    ///
    /// The thread starts at `entry` with `arg` in the first argument register
    /// and `sp` as its stack pointer. Its status word is `current`, the word
    /// the caller has just read from the processor, with kernel privilege
    /// chosen, interrupts enabled and the exception level raised, so that the
    /// exception return which starts the thread resumes at `entry`. Every
    /// other status bit is inherited from `current`.
    pub fn new_kernel_thread(entry: usize, arg: usize, sp: usize, current: Status) -> (frame:
        TrapFrame)
        ensures
            frame == TrapFrame::fresh(entry, arg, sp, new_thread_status(current, false)),
            frame.epc == entry,
            frame.general.a0 == arg,
            frame.general.sp == sp,
            !frame.status.spec_is_user_mode(),
            frame.status.spec_has_ie(),
            frame.status.spec_has_exl(),
            forall|n: u32|
                n < 32 && n != STATUS_IE && n != STATUS_EXL && n != STATUS_UM ==> bit_is_set(
                    frame.status.bits,
                    n,
                ) == #[trigger] bit_is_set(current.bits, n),
    {
        let mut status = current;
        status.set_kernel_mode();
        status.set_ie();
        status.set_exl();
        let mut general = GeneralRegs::default();
        general.a0 = arg;
        general.sp = sp;
        proof {
            lemma_new_thread_status(current, false);
        }
        TrapFrame {
            unaligned_kstack: 0,
            unused: [0, 0, 0],
            status,
            cause: Cause { bits: 0 },
            epc: entry,
            vaddr: 0,
            hi: 0,
            lo: 0,
            general,
        }
    }

    /// Constructs the frame for a new user thread.
    ///
    /// The thread starts at `entry_addr` with `sp` as its stack pointer and
    /// no argument. Its status word is `current`, the word the caller has
    /// just read from the processor, with user privilege chosen, interrupts
    /// enabled and the exception level raised. Every other status bit is
    /// inherited from `current`.
    pub fn new_user_thread(entry_addr: usize, sp: usize, current: Status) -> (frame: TrapFrame)
        ensures
            frame == TrapFrame::fresh(entry_addr, 0, sp, new_thread_status(current, true)),
            frame.epc == entry_addr,
            frame.general.a0 == 0,
            frame.general.sp == sp,
            frame.status.spec_is_user_mode(),
            frame.status.spec_has_ie(),
            frame.status.spec_has_exl(),
            forall|n: u32|
                n < 32 && n != STATUS_IE && n != STATUS_EXL && n != STATUS_UM ==> bit_is_set(
                    frame.status.bits,
                    n,
                ) == #[trigger] bit_is_set(current.bits, n),
    {
        let mut status = current;
        status.set_user_mode();
        status.set_ie();
        status.set_exl();
        let mut general = GeneralRegs::default();
        general.sp = sp;
        proof {
            lemma_new_thread_status(current, true);
        }
        TrapFrame {
            unaligned_kstack: 0,
            unused: [0, 0, 0],
            status,
            cause: Cause { bits: 0 },
            epc: entry_addr,
            vaddr: 0,
            hi: 0,
            lo: 0,
            general,
        }
    }

    /// The frame as the sequence of machine words in which it is saved: the
    /// alignment flag, the three reserved words, status, cause, the resume
    /// address, the faulting address, the two multiply and divide results,
    /// then the general registers.
    pub open spec fn words(self) -> Seq<usize> {
        seq![self.unaligned_kstack] + self.unused@ + seq![
            self.status.bits as usize,
            self.cause.bits as usize,
            self.epc,
            self.vaddr,
            self.hi,
            self.lo,
        ] + self.general.words()
    }

    /// The frame occupies exactly 42 machine words, the last 32 of them the
    /// general registers.
    pub proof fn lemma_words_len(self)
        ensures
            self.words().len() == 42,
            self.words().subrange(10, 42) == self.general.words(),
    {
        assert(self.unused@.len() == 3);
        assert(self.words().subrange(10, 42) =~= self.general.words());
    }

    /// What a dump of the frame shows, in order: the status bits, the resume
    /// address, the cause bits, the faulting address, then every general
    /// register under its usual name, the slot of the wired zero register
    /// included. The alignment flag, the reserved words and the multiply and
    /// divide results are not shown.
    pub open spec fn debug_entries(self) -> Seq<(Seq<char>, nat)> {
        seq![
            ("status"@, self.status.bits as nat),
            ("epc"@, self.epc as nat),
            ("cause"@, self.cause.bits as nat),
            ("vaddr"@, self.vaddr as nat),
            ("zero"@, self.general.zero as nat),
            ("at"@, self.general.at as nat),
            ("v0"@, self.general.v0 as nat),
            ("v1"@, self.general.v1 as nat),
            ("a0"@, self.general.a0 as nat),
            ("a1"@, self.general.a1 as nat),
            ("a2"@, self.general.a2 as nat),
            ("a3"@, self.general.a3 as nat),
            ("t0"@, self.general.t0 as nat),
            ("t1"@, self.general.t1 as nat),
            ("t2"@, self.general.t2 as nat),
            ("t3"@, self.general.t3 as nat),
            ("t4"@, self.general.t4 as nat),
            ("t5"@, self.general.t5 as nat),
            ("t6"@, self.general.t6 as nat),
            ("t7"@, self.general.t7 as nat),
            ("s0"@, self.general.s0 as nat),
            ("s1"@, self.general.s1 as nat),
            ("s2"@, self.general.s2 as nat),
            ("s3"@, self.general.s3 as nat),
            ("s4"@, self.general.s4 as nat),
            ("s5"@, self.general.s5 as nat),
            ("s6"@, self.general.s6 as nat),
            ("s7"@, self.general.s7 as nat),
            ("t8"@, self.general.t8 as nat),
            ("t9"@, self.general.t9 as nat),
            ("k0"@, self.general.k0 as nat),
            ("k1"@, self.general.k1 as nat),
            ("gp"@, self.general.gp as nat),
            ("sp"@, self.general.sp as nat),
            ("fp"@, self.general.fp as nat),
            ("ra"@, self.general.ra as nat),
        ]
    }

    /// The text of a dump of the frame: `TrapFrame { status: .., epc: .., .. }`
    /// with every number in decimal.
    pub open spec fn rendering(self) -> Seq<char> {
        record_text("TrapFrame"@, self.debug_entries())
    }

    /// The text of a dump is a function of the frame and of nothing else:
    /// frames that hold the same words are rendered to the same text, so a
    /// second dump of an unchanged frame repeats the first.
    pub proof fn lemma_rendering_repeats(self, again: TrapFrame)
        requires
            again == self,
        ensures
            again.debug_entries() == self.debug_entries(),
            again.rendering() == self.rendering(),
    {
    }

    /// Lists what a dump of the frame shows, as names and values.
    pub fn debug_fields(&self) -> (fields: Vec<NamedWord>)
        ensures
            views(fields@) == self.debug_entries(),
    {
        let mut fields: Vec<NamedWord> = Vec::new();
        fields.push(NamedWord { name: "status", value: self.status.bits as usize });
        fields.push(NamedWord { name: "epc", value: self.epc });
        fields.push(NamedWord { name: "cause", value: self.cause.bits as usize });
        fields.push(NamedWord { name: "vaddr", value: self.vaddr });
        fields.push(NamedWord { name: "zero", value: self.general.zero });
        fields.push(NamedWord { name: "at", value: self.general.at });
        fields.push(NamedWord { name: "v0", value: self.general.v0 });
        fields.push(NamedWord { name: "v1", value: self.general.v1 });
        fields.push(NamedWord { name: "a0", value: self.general.a0 });
        fields.push(NamedWord { name: "a1", value: self.general.a1 });
        fields.push(NamedWord { name: "a2", value: self.general.a2 });
        fields.push(NamedWord { name: "a3", value: self.general.a3 });
        fields.push(NamedWord { name: "t0", value: self.general.t0 });
        fields.push(NamedWord { name: "t1", value: self.general.t1 });
        fields.push(NamedWord { name: "t2", value: self.general.t2 });
        fields.push(NamedWord { name: "t3", value: self.general.t3 });
        fields.push(NamedWord { name: "t4", value: self.general.t4 });
        fields.push(NamedWord { name: "t5", value: self.general.t5 });
        fields.push(NamedWord { name: "t6", value: self.general.t6 });
        fields.push(NamedWord { name: "t7", value: self.general.t7 });
        fields.push(NamedWord { name: "s0", value: self.general.s0 });
        fields.push(NamedWord { name: "s1", value: self.general.s1 });
        fields.push(NamedWord { name: "s2", value: self.general.s2 });
        fields.push(NamedWord { name: "s3", value: self.general.s3 });
        fields.push(NamedWord { name: "s4", value: self.general.s4 });
        fields.push(NamedWord { name: "s5", value: self.general.s5 });
        fields.push(NamedWord { name: "s6", value: self.general.s6 });
        fields.push(NamedWord { name: "s7", value: self.general.s7 });
        fields.push(NamedWord { name: "t8", value: self.general.t8 });
        fields.push(NamedWord { name: "t9", value: self.general.t9 });
        fields.push(NamedWord { name: "k0", value: self.general.k0 });
        fields.push(NamedWord { name: "k1", value: self.general.k1 });
        fields.push(NamedWord { name: "gp", value: self.general.gp });
        fields.push(NamedWord { name: "sp", value: self.general.sp });
        fields.push(NamedWord { name: "fp", value: self.general.fp });
        fields.push(NamedWord { name: "ra", value: self.general.ra });
        assert(views(fields@) =~= self.debug_entries());
        fields
    }

    /// Renders the frame for a fault report.
    ///
    /// The text depends on the frame alone, and the frame is left as it was:
    /// rendering the same frame again gives the same text.
    pub fn fmt(&self) -> (text: String)
        ensures
            text@ == self.rendering(),
    {
        let fields = self.debug_fields();
        render_record("TrapFrame", &fields)
    }
}

} // verus!
