//! The saved state of a thread as the scheduler and the system-call
//! dispatcher see it.
//!
//! The record has the layout of a trap frame, word for word. Callers go
//! through the accessors below and never name a register themselves.

use vstd::prelude::*;
use crate::general_regs::GeneralRegs;

verus! {

/// Saved registers on a trap.
#[derive(Debug, Clone, Copy)]
pub struct UserContext {
    /// Non-zero if the kernel stack was not 16-byte aligned on entry.
    pub unaligned_kstack: usize,
    /// Three words that the calling convention reserves.
    pub unused: [usize; 3],
    /// Coprocessor-0 status.
    pub status: usize,
    /// Coprocessor-0 cause.
    pub cause: usize,
    /// Where execution resumes.
    pub epc: usize,
    /// The address that faulted, for memory faults.
    pub vaddr: usize,
    /// Multiply and divide results.
    pub hi: usize,
    pub lo: usize,
    /// General registers.
    pub general: GeneralRegs,
}

impl UserContext {
    /// The context with every word zero.
    pub open spec fn zeroed() -> UserContext {
        UserContext {
            unaligned_kstack: 0,
            unused: [0usize, 0usize, 0usize],
            status: 0,
            cause: 0,
            epc: 0,
            vaddr: 0,
            hi: 0,
            lo: 0,
            general: GeneralRegs::zeroed(),
        }
    }

    /// The context as the sequence of machine words in which it is saved.
    pub open spec fn words(self) -> Seq<usize> {
        seq![self.unaligned_kstack] + self.unused@ + seq![
            self.status,
            self.cause,
            self.epc,
            self.vaddr,
            self.hi,
            self.lo,
        ] + self.general.words()
    }

    /// The system-call number: the first return-value register, where the
    /// caller puts it before it traps.
    pub open spec fn syscall_num(self) -> usize {
        self.general.v0
    }

    /// The system call's result: the first return-value register again.
    pub open spec fn syscall_ret(self) -> usize {
        self.general.v0
    }

    /// The six argument slots of a system call: the four argument registers
    /// in order, then two slots that this architecture has no register for
    /// and that always read as zero.
    pub open spec fn syscall_args(self) -> Seq<usize> {
        seq![self.general.a0, self.general.a1, self.general.a2, self.general.a3, 0usize, 0usize]
    }

    /// The stack pointer.
    pub open spec fn stack_pointer(self) -> usize {
        self.general.sp
    }

    /// The context with `ret` as the system call's result and nothing else
    /// changed.
    pub open spec fn with_syscall_ret(self, ret: usize) -> UserContext {
        UserContext { general: GeneralRegs { v0: ret, ..self.general }, ..self }
    }

    /// The context with `ip` as the resume address and nothing else changed.
    pub open spec fn with_ip(self, ip: usize) -> UserContext {
        UserContext { epc: ip, ..self }
    }

    /// The context with `sp` as the stack pointer and nothing else changed.
    pub open spec fn with_sp(self, sp: usize) -> UserContext {
        UserContext { general: GeneralRegs { sp: sp, ..self.general }, ..self }
    }

    /// The context with `tls` as the thread-local base and nothing else
    /// changed. The base travels in `s0`, as the processor has no register
    /// of its own for it.
    pub open spec fn with_tls(self, tls: usize) -> UserContext {
        UserContext { general: GeneralRegs { s0: tls, ..self.general }, ..self }
    }

    /// Get number of syscall.
    pub fn get_syscall_num(&self) -> (num: usize)
        ensures
            num == self.syscall_num(),
    {
        self.general.v0
    }

    /// Get return value of syscall.
    pub fn get_syscall_ret(&self) -> (ret: usize)
        ensures
            ret == self.syscall_ret(),
    {
        self.general.v0
    }

    /// Set return value of syscall.
    pub fn set_syscall_ret(&mut self, ret: usize)
        ensures
            *final(self) == old(self).with_syscall_ret(ret),
    {
        self.general.v0 = ret;
    }

    /// Get syscall args.
    pub fn get_syscall_args(&self) -> (args: [usize; 6])
        ensures
            args@ == self.syscall_args(),
    {
        let args = [self.general.a0, self.general.a1, self.general.a2, self.general.a3, 0, 0];
        assert(args@ =~= self.syscall_args());
        args
    }

    /// Set instruction pointer.
    pub fn set_ip(&mut self, ip: usize)
        ensures
            *final(self) == old(self).with_ip(ip),
    {
        self.epc = ip;
    }

    /// Set stack pointer.
    pub fn set_sp(&mut self, sp: usize)
        ensures
            *final(self) == old(self).with_sp(sp),
    {
        self.general.sp = sp;
    }

    /// Get stack pointer.
    pub fn get_sp(&self) -> (sp: usize)
        ensures
            sp == self.stack_pointer(),
    {
        self.general.sp
    }

    /// Set tls pointer.
    pub fn set_tls(&mut self, tls: usize)
        ensures
            *final(self) == old(self).with_tls(tls),
    {
        self.general.s0 = tls;
    }

    /// The context occupies exactly 42 machine words, the last 32 of them
    /// the general registers.
    pub proof fn lemma_words_len(self)
        ensures
            self.words().len() == 42,
            self.words().subrange(10, 42) == self.general.words(),
    {
        assert(self.unused@.len() == 3);
        assert(self.words().subrange(10, 42) =~= self.general.words());
    }

    /// A system call's number and its result live in one register: a result
    /// that has been stored is what is read back, under either name, and
    /// whatever is read as the number is read as the result too.
    pub proof fn lemma_syscall_ret_round_trip(self, ret: usize)
        ensures
            self.with_syscall_ret(ret).syscall_ret() == ret,
            self.with_syscall_ret(ret).syscall_num() == ret,
            self.syscall_num() == self.syscall_ret(),
    {
    }

    /// The argument slots are six; the first four follow the argument
    /// registers, whatever they hold, and the last two are zero.
    pub proof fn lemma_syscall_args(self)
        ensures
            self.syscall_args().len() == 6,
            self.syscall_args()[0] == self.general.a0,
            self.syscall_args()[1] == self.general.a1,
            self.syscall_args()[2] == self.general.a2,
            self.syscall_args()[3] == self.general.a3,
            self.syscall_args()[4] == 0,
            self.syscall_args()[5] == 0,
    {
    }

    /// Storing a resume address or a stack pointer is read back as stored and
    /// touches no other word: either store leaves what the other one wrote,
    /// and the two can be made in any order.
    pub proof fn lemma_ip_sp_independent(self, ip: usize, sp: usize)
        ensures
            self.with_ip(ip).epc == ip,
            self.with_sp(sp).stack_pointer() == sp,
            self.with_ip(ip).general == self.general,
            self.with_ip(ip).stack_pointer() == self.stack_pointer(),
            self.with_sp(sp).epc == self.epc,
            self.with_ip(ip).with_sp(sp) == self.with_sp(sp).with_ip(ip),
            forall|i: int|
                0 <= i < 42 && i != 6 ==> self.with_ip(ip).words()[i] == #[trigger] self.words()[i],
            forall|i: int|
                0 <= i < 42 && i != 39 ==> self.with_sp(sp).words()[i]
                    == #[trigger] self.words()[i],
    {
        assert(self.unused@.len() == 3);
    }
}

impl Default for UserContext {
    fn default() -> (ctx: UserContext)
        ensures
            ctx == UserContext::zeroed(),
    {
        UserContext {
            unaligned_kstack: 0,
            unused: [0, 0, 0],
            status: 0,
            cause: 0,
            epc: 0,
            vaddr: 0,
            hi: 0,
            lo: 0,
            general: GeneralRegs::default(),
        }
    }
}

} // verus!
