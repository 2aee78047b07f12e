//! The status and cause words of coprocessor 0.
//!
//! Both are kept as raw 32-bit words. Only the three status flags that thread
//! start-up needs have names here; every other bit is carried along untouched.

use vstd::prelude::*;

verus! {

/// Position of the interrupt-enable flag in the status word.
pub const STATUS_IE: u32 = 0;

/// Position of the exception-level flag in the status word.
pub const STATUS_EXL: u32 = 1;

/// Position of the user-mode flag in the status word.
pub const STATUS_UM: u32 = 4;

/// Whether bit `n` of `word` is one.
pub open spec fn bit_is_set(word: u32, n: u32) -> bool {
    (word >> n) & 1 != 0
}

/// `word` with bit `n` forced to one.
pub open spec fn with_bit_set(word: u32, n: u32) -> u32 {
    word | (1u32 << n)
}

/// `word` with bit `n` forced to zero.
pub open spec fn with_bit_clear(word: u32, n: u32) -> u32 {
    word & !(1u32 << n)
}

/// Setting a bit makes it read as one and leaves every other bit as it was.
pub proof fn lemma_with_bit_set(word: u32, n: u32, m: u32)
    requires
        n < 32,
        m < 32,
    ensures
        bit_is_set(with_bit_set(word, n), n),
        m != n ==> bit_is_set(with_bit_set(word, n), m) == bit_is_set(word, m),
{
    assert(((word | (1u32 << n)) >> n) & 1 != 0) by (bit_vector)
        requires
            n < 32,
    ;
    assert(m != n ==> (((word | (1u32 << n)) >> m) & 1) == ((word >> m) & 1)) by (bit_vector)
        requires
            n < 32,
            m < 32,
    ;
}

/// Clearing a bit makes it read as zero and leaves every other bit as it was.
pub proof fn lemma_with_bit_clear(word: u32, n: u32, m: u32)
    requires
        n < 32,
        m < 32,
    ensures
        !bit_is_set(with_bit_clear(word, n), n),
        m != n ==> bit_is_set(with_bit_clear(word, n), m) == bit_is_set(word, m),
{
    assert(((word & !(1u32 << n)) >> n) & 1 == 0) by (bit_vector)
        requires
            n < 32,
    ;
    assert(m != n ==> (((word & !(1u32 << n)) >> m) & 1) == ((word >> m) & 1)) by (bit_vector)
        requires
            n < 32,
            m < 32,
    ;
}

/// The status word: privilege mode, interrupt enable, exception level and the
/// rest of the processor's control bits.
#[derive(Clone, Copy, Debug)]
pub struct Status {
    pub bits: u32,
}

impl Status {
    /// Interrupts are enabled.
    pub open spec fn spec_has_ie(&self) -> bool {
        bit_is_set(self.bits, STATUS_IE)
    }

    /// The processor counts as being inside an exception, so that an
    /// exception return resumes at the saved program counter.
    pub open spec fn spec_has_exl(&self) -> bool {
        bit_is_set(self.bits, STATUS_EXL)
    }

    /// The word selects user privilege; kernel privilege otherwise.
    pub open spec fn spec_is_user_mode(&self) -> bool {
        bit_is_set(self.bits, STATUS_UM)
    }

    #[verifier::when_used_as_spec(spec_has_ie)]
    pub fn has_ie(&self) -> (b: bool)
        ensures
            b == self.spec_has_ie(),
    {
        ((self.bits >> STATUS_IE) & 1) != 0
    }

    #[verifier::when_used_as_spec(spec_has_exl)]
    pub fn has_exl(&self) -> (b: bool)
        ensures
            b == self.spec_has_exl(),
    {
        ((self.bits >> STATUS_EXL) & 1) != 0
    }

    #[verifier::when_used_as_spec(spec_is_user_mode)]
    pub fn is_user_mode(&self) -> (b: bool)
        ensures
            b == self.spec_is_user_mode(),
    {
        ((self.bits >> STATUS_UM) & 1) != 0
    }

    /// Enables interrupts.
    pub fn set_ie(&mut self)
        ensures
            final(self).bits == with_bit_set(old(self).bits, STATUS_IE),
    {
        self.bits = self.bits | (1u32 << STATUS_IE);
    }

    /// Raises the exception-level flag.
    pub fn set_exl(&mut self)
        ensures
            final(self).bits == with_bit_set(old(self).bits, STATUS_EXL),
    {
        self.bits = self.bits | (1u32 << STATUS_EXL);
    }

    /// Selects user privilege.
    pub fn set_user_mode(&mut self)
        ensures
            final(self).bits == with_bit_set(old(self).bits, STATUS_UM),
    {
        self.bits = self.bits | (1u32 << STATUS_UM);
    }

    /// Selects kernel privilege.
    pub fn set_kernel_mode(&mut self)
        ensures
            final(self).bits == with_bit_clear(old(self).bits, STATUS_UM),
    {
        self.bits = self.bits & !(1u32 << STATUS_UM);
    }
}

/// The cause word: why the processor last trapped. Carried as an opaque word.
#[derive(Clone, Copy, Debug)]
pub struct Cause {
    pub bits: u32,
}

} // verus!
