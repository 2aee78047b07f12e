use mipsel_trap::cp0::{Cause, Status};
use mipsel_trap::{GeneralRegs, TrapFrame};
use std::fmt;

fn general_words(g: &GeneralRegs) -> [usize; 32] {
    [
        g.zero, g.at, g.v0, g.v1, g.a0, g.a1, g.a2, g.a3, g.t0, g.t1, g.t2, g.t3, g.t4, g.t5,
        g.t6, g.t7, g.s0, g.s1, g.s2, g.s3, g.s4, g.s5, g.s6, g.s7, g.t8, g.t9, g.k0, g.k1, g.gp,
        g.sp, g.fp, g.ra,
    ]
}

fn counting_frame() -> TrapFrame {
    let mut g = GeneralRegs::default();
    g.zero = 99;
    g.at = 1;
    g.v0 = 2;
    g.v1 = 3;
    g.a0 = 4;
    g.a1 = 5;
    g.a2 = 6;
    g.a3 = 7;
    g.t0 = 8;
    g.t1 = 9;
    g.t2 = 10;
    g.t3 = 11;
    g.t4 = 12;
    g.t5 = 13;
    g.t6 = 14;
    g.t7 = 15;
    g.s0 = 16;
    g.s1 = 17;
    g.s2 = 18;
    g.s3 = 19;
    g.s4 = 20;
    g.s5 = 21;
    g.s6 = 22;
    g.s7 = 23;
    g.t8 = 24;
    g.t9 = 25;
    g.k0 = 26;
    g.k1 = 27;
    g.gp = 28;
    g.sp = 29;
    g.fp = 30;
    g.ra = 31;
    TrapFrame {
        unaligned_kstack: 1,
        unused: [70, 71, 72],
        status: Status { bits: 0x13 },
        cause: Cause { bits: 32 },
        epc: 0x8000_1000,
        vaddr: 0x7fff_0000,
        hi: 500,
        lo: 600,
        general: g,
    }
}

/// The same dump, written by the standard formatter.
struct StdDump<'a>(&'a TrapFrame);

impl<'a> fmt::Debug for StdDump<'a> {
    fn fmt(&self, f: &mut fmt::Formatter) -> fmt::Result {
        let t = self.0;
        f.debug_struct("TrapFrame")
            .field("status", &t.status.bits)
            .field("epc", &t.epc)
            .field("cause", &t.cause.bits)
            .field("vaddr", &t.vaddr)
            .field("zero", &t.general.zero)
            .field("at", &t.general.at)
            .field("v0", &t.general.v0)
            .field("v1", &t.general.v1)
            .field("a0", &t.general.a0)
            .field("a1", &t.general.a1)
            .field("a2", &t.general.a2)
            .field("a3", &t.general.a3)
            .field("t0", &t.general.t0)
            .field("t1", &t.general.t1)
            .field("t2", &t.general.t2)
            .field("t3", &t.general.t3)
            .field("t4", &t.general.t4)
            .field("t5", &t.general.t5)
            .field("t6", &t.general.t6)
            .field("t7", &t.general.t7)
            .field("s0", &t.general.s0)
            .field("s1", &t.general.s1)
            .field("s2", &t.general.s2)
            .field("s3", &t.general.s3)
            .field("s4", &t.general.s4)
            .field("s5", &t.general.s5)
            .field("s6", &t.general.s6)
            .field("s7", &t.general.s7)
            .field("t8", &t.general.t8)
            .field("t9", &t.general.t9)
            .field("k0", &t.general.k0)
            .field("k1", &t.general.k1)
            .field("gp", &t.general.gp)
            .field("sp", &t.general.sp)
            .field("fp", &t.general.fp)
            .field("ra", &t.general.ra)
            .finish()
    }
}

#[test]
fn kernel_thread_sets_entry_argument_and_stack() {
    let f = TrapFrame::new_kernel_thread(0x8000_0400, 42, 0x8010_0000, Status { bits: 0 });
    assert_eq!(f.epc, 0x8000_0400);
    assert_eq!(f.general.a0, 42);
    assert_eq!(f.general.sp, 0x8010_0000);
}

#[test]
fn kernel_thread_status_is_kernel_with_interrupts_and_exl() {
    for bits in [0u32, 0x10, 0x13, 0xffff_ffff, 0x1040_ff00, 0x0000_0001, 0x0000_0002] {
        let f = TrapFrame::new_kernel_thread(1, 2, 3, Status { bits });
        assert!(!f.status.is_user_mode());
        assert!(f.status.has_ie());
        assert!(f.status.has_exl());
    }
}

#[test]
fn kernel_thread_status_word_is_exact() {
    let f = TrapFrame::new_kernel_thread(1, 2, 3, Status { bits: 0 });
    assert_eq!(f.status.bits, 0x0000_0003);
    let f = TrapFrame::new_kernel_thread(1, 2, 3, Status { bits: 0x10 });
    assert_eq!(f.status.bits, 0x0000_0003);
    let f = TrapFrame::new_kernel_thread(1, 2, 3, Status { bits: 0xffff_ffff });
    assert_eq!(f.status.bits, 0xffff_ffef);
    let f = TrapFrame::new_kernel_thread(1, 2, 3, Status { bits: 0x1040_ff10 });
    assert_eq!(f.status.bits, 0x1040_ff03);
}

#[test]
fn kernel_thread_leaves_every_other_word_zero() {
    let f = TrapFrame::new_kernel_thread(0x100, 0x200, 0x300, Status { bits: 0xffff_ffff });
    assert_eq!(f.unaligned_kstack, 0);
    assert_eq!(f.unused, [0, 0, 0]);
    assert_eq!(f.cause.bits, 0);
    assert_eq!(f.vaddr, 0);
    assert_eq!(f.hi, 0);
    assert_eq!(f.lo, 0);
    let mut expected = [0usize; 32];
    expected[4] = 0x200;
    expected[29] = 0x300;
    assert_eq!(general_words(&f.general), expected);
}

#[test]
fn kernel_thread_takes_extreme_values() {
    let f = TrapFrame::new_kernel_thread(usize::MAX, usize::MAX, 0, Status { bits: 0 });
    assert_eq!(f.epc, usize::MAX);
    assert_eq!(f.general.a0, usize::MAX);
    assert_eq!(f.general.sp, 0);
}

#[test]
fn user_thread_sets_entry_and_stack_and_no_argument() {
    let f = TrapFrame::new_user_thread(0x0040_0000, 0x7fff_f000, Status { bits: 0 });
    assert_eq!(f.epc, 0x0040_0000);
    assert_eq!(f.general.sp, 0x7fff_f000);
    assert_eq!(f.general.a0, 0);
}

#[test]
fn user_thread_status_is_user_with_interrupts_and_exl() {
    for bits in [0u32, 0x10, 0x13, 0xffff_ffff, 0x1040_ff00, 0x0000_0001, 0x0000_0002] {
        let f = TrapFrame::new_user_thread(1, 2, Status { bits });
        assert!(f.status.is_user_mode());
        assert!(f.status.has_ie());
        assert!(f.status.has_exl());
    }
}

#[test]
fn user_thread_status_word_is_exact() {
    let f = TrapFrame::new_user_thread(1, 2, Status { bits: 0 });
    assert_eq!(f.status.bits, 0x0000_0013);
    let f = TrapFrame::new_user_thread(1, 2, Status { bits: 0xffff_ffff });
    assert_eq!(f.status.bits, 0xffff_ffff);
    let f = TrapFrame::new_user_thread(1, 2, Status { bits: 0x1040_ff00 });
    assert_eq!(f.status.bits, 0x1040_ff13);
}

#[test]
fn user_thread_leaves_every_other_word_zero() {
    let f = TrapFrame::new_user_thread(0x100, 0x300, Status { bits: 0xffff_ffff });
    assert_eq!(f.unaligned_kstack, 0);
    assert_eq!(f.unused, [0, 0, 0]);
    assert_eq!(f.cause.bits, 0);
    assert_eq!(f.vaddr, 0);
    assert_eq!(f.hi, 0);
    assert_eq!(f.lo, 0);
    let mut expected = [0usize; 32];
    expected[29] = 0x300;
    assert_eq!(general_words(&f.general), expected);
}

#[test]
fn new_threads_inherit_the_untouched_status_bits() {
    let mut bit = 0;
    while bit < 32 {
        if bit != 0 && bit != 1 && bit != 4 {
            let only = 1u32 << bit;
            let k = TrapFrame::new_kernel_thread(0, 0, 0, Status { bits: only });
            assert_eq!(k.status.bits, only | 0x03);
            let u = TrapFrame::new_user_thread(0, 0, Status { bits: only });
            assert_eq!(u.status.bits, only | 0x13);
            let k = TrapFrame::new_kernel_thread(0, 0, 0, Status { bits: !only });
            assert_eq!(k.status.bits, !only & !0x10);
            let u = TrapFrame::new_user_thread(0, 0, Status { bits: !only });
            assert_eq!(u.status.bits, !only);
        }
        bit += 1;
    }
}

#[test]
fn dump_of_a_fresh_kernel_thread() {
    let f = TrapFrame::new_kernel_thread(4096, 7, 8192, Status { bits: 0 });
    assert_eq!(
        f.fmt(),
        "TrapFrame { status: 3, epc: 4096, cause: 0, vaddr: 0, zero: 0, at: 0, v0: 0, v1: 0, \
         a0: 7, a1: 0, a2: 0, a3: 0, t0: 0, t1: 0, t2: 0, t3: 0, t4: 0, t5: 0, t6: 0, t7: 0, \
         s0: 0, s1: 0, s2: 0, s3: 0, s4: 0, s5: 0, s6: 0, s7: 0, t8: 0, t9: 0, k0: 0, k1: 0, \
         gp: 0, sp: 8192, fp: 0, ra: 0 }"
    );
}

#[test]
fn dump_names_every_shown_register_in_order() {
    let f = counting_frame();
    assert_eq!(
        f.fmt(),
        "TrapFrame { status: 19, epc: 2147487744, cause: 32, vaddr: 2147418112, zero: 99, \
         at: 1, v0: 2, v1: 3, a0: 4, a1: 5, a2: 6, a3: 7, t0: 8, t1: 9, t2: 10, t3: 11, t4: 12, t5: 13, \
         t6: 14, t7: 15, s0: 16, s1: 17, s2: 18, s3: 19, s4: 20, s5: 21, s6: 22, s7: 23, \
         t8: 24, t9: 25, k0: 26, k1: 27, gp: 28, sp: 29, fp: 30, ra: 31 }"
    );
}

#[test]
fn dump_matches_the_standard_formatter() {
    let f = counting_frame();
    assert_eq!(f.fmt(), format!("{:?}", StdDump(&f)));
    let g = TrapFrame::new_user_thread(usize::MAX, usize::MAX - 1, Status { bits: 0xffff_ffff });
    assert_eq!(g.fmt(), format!("{:?}", StdDump(&g)));
}

#[test]
fn dump_twice_gives_the_same_text_and_leaves_the_frame() {
    let f = counting_frame();
    let first = f.fmt();
    let second = f.fmt();
    assert_eq!(first, second);
    let again = counting_frame();
    assert_eq!(f.unaligned_kstack, again.unaligned_kstack);
    assert_eq!(f.unused, again.unused);
    assert_eq!(f.status.bits, again.status.bits);
    assert_eq!(f.cause.bits, again.cause.bits);
    assert_eq!(f.epc, again.epc);
    assert_eq!(f.vaddr, again.vaddr);
    assert_eq!(f.hi, again.hi);
    assert_eq!(f.lo, again.lo);
    assert_eq!(general_words(&f.general), general_words(&again.general));
}

#[test]
fn dump_does_not_show_the_hidden_words() {
    let mut f = counting_frame();
    let shown = f.fmt();
    f.unaligned_kstack = 0;
    f.unused = [0, 0, 0];
    f.hi = 0;
    f.lo = 0;
    assert_eq!(f.fmt(), shown);
}

#[test]
fn dump_shows_the_slot_of_the_zero_register() {
    let mut f = TrapFrame::new_user_thread(0, 0, Status { bits: 0 });
    assert!(f.fmt().contains(", zero: 0, at: 0, "));
    f.general.zero = 5;
    assert!(f.fmt().contains(", zero: 5, at: 0, "));
}

#[test]
fn debug_fields_lists_names_and_values() {
    let f = counting_frame();
    let fields = f.debug_fields();
    let names: Vec<&str> = fields.iter().map(|w| w.name).collect();
    assert_eq!(
        names,
        vec![
            "status", "epc", "cause", "vaddr", "zero", "at", "v0", "v1", "a0", "a1", "a2", "a3", "t0",
            "t1", "t2", "t3", "t4", "t5", "t6", "t7", "s0", "s1", "s2", "s3", "s4", "s5", "s6",
            "s7", "t8", "t9", "k0", "k1", "gp", "sp", "fp", "ra",
        ]
    );
    let values: Vec<usize> = fields.iter().map(|w| w.value).collect();
    let mut expected = vec![0x13, 0x8000_1000, 32, 0x7fff_0000, 99];
    let mut r = 1;
    while r < 32 {
        expected.push(r);
        r += 1;
    }
    assert_eq!(values, expected);
}

#[test]
fn clone_keeps_every_word() {
    let f = counting_frame();
    let c = f.clone();
    assert_eq!(c.fmt(), f.fmt());
    assert_eq!(c.unaligned_kstack, 1);
    assert_eq!(c.unused, [70, 71, 72]);
    assert_eq!(c.hi, 500);
    assert_eq!(c.lo, 600);
    assert_eq!(c.general.zero, 99);
}
