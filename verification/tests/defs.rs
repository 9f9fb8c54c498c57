use erlangrt::defs::sizes::{ByteSize, WordSize};
use erlangrt::defs::{pointer_diff, Reductions, HIGHEST_BIT_CP, WORD_BITS, WORD_BYTES};

#[test]
fn pointer_diff_counts_whole_elements() {
    assert_eq!(pointer_diff(64, 32, 8), 4);
    assert_eq!(pointer_diff(32, 32, 8), 0);
    assert_eq!(pointer_diff(39, 32, 8), 0);
    assert_eq!(pointer_diff(100, 0, 3), 33);
}

#[test]
fn word_constants() {
    assert_eq!(WORD_BYTES * 8, WORD_BITS);
    assert_eq!(HIGHEST_BIT_CP, 1u64 << 63);
    assert_eq!(Reductions::DEFAULT, 200);
    assert_eq!(Reductions::FETCH_OPCODE_COST, 1);
}

#[test]
fn bytes_round_up_to_words() {
    assert_eq!(ByteSize::new(0).get_words_rounded_up(), WordSize::new(0));
    assert_eq!(ByteSize::new(1).get_words_rounded_up().words(), 1);
    assert_eq!(ByteSize::new(8).get_words_rounded_up().words(), 1);
    assert_eq!(ByteSize::new(9).get_words_rounded_up().words(), 2);
    assert_eq!(ByteSize::new(usize::MAX).get_words_rounded_up().words(), usize::MAX / 8 + 1);
    assert_eq!(WordSize::one().words(), 1);
    assert_eq!(ByteSize::new(5).bytes(), 5);
}
