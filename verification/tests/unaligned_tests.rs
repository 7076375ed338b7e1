use vscore::kernel::LaneWidth;
use vscore::kernel::Plan;
use vscore::unaligned::cosine_operands;
use vscore::unaligned::split_magnitude;
use vscore::unaligned::BufferError;

#[test]
fn split_takes_the_last_word_as_magnitude() {
    let buffer: [u32; 5] = [10, 11, 12, 13, 99];
    assert_eq!(split_magnitude(&buffer), Some((&buffer[..4], 99)));
    let single: [u32; 1] = [42];
    assert_eq!(split_magnitude(&single), Some((&single[..0], 42)));
}

#[test]
fn an_empty_buffer_has_no_magnitude() {
    assert_eq!(split_magnitude(&[]), None);
}

#[test]
fn operands_are_the_leading_words_and_the_trailing_magnitudes() {
    let one: [u32; 5] = [1, 2, 3, 4, 50];
    let another: [u32; 5] = [6, 7, 8, 9, 100];
    let operands = cosine_operands(&one, &another).unwrap();
    assert_eq!(operands.left, &one[..4]);
    assert_eq!(operands.right, &another[..4]);
    assert_eq!(operands.left_magnitude, 50);
    assert_eq!(operands.right_magnitude, 100);
    assert_eq!(operands.plan, Plan { width: LaneWidth::Four, chunks: 1 });
}

#[test]
fn irregular_lengths_fall_back_to_the_scalar_kernel() {
    let one = vec![0u32; 8];
    let another = vec![0u32; 8];
    let operands = cosine_operands(&one, &another).unwrap();
    assert_eq!(operands.left.len(), 7);
    assert_eq!(operands.plan, Plan { width: LaneWidth::Scalar, chunks: 7 });
    let full = vec![0u32; 513];
    let operands = cosine_operands(&full, &full).unwrap();
    assert_eq!(operands.plan, Plan { width: LaneWidth::Sixteen, chunks: 32 });
    let single: [u32; 1] = [3];
    let operands = cosine_operands(&single, &single).unwrap();
    assert_eq!(operands.left.len(), 0);
    assert_eq!(operands.left_magnitude, 3);
    assert_eq!(operands.plan, Plan { width: LaneWidth::Sixteen, chunks: 0 });
}

#[test]
fn buffers_of_different_lengths_are_refused() {
    let one: [u32; 5] = [1, 2, 3, 4, 5];
    let another: [u32; 4] = [1, 2, 3, 4];
    assert_eq!(
        cosine_operands(&one, &another).err(),
        Some(BufferError::LengthMismatch { left: 5, right: 4 })
    );
    assert_eq!(
        cosine_operands(&another, &one).err(),
        Some(BufferError::LengthMismatch { left: 4, right: 5 })
    );
    assert_eq!(
        cosine_operands(&[], &one).err(),
        Some(BufferError::LengthMismatch { left: 0, right: 5 })
    );
}

#[test]
fn empty_buffers_are_refused() {
    assert_eq!(cosine_operands(&[], &[]).err(), Some(BufferError::Empty));
}
