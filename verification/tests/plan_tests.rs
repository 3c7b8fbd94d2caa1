use mie_upload::plan::{batch_ranges, PartPlan};

#[test]
fn plan_500_mib_has_25_whole_parts() {
    let plan = PartPlan::new(500 * 1024 * 1024, 20 * 1024 * 1024);
    assert_eq!(plan.parts.len(), 25);
    for (i, part) in plan.parts.iter().enumerate() {
        assert_eq!(part.part_number as usize, i + 1);
        assert_eq!(part.offset, i as u64 * 20 * 1024 * 1024);
        assert_eq!(part.length, 20 * 1024 * 1024);
    }
}

#[test]
fn plan_part_numbers_contiguous_with_remainder() {
    let plan = PartPlan::new(50, 20);
    assert_eq!(plan.parts.len(), 3);
    assert_eq!(plan.parts[0].part_number, 1);
    assert_eq!(plan.parts[1].part_number, 2);
    assert_eq!(plan.parts[2].part_number, 3);
    assert_eq!(plan.parts[0].length, 20);
    assert_eq!(plan.parts[1].length, 20);
}

#[test]
fn last_part_is_remainder_when_nonzero() {
    let plan = PartPlan::new(50, 20);
    assert_eq!(plan.parts[2].length, 50 % 20);
}

#[test]
fn last_part_is_whole_when_size_divides() {
    let plan = PartPlan::new(40, 20);
    assert_eq!(plan.parts.len(), 2);
    assert_eq!(plan.parts[1].length, 20);
}

#[test]
fn tiny_file_is_one_short_part() {
    let plan = PartPlan::new(5, 20);
    assert_eq!(plan.parts.len(), 1);
    assert_eq!(plan.parts[0].part_number, 1);
    assert_eq!(plan.parts[0].offset, 0);
    assert_eq!(plan.parts[0].length, 5);
}

#[test]
fn parts_tile_the_file() {
    let plan = PartPlan::new(123456789, 20 * 1024 * 1024);
    let mut expected_offset = 0u64;
    for part in plan.parts.iter() {
        assert_eq!(part.offset, expected_offset);
        expected_offset += part.length;
    }
    assert_eq!(expected_offset, 123456789);
}

#[test]
fn twenty_five_parts_make_three_batches() {
    let batches = batch_ranges(25, 10);
    assert_eq!(batches, vec![(0, 10), (10, 20), (20, 25)]);
}

#[test]
fn batches_of_exact_multiple() {
    let batches = batch_ranges(10, 10);
    assert_eq!(batches, vec![(0, 10)]);
}

#[test]
fn no_parts_no_batches() {
    let batches = batch_ranges(0, 10);
    assert!(batches.is_empty());
}
