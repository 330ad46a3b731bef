use ethercrab_ffi::process_data::{area_byte, area_index, fan_in, fan_out, new_process_data_buffer};
use ethercrab_ffi::session::{region_total, MAX_PDI};

#[test]
fn fresh_image_is_zeroed_at_full_capacity() {
    let image = new_process_data_buffer();
    assert_eq!(image.len(), MAX_PDI);
    assert!(image.iter().all(|&b| b == 0));
}

#[test]
fn fan_out_lays_areas_out_in_order() {
    let image: Vec<u8> = (0u8..10).collect();
    let outs = fan_out(&image, &vec![3, 0, 2]);
    assert_eq!(outs, vec![Some(vec![0, 1, 2]), Some(vec![]), Some(vec![3, 4])]);
}

#[test]
fn fan_out_skips_areas_past_the_image() {
    let image: Vec<u8> = (0u8..6).collect();
    let outs = fan_out(&image, &vec![4, 3, 2, 7]);
    assert_eq!(outs, vec![Some(vec![0, 1, 2, 3]), None, Some(vec![4, 5]), None]);
}

#[test]
fn fan_in_copies_from_start_and_truncates() {
    let mut image = vec![0u8; 8];
    let inputs = vec![vec![1, 2], vec![3, 4, 5, 6, 7], vec![8]];
    fan_in(&mut image, 3, &inputs);
    assert_eq!(image, vec![0, 0, 0, 1, 2, 8, 0, 0]);
    assert_eq!(image.len(), 8);
}

#[test]
fn fan_in_with_start_past_image_changes_nothing() {
    let mut image = vec![9u8; 4];
    fan_in(&mut image, 10, &vec![vec![1], vec![]]);
    assert_eq!(image, vec![9u8; 4]);
}

#[test]
fn oversized_regions_never_grow_the_image() {
    let mut image = vec![0u8; 5];
    let inputs = vec![vec![1u8; 3], vec![2u8; 3], vec![3u8; 2]];
    fan_in(&mut image, 0, &inputs);
    assert_eq!(image, vec![1, 1, 1, 3, 3]);
    let outs = fan_out(&image, &vec![3, 3, 2]);
    assert_eq!(outs, vec![Some(vec![1, 1, 1]), None, Some(vec![3, 3])]);
}

#[test]
fn region_totals_sum() {
    assert_eq!(region_total(&vec![]), 0);
    assert_eq!(region_total(&vec![2, 0, 4, 4096]), 4102);
}

#[test]
fn byte_access_inside_and_outside_area() {
    let area = [7u8, 8, 9];
    assert_eq!(area_byte(&area, 2), Some(9));
    assert_eq!(area_byte(&area, 3), None);
    assert_eq!(area_index(3, 0), Some(0));
    assert_eq!(area_index(3, 3), None);
    assert_eq!(area_index(0, 0), None);
}
