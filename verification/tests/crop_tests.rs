use mie_upload::crop::get_crop_size;

#[test]
fn crop_moves_back_and_widens_by_the_unit() {
    assert_eq!(get_crop_size(100, 50, 40), (140, 10));
}

#[test]
fn crop_at_the_edge_stays_put() {
    assert_eq!(get_crop_size(100, 0, 40), (100, 0));
}

#[test]
fn crop_clamps_to_the_edge_without_widening() {
    // moving 20 back by 40 would pass the edge: position clamps to zero
    // and the dimension is left as detected
    assert_eq!(get_crop_size(100, 20, 40), (100, 0));
}
