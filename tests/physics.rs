use tile_scene::geometry::{extent, point, Point};
use tile_scene::physics::{cells_to_pixels, check_player_gravity_collission};

#[test]
fn falling_player_rests_on_block_top() {
    // Block top edge at 230: a block one cell high whose bottom is at 180.
    let player = point(200, 233);
    let proposed = point(player.x, player.y - 3);
    let r = check_player_gravity_collission(proposed, point(200, 180), 50, extent(6, 1));
    assert_eq!(r, Some(point(200, 230)));
}

#[test]
fn scene_block_catches_player_at_its_top() {
    let r = check_player_gravity_collission(point(200, 280), point(200, 230), 50, extent(6, 1));
    assert_eq!(r, Some(point(200, 280)));
    let r = check_player_gravity_collission(point(450, 279), point(200, 230), 50, extent(6, 1));
    assert_eq!(r, Some(point(450, 280)));
}

#[test]
fn player_above_block_keeps_falling() {
    let r = check_player_gravity_collission(point(200, 281), point(200, 230), 50, extent(6, 1));
    assert_eq!(r, None);
}

#[test]
fn player_below_block_is_not_caught() {
    // Top of the player at or under the block's bottom edge.
    let r = check_player_gravity_collission(point(200, 180), point(200, 230), 50, extent(6, 1));
    assert_eq!(r, None);
    // Bottom edge one pixel into the block from below: lifted onto the top.
    let r = check_player_gravity_collission(point(200, 181), point(200, 230), 50, extent(6, 1));
    assert_eq!(r, Some(point(200, 280)));
}

#[test]
fn columns_apart_never_collide() {
    // Player x in [400, 410], block x in [200, 260], cells of 10 pixels.
    for y in [-100, 200, 229, 230, 235, 240, 300] {
        let r = check_player_gravity_collission(point(400, y), point(200, 230), 10, extent(6, 1));
        assert_eq!(r, None);
    }
    // Player x in [400, 450], block x in [200, 250].
    let r = check_player_gravity_collission(point(400, 260), point(200, 230), 50, extent(1, 1));
    assert_eq!(r, None);
}

#[test]
fn touching_edges_do_not_overlap() {
    // Player's right edge on the block's left edge.
    let r = check_player_gravity_collission(point(150, 270), point(200, 230), 50, extent(6, 1));
    assert_eq!(r, None);
    // Player's left edge on the block's right edge.
    let r = check_player_gravity_collission(point(500, 270), point(200, 230), 50, extent(6, 1));
    assert_eq!(r, None);
    // One pixel of overlap on either side.
    let r = check_player_gravity_collission(point(151, 270), point(200, 230), 50, extent(6, 1));
    assert_eq!(r, Some(point(151, 280)));
    let r = check_player_gravity_collission(point(499, 270), point(200, 230), 50, extent(6, 1));
    assert_eq!(r, Some(point(499, 280)));
}

#[test]
fn resting_player_stays_at_rest() {
    let block = point(200, 230);
    let first = check_player_gravity_collission(point(300, 278), block, 50, extent(6, 1));
    let rest: Point = first.unwrap();
    assert_eq!(rest, point(300, 280));
    for _ in 0..5 {
        let again = check_player_gravity_collission(point(rest.x, rest.y - 3), block, 50, extent(6, 1));
        assert_eq!(again, Some(rest));
    }
}

#[test]
fn taller_block_puts_player_higher() {
    let r = check_player_gravity_collission(point(10, 140), point(0, 0), 50, extent(2, 3));
    assert_eq!(r, Some(point(10, 150)));
}

#[test]
fn cells_scale_to_pixels() {
    assert_eq!(cells_to_pixels(50, 6), 300);
    assert_eq!(cells_to_pixels(0, 6), 0);
    assert_eq!(cells_to_pixels(65535, 65535), 4294836225);
}
