use ditherwave::vector::{group_dots, render_dots_svg};

#[test]
fn dots_skip_background_and_group_by_color() {
    // 2x1: one background pixel, one red pixel.
    let keys = vec![None, Some((255u8, 0u8, 0u8))];
    let groups = group_dots(2, 1, &keys);
    let svg = render_dots_svg(2, 1, &groups, "0.50");
    assert_eq!(svg.matches("<circle").count(), 1);
    assert!(svg.contains("rgb(255,0,0)"));
    assert!(!svg.contains("rgb(255,255,255)"));
    assert_eq!(
        svg,
        "<svg xmlns=\"http://www.w3.org/2000/svg\" width=\"2\" height=\"1\" viewBox=\"0 0 2 1\">\n  <g fill=\"rgb(255,0,0)\">\n    <circle cx=\"1.50\" cy=\"0.50\" r=\"0.50\"/>\n  </g>\n</svg>\n"
    );
}

#[test]
fn dots_on_an_all_background_image_produce_no_circles() {
    let keys: Vec<Option<(u8, u8, u8)>> = vec![None; 9];
    let groups = group_dots(3, 3, &keys);
    assert!(groups.is_empty());
    let svg = render_dots_svg(3, 3, &groups, "0.50");
    assert_eq!(svg.matches("<circle").count(), 0);
    assert!(svg.contains("<svg"));
}

#[test]
fn groups_come_in_color_order_with_points_in_scan_order() {
    let b = Some((0u8, 0u8, 255u8));
    let r = Some((255u8, 0u8, 0u8));
    let keys = vec![r, b, None, b, r, r];
    let groups = group_dots(3, 2, &keys);
    assert_eq!(groups.len(), 2);
    assert_eq!(groups[0].color, (0, 0, 255));
    assert_eq!(groups[0].points, vec![(1, 0), (0, 1)]);
    assert_eq!(groups[1].color, (255, 0, 0));
    assert_eq!(groups[1].points, vec![(0, 0), (1, 1), (2, 1)]);
}
