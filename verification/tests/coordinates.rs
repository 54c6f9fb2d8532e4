use tube_tag::coordinate_system::{CoordinateSystem, Rat, SUBPIX, X_RESOLUTION, Y_RESOLUTION};

fn cs(frame_w: i64, frame_h: i64, scale_num: i64, scale_den: i64) -> CoordinateSystem {
    CoordinateSystem::new(
        Rat::from_int(frame_w),
        Rat::from_int(frame_h),
        Rat::new(scale_num, scale_den),
    )
}

#[test]
fn resolution_constants_match_the_map_asset() {
    assert_eq!(X_RESOLUTION, 8262);
    assert_eq!(Y_RESOLUTION, 5803);
    assert_eq!(SUBPIX, 4096);
}

#[test]
fn percent_conversion_is_multiplicative() {
    // A quarter of an 800-wide frame at double zoom covers 400 pixels.
    let c = cs(800, 600, 2, 1);
    let d = c.x_dist_percent(Rat::new(1, 4));
    assert!(d.eq_rat(&Rat::from_int(400)));

    let dy = c.y_dist_percent(Rat::new(-1, 2));
    assert!(dy.eq_rat(&Rat::from_int(-600)));
}

#[test]
fn pixel_conversion_scales_by_the_image_resolution() {
    // The full image width maps onto the whole frame exactly.
    let c = cs(1024, 768, 1, 1);
    let d = c.x_dist_pixels(Rat::from_int(X_RESOLUTION));
    assert!(d.eq_rat(&Rat::from_int(1024)));

    let dy = c.y_dist_pixels(Rat::from_int(Y_RESOLUTION));
    assert!(dy.eq_rat(&Rat::from_int(768)));
}

#[test]
fn screen_percent_round_trip_is_exact() {
    // Converting a centred percentage to a screen distance and back gives
    // the same number, for fractional zooms too.
    let c = cs(1920, 1080, 7, 3);
    let samples = [
        Rat::new(-1, 2),
        Rat::new(-1, 7),
        Rat::new(0, 1),
        Rat::new(3, 8),
        Rat::new(1, 2),
    ];
    for p in samples {
        let d = c.x_dist_percent(p);
        let back = c.x_percent_from_dist(d);
        assert!(back.eq_rat(&p));

        let dy = c.y_dist_percent(p);
        let back_y = c.y_percent_from_dist(dy);
        assert!(back_y.eq_rat(&p));
    }
}

#[test]
fn rational_equality_ignores_representation() {
    assert!(Rat::new(1, 2).eq_rat(&Rat::new(3, 6)));
    assert!(Rat::new(-2, 4).eq_rat(&Rat::new(-1, 2)));
    assert!(!Rat::new(1, 2).eq_rat(&Rat::new(2, 3)));
}

#[test]
fn subpixel_quantization_truncates_toward_zero() {
    assert_eq!(Rat::new(1, 2).to_subpix(), 2048);
    assert_eq!(Rat::new(1, 3).to_subpix(), 1365);
    assert_eq!(Rat::new(-1, 3).to_subpix(), -1365);
}
