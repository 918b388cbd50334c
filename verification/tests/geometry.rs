use embedded_declarative_ui::alignment::{checked_gap, halve, HorizontalAlignment, VerticalAlignment};
use embedded_declarative_ui::draw_target::{DrawError, DrawOp, LayoutDrawTarget, Surface};
use embedded_declarative_ui::frame::share_of;
use embedded_declarative_ui::geometry::{
    max_extent, to_signed, to_unsigned, Pixel, Point, Rectangle, Size,
};

#[test]
fn extents_and_coordinates_share_their_bits() {
    assert_eq!(to_signed(0), 0);
    assert_eq!(to_signed(0x7fff_ffff), i32::MAX);
    assert_eq!(to_signed(0x8000_0000), i32::MIN);
    assert_eq!(to_signed(u32::MAX), -1);
    assert_eq!(to_unsigned(-1), u32::MAX);
    assert_eq!(to_unsigned(i32::MIN), 0x8000_0000);
    assert_eq!(to_unsigned(17), 17);
    assert_eq!(max_extent(3, 9), 9);
    assert_eq!(max_extent(9, 3), 9);
}

#[test]
fn constructors_keep_their_arguments() {
    assert_eq!(Size::new(3, 4), Size { width: 3, height: 4 });
    assert_eq!(Point::new(-3, 4), Point { x: -3, y: 4 });
    let r = Rectangle::new(Point::new(1, 2), Size::new(3, 4));
    assert_eq!(r.top_left, Point { x: 1, y: 2 });
    assert_eq!(r.size, Size { width: 3, height: 4 });
}

#[test]
fn points_shift_within_the_coordinates() {
    assert_eq!(Point::new(5, -5).shifted(-7, 7), Point::new(-2, 2));
    assert!(Point::new(i32::MAX, 0).can_shifted(0, 0));
    assert!(!Point::new(i32::MAX, 0).can_shifted(1, 0));
    assert!(!Point::new(0, i32::MIN).can_shifted(0, -1));
    assert!(Point::new(i32::MIN, i32::MAX).can_shifted(i32::MAX, i32::MIN));
}

#[test]
fn halving_rounds_toward_zero() {
    assert_eq!(halve(7), 3);
    assert_eq!(halve(-7), -3);
    assert_eq!(halve(-30), -15);
    assert_eq!(halve(-31), -15);
    assert_eq!(halve(0), 0);
    assert_eq!(halve(i32::MIN), -0x4000_0000);
}

#[test]
fn gaps_are_signed() {
    assert_eq!(checked_gap(50, 80), Some(-30));
    assert_eq!(checked_gap(80, 50), Some(30));
    assert_eq!(checked_gap(0x8000_0000, 1), None);
    assert_eq!(checked_gap(0x7fff_ffff, u32::MAX), None);
    assert_eq!(checked_gap(u32::MAX, u32::MAX), Some(0));
    assert_eq!(checked_gap(u32::MAX, 0), Some(-1));
}

#[test]
fn signed_offsets_by_alignment() {
    assert_eq!(HorizontalAlignment::Left.offset(50, 80), 0);
    assert_eq!(HorizontalAlignment::Right.offset(50, 80), -30);
    assert_eq!(HorizontalAlignment::Center.offset(50, 80), -15);
    assert_eq!(HorizontalAlignment::Center.offset(50, 81), -15);
    assert_eq!(HorizontalAlignment::Center.offset(81, 50), 15);
    assert_eq!(VerticalAlignment::Top.offset(50, 80), 0);
    assert_eq!(VerticalAlignment::Bottom.offset(100, 20), 80);
    assert_eq!(VerticalAlignment::Center.offset(100, 21), 39);
    assert_eq!(HorizontalAlignment::Left.checked_offset(0x8000_0000, 1), Some(0));
    assert_eq!(HorizontalAlignment::Right.checked_offset(0x8000_0000, 1), None);
    assert_eq!(HorizontalAlignment::Center.checked_offset(0x8000_0000, 1), None);
    assert_eq!(VerticalAlignment::Center.checked_offset(9, 2), Some(3));
    assert_eq!(VerticalAlignment::Bottom.checked_offset(2, 9), Some(-7));
    assert_eq!(VerticalAlignment::Top.checked_offset(0x8000_0000, 1), Some(0));
    assert_eq!(VerticalAlignment::Bottom.checked_offset(0x8000_0000, 1), None);
}

#[test]
fn unsigned_insets_by_alignment() {
    assert_eq!(HorizontalAlignment::Left.inset(100, 30), 0);
    assert_eq!(HorizontalAlignment::Right.inset(100, 30), 70);
    assert_eq!(HorizontalAlignment::Center.inset(100, 30), 35);
    assert_eq!(HorizontalAlignment::Center.inset(100, 31), 34);
    assert_eq!(VerticalAlignment::Top.inset(10, 3), 0);
    assert_eq!(VerticalAlignment::Bottom.inset(10, 3), 7);
    assert_eq!(VerticalAlignment::Center.inset(10, 3), 3);
    assert_eq!(HorizontalAlignment::Left.checked_inset(3, 10), Some(0));
    assert_eq!(HorizontalAlignment::Right.checked_inset(3, 10), None);
    assert_eq!(HorizontalAlignment::Center.checked_inset(3, 10), None);
    assert_eq!(HorizontalAlignment::Center.checked_inset(10, 3), Some(3));
    assert_eq!(VerticalAlignment::Top.checked_inset(3, 10), Some(0));
    assert_eq!(VerticalAlignment::Bottom.checked_inset(3, 10), None);
    assert_eq!(VerticalAlignment::Center.checked_inset(3, 10), None);
    assert_eq!(VerticalAlignment::Bottom.checked_inset(u32::MAX, 0), Some(u32::MAX));
}

#[test]
fn shares_round_down_and_stop_at_the_largest_extent() {
    assert_eq!(share_of(100, 1, 3), 33);
    assert_eq!(share_of(100, 2, 3), 66);
    assert_eq!(share_of(100, 3, 3), 100);
    assert_eq!(share_of(100, 0, 3), 0);
    assert_eq!(share_of(0, 5, 3), 0);
    assert_eq!(share_of(u32::MAX, u32::MAX, u32::MAX), u32::MAX);
    assert_eq!(share_of(u32::MAX, 2, 1), u32::MAX);
    assert_eq!(share_of(u32::MAX, 1, 2), 0x7fff_ffff);
    assert_eq!(share_of(7, 1, 0), u32::MAX);
    assert_eq!(share_of(0, 1, 0), 0);
}

#[test]
fn every_surface_failure_is_unknown() {
    assert!(matches!(DrawError::from_outcome::<&str>(Ok(())), Ok(())));
    assert!(matches!(DrawError::from_outcome(Err("bus fault")), Err(DrawError::Unknown)));
    assert!(matches!(DrawError::from_outcome(Err(17u8)), Err(DrawError::Unknown)));
}

#[test]
fn a_target_reports_the_size_of_its_surface() {
    let mut surface: Surface<u8> = Surface::new(Size::new(128, 64));
    assert_eq!(surface.ops.len(), 0);
    let target =
        LayoutDrawTarget { original_draw_target: &mut surface, offset: Point::new(90, -90) };
    assert_eq!(target.size(), Size::new(128, 64));
}

#[test]
fn pixels_are_displaced_by_the_offset() {
    let mut surface: Surface<u8> = Surface::new(Size::new(128, 64));
    let mut target =
        LayoutDrawTarget { original_draw_target: &mut surface, offset: Point::new(10, -20) };
    let moved = target.translate(Pixel { position: Point::new(1, 2), color: 9 });
    assert_eq!(moved, Pixel { position: Point::new(11, -18), color: 9 });
    assert!(target.can_translate(&Pixel { position: Point::new(i32::MAX - 10, 0), color: 9 }));
    assert!(!target.can_translate(&Pixel { position: Point::new(i32::MAX - 9, 0), color: 9 }));
    assert!(!target.can_translate(&Pixel { position: Point::new(0, i32::MIN + 19), color: 9 }));

    let pixels = vec![
        Pixel { position: Point::new(0, 0), color: 1u8 },
        Pixel { position: Point::new(-10, 20), color: 2 },
        Pixel { position: Point::new(5, 5), color: 3 },
    ];
    assert!(target.draw_iter(&pixels).is_ok());
    assert!(target.draw_iter(&Vec::new()).is_ok());
    assert_eq!(target.offset, Point::new(10, -20));
    assert_eq!(surface.ops.len(), 2);
    match &surface.ops[0] {
        DrawOp::Pixels { pixels: written } => assert_eq!(
            *written,
            vec![
                Pixel { position: Point::new(10, -20), color: 1u8 },
                Pixel { position: Point::new(0, 0), color: 2 },
                Pixel { position: Point::new(15, -15), color: 3 },
            ]
        ),
        other => panic!("unexpected request: {:?}", other),
    }
    match &surface.ops[1] {
        DrawOp::Pixels { pixels: written } => assert!(written.is_empty()),
        other => panic!("unexpected request: {:?}", other),
    }
}
