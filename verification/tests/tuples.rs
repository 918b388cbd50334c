use embedded_declarative_ui::alignment::{HorizontalAlignment, VerticalAlignment};
use embedded_declarative_ui::background::Background;
use embedded_declarative_ui::draw_target::{DrawOp, LayoutDrawTarget, Surface};
use embedded_declarative_ui::frame::{Dimension, Frame};
use embedded_declarative_ui::geometry::{Point, Rectangle, Size};
use embedded_declarative_ui::hstack::HViewTuple;
use embedded_declarative_ui::text::{Font, Text};
use embedded_declarative_ui::tuple::ViewTuple;
use embedded_declarative_ui::vstack::VViewTuple;
use embedded_declarative_ui::zstack::ZViewTuple;

type Tinted = Background<Frame<Text<u8>, u8>, u8>;

fn tinted_box(color: u8, width: u32, height: u32) -> Tinted {
    Background::new(
        color,
        Frame::new(
            Dimension::Constant(width),
            Dimension::Constant(height),
            HorizontalAlignment::Left,
            VerticalAlignment::Top,
            Text::new(String::new(), 0u8, Font::Fixed6x10),
        ),
    )
}

fn fills_of(surface: &Surface<u8>) -> Vec<(u8, Rectangle)> {
    let mut found = Vec::new();
    for op in surface.ops.iter() {
        if let DrawOp::Fill { area, color } = op {
            found.push((*color, *area));
        }
    }
    found
}

#[test]
fn children_are_reached_by_position() {
    let views = (tinted_box(1, 3, 4), tinted_box(2, 5, 6), tinted_box(3, 7, 8));
    let available = Size::new(50, 50);
    assert_eq!(ViewTuple::<u8>::len(&views), 3);
    assert_eq!(views.child_size(0, available), Size::new(3, 4));
    assert_eq!(views.child_size(1, available), Size::new(5, 6));
    assert_eq!(views.child_size(2, available), Size::new(7, 8));
    assert_eq!(views.try_child_size(2, available), Some(Size::new(7, 8)));
    assert!(views.can_draw_child(1, available, Point::new(0, 0)));

    let mut surface = Surface::new(Size::new(200, 200));
    let mut target =
        LayoutDrawTarget { original_draw_target: &mut surface, offset: Point::new(1, 1) };
    views.draw_child(1, Size::new(5, 6), &mut target);
    assert_eq!(fills_of(&surface), vec![(2, Rectangle::new(Point::new(1, 1), Size::new(5, 6)))]);
    assert_eq!(ViewTuple::<u8>::len(&(tinted_box(1, 3, 4),)), 1);
}

#[test]
fn tuples_are_measured_and_drawn_as_stacks() {
    let views = (tinted_box(1, 3, 4), tinted_box(2, 5, 6));
    let available = Size::new(50, 50);
    assert_eq!(HViewTuple::<u8>::total_size(&views, available, 2), Size::new(10, 6));
    assert_eq!(VViewTuple::<u8>::total_size(&views, available, 2), Size::new(5, 12));
    assert_eq!(ZViewTuple::<u8>::total_size(&views, available), Size::new(5, 6));
    assert_eq!(HViewTuple::<u8>::try_total_size(&views, Size::new(2, 50), 2), None);
    assert_eq!(VViewTuple::<u8>::try_total_size(&views, Size::new(50, 4), 2), Some(Size::new(5, 12)));
    assert_eq!(ZViewTuple::<u8>::try_total_size(&views, Size::new(0, 0)), Some(Size::new(5, 6)));
    assert!(HViewTuple::<u8>::can_draw_all(
        &views,
        available,
        2,
        VerticalAlignment::Bottom,
        Point::new(0, 0)
    ));
    assert!(!VViewTuple::<u8>::can_draw_all(
        &views,
        Size::new(4, 50),
        2,
        HorizontalAlignment::Right,
        Point::new(0, 0)
    ));

    let mut surface = Surface::new(Size::new(200, 200));
    let mut target =
        LayoutDrawTarget { original_draw_target: &mut surface, offset: Point::new(0, 0) };
    ZViewTuple::<u8>::draw_all(
        &views,
        Size::new(5, 6),
        HorizontalAlignment::Center,
        VerticalAlignment::Center,
        &mut target,
    );
    assert_eq!(
        fills_of(&surface),
        vec![
            (1, Rectangle::new(Point::new(1, 1), Size::new(3, 4))),
            (2, Rectangle::new(Point::new(0, 0), Size::new(5, 6))),
        ]
    );
}
