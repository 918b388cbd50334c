use embedded_declarative_ui::alignment::{HorizontalAlignment, VerticalAlignment};
use embedded_declarative_ui::background::Background;
use embedded_declarative_ui::draw_target::{DrawOp, LayoutDrawTarget, Surface};
use embedded_declarative_ui::frame::{Dimension, Frame};
use embedded_declarative_ui::geometry::{Point, Rectangle, Size};
use embedded_declarative_ui::hstack::HStack;
use embedded_declarative_ui::padding::Padding;
use embedded_declarative_ui::text::{Font, Text};
use embedded_declarative_ui::view::View;
use embedded_declarative_ui::vstack::VStack;
use embedded_declarative_ui::zstack::ZStack;

type Boxed = Background<Frame<Text<u8>, u8>, u8>;

fn colored_box(color: u8, width: u32, height: u32) -> Boxed {
    Background::new(
        color,
        Frame::new(
            Dimension::Constant(width),
            Dimension::Constant(height),
            HorizontalAlignment::Left,
            VerticalAlignment::Top,
            Text::new(String::new(), 0u8, Font::Fixed6x10),
        ),
    )
}

fn fills(surface: &Surface<u8>) -> Vec<(u8, Rectangle)> {
    let mut found = Vec::new();
    for op in surface.ops.iter() {
        if let DrawOp::Fill { area, color } = op {
            found.push((*color, *area));
        }
    }
    found
}

fn drawn_at<V: View<u8>>(view: &V, size: Size, origin: Point) -> Vec<(u8, Rectangle)> {
    let mut surface = Surface::new(Size::new(200, 200));
    let mut target = LayoutDrawTarget { original_draw_target: &mut surface, offset: origin };
    view.draw(size, &mut target);
    fills(&surface)
}

#[test]
fn vertical_stack_of_two_boxes_centered() {
    let stack: VStack<_, u8> = VStack::new(
        5,
        HorizontalAlignment::Center,
        (colored_box(1, 30, 10), colored_box(2, 30, 20)),
    );
    let available = Size::new(100, 100);
    assert_eq!(stack.size(available), Size::new(30, 35));
    assert_eq!(stack.try_size(available), Some(Size::new(30, 35)));

    assert!(stack.can_draw(available, Point::new(0, 0)));
    let drawn = drawn_at(&stack, available, Point::new(0, 0));
    assert_eq!(
        drawn,
        vec![
            (1, Rectangle::new(Point::new(35, 0), Size::new(30, 10))),
            (2, Rectangle::new(Point::new(35, 15), Size::new(30, 20))),
        ]
    );
}

#[test]
fn horizontal_stack_sums_widths_and_spacing() {
    let stack: HStack<_, u8> = HStack::new(
        4,
        VerticalAlignment::Bottom,
        (colored_box(1, 10, 8), colored_box(2, 20, 30), colored_box(3, 5, 12)),
    );
    let available = Size::new(100, 40);
    assert_eq!(stack.size(available), Size::new(10 + 20 + 5 + 2 * 4, 30));

    let drawn = drawn_at(&stack, available, Point::new(7, -3));
    assert_eq!(
        drawn,
        vec![
            (1, Rectangle::new(Point::new(7, -3 + 32), Size::new(10, 8))),
            (2, Rectangle::new(Point::new(7 + 14, -3 + 10), Size::new(20, 30))),
            (3, Rectangle::new(Point::new(7 + 38, -3 + 28), Size::new(5, 12))),
        ]
    );
}

#[test]
fn single_child_stack_has_no_spacing() {
    let stack: HStack<_, u8> = HStack::new(9, VerticalAlignment::Top, (colored_box(1, 10, 8),));
    assert_eq!(stack.size(Size::new(50, 50)), Size::new(10, 8));
    let stack: VStack<_, u8> = VStack::new(9, HorizontalAlignment::Left, (colored_box(1, 10, 8),));
    assert_eq!(stack.size(Size::new(50, 50)), Size::new(10, 8));
}

#[test]
fn later_children_see_only_the_remaining_space() {
    let greedy: Frame<Text<u8>, u8> = Frame::new(
        Dimension::Max,
        Dimension::Constant(5),
        HorizontalAlignment::Left,
        VerticalAlignment::Top,
        Text::new(String::new(), 0u8, Font::Fixed6x10),
    );
    let stack: HStack<_, u8> =
        HStack::new(0, VerticalAlignment::Top, (colored_box(1, 30, 5), greedy));
    assert_eq!(stack.size(Size::new(100, 20)), Size::new(100, 5));
}

#[test]
fn horizontal_stack_that_overruns_cannot_be_measured() {
    let stack: HStack<_, u8> = HStack::new(
        0,
        VerticalAlignment::Top,
        (colored_box(1, 30, 5), colored_box(2, 30, 5), colored_box(3, 30, 5)),
    );
    assert_eq!(stack.try_size(Size::new(50, 20)), None);
    assert_eq!(stack.try_size(Size::new(60, 20)), Some(Size::new(90, 5)));
}

#[test]
fn taller_child_cannot_be_bottom_aligned_in_a_horizontal_stack() {
    let stack: HStack<_, u8> =
        HStack::new(0, VerticalAlignment::Bottom, (colored_box(1, 30, 50),));
    assert!(!stack.can_draw(Size::new(100, 20), Point::new(0, 0)));
    let stack: HStack<_, u8> = HStack::new(0, VerticalAlignment::Top, (colored_box(1, 30, 50),));
    assert!(stack.can_draw(Size::new(100, 20), Point::new(0, 0)));
}

#[test]
fn overlay_stack_takes_the_largest_extents() {
    let stack: ZStack<_, u8> = ZStack::new(
        HorizontalAlignment::Right,
        VerticalAlignment::Center,
        (colored_box(1, 40, 10), colored_box(2, 10, 30)),
    );
    let available = Size::new(100, 100);
    let size = stack.size(available);
    assert_eq!(size, Size::new(40, 30));

    let drawn = drawn_at(&stack, size, Point::new(0, 0));
    assert_eq!(
        drawn,
        vec![
            (1, Rectangle::new(Point::new(0, 10), Size::new(40, 10))),
            (2, Rectangle::new(Point::new(30, 0), Size::new(10, 30))),
        ]
    );
}

#[test]
fn overlay_child_larger_than_the_stack_hangs_out() {
    let stack: ZStack<_, u8> = ZStack::new(
        HorizontalAlignment::Center,
        VerticalAlignment::Bottom,
        (colored_box(1, 31, 12),),
    );
    let drawn = drawn_at(&stack, Size::new(10, 10), Point::new(100, 100));
    assert_eq!(drawn, vec![(1, Rectangle::new(Point::new(100 - 10, 100 - 2), Size::new(31, 12)))]);
}

#[test]
fn ten_children_in_a_row() {
    let stack: HStack<_, u8> = HStack::new(
        1,
        VerticalAlignment::Top,
        (
            colored_box(0, 1, 1),
            colored_box(1, 2, 1),
            colored_box(2, 3, 1),
            colored_box(3, 4, 1),
            colored_box(4, 5, 1),
            colored_box(5, 6, 1),
            colored_box(6, 7, 1),
            colored_box(7, 8, 1),
            colored_box(8, 9, 1),
            colored_box(9, 10, 7),
        ),
    );
    let available = Size::new(100, 10);
    assert_eq!(stack.size(available), Size::new(55 + 9, 7));
    let drawn = drawn_at(&stack, available, Point::new(0, 0));
    assert_eq!(drawn.len(), 10);
    assert_eq!(drawn[9], (9, Rectangle::new(Point::new(45 + 9, 0), Size::new(10, 7))));
}

#[test]
fn vertical_stack_places_across_by_alignment() {
    let place = |alignment| {
        let stack: VStack<_, u8> =
            VStack::new(2, alignment, (colored_box(1, 10, 5), colored_box(2, 21, 6)));
        drawn_at(&stack, Size::new(40, 40), Point::new(-5, 5))
    };
    assert_eq!(
        place(HorizontalAlignment::Left),
        vec![
            (1, Rectangle::new(Point::new(-5, 5), Size::new(10, 5))),
            (2, Rectangle::new(Point::new(-5, 12), Size::new(21, 6))),
        ]
    );
    assert_eq!(
        place(HorizontalAlignment::Right),
        vec![
            (1, Rectangle::new(Point::new(25, 5), Size::new(10, 5))),
            (2, Rectangle::new(Point::new(14, 12), Size::new(21, 6))),
        ]
    );
    assert_eq!(
        place(HorizontalAlignment::Center),
        vec![
            (1, Rectangle::new(Point::new(10, 5), Size::new(10, 5))),
            (2, Rectangle::new(Point::new(4, 12), Size::new(21, 6))),
        ]
    );
}

#[test]
fn vertical_stack_that_overruns_cannot_be_measured() {
    let stack: VStack<_, u8> = VStack::new(
        0,
        HorizontalAlignment::Left,
        (colored_box(1, 5, 30), colored_box(2, 5, 30), colored_box(3, 5, 30)),
    );
    assert_eq!(stack.try_size(Size::new(20, 59)), None);
    assert_eq!(stack.try_size(Size::new(20, 60)), Some(Size::new(5, 90)));
    assert!(!stack.can_draw(Size::new(20, 59), Point::new(0, 0)));
    assert!(stack.can_draw(Size::new(20, 60), Point::new(0, 0)));
}

#[test]
fn spacing_that_overflows_cannot_be_measured() {
    let stack: HStack<_, u8> = HStack::new(
        u32::MAX,
        VerticalAlignment::Top,
        (colored_box(1, 1, 1), colored_box(2, 0, 1)),
    );
    assert_eq!(stack.try_size(Size::new(10, 10)), None);
    let stack: HStack<_, u8> = HStack::new(
        u32::MAX - 1,
        VerticalAlignment::Top,
        (colored_box(1, 1, 1), colored_box(2, 0, 1)),
    );
    assert_eq!(stack.try_size(Size::new(10, 10)), Some(Size::new(u32::MAX, 1)));
    assert!(!stack.can_draw(Size::new(10, 10), Point::new(0, 0)));
    let stack: VStack<_, u8> = VStack::new(
        0x8000_0000,
        HorizontalAlignment::Left,
        (colored_box(1, 1, 1), colored_box(2, 1, 1), colored_box(3, 1, 1)),
    );
    assert_eq!(stack.try_size(Size::new(10, 10)), None);
}

#[test]
fn drawing_measures_each_child_against_what_is_left() {
    let greedy = || -> Background<Frame<Text<u8>, u8>, u8> {
        Background::new(
            8,
            Frame::new(
                Dimension::Max,
                Dimension::Max,
                HorizontalAlignment::Left,
                VerticalAlignment::Top,
                Text::new(String::new(), 0u8, Font::Fixed6x10),
            ),
        )
    };
    let row: HStack<_, u8> =
        HStack::new(3, VerticalAlignment::Center, (colored_box(1, 30, 4), greedy()));
    assert_eq!(
        drawn_at(&row, Size::new(100, 10), Point::new(0, 0)),
        vec![
            (1, Rectangle::new(Point::new(0, 3), Size::new(30, 4))),
            (8, Rectangle::new(Point::new(33, 0), Size::new(70, 10))),
        ]
    );
    let column: VStack<_, u8> =
        VStack::new(3, HorizontalAlignment::Center, (colored_box(1, 4, 30), greedy()));
    assert_eq!(
        drawn_at(&column, Size::new(10, 100), Point::new(0, 0)),
        vec![
            (1, Rectangle::new(Point::new(3, 0), Size::new(4, 30))),
            (8, Rectangle::new(Point::new(0, 33), Size::new(10, 70))),
        ]
    );
}

#[test]
fn overlay_stack_with_an_unmeasurable_child_cannot_be_measured() {
    let cramped: Padding<Background<Frame<Text<u8>, u8>, u8>, u8> =
        Padding::all(6, colored_box(2, 1, 1));
    let stack: ZStack<_, u8> = ZStack::new(
        HorizontalAlignment::Left,
        VerticalAlignment::Top,
        (colored_box(1, 4, 30), cramped),
    );
    assert_eq!(stack.try_size(Size::new(10, 10)), None);
    assert!(!stack.can_draw(Size::new(10, 10), Point::new(0, 0)));
    assert_eq!(stack.try_size(Size::new(12, 12)), Some(Size::new(13, 30)));
}

#[test]
fn a_text_that_the_font_cannot_show_takes_no_space_in_a_stack() {
    let lacking = Text::new("\u{4e2d}".to_string(), 0u8, Font::Fixed6x10);
    let stack: HStack<_, u8> = HStack::new(
        2,
        VerticalAlignment::Top,
        (colored_box(1, 4, 30), lacking, colored_box(3, 5, 5)),
    );
    assert_eq!(stack.try_size(Size::new(20, 30)), Some(Size::new(4 + 0 + 5 + 4, 30)));
    assert_eq!(
        drawn_at(&stack, Size::new(20, 30), Point::new(0, 0)),
        vec![
            (1, Rectangle::new(Point::new(0, 0), Size::new(4, 30))),
            (3, Rectangle::new(Point::new(8, 0), Size::new(5, 5))),
        ]
    );
}
