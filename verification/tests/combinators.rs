use embedded_declarative_ui::alignment::{HorizontalAlignment, VerticalAlignment};
use embedded_declarative_ui::background::Background;
use embedded_declarative_ui::border::Border;
use embedded_declarative_ui::conditional::Either;
use embedded_declarative_ui::draw_target::{DrawOp, LayoutDrawTarget, Surface};
use embedded_declarative_ui::frame::{Dimension, Frame};
use embedded_declarative_ui::geometry::{Point, Rectangle, Size};
use embedded_declarative_ui::padding::Padding;
use embedded_declarative_ui::text::{Font, Text};
use embedded_declarative_ui::view::{try_draw, AsView, CompositeView, View};

type Leaf = Frame<Text<u8>, u8>;

fn empty_text() -> Text<u8> {
    Text::new(String::new(), 0u8, Font::Fixed6x10)
}

fn fixed_box(width: u32, height: u32) -> Leaf {
    Frame::new(
        Dimension::Constant(width),
        Dimension::Constant(height),
        HorizontalAlignment::Left,
        VerticalAlignment::Top,
        empty_text(),
    )
}

/// A leaf that takes all the space it is offered.
fn greedy() -> Leaf {
    Frame::new(
        Dimension::Max,
        Dimension::Max,
        HorizontalAlignment::Left,
        VerticalAlignment::Top,
        empty_text(),
    )
}

fn drawn_on<V: View<u8>>(view: &V, size: Size, origin: Point) -> Surface<u8> {
    let mut surface = Surface::new(Size::new(200, 200));
    let mut target = LayoutDrawTarget { original_draw_target: &mut surface, offset: origin };
    view.draw(size, &mut target);
    surface
}

fn filled(surface: &Surface<u8>) -> Vec<(u8, Rectangle)> {
    let mut found = Vec::new();
    for op in surface.ops.iter() {
        if let DrawOp::Fill { area, color } = op {
            found.push((*color, *area));
        }
    }
    found
}

#[test]
fn frame_with_fixed_width_and_shrink_height_centers_a_larger_child() {
    let frame: Frame<_, u8> = Frame::new(
        Dimension::Constant(50),
        Dimension::Min,
        HorizontalAlignment::Center,
        VerticalAlignment::Center,
        Background::new(9u8, fixed_box(80, 20)),
    );
    let size = frame.size(Size::new(100, 100));
    assert_eq!(size, Size::new(50, 20));

    let surface = drawn_on(&frame, size, Point::new(0, 0));
    assert_eq!(filled(&surface), vec![(9, Rectangle::new(Point::new(-15, 0), Size::new(80, 20)))]);
}

#[test]
fn frame_policies_resolve_each_axis() {
    let available = Size::new(90, 40);
    let frame = |width, height| -> Frame<Leaf, u8> {
        Frame::new(
            width,
            height,
            HorizontalAlignment::Left,
            VerticalAlignment::Top,
            fixed_box(7, 9),
        )
    };
    assert_eq!(frame(Dimension::Min, Dimension::Min).size(available), Size::new(7, 9));
    assert_eq!(frame(Dimension::Max, Dimension::Max).size(available), Size::new(90, 40));
    assert_eq!(
        frame(Dimension::Constant(500), Dimension::Constant(0)).size(available),
        Size::new(500, 0)
    );
    let third = Dimension::Fraction { numerator: 1, denominator: 3 };
    let half = Dimension::Fraction { numerator: 1, denominator: 2 };
    assert_eq!(frame(third, half).size(available), Size::new(30, 20));
    let two_thirds = Dimension::Fraction { numerator: 2, denominator: 3 };
    assert_eq!(frame(two_thirds, two_thirds).size(Size::new(100, 10)), Size::new(66, 6));
}

#[test]
fn fraction_is_capped_and_total() {
    let frame = |width| -> Frame<Leaf, u8> {
        Frame::new(
            width,
            Dimension::Constant(1),
            HorizontalAlignment::Left,
            VerticalAlignment::Top,
            fixed_box(7, 9),
        )
    };
    let huge = Dimension::Fraction { numerator: u32::MAX, denominator: 1 };
    assert_eq!(frame(huge).size(Size::new(u32::MAX, 0)).width, u32::MAX);
    assert_eq!(frame(huge).size(Size::new(2, 0)).width, u32::MAX);
    assert_eq!(frame(huge).size(Size::new(1, 0)).width, u32::MAX);
    assert_eq!(frame(huge).size(Size::new(0, 0)).width, 0);
    let unbounded = Dimension::Fraction { numerator: 1, denominator: 0 };
    assert_eq!(frame(unbounded).size(Size::new(5, 0)).width, u32::MAX);
    assert_eq!(frame(unbounded).size(Size::new(0, 0)).width, 0);
    let nothing = Dimension::Fraction { numerator: 0, denominator: 0 };
    assert_eq!(frame(nothing).size(Size::new(5, 0)).width, 0);
}

#[test]
fn shrink_height_follows_the_child_at_the_resolved_width() {
    let inner: Frame<Leaf, u8> = Frame::new(
        Dimension::Max,
        Dimension::Fraction { numerator: 1, denominator: 1 },
        HorizontalAlignment::Left,
        VerticalAlignment::Top,
        fixed_box(1, 1),
    );
    let tall: Frame<_, u8> = Frame::new(
        Dimension::Constant(12),
        Dimension::Min,
        HorizontalAlignment::Left,
        VerticalAlignment::Top,
        Frame::<_, u8>::new(
            Dimension::Min,
            Dimension::Min,
            HorizontalAlignment::Left,
            VerticalAlignment::Top,
            inner,
        ),
    );
    assert_eq!(tall.size(Size::new(100, 33)), Size::new(12, 33));
}

#[test]
fn frame_places_its_child_by_both_alignments() {
    let place = |h, v| -> Vec<(u8, Rectangle)> {
        let frame: Frame<_, u8> = Frame::new(
            Dimension::Max,
            Dimension::Max,
            h,
            v,
            Background::new(3u8, fixed_box(11, 4)),
        );
        filled(&drawn_on(&frame, Size::new(20, 9), Point::new(100, 200)))
    };
    let child = Size::new(11, 4);
    assert_eq!(
        place(HorizontalAlignment::Left, VerticalAlignment::Top),
        vec![(3, Rectangle::new(Point::new(100, 200), child))]
    );
    assert_eq!(
        place(HorizontalAlignment::Right, VerticalAlignment::Bottom),
        vec![(3, Rectangle::new(Point::new(109, 205), child))]
    );
    assert_eq!(
        place(HorizontalAlignment::Center, VerticalAlignment::Center),
        vec![(3, Rectangle::new(Point::new(104, 202), child))]
    );
}

#[test]
fn centering_a_larger_child_rounds_toward_the_origin() {
    let frame: Frame<_, u8> = Frame::new(
        Dimension::Max,
        Dimension::Max,
        HorizontalAlignment::Center,
        VerticalAlignment::Center,
        Background::new(3u8, fixed_box(41, 14)),
    );
    let drawn = filled(&drawn_on(&frame, Size::new(10, 9), Point::new(0, 0)));
    assert_eq!(drawn, vec![(3, Rectangle::new(Point::new(-15, -2), Size::new(41, 14)))]);
}

#[test]
fn frame_at_the_edge_of_the_coordinates_cannot_be_drawn() {
    let frame: Frame<_, u8> = Frame::new(
        Dimension::Max,
        Dimension::Max,
        HorizontalAlignment::Right,
        VerticalAlignment::Top,
        fixed_box(1, 1),
    );
    assert!(frame.can_draw(Size::new(11, 11), Point::new(i32::MAX - 10, 0)));
    assert!(!frame.can_draw(Size::new(12, 11), Point::new(i32::MAX - 10, 0)));
    let left: Frame<_, u8> = Frame::new(
        Dimension::Max,
        Dimension::Max,
        HorizontalAlignment::Left,
        VerticalAlignment::Top,
        fixed_box(1, 1),
    );
    assert!(left.can_draw(Size::new(u32::MAX, 11), Point::new(i32::MAX, 0)));
    assert!(!frame.can_draw(Size::new(0x8000_0000, 11), Point::new(0, 0)));
}

#[test]
fn padding_adds_its_insets_to_the_child() {
    let padding: Padding<Leaf, u8> = Padding::new(1, 2, 3, 4, greedy());
    let available = Size::new(50, 30);
    assert_eq!(greedy().size(Size::new(50 - 4, 30 - 6)), Size::new(46, 24));
    assert_eq!(padding.size(available), Size::new(50, 30));

    let padding: Padding<Leaf, u8> = Padding::new(1, 2, 3, 4, fixed_box(10, 10));
    assert_eq!(padding.size(available), Size::new(14, 16));
    assert_eq!(padding.try_size(available), Some(Size::new(14, 16)));
}

#[test]
fn padding_shorthands_set_the_named_edges() {
    let available = Size::new(100, 100);
    let drawn = |padding: Padding<Background<Leaf, u8>, u8>| {
        let size = padding.size(available);
        (size, filled(&drawn_on(&padding, size, Point::new(0, 0)))[0].1)
    };
    let child = || Background::new(1u8, greedy());
    let at = |x, y, w, h| Rectangle::new(Point::new(x, y), Size::new(w, h));
    assert_eq!(drawn(Padding::top(5, child())), (available, at(0, 5, 100, 95)));
    assert_eq!(drawn(Padding::bottom(5, child())), (available, at(0, 0, 100, 95)));
    assert_eq!(drawn(Padding::left(5, child())), (available, at(5, 0, 95, 100)));
    assert_eq!(drawn(Padding::right(5, child())), (available, at(0, 0, 95, 100)));
    assert_eq!(drawn(Padding::horizontal(5, child())), (available, at(5, 0, 90, 100)));
    assert_eq!(drawn(Padding::vertical(5, child())), (available, at(0, 5, 100, 90)));
    assert_eq!(drawn(Padding::all(5, child())), (available, at(5, 5, 90, 90)));
    assert_eq!(drawn(Padding::new(1, 2, 3, 4, child())), (available, at(1, 2, 96, 94)));
}

#[test]
fn padding_without_room_cannot_be_measured_or_drawn() {
    let padding: Padding<Leaf, u8> = Padding::new(6, 0, 5, 0, fixed_box(1, 1));
    assert_eq!(padding.try_size(Size::new(10, 10)), None);
    assert_eq!(padding.try_size(Size::new(11, 10)), Some(Size::new(12, 1)));
    assert!(!padding.can_draw(Size::new(10, 10), Point::new(0, 0)));
    assert!(padding.can_draw(Size::new(11, 10), Point::new(0, 0)));
    assert!(!padding.can_draw(Size::new(11, 10), Point::new(i32::MAX - 5, 0)));

    let wide: Padding<Leaf, u8> = Padding::new(u32::MAX, 0, 1, 0, fixed_box(1, 1));
    assert_eq!(wide.try_size(Size::new(u32::MAX, 10)), None);
    let large: Padding<Leaf, u8> = Padding::new(1, 0, 0, 0, fixed_box(u32::MAX, 1));
    assert_eq!(large.try_size(Size::new(10, 10)), None);
}

#[test]
fn background_and_border_are_as_large_as_their_child() {
    for available in [Size::new(0, 0), Size::new(13, 70), Size::new(u32::MAX, 1)] {
        let child = greedy().size(available);
        assert_eq!(Background::new(1u8, greedy()).size(available), child);
        assert_eq!(Border::new(1u8, 2, 3, greedy()).size(available), child);
        assert_eq!(Border::new(1u8, 2, 0, greedy()).try_size(available), Some(child));
    }
}

#[test]
fn background_fills_before_its_child_draws() {
    let view = Background::new(1u8, Background::new(2u8, fixed_box(3, 3)));
    let surface = drawn_on(&view, Size::new(8, 6), Point::new(4, 5));
    let area = Rectangle::new(Point::new(4, 5), Size::new(8, 6));
    assert_eq!(filled(&surface), vec![(1, area), (2, area)]);
}

#[test]
fn border_strokes_a_plain_or_a_rounded_outline() {
    let area = Rectangle::new(Point::new(4, 5), Size::new(8, 6));
    let plain = drawn_on(&Border::new(7u8, 2, 0, fixed_box(1, 1)), area.size, area.top_left);
    match &plain.ops[0] {
        DrawOp::Stroke { area: stroked, color, thickness } => {
            assert_eq!((*stroked, *color, *thickness), (area, 7, 2));
        }
        other => panic!("unexpected request: {:?}", other),
    }
    let rounded = drawn_on(&Border::new(7u8, 2, 3, fixed_box(1, 1)), area.size, area.top_left);
    match &rounded.ops[0] {
        DrawOp::RoundedStroke { area: stroked, corner_radii, color, thickness } => {
            assert_eq!((*stroked, *corner_radii, *color, *thickness), (area, Size::new(3, 3), 7, 2));
        }
        other => panic!("unexpected request: {:?}", other),
    }
    assert_eq!(plain.ops.len(), 2);
    assert_eq!(rounded.ops.len(), 2);
}

#[test]
fn a_branch_behaves_as_the_view_it_holds() {
    let left: Either<Background<Leaf, u8>, Leaf> = Either::Left(Background::new(1, greedy()));
    let right: Either<Background<Leaf, u8>, Leaf> = Either::Right(fixed_box(3, 4));
    let available = Size::new(20, 30);
    assert_eq!(left.size(available), Background::new(1u8, greedy()).size(available));
    assert_eq!(left.try_size(available), Some(available));
    assert_eq!(right.size(available), Size::new(3, 4));
    assert!(left.can_draw(available, Point::new(0, 0)));

    let through = drawn_on(&left, available, Point::new(1, 1));
    let direct = drawn_on(&Background::new(1u8, greedy()), available, Point::new(1, 1));
    assert_eq!(filled(&through), filled(&direct));
    assert_eq!(through.ops.len(), direct.ops.len());
    assert_eq!(filled(&drawn_on(&right, available, Point::new(1, 1))), vec![]);
}

#[test]
fn a_borrowed_view_is_the_view() {
    let view = Background::new(1u8, fixed_box(3, 4));
    let borrowed = &view;
    let available = Size::new(20, 30);
    assert_eq!(borrowed.size(available), view.size(available));
    assert_eq!(View::try_size(&borrowed, available), Some(Size::new(3, 4)));
    let padded: Padding<&Background<Leaf, u8>, u8> = Padding::all(1, borrowed);
    assert_eq!(padded.size(available), Size::new(5, 6));
    assert_eq!(
        filled(&drawn_on(&padded, Size::new(5, 6), Point::new(0, 0))),
        vec![(1, Rectangle::new(Point::new(1, 1), Size::new(3, 4)))]
    );
}

#[test]
fn measuring_and_drawing_again_give_the_same() {
    let view: Padding<_, u8> = Padding::all(
        2,
        Frame::<_, u8>::new(
            Dimension::Max,
            Dimension::Min,
            HorizontalAlignment::Center,
            VerticalAlignment::Bottom,
            Background::new(4u8, fixed_box(9, 9)),
        ),
    );
    let available = Size::new(40, 40);
    let first = view.size(available);
    let second = view.size(available);
    assert_eq!(first, second);
    assert_eq!(first, Size::new(40, 13));

    let mut surface = Surface::new(Size::new(40, 40));
    let mut target =
        LayoutDrawTarget { original_draw_target: &mut surface, offset: Point::new(3, 3) };
    view.draw(first, &mut target);
    assert_eq!(target.offset, Point::new(3, 3));
    view.draw(first, &mut target);
    assert_eq!(target.offset, Point::new(3, 3));
    let drawn = filled(&surface);
    let area = Rectangle::new(Point::new(3 + 2 + 13, 3 + 2), Size::new(9, 9));
    assert_eq!(drawn, vec![(4, area), (4, area)]);
    assert_eq!(surface.ops.len(), 4);
}

#[test]
fn try_draw_leaves_the_surface_alone_where_it_cannot_draw() {
    let padding: Padding<_, u8> = Padding::all(6, Background::new(1u8, greedy()));
    let mut surface = Surface::new(Size::new(40, 40));
    let mut target =
        LayoutDrawTarget { original_draw_target: &mut surface, offset: Point::new(0, 0) };
    assert!(!try_draw(&padding, Size::new(11, 11), &mut target));
    assert_eq!(target.original_draw_target.ops.len(), 0);
    assert!(try_draw(&padding, Size::new(12, 14), &mut target));
    assert_eq!(
        filled(&surface),
        vec![(1, Rectangle::new(Point::new(6, 6), Size::new(0, 2)))]
    );
}

struct Badge {
    color: u8,
}

impl CompositeView<u8> for Badge {
    type Body = Background<Padding<Leaf, u8>, u8>;

    fn body_view(&self) -> Self::Body {
        self.body()
    }

    fn body(&self) -> Self::Body {
        Background::new(self.color, Padding::all(2, fixed_box(10, 4)))
    }
}

#[test]
fn a_composite_is_measured_and_drawn_as_its_body() {
    let badge: AsView<Badge> = Badge { color: 5 }.as_view();
    let available = Size::new(50, 50);
    assert_eq!(badge.size(available), Size::new(14, 8));
    assert_eq!(badge.try_size(available), Some(Size::new(14, 8)));
    assert!(badge.can_draw(Size::new(14, 8), Point::new(0, 0)));
    let stacked: Padding<AsView<Badge>, u8> = Padding::left(1, badge);
    assert_eq!(
        filled(&drawn_on(&stacked, Size::new(15, 8), Point::new(0, 0))),
        vec![(5, Rectangle::new(Point::new(1, 0), Size::new(14, 8)))]
    );
}
