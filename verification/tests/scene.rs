use mountain::geometry::{Color, Point, Rect, SizeU};
use mountain::scene::{
    count_lines, Brush, DrawCommand, Scene, GRID_STEP, INNER_HALF_EXTENT, OUTER_HALF_EXTENT,
    STROKE_WIDTH,
};

fn units(halves: i64) -> f64 {
    halves as f64 / 2.0
}

fn vertical(x: i64, height: i64) -> DrawCommand {
    DrawCommand::DrawLine {
        from: Point { x: 2 * x, y: 0 },
        to: Point { x: 2 * x, y: 2 * height },
        brush: Brush::LightSlateGray,
        stroke_width: 1,
    }
}

fn horizontal(y: i64, width: i64) -> DrawCommand {
    DrawCommand::DrawLine {
        from: Point { x: 0, y: 2 * y },
        to: Point { x: 2 * width, y: 2 * y },
        brush: Brush::LightSlateGray,
        stroke_width: 1,
    }
}

#[test]
fn constants_of_the_scene() {
    assert_eq!(GRID_STEP, 10);
    assert_eq!(units(STROKE_WIDTH), 0.5);
    assert_eq!(INNER_HALF_EXTENT, 50);
    assert_eq!(OUTER_HALF_EXTENT, 100);
}

#[test]
fn brush_colors_are_fixed() {
    assert_eq!(Brush::LightSlateGray.color(), Color { r: 119, g: 136, b: 153, a: 255 });
    assert_eq!(Brush::CornflowerBlue.color(), Color { r: 100, g: 149, b: 237, a: 255 });
    let gray = Brush::LightSlateGray.color();
    assert!((gray.r as f64 / 255.0 - 0.4667).abs() < 0.0001);
    assert!((gray.g as f64 / 255.0 - 0.5333).abs() < 0.0001);
    assert!((gray.b as f64 / 255.0 - 0.6).abs() < 0.0001);
    let blue = Brush::CornflowerBlue.color();
    assert!((blue.r as f64 / 255.0 - 0.3922).abs() < 0.0001);
    assert!((blue.g as f64 / 255.0 - 0.5843).abs() < 0.0001);
    assert!((blue.b as f64 / 255.0 - 0.9294).abs() < 0.0001);
    assert_eq!(Color::rgb(1, 2, 3), Color { r: 1, g: 2, b: 3, a: 255 });
}

#[test]
fn line_count_rounds_up() {
    assert_eq!(count_lines(0), 0);
    assert_eq!(count_lines(1), 1);
    assert_eq!(count_lines(9), 1);
    assert_eq!(count_lines(10), 1);
    assert_eq!(count_lines(11), 2);
    assert_eq!(count_lines(640), 64);
    assert_eq!(count_lines(641), 65);
    assert_eq!(count_lines(480), 48);
    assert_eq!(count_lines(u32::MAX), 429_496_730);
    for extent in 0u32..500 {
        let expected = (0..extent).step_by(10).count() as u32;
        assert_eq!(count_lines(extent), expected);
    }
}

#[test]
fn frame_for_640_by_480() {
    let scene = Scene::new(SizeU { width: 640, height: 480 });
    assert_eq!(scene.vertical_line_count(), 64);
    assert_eq!(scene.horizontal_line_count(), 48);
    assert_eq!(scene.len(), 3 + 64 + 48 + 3);
    let commands = scene.commands();
    assert_eq!(commands.len(), 118);
    assert_eq!(commands[0], DrawCommand::BeginDraw);
    assert_eq!(commands[1], DrawCommand::SetTransformIdentity);
    assert_eq!(
        commands[2],
        DrawCommand::Clear { color: Color { r: 255, g: 255, b: 255, a: 255 } }
    );
    for i in 0..64 {
        assert_eq!(commands[3 + i], vertical(10 * i as i64, 480));
    }
    for j in 0..48 {
        assert_eq!(commands[67 + j], horizontal(10 * j as i64, 640));
    }
    assert_eq!(
        commands[115],
        DrawCommand::FillRectangle {
            rect: Rect { left: 540, top: 380, right: 740, bottom: 580 },
            brush: Brush::LightSlateGray,
        }
    );
    assert_eq!(
        commands[116],
        DrawCommand::FillRectangle {
            rect: Rect { left: 440, top: 280, right: 840, bottom: 680 },
            brush: Brush::CornflowerBlue,
        }
    );
    assert_eq!(commands[117], DrawCommand::EndDraw);
    match commands[115] {
        DrawCommand::FillRectangle { rect, .. } => {
            assert_eq!(
                (units(rect.left), units(rect.top), units(rect.right), units(rect.bottom)),
                (270.0, 190.0, 370.0, 290.0)
            );
        }
        _ => panic!("the inner square is missing"),
    }
    match commands[116] {
        DrawCommand::FillRectangle { rect, .. } => {
            assert_eq!(
                (units(rect.left), units(rect.top), units(rect.right), units(rect.bottom)),
                (220.0, 140.0, 420.0, 340.0)
            );
        }
        _ => panic!("the outer square is missing"),
    }
}

#[test]
fn commands_by_index_agree_with_the_list() {
    for (width, height) in [(0, 0), (1, 1), (15, 7), (640, 480), (801, 599)] {
        let scene = Scene::new(SizeU { width, height });
        let commands = scene.commands();
        assert_eq!(commands.len() as u64, scene.len());
        for (index, command) in commands.iter().enumerate() {
            assert_eq!(scene.command(index as u64), Some(*command));
        }
        assert_eq!(scene.command(scene.len()), None);
        assert_eq!(scene.command(u64::MAX), None);
    }
}

#[test]
fn empty_surface_has_no_grid() {
    let scene = Scene::new(SizeU { width: 0, height: 0 });
    assert_eq!(scene.len(), 6);
    let commands = scene.commands();
    assert_eq!(commands[0], DrawCommand::BeginDraw);
    assert_eq!(
        commands[3],
        DrawCommand::FillRectangle {
            rect: Rect { left: -100, top: -100, right: 100, bottom: 100 },
            brush: Brush::LightSlateGray,
        }
    );
    assert_eq!(
        commands[4],
        DrawCommand::FillRectangle {
            rect: Rect { left: -200, top: -200, right: 200, bottom: 200 },
            brush: Brush::CornflowerBlue,
        }
    );
    assert_eq!(commands[5], DrawCommand::EndDraw);
}

#[test]
fn squares_share_the_center_of_an_odd_surface() {
    let scene = Scene::new(SizeU { width: 801, height: 599 });
    let commands = scene.commands();
    let n = commands.len();
    let (inner, outer) = match (commands[n - 3], commands[n - 2]) {
        (
            DrawCommand::FillRectangle { rect: inner, brush: Brush::LightSlateGray },
            DrawCommand::FillRectangle { rect: outer, brush: Brush::CornflowerBlue },
        ) => (inner, outer),
        _ => panic!("the squares are missing"),
    };
    assert_eq!(units(inner.left + inner.right) / 2.0, 400.5);
    assert_eq!(units(inner.top + inner.bottom) / 2.0, 299.5);
    assert_eq!(units(outer.left + outer.right) / 2.0, 400.5);
    assert_eq!(units(outer.top + outer.bottom) / 2.0, 299.5);
    assert_eq!(units(inner.right - inner.left), 100.0);
    assert_eq!(units(inner.bottom - inner.top), 100.0);
    assert_eq!(units(outer.right - outer.left), 200.0);
    assert_eq!(units(outer.bottom - outer.top), 200.0);
    assert_eq!(units(inner.left), 350.5);
    assert_eq!(units(outer.bottom), 399.5);
}

#[test]
fn last_grid_line_stays_inside_the_surface() {
    let scene = Scene::new(SizeU { width: 641, height: 10 });
    assert_eq!(scene.vertical_line_count(), 65);
    assert_eq!(scene.horizontal_line_count(), 1);
    assert_eq!(scene.command(3 + 64), Some(vertical(640, 10)));
    assert_eq!(scene.command(3 + 65), Some(horizontal(0, 641)));
}

#[test]
fn largest_surface_is_counted_without_overflow() {
    let scene = Scene::new(SizeU { width: u32::MAX, height: u32::MAX });
    assert_eq!(scene.len(), 6 + 2 * 429_496_730);
    let last = 429_496_729i64;
    assert_eq!(scene.command(3 + last as u64), Some(vertical(10 * last, u32::MAX as i64)));
    assert_eq!(scene.command(scene.len() - 1), Some(DrawCommand::EndDraw));
}
