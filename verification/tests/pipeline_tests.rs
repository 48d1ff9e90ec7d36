use plotlib::page::Page;
use plotlib::repr::Plot;
use plotlib::style::{PointMarker, PointStyle};
use plotlib::view::ContinuousView;
use rng_fitness::chart::{Chart, Marker, Style};
use rng_fitness::raster::{png_dimensions, rasterize};
use rng_fitness::strategy::Strategy;

fn point_style(style: &Style) -> PointStyle {
    let marker = match style.marker {
        Marker::Circle => PointMarker::Circle,
        Marker::Square => PointMarker::Square,
    };
    PointStyle::new()
        .marker(marker)
        .colour(format!("#{:06X}", style.colour))
        .size(f32::from(style.size))
}

fn to_svg(chart: &Chart) -> String {
    let samples: Vec<(f64, f64)> =
        chart.samples.iter().enumerate().map(|(x, y)| (x as f64, *y as f64)).collect();
    let fitness: Vec<(f64, f64)> =
        chart.fitness.iter().enumerate().map(|(x, y)| (x as f64, *y as f64)).collect();
    let view = ContinuousView::new()
        .add(Plot::new(samples).point_style(point_style(&chart.samples_style)))
        .add(Plot::new(fitness).point_style(point_style(&chart.fitness_style)))
        .x_range(0., chart.x_upper as f64)
        .y_range(0., chart.y_upper as f64)
        .x_label(chart.x_label.as_str())
        .y_label(chart.y_label.as_str());
    Page::single(&view).dimensions(chart.width, chart.height).to_svg().unwrap().to_string()
}

#[test]
fn a_drawn_chart_becomes_an_image_of_the_fixed_size() {
    let cases = [
        (Strategy::Sequence, 50u64, 200u64),
        (Strategy::Sequence, 2, 2),
        (Strategy::Sequence, 1000, 30),
        (Strategy::Standard, 1000, 30),
        (Strategy::XorShift, 50, 200),
        (Strategy::Xoshiro256PlusPlus, 10000, 100),
    ];
    for (strategy, range, count) in cases {
        let chart = strategy.plot(range, count).unwrap();
        let image = rasterize(&to_svg(&chart)).unwrap();
        assert_eq!(png_dimensions(&image), Some((1920, 1080)));
    }
}

#[test]
fn the_colours_of_a_chart_are_written_as_in_a_style_sheet() {
    let chart = Strategy::Sequence.plot(5, 5).unwrap();
    assert_eq!(format!("#{:06X}", chart.samples_style.colour), "#DD3355");
    assert_eq!(format!("#{:06X}", chart.fitness_style.colour), "#35C788");
}
