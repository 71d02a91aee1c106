use forecast::icon::Icon;
use forecast::model::{Block, Point};
use forecast::number::Number;
use forecast::precipitation::Precipitation;

fn num(x: f64) -> Number {
    Number::from_bits(x.to_bits())
}

fn point(intensity: Option<f64>, probability: Option<f64>) -> Point {
    Point {
        temp: Some(num(61.5)),
        apparent_temp: None,
        icon: Some(Icon::Rain),
        precip_intensity: intensity.map(num),
        precip_probability: probability.map(num),
        summary: None,
    }
}

fn block(points: Vec<Point>) -> Block {
    Block { data: points, summary: None, icon: None }
}

#[test]
fn precipitation_of_a_complete_reading() {
    let found = point(Some(0.05), Some(0.3)).precipitation();
    assert_eq!(found, Some(Precipitation { intensity: num(0.05), probability: num(0.3) }));
}

#[test]
fn precipitation_needs_the_probability() {
    assert_eq!(point(Some(0.05), None).precipitation(), None);
}

#[test]
fn precipitation_needs_the_intensity() {
    assert_eq!(point(None, Some(0.3)).precipitation(), None);
}

#[test]
fn precipitation_of_a_reading_with_neither() {
    assert_eq!(point(None, None).precipitation(), None);
}

#[test]
fn precipitations_of_an_empty_series() {
    assert_eq!(block(vec![]).precipitations(), vec![]);
}

#[test]
fn precipitations_keep_the_order_and_pass_over_the_incomplete() {
    let series = block(vec![
        point(Some(0.3), Some(0.9)),
        point(Some(0.2), None),
        point(Some(0.1), Some(0.8)),
        point(None, None),
        point(None, Some(0.7)),
        point(Some(0.3), Some(0.9)),
        point(Some(0.0), Some(0.0)),
    ]);
    let found = series.precipitations();
    assert_eq!(
        found,
        vec![
            Precipitation { intensity: num(0.3), probability: num(0.9) },
            Precipitation { intensity: num(0.1), probability: num(0.8) },
            Precipitation { intensity: num(0.3), probability: num(0.9) },
            Precipitation { intensity: num(0.0), probability: num(0.0) },
        ]
    );
    assert!(found.len() <= series.data.len());
    let complete = series
        .data
        .iter()
        .filter(|p| p.precip_intensity.is_some() && p.precip_probability.is_some())
        .count();
    assert_eq!(found.len(), complete);
}

#[test]
fn precipitations_of_a_series_with_no_complete_reading() {
    let series = block(vec![point(Some(0.3), None), point(None, Some(0.1))]);
    assert_eq!(series.precipitations(), vec![]);
}
