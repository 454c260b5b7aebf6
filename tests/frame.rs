use rust_decimal::Decimal;
use weather_saga::frame::{
    aggregate, DecimalValue, PropertyDetail, QualityControl, QuantitativeAggregation, QuantitativeProperty,
    WeatherFrame,
};

fn dec(mantissa: i128, scale: u32) -> DecimalValue {
    DecimalValue { mantissa, scale }
}

fn as_decimal(v: DecimalValue) -> Decimal {
    Decimal::from_i128_with_scale(v.mantissa, v.scale)
}

fn detail(value: Option<DecimalValue>, quality: Option<QualityControl>) -> PropertyDetail {
    PropertyDetail { value, unit_code: "wmoUnit:degC".to_string(), quality_control: quality }
}

#[test]
fn quality_levels_rank_v_highest_and_x_lowest() {
    let order = [
        QualityControl::V,
        QualityControl::G,
        QualityControl::S,
        QualityControl::C,
        QualityControl::Z,
        QualityControl::Q,
        QualityControl::T,
        QualityControl::B,
        QualityControl::X,
    ];
    for (i, q) in order.iter().enumerate() {
        assert_eq!(q.level(), 9 - i);
    }
}

#[test]
fn aggregation_uses_only_the_highest_grade() {
    let details = vec![
        detail(Some(dec(100, 1)), Some(QualityControl::S)),
        detail(Some(dec(20, 0)), Some(QualityControl::S)),
        detail(Some(dec(1000, 0)), Some(QualityControl::B)),
        detail(None, Some(QualityControl::V)),
        detail(Some(dec(300, 1)), Some(QualityControl::S)),
    ];
    let agg = aggregate(&details).unwrap();
    assert_eq!(agg.quality_control, QualityControl::S);
    assert_eq!(agg.count, 3);
    assert_eq!(as_decimal(agg.value_sum), Decimal::new(60, 0));
    assert_eq!(as_decimal(agg.max_value), Decimal::new(30, 0));
    assert_eq!(as_decimal(agg.min_value), Decimal::new(10, 0));
    assert_eq!(as_decimal(agg.average_value()), Decimal::new(20, 0));
    assert_eq!(agg.unit_code, "wmoUnit:degC");
}

#[test]
fn a_higher_grade_replaces_the_aggregation() {
    let details = vec![
        detail(Some(dec(15, 1)), Some(QualityControl::Z)),
        detail(Some(dec(25, 1)), Some(QualityControl::Z)),
        detail(Some(dec(-40, 1)), Some(QualityControl::V)),
        detail(Some(dec(90, 1)), Some(QualityControl::G)),
    ];
    let agg = aggregate(&details).unwrap();
    assert_eq!(agg.quality_control, QualityControl::V);
    assert_eq!(agg.count, 1);
    assert_eq!(as_decimal(agg.average_value()), Decimal::new(-4, 0));
    assert_eq!(as_decimal(agg.min_value), Decimal::new(-4, 0));
    assert_eq!(as_decimal(agg.max_value), Decimal::new(-4, 0));
}

#[test]
fn equal_grades_average_with_extremes() {
    let details = vec![
        detail(Some(dec(15, 1)), Some(QualityControl::G)),
        detail(Some(dec(25, 1)), Some(QualityControl::G)),
    ];
    let agg = aggregate(&details).unwrap();
    assert_eq!(agg.count, 2);
    assert_eq!(as_decimal(agg.average_value()), Decimal::new(2, 0));
    assert_eq!(as_decimal(agg.min_value), Decimal::new(15, 1));
    assert_eq!(as_decimal(agg.max_value), Decimal::new(25, 1));
}

#[test]
fn details_without_value_or_grade_are_skipped_wherever_they_stand() {
    assert!(aggregate(&vec![detail(None, None)]).is_none());
    assert!(aggregate(&vec![]).is_none());
    let details = vec![
        detail(None, Some(QualityControl::V)),
        detail(Some(dec(5, 0)), None),
        detail(Some(dec(5, 0)), Some(QualityControl::Z)),
    ];
    let agg = aggregate(&details).unwrap();
    assert_eq!(agg.quality_control, QualityControl::Z);
    assert_eq!(agg.count, 1);
    let value = agg.to_value();
    assert_eq!(as_decimal(value.value), Decimal::new(5, 0));
    let single = QuantitativeAggregation::new(&detail(Some(dec(7, 0)), Some(QualityControl::C)));
    assert_eq!(single.count, 1);
    assert_eq!(as_decimal(single.value_sum), Decimal::new(7, 0));
}

#[test]
fn frame_omits_properties_without_readings() {
    let reports = vec![
        (QuantitativeProperty::HeatIndex, detail(None, None)),
        (QuantitativeProperty::Dewpoint, detail(Some(dec(3, 0)), Some(QualityControl::G))),
    ];
    let frame = WeatherFrame::from_reports(1, &reports);
    assert_eq!(frame.values.len(), 1);
    assert_eq!(frame.values[0].property, QuantitativeProperty::Dewpoint);
}

#[test]
fn frame_holds_one_value_per_reported_property() {
    let reports = vec![
        (QuantitativeProperty::Temperature, detail(Some(dec(10, 0)), Some(QualityControl::V))),
        (QuantitativeProperty::WindSpeed, detail(Some(dec(5, 0)), Some(QualityControl::V))),
        (QuantitativeProperty::Temperature, detail(Some(dec(20, 0)), Some(QualityControl::V))),
    ];
    let frame = WeatherFrame::from_reports(42, &reports);
    assert_eq!(frame.timestamp, 42);
    assert_eq!(frame.values.len(), 2);
    assert_eq!(frame.values[0].property, QuantitativeProperty::Temperature);
    assert_eq!(as_decimal(frame.values[0].value.value), Decimal::new(15, 0));
    assert_eq!(frame.values[1].property, QuantitativeProperty::WindSpeed);
    assert_eq!(as_decimal(frame.values[1].value.value), Decimal::new(5, 0));
}
