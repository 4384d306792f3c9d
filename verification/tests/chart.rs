use procyon::chart::{Data, EncodingAxis, EncodingCondition, Mark, Procyon};
use procyon::native::{ColorChannel, NativeSpec, PositionChannel, Schema, StandardType};

fn quantitative(field: &str) -> PositionChannel {
    PositionChannel { field: field.to_string(), def_type: StandardType::Quantitative }
}

#[test]
fn default_chart_is_a_line_without_encodings() {
    let chart = Procyon::chart("data.csv");
    let spec = chart.build();
    assert_eq!(
        spec,
        NativeSpec {
            schema: Schema::V4,
            data_url: "data.csv".to_string(),
            mark: Mark::Line,
            x: None,
            y: None,
            color: None,
        }
    );
}

#[test]
fn scatterplot_holds_what_the_calls_gave() {
    let mut chart = Procyon::chart("data.csv");
    chart.mark_point().encode_axis("x", "y").encode_color("cluster");
    let spec = chart.build();
    assert_eq!(
        spec,
        NativeSpec {
            schema: Schema::V4,
            data_url: "data.csv".to_string(),
            mark: Mark::Point,
            x: Some(quantitative("x")),
            y: Some(quantitative("y")),
            color: Some(ColorChannel { field: "cluster".to_string() }),
        }
    );
}

#[test]
fn mark_point_alone_leaves_the_encodings_absent() {
    let mut chart = Procyon::chart("data.csv");
    chart.mark_point();
    let spec = chart.build();
    assert_eq!(spec.mark, Mark::Point);
    assert!(spec.x.is_none());
    assert!(spec.y.is_none());
    assert!(spec.color.is_none());
}

#[test]
fn axes_alone_leave_the_mark_and_the_colour() {
    let mut chart = Procyon::chart("data.csv");
    chart.encode_axis("width", "height");
    let spec = chart.build();
    assert_eq!(spec.mark, Mark::Line);
    assert_eq!(spec.x, Some(quantitative("width")));
    assert_eq!(spec.y, Some(quantitative("height")));
    assert!(spec.color.is_none());
}

#[test]
fn colour_alone_leaves_the_mark_and_the_axes() {
    let mut chart = Procyon::chart("data.csv");
    chart.encode_color("species");
    let spec = chart.build();
    assert_eq!(spec.mark, Mark::Line);
    assert!(spec.x.is_none());
    assert!(spec.y.is_none());
    assert_eq!(spec.color, Some(ColorChannel { field: "species".to_string() }));
}

#[test]
fn the_order_of_the_calls_does_not_matter() {
    let mut first = Procyon::chart("data.csv");
    first.mark_point().encode_axis("x", "y").encode_color("cluster");
    let mut second = Procyon::chart("data.csv");
    second.mark_point().encode_color("cluster").encode_axis("x", "y");
    let mut third = Procyon::chart("data.csv");
    third.encode_axis("x", "y").mark_point().encode_color("cluster");
    let mut fourth = Procyon::chart("data.csv");
    fourth.encode_axis("x", "y").encode_color("cluster").mark_point();
    let mut fifth = Procyon::chart("data.csv");
    fifth.encode_color("cluster").mark_point().encode_axis("x", "y");
    let mut sixth = Procyon::chart("data.csv");
    sixth.encode_color("cluster").encode_axis("x", "y").mark_point();
    let expected = first.build();
    assert_eq!(expected.mark, Mark::Point);
    assert_eq!(second.build(), expected);
    assert_eq!(third.build(), expected);
    assert_eq!(fourth.build(), expected);
    assert_eq!(fifth.build(), expected);
    assert_eq!(sixth.build(), expected);
}

#[test]
fn a_later_call_replaces_an_earlier_one() {
    let mut chart = Procyon::chart("data.csv");
    chart.encode_axis("a", "b").encode_color("c").encode_axis("x", "y").encode_color("cluster");
    let spec = chart.build();
    assert_eq!(spec.x, Some(quantitative("x")));
    assert_eq!(spec.y, Some(quantitative("y")));
    assert_eq!(spec.color, Some(ColorChannel { field: "cluster".to_string() }));
}

#[test]
fn each_schema_gets_the_same_slots() {
    let mut chart = Procyon::chart("https://example.org/clustered_data.csv");
    chart.mark_point().encode_axis("x", "y").encode_color("cluster");
    let v3 = chart.build_v3();
    let v4 = chart.build_v4();
    assert_eq!(v3.schema, Schema::V3);
    assert_eq!(v4.schema, Schema::V4);
    assert_eq!(v3.data_url, "https://example.org/clustered_data.csv");
    assert_eq!(v3.data_url, v4.data_url);
    assert_eq!(v3.mark, v4.mark);
    assert_eq!(v3.x, v4.x);
    assert_eq!(v3.y, v4.y);
    assert_eq!(v3.color, v4.color);
    assert_eq!(chart.build(), v4);
}

#[test]
fn building_leaves_the_chart_as_it_is() {
    let mut chart = Procyon::chart("data.csv");
    chart.mark_point().encode_axis("x", "y");
    let before = chart.build();
    let after = chart.build();
    assert_eq!(before, after);
}

#[test]
fn text_converts_into_each_part_of_a_chart() {
    match Data::from("data.csv") {
        Data::Url(url) => assert_eq!(url, "data.csv"),
    }
    match EncodingAxis::from("x") {
        EncodingAxis::Field(name) => assert_eq!(name, "x"),
    }
    match EncodingCondition::from("cluster") {
        EncodingCondition::Field(name) => assert_eq!(name, "cluster"),
    }
}

#[test]
fn the_parts_of_a_chart_convert_into_channels() {
    assert_eq!(Data::Url("data.csv".to_string()).url_data(), "data.csv");
    assert_eq!(EncodingAxis::Field("x".to_string()).position_channel(), quantitative("x"));
    assert_eq!(
        EncodingCondition::Field("cluster".to_string()).color_channel(),
        ColorChannel { field: "cluster".to_string() }
    );
}

#[test]
fn a_chart_takes_converted_values_too() {
    let mut chart = Procyon::chart(Data::Url("data.csv".to_string()));
    chart
        .encode_axis(EncodingAxis::Field("x".to_string()), "y")
        .encode_color(EncodingCondition::Field("cluster".to_string()));
    let spec = chart.build();
    assert_eq!(spec.data_url, "data.csv");
    assert_eq!(spec.x, Some(quantitative("x")));
    assert_eq!(spec.y, Some(quantitative("y")));
    assert_eq!(spec.color, Some(ColorChannel { field: "cluster".to_string() }));
}
