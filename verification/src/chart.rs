//! The chart under construction: its data source, its mark and its encodings.
//!
//! A [`Procyon`] is filled by chained calls and then projected by `build` into a
//! [`NativeSpec`](crate::native::NativeSpec). Every contract here is stated over
//! [`ChartModel`], the mathematical content of a chart.

use vstd::prelude::*;
use crate::native::{ColorChannel, NativeModel, NativeSpec, PositionChannel, Schema, StandardType, position_of};

verus! {

/// The kind of mark a chart draws.
#[derive(Clone, Copy, Debug, PartialEq, Eq, Structural)]
pub enum Mark {
    /// A line through the data.
    Line,
    /// One point per datum: a scatterplot.
    Point,
}

/// A data source.
#[derive(Clone, Debug)]
pub enum Data {
    /// Data that is available at the given URL.
    Url(String),
}

impl View for Data {
    type V = Seq<char>;

    /// The URL, as text.
    open spec fn view(&self) -> Seq<char> {
        match self {
            Data::Url(url) => url@,
        }
    }
}

impl Data {
    /// The URL that a native specification fetches its data from.
    pub fn url_data(&self) -> (url: String)
        ensures
            url@ == self@,
    {
        match self {
            Data::Url(url) => url.clone(),
        }
    }
}

impl From<&str> for Data {
    fn from(value: &str) -> (data: Self)
        ensures
            data@ == value@,
    {
        Data::Url(value.to_string())
    }
}

impl vstd::std_specs::convert::FromSpecImpl<&str> for Data {
    /// The conversion is described by the `ensures` of `from`, over views: no two
    /// strings are known to be one value because they read the same.
    open spec fn obeys_from_spec() -> bool {
        false
    }

    open spec fn from_spec(value: &str) -> Data {
        arbitrary()
    }
}

/// How an axis of the chart takes its values from the data.
#[derive(Clone, Debug)]
pub enum EncodingAxis {
    /// The values come from the named field.
    Field(String),
}

impl View for EncodingAxis {
    type V = Seq<char>;

    /// The field's name.
    open spec fn view(&self) -> Seq<char> {
        match self {
            EncodingAxis::Field(name) => name@,
        }
    }
}

impl EncodingAxis {
    /// The position channel of the axis: its field, measured as a quantity.
    pub fn position_channel(&self) -> (channel: PositionChannel)
        ensures
            channel@ == position_of(self@),
    {
        match self {
            EncodingAxis::Field(name) => PositionChannel {
                field: name.clone(),
                def_type: StandardType::Quantitative,
            },
        }
    }
}

impl From<&str> for EncodingAxis {
    fn from(value: &str) -> (axis: Self)
        ensures
            axis@ == value@,
    {
        EncodingAxis::Field(value.to_string())
    }
}

impl vstd::std_specs::convert::FromSpecImpl<&str> for EncodingAxis {
    /// As for [`Data`]: the `ensures` of `from` says what the conversion gives.
    open spec fn obeys_from_spec() -> bool {
        false
    }

    open spec fn from_spec(value: &str) -> EncodingAxis {
        arbitrary()
    }
}

/// What a mark property, such as its colour, depends on.
#[derive(Clone, Debug)]
pub enum EncodingCondition {
    /// The property follows the named field.
    Field(String),
}

impl View for EncodingCondition {
    type V = Seq<char>;

    /// The field's name.
    open spec fn view(&self) -> Seq<char> {
        match self {
            EncodingCondition::Field(name) => name@,
        }
    }
}

impl EncodingCondition {
    /// The colour channel of the condition: its field.
    pub fn color_channel(&self) -> (channel: ColorChannel)
        ensures
            channel@ == self@,
    {
        match self {
            EncodingCondition::Field(name) => ColorChannel { field: name.clone() },
        }
    }
}

impl From<&str> for EncodingCondition {
    fn from(value: &str) -> (condition: Self)
        ensures
            condition@ == value@,
    {
        EncodingCondition::Field(value.to_string())
    }
}

impl vstd::std_specs::convert::FromSpecImpl<&str> for EncodingCondition {
    /// As for [`Data`]: the `ensures` of `from` says what the conversion gives.
    open spec fn obeys_from_spec() -> bool {
        false
    }

    open spec fn from_spec(value: &str) -> EncodingCondition {
        arbitrary()
    }
}

/// The content of a chart: what every contract of [`Procyon`] speaks of.
pub struct ChartModel {
    /// Where the data is fetched from.
    pub data_url: Seq<char>,
    /// The mark that is drawn.
    pub mark: Mark,
    /// The field on the horizontal axis, if one was chosen.
    pub x: Option<Seq<char>>,
    /// The field on the vertical axis, if one was chosen.
    pub y: Option<Seq<char>>,
    /// The field that colours the marks, if one was chosen.
    pub color: Option<Seq<char>>,
}

impl ChartModel {
    /// A chart as `Procyon::chart` makes it: a line, nothing encoded yet.
    pub open spec fn start(data_url: Seq<char>) -> ChartModel {
        ChartModel { data_url, mark: Mark::Line, x: None, y: None, color: None }
    }

    /// The chart after `mark_point`.
    pub open spec fn with_point(self) -> ChartModel {
        ChartModel { mark: Mark::Point, ..self }
    }

    /// The chart after `encode_axis`.
    pub open spec fn with_axis(self, x: Seq<char>, y: Seq<char>) -> ChartModel {
        ChartModel { x: Some(x), y: Some(y), ..self }
    }

    /// The chart after `encode_color`.
    pub open spec fn with_color(self, color: Seq<char>) -> ChartModel {
        ChartModel { color: Some(color), ..self }
    }

    /// The native specification of the chart for `schema`: the data URL and the mark
    /// as they are, each axis that is set as a quantitative position channel, the
    /// colour field if it is set, and nothing where the chart has nothing.
    pub open spec fn native(self, schema: Schema) -> NativeModel {
        NativeModel {
            schema,
            data_url: self.data_url,
            mark: self.mark,
            x: match self.x {
                Some(field) => Some(position_of(field)),
                None => None,
            },
            y: match self.y {
                Some(field) => Some(position_of(field)),
                None => None,
            },
            color: self.color,
        }
    }
}

/// Helpers to create a graph.
#[derive(Debug)]
pub struct Procyon {
    data: Data,
    mark: Mark,
    encode_x: Option<EncodingAxis>,
    encode_y: Option<EncodingAxis>,
    encode_color: Option<EncodingCondition>,
}

impl View for Procyon {
    type V = ChartModel;

    closed spec fn view(&self) -> ChartModel {
        ChartModel {
            data_url: self.data@,
            mark: self.mark,
            x: match self.encode_x {
                Some(axis) => Some(axis@),
                None => None,
            },
            y: match self.encode_y {
                Some(axis) => Some(axis@),
                None => None,
            },
            color: match self.encode_color {
                Some(condition) => Some(condition@),
                None => None,
            },
        }
    }
}

impl Procyon {
    /// The data source that the chart was created with.
    pub closed spec fn source(&self) -> Data {
        self.data
    }

    /// The encoding of the horizontal axis, as the last `encode_axis` converted it.
    pub closed spec fn x_axis(&self) -> Option<EncodingAxis> {
        self.encode_x
    }

    /// The encoding of the vertical axis, as the last `encode_axis` converted it.
    pub closed spec fn y_axis(&self) -> Option<EncodingAxis> {
        self.encode_y
    }

    /// The colour encoding, as the last `encode_color` converted it.
    pub closed spec fn color_condition(&self) -> Option<EncodingCondition> {
        self.encode_color
    }

    /// The view reads the converted values and nothing else.
    pub proof fn lemma_view(&self)
        ensures
            self@.data_url == self.source()@,
            self@.x == (match self.x_axis() {
                Some(axis) => Some(axis@),
                None => None,
            }),
            self@.y == (match self.y_axis() {
                Some(axis) => Some(axis@),
                None => None,
            }),
            self@.color == (match self.color_condition() {
                Some(condition) => Some(condition@),
                None => None,
            }),
    {
    }

    /// Create a basic chart based on the given data: a line chart with no encoding.
    ///
    /// The data source is `data` converted by `into`; for a `&str` that is the URL
    /// with the same text.
    pub fn chart<D: Into<Data>>(data: D) -> (chart: Self)
        ensures
            call_ensures(D::into, (data,), chart.source()),
            chart@ == ChartModel::start(chart.source()@),
    {
        Self { data: data.into(), mark: Mark::Line, encode_x: None, encode_y: None, encode_color: None }
    }

    /// Create a scatterplot: the mark becomes a point, the rest stays.
    pub fn mark_point(&mut self) -> (chart: &mut Self)
        ensures
            chart@ == old(self)@.with_point(),
            chart.source() == old(self).source(),
            chart.x_axis() == old(self).x_axis(),
            chart.y_axis() == old(self).y_axis(),
            chart.color_condition() == old(self).color_condition(),
            *final(self) == *final(chart),
    {
        self.mark = Mark::Point;
        self
    }

    /// Configure the X and Y axes: each takes the converted argument, the rest stays.
    pub fn encode_axis<X: Into<EncodingAxis>, Y: Into<EncodingAxis>>(&mut self, x: X, y: Y) -> (chart:
        &mut Self)
        ensures
            chart.x_axis() is Some,
            chart.y_axis() is Some,
            call_ensures(X::into, (x,), chart.x_axis()->0),
            call_ensures(Y::into, (y,), chart.y_axis()->0),
            chart@ == old(self)@.with_axis(chart.x_axis()->0@, chart.y_axis()->0@),
            chart.source() == old(self).source(),
            chart.color_condition() == old(self).color_condition(),
            *final(self) == *final(chart),
    {
        self.encode_x = Some(x.into());
        self.encode_y = Some(y.into());
        self
    }

    /// Configure the colour of the marks: it takes the converted argument, the rest stays.
    pub fn encode_color<C: Into<EncodingCondition>>(&mut self, color: C) -> (chart: &mut Self)
        ensures
            chart.color_condition() is Some,
            call_ensures(C::into, (color,), chart.color_condition()->0),
            chart@ == old(self)@.with_color(chart.color_condition()->0@),
            chart.source() == old(self).source(),
            chart.x_axis() == old(self).x_axis(),
            chart.y_axis() == old(self).y_axis(),
            *final(self) == *final(chart),
    {
        self.encode_color = Some(color.into());
        self
    }
}

impl Procyon {
    /// The native specification of the chart for the given schema.
    fn build_for(&self, schema: Schema) -> (spec: NativeSpec)
        ensures
            spec@ == self@.native(schema),
    {
        let x = match &self.encode_x {
            Some(axis) => Some(axis.position_channel()),
            None => None,
        };
        let y = match &self.encode_y {
            Some(axis) => Some(axis.position_channel()),
            None => None,
        };
        let color = match &self.encode_color {
            Some(condition) => Some(condition.color_channel()),
            None => None,
        };
        NativeSpec { schema, data_url: self.data.url_data(), mark: self.mark, x, y, color }
    }

    /// Build the graph as a Vega-Lite 3 specification.
    pub fn build_v3(&self) -> (spec: NativeSpec)
        ensures
            spec@ == self@.native(Schema::V3),
    {
        self.build_for(Schema::V3)
    }

    /// Build the graph as a Vega-Lite 4 specification.
    pub fn build_v4(&self) -> (spec: NativeSpec)
        ensures
            spec@ == self@.native(Schema::V4),
    {
        self.build_for(Schema::V4)
    }

    /// Build the graph, for the newest schema that the library knows.
    pub fn build(&self) -> (spec: NativeSpec)
        ensures
            spec@ == self@.native(Schema::V4),
    {
        self.build_v4()
    }
}

/// The three configuring calls may come in any order: each sets fields of its
/// own, so the chart that results is the same.
pub proof fn lemma_call_order(chart: ChartModel, x: Seq<char>, y: Seq<char>, color: Seq<char>)
    ensures
        chart.with_point().with_axis(x, y).with_color(color) == chart.with_point().with_color(
            color,
        ).with_axis(x, y),
        chart.with_point().with_axis(x, y).with_color(color) == chart.with_axis(x, y).with_point()
            .with_color(color),
        chart.with_point().with_axis(x, y).with_color(color) == chart.with_axis(x, y).with_color(
            color,
        ).with_point(),
        chart.with_point().with_axis(x, y).with_color(color) == chart.with_color(color).with_point()
            .with_axis(x, y),
        chart.with_point().with_axis(x, y).with_color(color) == chart.with_color(color).with_axis(
            x,
            y,
        ).with_point(),
{
}

/// Two of the configuring calls may change places, whatever else is called.
pub proof fn lemma_calls_commute(chart: ChartModel, x: Seq<char>, y: Seq<char>, color: Seq<char>)
    ensures
        chart.with_point().with_axis(x, y) == chart.with_axis(x, y).with_point(),
        chart.with_point().with_color(color) == chart.with_color(color).with_point(),
        chart.with_axis(x, y).with_color(color) == chart.with_color(color).with_axis(x, y),
{
}

/// A call that is repeated sets what it set before: marking the point twice is
/// marking it once, and of two calls that set the same fields the later one
/// decides, whatever was set before.
pub proof fn lemma_last_call_decides(
    chart: ChartModel,
    x: Seq<char>,
    y: Seq<char>,
    color: Seq<char>,
    earlier_x: Seq<char>,
    earlier_y: Seq<char>,
    earlier_color: Seq<char>,
)
    ensures
        chart.with_point().with_point() == chart.with_point(),
        chart.with_axis(earlier_x, earlier_y).with_axis(x, y) == chart.with_axis(x, y),
        chart.with_color(earlier_color).with_color(color) == chart.with_color(color),
        chart.with_axis(x, y).with_axis(x, y) == chart.with_axis(x, y),
        chart.with_color(color).with_color(color) == chart.with_color(color),
{
}

/// The built specification holds what the calls gave, exactly: the data URL, the
/// mark that was chosen, each axis as a quantitative channel of its field, and the
/// colour field. What no call set is absent from it.
pub proof fn lemma_built_as_called(
    data_url: Seq<char>,
    x: Seq<char>,
    y: Seq<char>,
    color: Seq<char>,
    schema: Schema,
)
    ensures
        ChartModel::start(data_url).native(schema) == (NativeModel {
            schema,
            data_url,
            mark: Mark::Line,
            x: None,
            y: None,
            color: None,
        }),
        ChartModel::start(data_url).with_point().native(schema).mark == Mark::Point,
        ChartModel::start(data_url).with_point().with_axis(x, y).with_color(color).native(schema)
            == (NativeModel {
            schema,
            data_url,
            mark: Mark::Point,
            x: Some(position_of(x)),
            y: Some(position_of(y)),
            color: Some(color),
        }),
        ChartModel::start(data_url).with_axis(x, y).native(schema) == (NativeModel {
            schema,
            data_url,
            mark: Mark::Line,
            x: Some(position_of(x)),
            y: Some(position_of(y)),
            color: None,
        }),
        ChartModel::start(data_url).with_color(color).native(schema) == (NativeModel {
            schema,
            data_url,
            mark: Mark::Line,
            x: None,
            y: None,
            color: Some(color),
        }),
{
}

/// The built specification reads each slot of the chart and nothing else: two
/// charts with the same content build the same specification, and the slots of
/// the specification give the content back.
pub proof fn lemma_native_reads_chart(chart: ChartModel, schema: Schema)
    ensures
        chart.native(schema).schema == schema,
        chart.native(schema).data_url == chart.data_url,
        chart.native(schema).mark == chart.mark,
        chart.native(schema).x is Some <==> chart.x is Some,
        chart.native(schema).y is Some <==> chart.y is Some,
        chart.x is Some ==> chart.native(schema).x->0 == position_of(chart.x->0),
        chart.y is Some ==> chart.native(schema).y->0 == position_of(chart.y->0),
        chart.native(schema).color == chart.color,
{
}

} // verus!
