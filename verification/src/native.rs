//! The native specification: what a chart hands to a Vega-Lite binding.
//!
//! A [`NativeSpec`] holds, as plain values, one entry for each slot of a Vega-Lite
//! top-level specification that a chart fills. A binding turns it into that
//! schema's own type, slot by slot.

use vstd::prelude::*;
use crate::chart::Mark;

verus! {

/// The Vega-Lite schema that a native specification is written for.
#[derive(Clone, Copy, Debug, PartialEq, Eq, Structural)]
pub enum Schema {
    /// Vega-Lite 3.
    V3,
    /// Vega-Lite 4.
    V4,
}

/// The type of measurement of an encoded field.
#[derive(Clone, Copy, Debug, PartialEq, Eq, Structural)]
pub enum StandardType {
    /// Categories without an order.
    Nominal,
    /// Categories with an order.
    Ordinal,
    /// Numbers.
    Quantitative,
    /// Dates and times.
    Temporal,
}

/// A position channel, `x` or `y`: the field it shows and how the field is measured.
#[derive(Clone, Debug, PartialEq, Eq)]
pub struct PositionChannel {
    /// The name of the field.
    pub field: String,
    /// The type of measurement of the field.
    pub def_type: StandardType,
}

/// The content of a [`PositionChannel`].
pub struct PositionModel {
    /// The name of the field.
    pub field: Seq<char>,
    /// The type of measurement of the field.
    pub def_type: StandardType,
}

impl View for PositionChannel {
    type V = PositionModel;

    open spec fn view(&self) -> PositionModel {
        PositionModel { field: self.field@, def_type: self.def_type }
    }
}

/// The colour channel: the field that the colour of a mark follows.
#[derive(Clone, Debug, PartialEq, Eq)]
pub struct ColorChannel {
    /// The name of the field.
    pub field: String,
}

impl View for ColorChannel {
    type V = Seq<char>;

    /// The field's name.
    open spec fn view(&self) -> Seq<char> {
        self.field@
    }
}

/// What a chart hands to a Vega-Lite binding.
#[derive(Clone, Debug, PartialEq, Eq)]
pub struct NativeSpec {
    /// The schema that the specification is written for.
    pub schema: Schema,
    /// The URL of the data.
    pub data_url: String,
    /// The mark.
    pub mark: Mark,
    /// The `x` channel of the encoding, if it is set.
    pub x: Option<PositionChannel>,
    /// The `y` channel of the encoding, if it is set.
    pub y: Option<PositionChannel>,
    /// The `color` channel of the encoding, if it is set.
    pub color: Option<ColorChannel>,
}

/// The content of a [`NativeSpec`].
pub struct NativeModel {
    /// The schema that the specification is written for.
    pub schema: Schema,
    /// The URL of the data.
    pub data_url: Seq<char>,
    /// The mark.
    pub mark: Mark,
    /// The `x` channel of the encoding, if it is set.
    pub x: Option<PositionModel>,
    /// The `y` channel of the encoding, if it is set.
    pub y: Option<PositionModel>,
    /// The field of the `color` channel, if it is set.
    pub color: Option<Seq<char>>,
}

impl View for NativeSpec {
    type V = NativeModel;

    open spec fn view(&self) -> NativeModel {
        NativeModel {
            schema: self.schema,
            data_url: self.data_url@,
            mark: self.mark,
            x: match self.x {
                Some(channel) => Some(channel@),
                None => None,
            },
            y: match self.y {
                Some(channel) => Some(channel@),
                None => None,
            },
            color: match self.color {
                Some(channel) => Some(channel@),
                None => None,
            },
        }
    }
}

/// The position channel that shows `field`: a chart's axes are quantitative.
pub open spec fn position_of(field: Seq<char>) -> PositionModel {
    PositionModel { field, def_type: StandardType::Quantitative }
}

} // verus!
