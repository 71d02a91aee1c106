//! Decoding a forecast from a tree of JSON values. A field that the
//! document lacks, or gives as null, is empty; one of the wrong type, or
//! given twice, fails the whole document.

use vstd::prelude::*;
use crate::icon::{decodes_to, Icon};
use crate::model::{text_of, Block, Forecast, Point};
use crate::number::Number;
use crate::value::{find, lookup, Lookup, Member, Value};

verus! {

/// The fields that a forecast document is read by.
#[derive(Clone, Copy, Debug, PartialEq, Eq, Structural)]
pub enum Field {
    Currently,
    Minutely,
    Data,
    Summary,
    Icon,
    Temperature,
    ApparentTemperature,
    PrecipIntensity,
    PrecipProbability,
}

/// One step on the way from the document's root to a value in it.
#[derive(Clone, Copy, Debug, PartialEq, Eq, Structural)]
pub enum Step {
    /// Into the member of an object that holds the field.
    Key(Field),
    /// Into the item of an array at the index.
    Index(usize),
}

/// The one way decoding fails: the value at the end of `path` has not the
/// shape required there. The path starts at the value that was decoded.
#[derive(Clone, Debug, PartialEq, Eq)]
pub struct DecodeError {
    pub path: Vec<Step>,
}

impl Field {
    /// The name under which a document holds the field.
    pub open spec fn spec_name(self) -> Seq<char> {
        match self {
            Field::Currently => "currently"@,
            Field::Minutely => "minutely"@,
            Field::Data => "data"@,
            Field::Summary => "summary"@,
            Field::Icon => "icon"@,
            Field::Temperature => "temperature"@,
            Field::ApparentTemperature => "apparentTemperature"@,
            Field::PrecipIntensity => "precipIntensity"@,
            Field::PrecipProbability => "precipProbability"@,
        }
    }

    /// The name under which a document holds the field.
    pub fn name(&self) -> (name: &'static str)
        ensures
            name@ == self.spec_name(),
    {
        match self {
            Field::Currently => "currently",
            Field::Minutely => "minutely",
            Field::Data => "data",
            Field::Summary => "summary",
            Field::Icon => "icon",
            Field::Temperature => "temperature",
            Field::ApparentTemperature => "apparentTemperature",
            Field::PrecipIntensity => "precipIntensity",
            Field::PrecipProbability => "precipProbability",
        }
    }
}

impl DecodeError {
    /// The failure at the field `field` of the object that was decoded.
    pub fn at(field: Field) -> (error: DecodeError)
        ensures
            error.path@ == seq![Step::Key(field)],
    {
        let mut path: Vec<Step> = Vec::new();
        path.push(Step::Key(field));
        DecodeError { path }
    }

    /// The same failure, seen from one step further out.
    pub fn under(self, step: Step) -> (error: DecodeError)
        ensures
            error.path@ == seq![step] + self.path@,
    {
        let mut path = self.path;
        path.insert(0, step);
        proof {
            assert(path@ == seq![step] + self.path@);
        }
        DecodeError { path }
    }
}

/// The path of the failure at `field`.
pub open spec fn at_field(field: Field) -> Seq<Step> {
    seq![Step::Key(field)]
}

/// What an object holds for a field: nothing, the value of its one member
/// of that name, or a failure where several members have the name.
pub open spec fn held(members: Seq<Member>, field: Field) -> Result<Option<Value>, Seq<Step>> {
    match lookup(members, field.spec_name()) {
        Lookup::Absent => Ok(None),
        Lookup::Once(k) => Ok(Some(members[k as int].value)),
        Lookup::Repeated => Err(at_field(field)),
    }
}

/// What an object holds for an optional field: as `held`, but that a null
/// is nothing.
pub open spec fn given(members: Seq<Member>, field: Field) -> Result<Option<Value>, Seq<Step>> {
    match held(members, field) {
        Ok(Some(Value::Null)) => Ok(None),
        other => other,
    }
}

/// The number that an object gives for a field. Anything but a number fails.
pub open spec fn number_at(members: Seq<Member>, field: Field) -> Result<Option<Number>, Seq<Step>> {
    match given(members, field) {
        Ok(None) => Ok(None),
        Ok(Some(Value::Number(number))) => Ok(Some(number)),
        Ok(Some(_)) => Err(at_field(field)),
        Err(path) => Err(path),
    }
}

/// The text that an object gives for a field. Anything but a string fails.
pub open spec fn text_at(members: Seq<Member>, field: Field) -> Result<Option<Seq<char>>, Seq<Step>> {
    match given(members, field) {
        Ok(None) => Ok(None),
        Ok(Some(Value::Text(text))) => Ok(Some(text@)),
        Ok(Some(_)) => Err(at_field(field)),
        Err(path) => Err(path),
    }
}

/// Whether `icon` is what the optional code `code` decodes to.
pub open spec fn icon_of(code: Option<Seq<char>>, icon: Option<Icon>) -> bool {
    match code {
        Some(code) => icon is Some && decodes_to(code, icon->Some_0),
        None => icon is None,
    }
}

/// Whether a reading succeeds with `value`.
pub open spec fn gives<T>(reading: Result<T, Seq<Step>>, value: T) -> bool {
    reading is Ok && reading->Ok_0 == value
}

/// Whether a reading fails at `path`.
pub open spec fn fails<T>(reading: Result<T, Seq<Step>>, path: Seq<Step>) -> bool {
    reading is Err && reading->Err_0 == path
}

/// The failure of a reading, if it has one.
pub open spec fn fault_of<T>(reading: Result<T, Seq<Step>>) -> Option<Seq<Step>> {
    match reading {
        Ok(_) => None,
        Err(path) => Some(path),
    }
}

/// The first of two failures.
pub open spec fn or_else(first: Option<Seq<Step>>, second: Option<Seq<Step>>) -> Option<Seq<Step>> {
    if first is Some {
        first
    } else {
        second
    }
}

/// A failure further in, seen from outside the step `step`.
pub open spec fn beneath(step: Seq<Step>, inner: Option<Seq<Step>>) -> Option<Seq<Step>> {
    match inner {
        Some(path) => Some(step + path),
        None => None,
    }
}

/// Reads what an object holds for a field.
pub fn member<'a>(members: &'a Vec<Member>, field: Field) -> (found: Result<
    Option<&'a Value>,
    DecodeError,
>)
    ensures
        match found {
            Ok(Some(value)) => gives(held(members@, field), Some(*value)),
            Ok(None) => gives(held(members@, field), None),
            Err(error) => fails(held(members@, field), error.path@),
        },
{
    match find(members, field.name()) {
        Lookup::Absent => Ok(None),
        Lookup::Once(k) => Ok(Some(&members[k].value)),
        Lookup::Repeated => Err(DecodeError::at(field)),
    }
}

/// Reads an optional number.
pub fn number_field(members: &Vec<Member>, field: Field) -> (found: Result<
    Option<Number>,
    DecodeError,
>)
    ensures
        match found {
            Ok(number) => gives(number_at(members@, field), number),
            Err(error) => fails(number_at(members@, field), error.path@),
        },
{
    match member(members, field) {
        Ok(None) => Ok(None),
        Ok(Some(Value::Null)) => Ok(None),
        Ok(Some(Value::Number(number))) => Ok(Some(*number)),
        Ok(Some(_)) => Err(DecodeError::at(field)),
        Err(error) => Err(error),
    }
}

/// Reads an optional text.
pub fn text_field(members: &Vec<Member>, field: Field) -> (found: Result<
    Option<String>,
    DecodeError,
>)
    ensures
        match found {
            Ok(text) => gives(text_at(members@, field), text_of(text)),
            Err(error) => fails(text_at(members@, field), error.path@),
        },
{
    match member(members, field) {
        Ok(None) => Ok(None),
        Ok(Some(Value::Null)) => Ok(None),
        Ok(Some(Value::Text(text))) => Ok(Some(text.clone())),
        Ok(Some(_)) => Err(DecodeError::at(field)),
        Err(error) => Err(error),
    }
}

/// Reads an optional icon: a text, decoded as a code.
pub fn icon_field(members: &Vec<Member>, field: Field) -> (found: Result<
    Option<Icon>,
    DecodeError,
>)
    ensures
        match found {
            Ok(icon) => text_at(members@, field) is Ok && icon_of(
                text_at(members@, field)->Ok_0,
                icon,
            ),
            Err(error) => fails(text_at(members@, field), error.path@),
        },
{
    match text_field(members, field) {
        Ok(None) => Ok(None),
        Ok(Some(code)) => Ok(Some(Icon::from_code(code.as_str()))),
        Err(error) => Err(error),
    }
}

/// The first failure among the fields of a reading, taken in the order
/// temperature, apparent temperature, icon, intensity, probability,
/// summary.
pub open spec fn point_fields_fault(members: Seq<Member>) -> Option<Seq<Step>> {
    or_else(
        fault_of(number_at(members, Field::Temperature)),
        or_else(
            fault_of(number_at(members, Field::ApparentTemperature)),
            or_else(
                fault_of(text_at(members, Field::Icon)),
                or_else(
                    fault_of(number_at(members, Field::PrecipIntensity)),
                    or_else(
                        fault_of(number_at(members, Field::PrecipProbability)),
                        fault_of(text_at(members, Field::Summary)),
                    ),
                ),
            ),
        ),
    )
}

/// Where decoding `value` as a reading fails: at the value itself unless
/// it is an object, else at its first field that fails. `None` where it
/// does not fail.
pub open spec fn point_fault(value: Value) -> Option<Seq<Step>> {
    match value {
        Value::Object(members) => point_fields_fault(members@),
        _ => Some(Seq::empty()),
    }
}

/// Whether `point` holds, field by field, what the object `value` gives.
pub open spec fn is_point_of(value: Value, point: Point) -> bool {
    &&& value is Object
    &&& gives(number_at(value->Object_0@, Field::Temperature), point.temp)
    &&& gives(number_at(value->Object_0@, Field::ApparentTemperature), point.apparent_temp)
    &&& text_at(value->Object_0@, Field::Icon) is Ok
    &&& icon_of(text_at(value->Object_0@, Field::Icon)->Ok_0, point.icon)
    &&& gives(number_at(value->Object_0@, Field::PrecipIntensity), point.precip_intensity)
    &&& gives(number_at(value->Object_0@, Field::PrecipProbability), point.precip_probability)
    &&& gives(text_at(value->Object_0@, Field::Summary), text_of(point.summary))
}

/// Decodes one reading. Members that are no field of a reading are passed
/// over.
pub fn decode_point(value: &Value) -> (decoded: Result<Point, DecodeError>)
    ensures
        match decoded {
            Ok(point) => point_fault(*value) is None && is_point_of(*value, point),
            Err(error) => point_fault(*value) == Some(error.path@),
        },
{
    match value {
        Value::Object(members) => {
            let temp = match number_field(members, Field::Temperature) {
                Ok(field) => field,
                Err(error) => return Err(error),
            };
            let apparent_temp = match number_field(members, Field::ApparentTemperature) {
                Ok(field) => field,
                Err(error) => return Err(error),
            };
            let icon = match icon_field(members, Field::Icon) {
                Ok(field) => field,
                Err(error) => return Err(error),
            };
            let precip_intensity = match number_field(members, Field::PrecipIntensity) {
                Ok(field) => field,
                Err(error) => return Err(error),
            };
            let precip_probability = match number_field(members, Field::PrecipProbability) {
                Ok(field) => field,
                Err(error) => return Err(error),
            };
            let summary = match text_field(members, Field::Summary) {
                Ok(field) => field,
                Err(error) => return Err(error),
            };
            Ok(Point { temp, apparent_temp, icon, precip_intensity, precip_probability, summary })
        },
        _ => Err(DecodeError { path: Vec::new() }),
    }
}

/// Whether an object has no member by the field's name.
pub open spec fn lacks(members: Seq<Member>, field: Field) -> bool {
    lookup(members, field.spec_name()) is Absent
}

/// A reading never fails for want of a field: where decoding an object
/// as a reading fails, it fails at a field that the object has.
pub proof fn lemma_point_fails_at_present_field(value: Value)
    requires
        value is Object,
        point_fault(value) is Some,
    ensures
        exists|field: Field|
            point_fault(value) == Some(at_field(field)) && !lacks(value->Object_0@, field),
{
    let members = value->Object_0@;
    let field = if number_at(members, Field::Temperature) is Err {
        Field::Temperature
    } else if number_at(members, Field::ApparentTemperature) is Err {
        Field::ApparentTemperature
    } else if text_at(members, Field::Icon) is Err {
        Field::Icon
    } else if number_at(members, Field::PrecipIntensity) is Err {
        Field::PrecipIntensity
    } else if number_at(members, Field::PrecipProbability) is Err {
        Field::PrecipProbability
    } else {
        Field::Summary
    };
    assert(point_fault(value) == Some(at_field(field)) && !lacks(members, field));
}

/// An object with none of a reading's fields decodes without failure.
pub proof fn lemma_point_of_no_fields(value: Value)
    requires
        value is Object,
        lacks(value->Object_0@, Field::Temperature),
        lacks(value->Object_0@, Field::ApparentTemperature),
        lacks(value->Object_0@, Field::Icon),
        lacks(value->Object_0@, Field::PrecipIntensity),
        lacks(value->Object_0@, Field::PrecipProbability),
        lacks(value->Object_0@, Field::Summary),
    ensures
        point_fault(value) is None,
{
}

/// A field that the object lacks is empty in the reading decoded from
/// it; no number stands in for a missing one.
pub proof fn lemma_absent_field_is_empty(value: Value, point: Point)
    requires
        is_point_of(value, point),
    ensures
        lacks(value->Object_0@, Field::Temperature) ==> point.temp is None,
        lacks(value->Object_0@, Field::ApparentTemperature) ==> point.apparent_temp is None,
        lacks(value->Object_0@, Field::Icon) ==> point.icon is None,
        lacks(value->Object_0@, Field::PrecipIntensity) ==> point.precip_intensity is None,
        lacks(value->Object_0@, Field::PrecipProbability) ==> point.precip_probability is None,
        lacks(value->Object_0@, Field::Summary) ==> point.summary is None,
{
}

/// The items that an object gives as its series of readings: those of the
/// array under `data`, and none where there is no `data`.
pub open spec fn data_items(members: Seq<Member>) -> Seq<Value> {
    match held(members, Field::Data) {
        Ok(Some(Value::Array(items))) => items@,
        _ => Seq::empty(),
    }
}

/// The failure of the first item from index `from` on that fails as a
/// reading, seen from the array.
pub open spec fn items_fault(items: Seq<Value>, from: int) -> Option<Seq<Step>>
    decreases items.len() - from,
{
    if from < 0 || from >= items.len() {
        None
    } else {
        or_else(
            beneath(seq![Step::Index(from as usize)], point_fault(items[from])),
            items_fault(items, from + 1),
        )
    }
}

/// Where reading the series under `data` fails. No `data` is an empty
/// series; a `data` that is no array fails, a null too.
pub open spec fn data_fault(members: Seq<Member>) -> Option<Seq<Step>> {
    match held(members, Field::Data) {
        Ok(None) => None,
        Ok(Some(Value::Array(items))) => beneath(at_field(Field::Data), items_fault(items@, 0)),
        Ok(Some(_)) => Some(at_field(Field::Data)),
        Err(path) => Some(path),
    }
}

/// Where decoding `value` as a series fails: at the value itself unless it
/// is an object, else at the first failure among the readings, the
/// summary and the icon, in that order.
pub open spec fn block_fault(value: Value) -> Option<Seq<Step>> {
    match value {
        Value::Object(members) => or_else(
            data_fault(members@),
            or_else(
                fault_of(text_at(members@, Field::Summary)),
                fault_of(text_at(members@, Field::Icon)),
            ),
        ),
        _ => Some(Seq::empty()),
    }
}

/// Whether `points` are the readings that `items` give, one for one and
/// in order.
pub open spec fn are_points_of(items: Seq<Value>, points: Seq<Point>) -> bool {
    &&& points.len() == items.len()
    &&& forall|i: int| 0 <= i < items.len() ==> is_point_of(items[i], #[trigger] points[i])
}

/// Whether `block` holds what the object `value` gives.
pub open spec fn is_block_of(value: Value, block: Block) -> bool {
    &&& value is Object
    &&& are_points_of(data_items(value->Object_0@), block.data@)
    &&& gives(text_at(value->Object_0@, Field::Summary), text_of(block.summary))
    &&& text_at(value->Object_0@, Field::Icon) is Ok
    &&& icon_of(text_at(value->Object_0@, Field::Icon)->Ok_0, block.icon)
}

/// Decodes the items of an array as readings, in order, up to the first
/// that fails.
pub fn decode_points(items: &Vec<Value>) -> (decoded: Result<Vec<Point>, DecodeError>)
    ensures
        match decoded {
            Ok(points) => items_fault(items@, 0) is None && are_points_of(items@, points@),
            Err(error) => items_fault(items@, 0) == Some(error.path@),
        },
{
    let mut points: Vec<Point> = Vec::new();
    let mut i: usize = 0;
    while i < items.len()
        invariant
            i <= items.len(),
            points.len() == i,
            items_fault(items@, 0) == items_fault(items@, i as int),
            forall|j: int| 0 <= j < i ==> is_point_of(items@[j], #[trigger] points@[j]),
        decreases items.len() - i,
    {
        match decode_point(&items[i]) {
            Ok(point) => points.push(point),
            Err(error) => return Err(error.under(Step::Index(i))),
        }
        i += 1;
    }
    Ok(points)
}

/// Decodes a series of readings.
pub fn decode_block(value: &Value) -> (decoded: Result<Block, DecodeError>)
    ensures
        match decoded {
            Ok(block) => block_fault(*value) is None && is_block_of(*value, block),
            Err(error) => block_fault(*value) == Some(error.path@),
        },
{
    match value {
        Value::Object(members) => {
            let data = match member(members, Field::Data) {
                Ok(None) => Vec::new(),
                Ok(Some(Value::Array(items))) => match decode_points(items) {
                    Ok(points) => points,
                    Err(error) => return Err(error.under(Step::Key(Field::Data))),
                },
                Ok(Some(_)) => return Err(DecodeError::at(Field::Data)),
                Err(error) => return Err(error),
            };
            let summary = match text_field(members, Field::Summary) {
                Ok(field) => field,
                Err(error) => return Err(error),
            };
            let icon = match icon_field(members, Field::Icon) {
                Ok(field) => field,
                Err(error) => return Err(error),
            };
            Ok(Block { data, summary, icon })
        },
        _ => Err(DecodeError { path: Vec::new() }),
    }
}

/// Where decoding `value` as a forecast fails: at the value itself unless
/// it is an object, else in the present reading or, if that is sound, in
/// the series.
pub open spec fn forecast_fault(value: Value) -> Option<Seq<Step>> {
    match value {
        Value::Object(members) => or_else(
            match given(members@, Field::Currently) {
                Ok(None) => None,
                Ok(Some(inner)) => beneath(at_field(Field::Currently), point_fault(inner)),
                Err(path) => Some(path),
            },
            match given(members@, Field::Minutely) {
                Ok(None) => None,
                Ok(Some(inner)) => beneath(at_field(Field::Minutely), block_fault(inner)),
                Err(path) => Some(path),
            },
        ),
        _ => Some(Seq::empty()),
    }
}

/// Whether `forecast` holds what the object `value` gives: each section
/// that is there and not null, decoded; no other.
pub open spec fn is_forecast_of(value: Value, forecast: Forecast) -> bool {
    &&& value is Object
    &&& match given(value->Object_0@, Field::Currently) {
        Ok(Some(inner)) => forecast.currently is Some && is_point_of(
            inner,
            forecast.currently->Some_0,
        ),
        _ => forecast.currently is None,
    }
    &&& match given(value->Object_0@, Field::Minutely) {
        Ok(Some(inner)) => forecast.minutely is Some && is_block_of(
            inner,
            forecast.minutely->Some_0,
        ),
        _ => forecast.minutely is None,
    }
}

/// Decodes a forecast document. It fails as a whole or not at all: where
/// any value in it has the wrong shape, no forecast is returned, and the
/// error has the path to the first such value.
pub fn decode_forecast(value: &Value) -> (decoded: Result<Forecast, DecodeError>)
    ensures
        match decoded {
            Ok(forecast) => forecast_fault(*value) is None && is_forecast_of(*value, forecast),
            Err(error) => forecast_fault(*value) == Some(error.path@),
        },
{
    match value {
        Value::Object(members) => {
            let currently = match member(members, Field::Currently) {
                Ok(None) => None,
                Ok(Some(Value::Null)) => None,
                Ok(Some(inner)) => match decode_point(inner) {
                    Ok(point) => Some(point),
                    Err(error) => return Err(error.under(Step::Key(Field::Currently))),
                },
                Err(error) => return Err(error),
            };
            let minutely = match member(members, Field::Minutely) {
                Ok(None) => None,
                Ok(Some(Value::Null)) => None,
                Ok(Some(inner)) => match decode_block(inner) {
                    Ok(block) => Some(block),
                    Err(error) => return Err(error.under(Step::Key(Field::Minutely))),
                },
                Err(error) => return Err(error),
            };
            Ok(Forecast { currently, minutely })
        },
        _ => Err(DecodeError { path: Vec::new() }),
    }
}

} // verus!
