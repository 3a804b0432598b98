use vstd::prelude::*;
use influx_db_client::{Point, Value};

verus! {

/// A point of the metrics store, as `influx_db_client` builds it.
#[verifier::external_type_specification]
#[verifier::external_body]
pub struct ExPoint(Point);

/// The measurement name of a point.
pub uninterp spec fn point_measurement(p: Point) -> Seq<char>;

/// The tags of a point whose value is a string, by tag name.
pub uninterp spec fn point_string_tags(p: Point) -> Map<Seq<char>, Seq<char>>;

/// The fields of a point whose value is an integer, by field name.
pub uninterp spec fn point_integer_fields(p: Point) -> Map<Seq<char>, i64>;

/// The names of all tags of a point, whatever their values.
pub uninterp spec fn point_tag_names(p: Point) -> Set<Seq<char>>;

/// The names of all fields of a point, whatever their values.
pub uninterp spec fn point_field_names(p: Point) -> Set<Seq<char>>;

/// The timestamp of a point, if it has one.
pub uninterp spec fn point_timestamp(p: Point) -> Option<i64>;

/// No name at all.
pub open spec fn no_names() -> Set<Seq<char>> {
    Set::empty()
}

/// No string tag at all.
pub open spec fn no_string_tags() -> Map<Seq<char>, Seq<char>> {
    Map::empty()
}

/// No integer field at all.
pub open spec fn no_integer_fields() -> Map<Seq<char>, i64> {
    Map::empty()
}

/// Calls `influx_db_client::Point::new`, which makes a point with the given
/// measurement name, no tag, no field and no timestamp; the contract claims all four.
#[verifier::external_body]
pub(crate) fn new_point(measurement: &str) -> (p: Point)
    ensures
        point_measurement(p) == measurement@,
        point_string_tags(p) == no_string_tags(),
        point_integer_fields(p) == no_integer_fields(),
        point_tag_names(p) == no_names(),
        point_field_names(p) == no_names(),
        point_timestamp(p) == None::<i64>,
{
    Point::new(measurement)
}

/// Calls `influx_db_client::Point::add_tag` with a string value. The method inserts
/// the tag into the point's tag map, replacing any value it had; the contract claims
/// that the string tags and the tag names gain this one, and that the name, the
/// fields and the timestamp stay.
#[verifier::external_body]
pub(crate) fn add_string_tag(p: &mut Point, tag: &str, value: &str)
    ensures
        point_measurement(*final(p)) == point_measurement(*old(p)),
        point_string_tags(*final(p)) == point_string_tags(*old(p)).insert(tag@, value@),
        point_integer_fields(*final(p)) == point_integer_fields(*old(p)),
        point_tag_names(*final(p)) == point_tag_names(*old(p)).insert(tag@),
        point_field_names(*final(p)) == point_field_names(*old(p)),
        point_timestamp(*final(p)) == point_timestamp(*old(p)),
{
    p.add_tag(tag, Value::String(value.to_string()));
}

/// Calls `influx_db_client::Point::add_field` with an integer value. The method
/// inserts the field into the point's field map, replacing any value it had; the
/// contract claims that the integer fields and the field names gain this one, and
/// that the name, the tags and the timestamp stay.
#[verifier::external_body]
pub(crate) fn add_integer_field(p: &mut Point, field: &str, value: i64)
    ensures
        point_measurement(*final(p)) == point_measurement(*old(p)),
        point_string_tags(*final(p)) == point_string_tags(*old(p)),
        point_integer_fields(*final(p)) == point_integer_fields(*old(p)).insert(field@, value),
        point_tag_names(*final(p)) == point_tag_names(*old(p)),
        point_field_names(*final(p)) == point_field_names(*old(p)).insert(field@),
        point_timestamp(*final(p)) == point_timestamp(*old(p)),
{
    p.add_field(field, Value::Integer(value));
}

} // verus!
