use gdal_vector::cursor::FeatureCursor;
use gdal_vector::error::{check_status, ErrorKind, OgrCall, OgrErr};
use gdal_vector::field::{create_defn_fields, FieldDefn, FieldType};

#[test]
fn new_field_defn_has_unspecified_width_and_precision() {
    let f = FieldDefn::new("name", FieldType::String);
    assert_eq!(f.name, "name");
    assert_eq!(f.field_type, FieldType::String);
    assert_eq!(f.width, 0);
    assert_eq!(f.precision, 0);
}

#[test]
fn width_and_precision_are_set_independently() {
    let mut f = FieldDefn::new("area", FieldType::Real);
    f.set_width(12);
    f.set_precision(3);
    assert_eq!(f.width, 12);
    assert_eq!(f.precision, 3);
    f.set_width(8);
    assert_eq!(f.width, 8);
    assert_eq!(f.precision, 3);
    assert_eq!(f.name, "area");
}

#[test]
fn defn_fields_keep_their_order() {
    let specs = vec![("name".to_string(), FieldType::String), ("pop".to_string(), FieldType::Integer)];
    let defs = create_defn_fields(&specs);
    assert_eq!(defs.len(), 2);
    assert_eq!(defs[0].name, "name");
    assert_eq!(defs[0].field_type, FieldType::String);
    assert_eq!(defs[1].name, "pop");
    assert_eq!(defs[1].field_type, FieldType::Integer);
    assert!(create_defn_fields(&Vec::new()).is_empty());
}

#[test]
fn status_becomes_result() {
    assert_eq!(check_status(OgrErr::NoError, OgrCall::CreateField), Ok(()));
    assert_eq!(
        check_status(OgrErr::InvalidHandle, OgrCall::CreateField),
        Err(ErrorKind::OgrError(OgrErr::InvalidHandle, OgrCall::CreateField))
    );
}

#[test]
fn call_names_are_the_native_ones() {
    assert_eq!(OgrCall::SetGeometryDirectly.name(), "OGR_F_SetGeometryDirectly");
    assert_eq!(OgrCall::CreateFeature.name(), "OGR_L_CreateFeature");
    assert_eq!(OgrCall::CreateField.name(), "OGR_L_CreateField");
}

#[test]
fn cursor_yields_until_the_end_and_then_stays_exhausted() {
    let mut c = FeatureCursor::new();
    assert!(c.wants_fetch());
    assert!(c.advance(true));
    assert!(c.advance(true));
    assert!(!c.advance(false));
    assert!(!c.wants_fetch());
    assert!(!c.advance(true));
}

#[test]
fn native_codes_map_to_statuses() {
    assert_eq!(OgrErr::from_code(0), OgrErr::NoError);
    assert_eq!(OgrErr::from_code(3), OgrErr::UnsupportedGeometryType);
    assert_eq!(OgrErr::from_code(6), OgrErr::Failure);
    assert_eq!(OgrErr::from_code(9), OgrErr::NonExistingFeature);
    assert_eq!(OgrErr::from_code(42), OgrErr::Failure);
    assert_eq!(OgrErr::from_code(-1), OgrErr::Failure);
}

#[test]
fn field_types_have_native_codes() {
    assert_eq!(FieldType::Integer.code(), 0);
    assert_eq!(FieldType::String.code(), 4);
    assert_eq!(FieldType::DateTime.code(), 11);
    assert_eq!(FieldType::Integer64List.code(), 13);
}
