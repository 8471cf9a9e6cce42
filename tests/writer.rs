use gdal_vector::error::{ErrorKind, OgrCall, OgrErr};
use gdal_vector::field::FieldValue;
use gdal_vector::writer::{FeatureWriter, WriteAction, WriteEvent};

fn ok_status() -> WriteEvent {
    WriteEvent::Status(OgrErr::NoError)
}

#[test]
fn name_and_pop_feature_is_written_field_by_field() {
    let values = vec![FieldValue::StringValue("A".to_string()), FieldValue::IntegerValue(5)];
    let mut w = FeatureWriter::create_feature_fields(&["name", "pop"], &values).unwrap();
    assert!(matches!(w.action(), WriteAction::AttachGeometry));
    w.step(ok_status());
    match w.action() {
        WriteAction::LookupField(s) => assert_eq!(s, "name"),
        other => panic!("unexpected action {:?}", other),
    }
    w.step(WriteEvent::FieldIndex(0));
    match w.action() {
        WriteAction::SetString(idx, s) => {
            assert_eq!(idx, 0);
            assert_eq!(s, "A");
        }
        other => panic!("unexpected action {:?}", other),
    }
    w.step(WriteEvent::Applied);
    match w.action() {
        WriteAction::LookupField(s) => assert_eq!(s, "pop"),
        other => panic!("unexpected action {:?}", other),
    }
    w.step(WriteEvent::FieldIndex(1));
    match w.action() {
        WriteAction::SetInteger(idx, v) => {
            assert_eq!(idx, 1);
            assert_eq!(v, 5);
        }
        other => panic!("unexpected action {:?}", other),
    }
    w.step(WriteEvent::Applied);
    assert!(matches!(w.action(), WriteAction::Submit));
    w.step(ok_status());
    assert!(matches!(w.action(), WriteAction::Finish(Ok(()))));
}

#[test]
fn mismatched_lengths_are_refused() {
    let values = vec![FieldValue::IntegerValue(1)];
    let r = FeatureWriter::create_feature_fields(&["a", "b"], &values);
    match r {
        Err(e) => assert_eq!(e, ErrorKind::FieldCountMismatch { names: 2, values: 1 }),
        Ok(_) => panic!("lengths differ"),
    }
    let values = vec![FieldValue::IntegerValue(1), FieldValue::IntegerValue(2)];
    let r = FeatureWriter::create_feature_fields(&["a"], &values);
    match r {
        Err(e) => assert_eq!(e, ErrorKind::FieldCountMismatch { names: 1, values: 2 }),
        Ok(_) => panic!("lengths differ"),
    }
}

#[test]
fn empty_field_lists_are_accepted() {
    let values: Vec<FieldValue> = Vec::new();
    let mut w = FeatureWriter::create_feature_fields(&[], &values).unwrap();
    w.step(ok_status());
    assert!(matches!(w.action(), WriteAction::Submit));
}

#[test]
fn feature_without_fields_goes_straight_to_submit() {
    let mut w = FeatureWriter::create_feature();
    assert!(matches!(w.action(), WriteAction::AttachGeometry));
    w.step(ok_status());
    assert!(matches!(w.action(), WriteAction::Submit));
    w.step(ok_status());
    assert!(matches!(w.action(), WriteAction::Finish(Ok(()))));
}

#[test]
fn values_are_handed_on_unchanged() {
    let bits = 2.5f64.to_bits();
    let values = vec![
        FieldValue::StringValue("x".to_string()),
        FieldValue::IntegerValue(i32::MIN),
        FieldValue::RealValue(bits),
    ];
    let mut w = FeatureWriter::create_feature_fields(&["s", "i", "r"], &values).unwrap();
    w.step(ok_status());
    w.step(WriteEvent::FieldIndex(7));
    match w.action() {
        WriteAction::SetString(7, s) => assert_eq!(s, "x"),
        other => panic!("unexpected action {:?}", other),
    }
    w.step(WriteEvent::Applied);
    w.step(WriteEvent::FieldIndex(8));
    match w.action() {
        WriteAction::SetInteger(8, v) => assert_eq!(v, i32::MIN),
        other => panic!("unexpected action {:?}", other),
    }
    w.step(WriteEvent::Applied);
    w.step(WriteEvent::FieldIndex(9));
    match w.action() {
        WriteAction::SetDouble(9, v) => assert_eq!(f64::from_bits(v), 2.5),
        other => panic!("unexpected action {:?}", other),
    }
}

#[test]
fn geometry_failure_stops_the_write() {
    let values = vec![FieldValue::IntegerValue(3)];
    let mut w = FeatureWriter::create_feature_fields(&["n"], &values).unwrap();
    w.step(WriteEvent::Status(OgrErr::UnsupportedGeometryType));
    let expected = ErrorKind::OgrError(OgrErr::UnsupportedGeometryType, OgrCall::SetGeometryDirectly);
    match w.action() {
        WriteAction::Finish(Err(e)) => assert_eq!(e, expected),
        other => panic!("unexpected action {:?}", other),
    }
    w.step(ok_status());
    w.step(WriteEvent::Applied);
    match w.action() {
        WriteAction::Finish(Err(e)) => assert_eq!(e, expected),
        other => panic!("unexpected action {:?}", other),
    }
}

#[test]
fn submit_failure_is_reported() {
    let mut w = FeatureWriter::create_feature();
    w.step(ok_status());
    w.step(WriteEvent::Status(OgrErr::Failure));
    match w.action() {
        WriteAction::Finish(Err(e)) => {
            assert_eq!(e, ErrorKind::OgrError(OgrErr::Failure, OgrCall::CreateFeature))
        }
        other => panic!("unexpected action {:?}", other),
    }
}

#[test]
fn events_out_of_turn_are_ignored() {
    let values = vec![FieldValue::IntegerValue(3)];
    let mut w = FeatureWriter::create_feature_fields(&["n"], &values).unwrap();
    w.step(WriteEvent::Applied);
    w.step(WriteEvent::FieldIndex(4));
    assert!(matches!(w.action(), WriteAction::AttachGeometry));
    w.step(ok_status());
    w.step(ok_status());
    match w.action() {
        WriteAction::LookupField(s) => assert_eq!(s, "n"),
        other => panic!("unexpected action {:?}", other),
    }
}
