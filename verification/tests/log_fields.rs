use nexus_actor::log::field::{
    Encoder, Field, FieldType, RecordedValue, RecordingEncoder,
};

#[test]
fn bool_field_packs_into_the_payload() {
    let t = Field::bool("flag", true);
    assert_eq!(t.field_type, FieldType::Bool);
    assert_eq!(t.val, 1);
    let f = Field::bool("flag", false);
    assert_eq!(f.val, 0);
}

#[test]
fn integer_fields_keep_their_values() {
    assert_eq!(Field::int32("n", -7).val, -7);
    assert_eq!(Field::int64("n", -1_000_000_000_000).val, -1_000_000_000_000);
    assert_eq!(Field::uint("n", 7).val, 7);
    assert_eq!(Field::uint64("n", u64::MAX).val, -1);
    assert_eq!(Field::duration("d", 1_500_000).val, 1_500_000);
}

#[test]
fn string_like_fields_carry_their_text() {
    let s = Field::string("name", "mailbox");
    assert_eq!(s.field_type, FieldType::String);
    assert_eq!(s.str, "mailbox");
    let st = Field::stringer("shown", "rendered text".to_string());
    assert_eq!(st.obj, Some("rendered text".to_string()));
    let e = Field::error("boom".to_string());
    assert_eq!(e.key, "error");
    assert_eq!(e.field_type, FieldType::Error);
    let o = Field::object("payload", "dump".to_string());
    assert_eq!(o.field_type, FieldType::Object);
    let ty = Field::type_of("ty", "Mailbox".to_string());
    assert_eq!(ty.obj, Some("Mailbox".to_string()));
    let m = Field::message("hello".to_string());
    assert_eq!(m.key, "message");
    assert_eq!(m.field_type, FieldType::Object);
}

#[test]
fn fields_compare_on_observable_parts() {
    assert!(Field::int32("a", 1) == Field::int32("a", 1));
    assert!(Field::int32("a", 1) != Field::int32("a", 2));
    assert!(Field::int32("a", 1) != Field::int32("b", 1));
    assert!(Field::string("a", "x") != Field::string("a", "y"));
}

#[test]
fn encode_writes_one_entry_per_plain_field() {
    let mut enc = RecordingEncoder::new();
    Field::bool("b", true).encode(&mut enc);
    Field::int32("i", -3).encode(&mut enc);
    Field::uint64("u", 9).encode(&mut enc);
    Field::string("s", "txt").encode(&mut enc);
    Field::duration("d", 250).encode(&mut enc);
    assert_eq!(enc.len(), 5);
    let e0 = enc.entry_at(0);
    assert_eq!(e0.0, "b");
    assert!(matches!(e0.1, RecordedValue::Bool(true)));
    let e1 = enc.entry_at(1);
    assert!(matches!(e1.1, RecordedValue::Int(-3)));
    let e2 = enc.entry_at(2);
    assert!(matches!(e2.1, RecordedValue::Uint64(9)));
    let e3 = enc.entry_at(3);
    match &e3.1 {
        RecordedValue::Str(s) => assert_eq!(s, "txt"),
        other => panic!("unexpected entry {:?}", other),
    }
    let e4 = enc.entry_at(4);
    assert!(matches!(e4.1, RecordedValue::DurationNanos(250)));
}

#[test]
fn encode_renders_object_backed_fields() {
    let mut enc = RecordingEncoder::new();
    Field::stringer("s", "shown".to_string()).encode(&mut enc);
    Field::error("broke".to_string()).encode(&mut enc);
    Field::object("o", "body".to_string()).encode(&mut enc);
    Field::type_of("t", "Pid".to_string()).encode(&mut enc);
    assert_eq!(enc.len(), 4);
    match &enc.entry_at(0).1 {
        RecordedValue::Str(s) => assert_eq!(s, "shown"),
        other => panic!("unexpected entry {:?}", other),
    }
    match &enc.entry_at(1).1 {
        RecordedValue::Str(s) => assert_eq!(s, "broke"),
        other => panic!("unexpected entry {:?}", other),
    }
    assert!(matches!(enc.entry_at(2).1, RecordedValue::Object(_)));
    assert!(matches!(enc.entry_at(3).1, RecordedValue::TypeName(_)));
}

#[test]
fn float_bits_round_trip_through_encode() {
    let bits = 4614256656552045848u64;
    let f = Field::float64_bits("pi", bits);
    assert_eq!(f.field_type, FieldType::Float);
    let mut enc = RecordingEncoder::new();
    f.encode(&mut enc);
    match enc.entry_at(0).1 {
        RecordedValue::FloatBits(b) => assert_eq!(b, bits),
        ref other => panic!("unexpected entry {:?}", other),
    }
}
