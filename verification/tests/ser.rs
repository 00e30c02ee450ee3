use slog_telegraf::{TelegrafSocketSerializer, TypedValue};

#[test]
fn test_tag_serializer() {
    let mut serializer = TelegrafSocketSerializer::start("test_measurement", None).unwrap();
    let mut tag_serializer = serializer.tag_serializer();

    tag_serializer.emit_none("none").unwrap();
    tag_serializer.emit_unit("unit").unwrap();
    tag_serializer.emit_bool("bool1", false).unwrap();
    tag_serializer.emit_bool("bool0", true).unwrap();
    tag_serializer.emit_char("char0", 'x').unwrap();
    tag_serializer.emit_str("string1", "1.2.1").unwrap();
    tag_serializer.emit_str("string0", "foo").unwrap();
    tag_serializer.emit_float("float1", &format!("{}", -105.2 as f64)).unwrap();
    tag_serializer.emit_float("float0", &format!("{}", (13.2 as f32) as f64)).unwrap();
    tag_serializer.emit_i64("int9", -2_000_000_000_000 as i64).unwrap();
    tag_serializer.emit_u64("int8", 2_000_000_000_000 as u64).unwrap();
    tag_serializer.emit_isize("int7", -2_000_000_000 as isize).unwrap();
    tag_serializer.emit_usize("int6", 2_000_000_000 as usize).unwrap();
    tag_serializer.emit_i32("int5", -2_000_000_000 as i32).unwrap();
    tag_serializer.emit_u32("int4", 2_000_000_000 as u32).unwrap();
    tag_serializer.emit_i16("int3", -10000 as i16).unwrap();
    tag_serializer.emit_u16("int2", 10000 as u16).unwrap();
    tag_serializer.emit_i8("int1", -10 as i8).unwrap();
    tag_serializer.emit_u8("int0", 10 as u8).unwrap();
    serializer.tag_value_break().unwrap();

    let field_serializer = serializer.field_serializer();
    let insert_dummy_field = field_serializer.skip_comma;
    assert_eq!(insert_dummy_field, true);

    let data = serializer.end(insert_dummy_field).unwrap();
    assert_eq!(data, "test_measurement,none=f,unit=0,bool1=f,bool0=t,char0=\"x\",string1=\"1.2.1\",string0=\"foo\",float1=-105.2,float0=13.199999809265137,int9=-2000000000000i,int8=2000000000000i,int7=-2000000000i,int6=2000000000i,int5=-2000000000i,int4=2000000000i,int3=-10000i,int2=10000i,int1=-10i,int0=10i _dummy=1i\n");
}

#[test]
fn test_field_serializer() {
    let mut serializer = TelegrafSocketSerializer::start("test_measurement", None).unwrap();
    serializer.tag_value_break().unwrap();
    let mut field_serializer = serializer.field_serializer();

    field_serializer.emit_none("none").unwrap();
    field_serializer.emit_unit("unit").unwrap();
    field_serializer.emit_bool("bool1", false).unwrap();
    field_serializer.emit_bool("bool0", true).unwrap();
    field_serializer.emit_char("char0", 'x').unwrap();
    field_serializer.emit_str("string1", "1.2.1").unwrap();
    field_serializer.emit_str("string0", "foo").unwrap();
    field_serializer.emit_float("float1", &format!("{}", -105.2 as f64)).unwrap();
    field_serializer.emit_float("float0", &format!("{}", (13.2 as f32) as f64)).unwrap();
    field_serializer.emit_i64("int9", -2_000_000_000_000 as i64).unwrap();
    field_serializer.emit_u64("int8", 2_000_000_000_000 as u64).unwrap();
    field_serializer.emit_isize("int7", -2_000_000_000 as isize).unwrap();
    field_serializer.emit_usize("int6", 2_000_000_000 as usize).unwrap();
    field_serializer.emit_i32("int5", -2_000_000_000 as i32).unwrap();
    field_serializer.emit_u32("int4", 2_000_000_000 as u32).unwrap();
    field_serializer.emit_i16("int3", -10000 as i16).unwrap();
    field_serializer.emit_u16("int2", 10000 as u16).unwrap();
    field_serializer.emit_i8("int1", -10 as i8).unwrap();
    field_serializer.emit_u8("int0", 10 as u8).unwrap();

    let insert_dummy_field = field_serializer.skip_comma;
    assert_eq!(insert_dummy_field, false);

    let data = serializer.end(insert_dummy_field).unwrap();

    assert_eq!(data, "test_measurement none=f,unit=0,bool1=f,bool0=t,char0=\"x\",string1=\"1.2.1\",string0=\"foo\",float1=-105.2,float0=13.199999809265137,int9=-2000000000000i,int8=2000000000000i,int7=-2000000000i,int6=2000000000i,int5=-2000000000i,int4=2000000000i,int3=-10000i,int2=10000i,int1=-10i,int0=10i\n");
}

fn one_field(key: &str, value: TypedValue) -> String {
    let mut serializer = TelegrafSocketSerializer::start("m", None).unwrap();
    serializer.tag_value_break().unwrap();
    let mut field_serializer = serializer.field_serializer();
    field_serializer.emit(key, &value).unwrap();
    serializer.end(false).unwrap()
}

fn second_field(key: &str, value: TypedValue) -> String {
    let mut serializer = TelegrafSocketSerializer::start("m", None).unwrap();
    serializer.tag_value_break().unwrap();
    let mut field_serializer = serializer.field_serializer();
    field_serializer.emit_unit("a").unwrap();
    field_serializer.emit(key, &value).unwrap();
    serializer.end(false).unwrap()
}

fn one_tag(key: &str, value: TypedValue) -> String {
    let mut serializer = TelegrafSocketSerializer::start("m", None).unwrap();
    let mut tag_serializer = serializer.tag_serializer();
    tag_serializer.emit(key, &value).unwrap();
    serializer.end(false).unwrap()
}

fn every_kind() -> Vec<(TypedValue, &'static str)> {
    vec![
        (TypedValue::U8(255), "255i"),
        (TypedValue::I8(-128), "-128i"),
        (TypedValue::U16(65535), "65535i"),
        (TypedValue::I16(-32768), "-32768i"),
        (TypedValue::U32(4294967295), "4294967295i"),
        (TypedValue::I32(-2147483648), "-2147483648i"),
        (TypedValue::U64(9223372036854775807), "9223372036854775807i"),
        (TypedValue::I64(-9223372036854775808), "-9223372036854775808i"),
        (TypedValue::Usize(0), "0i"),
        (TypedValue::Isize(-1), "-1i"),
        (TypedValue::Float("-105.2".to_string()), "-105.2"),
        (TypedValue::Bool(true), "t"),
        (TypedValue::Bool(false), "f"),
        (TypedValue::Char('x'), "\"x\""),
        (TypedValue::Str("foo".to_string()), "\"foo\""),
        (TypedValue::Arguments("msg_foo".to_string()), "\"msg_foo\""),
        (TypedValue::Unit, "0"),
        (TypedValue::Absent, "f"),
    ]
}

#[test]
fn first_field_of_every_kind_has_no_comma() {
    for (value, literal) in every_kind() {
        assert_eq!(one_field("key", value), format!("m key={}\n", literal));
    }
}

#[test]
fn later_field_of_every_kind_follows_a_comma() {
    for (value, literal) in every_kind() {
        assert_eq!(second_field("key", value), format!("m a=0,key={}\n", literal));
    }
}

#[test]
fn tag_of_every_kind_follows_a_comma() {
    for (value, literal) in every_kind() {
        assert_eq!(one_tag("key", value), format!("m,key={}\n", literal));
    }
}

#[test]
fn integer_round_trips_as_decimal_and_i() {
    assert_eq!(one_field("int", TypedValue::I64(-2000000000000)), "m int=-2000000000000i\n");
    for v in [i64::MIN, -1, 0, 1, 9, 10, 99, 100, 12345678901234, i64::MAX] {
        let line = one_field("k", TypedValue::I64(v));
        let text = line.strip_prefix("m k=").unwrap().strip_suffix("i\n").unwrap();
        assert_eq!(text.parse::<i64>().unwrap(), v);
        assert_eq!(text, v.to_string());
    }
}

#[test]
fn unsigned_above_the_signed_range_wraps_round() {
    assert_eq!(one_field("k", TypedValue::U64(u64::MAX)), "m k=-1i\n");
    assert_eq!(
        one_field("k", TypedValue::U64(9223372036854775808)),
        "m k=-9223372036854775808i\n"
    );
    assert_eq!(one_field("k", TypedValue::Usize(usize::MAX)), format!("m k={}i\n", usize::MAX as i64));
}

#[test]
fn booleans_and_markers() {
    assert_eq!(one_field("k", TypedValue::Bool(true)), "m k=t\n");
    assert_eq!(one_field("k", TypedValue::Bool(false)), "m k=f\n");
    assert_eq!(one_field("k", TypedValue::Unit), "m k=0\n");
    assert_eq!(one_field("k", TypedValue::Absent), "m k=f\n");
}

#[test]
fn strings_are_quoted_and_not_escaped() {
    assert_eq!(one_field("k", TypedValue::Str("a\"b\\c".to_string())), "m k=\"a\"b\\c\"\n");
    assert_eq!(one_field("k", TypedValue::Str(String::new())), "m k=\"\"\n");
    assert_eq!(one_field("k", TypedValue::Char('"')), "m k=\"\"\"\n");
    assert_eq!(one_field("k", TypedValue::Arguments("a, b=c".to_string())), "m k=\"a, b=c\"\n");
    assert_eq!(one_field("k", TypedValue::Str("héllo ✓".to_string())), "m k=\"héllo ✓\"\n");
}

#[test]
fn section_break_is_one_space_and_resets_the_comma() {
    let mut serializer = TelegrafSocketSerializer::start("m", None).unwrap();
    let mut tag_serializer = serializer.tag_serializer();
    tag_serializer.emit_u8("t", 1).unwrap();
    serializer.tag_value_break().unwrap();
    let mut field_serializer = serializer.field_serializer();
    assert!(field_serializer.skip_comma);
    field_serializer.emit_u8("f", 2).unwrap();
    assert!(!field_serializer.skip_comma);
    field_serializer.emit_u8("g", 3).unwrap();
    assert!(!field_serializer.skip_comma);
    assert_eq!(serializer.end(false).unwrap(), "m,t=1i f=2i,g=3i\n");
}

#[test]
fn maybe_write_comma_skips_once() {
    let mut serializer = TelegrafSocketSerializer::start("m", None).unwrap();
    let mut field_serializer = serializer.field_serializer();
    field_serializer.maybe_write_comma().unwrap();
    assert!(!field_serializer.skip_comma);
    field_serializer.maybe_write_comma().unwrap();
    field_serializer.maybe_write_comma().unwrap();
    assert_eq!(serializer.end(false).unwrap(), "m,,\n");
}

#[test]
fn end_appends_one_line_feed() {
    let serializer = TelegrafSocketSerializer::start("m", None).unwrap();
    assert_eq!(serializer.end(false).unwrap(), "m\n");
    let serializer = TelegrafSocketSerializer::start("", None).unwrap();
    assert_eq!(serializer.end(false).unwrap(), "\n");
    let serializer = TelegrafSocketSerializer::start("m", None).unwrap();
    assert_eq!(serializer.end(true).unwrap(), "m_dummy=1i\n");
}

#[test]
fn size_hint_changes_nothing() {
    for hint in [None, Some(0), Some(1), Some(120), Some(4096), Some(usize::MAX)] {
        let mut serializer = TelegrafSocketSerializer::start("test_measurement", hint).unwrap();
        serializer.tag_value_break().unwrap();
        let mut field_serializer = serializer.field_serializer();
        field_serializer.emit_str("string", "str").unwrap();
        assert_eq!(serializer.end(false).unwrap(), "test_measurement string=\"str\"\n");
    }
}

#[test]
fn write_int_is_decimal_and_i() {
    let mut serializer = TelegrafSocketSerializer::start("m", None).unwrap();
    serializer.tag_value_break().unwrap();
    let mut field_serializer = serializer.field_serializer();
    field_serializer.write_int("a", 0).unwrap();
    field_serializer.write_int("b", -7).unwrap();
    field_serializer.write_int("c", 1234567890).unwrap();
    assert_eq!(serializer.end(false).unwrap(), "m a=0i,b=-7i,c=1234567890i\n");
}
