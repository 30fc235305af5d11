use builder::decl::FieldDecl;
use builder::lower::{lower, lower_field};
use builder::runtime::Builder;

fn field(name: &str, ty: &str) -> FieldDecl {
    FieldDecl { name: String::from(name), ty: String::from(ty) }
}

fn point_builder() -> Builder<i64> {
    let record = String::from("Point");
    let fields = vec![field("x", "i64"), field("y", "i64")];
    Builder::new(lower(&record, &fields))
}

#[test]
fn classification_standard_and_option() {
    let s = lower_field(&field("alias", "Option<String>"));
    assert_eq!(s.name, "alias");
    assert_eq!(s.ty, "String");
    assert!(!s.required);

    let s = lower_field(&field("name", "String"));
    assert_eq!(s.name, "name");
    assert_eq!(s.ty, "String");
    assert!(s.required);

    // Eight characters, but the angle bracket is missing.
    let s = lower_field(&field("kind", "Optional"));
    assert_eq!(s.ty, "Optional");
    assert!(s.required);

    // A generic that is not the optional wrapper stays standard.
    let s = lower_field(&field("items", "Vec<u8>"));
    assert_eq!(s.ty, "Vec<u8>");
    assert!(s.required);
}

#[test]
fn round_trip_both_fields_set() {
    let rec = point_builder().set_field("x", 3).set_field("y", 4).build().unwrap();
    assert_eq!(rec, vec![Some(3), Some(4)]);
}

#[test]
fn missing_field_is_named() {
    let err = point_builder().set_field("x", 3).build().unwrap_err();
    assert_eq!(err.field, "y");
    assert_eq!(err.record, "Point");
    assert_eq!(err.message(), "y must be set before we can build the Point");
}

#[test]
fn fresh_builder_names_first_missing_field() {
    let err = point_builder().build().unwrap_err();
    assert_eq!(err.field, "x");
    assert_eq!(err.message(), "x must be set before we can build the Point");
}

#[test]
fn unknown_field_name_changes_nothing() {
    let err = point_builder().set_field("z", 7).set_field("x", 1).build().unwrap_err();
    assert_eq!(err.field, "y");
}

#[test]
fn repeated_setter_does_not_count_as_distinct() {
    let err = point_builder().set_field("x", 1).set_field("x", 2).build().unwrap_err();
    assert_eq!(err.field, "y");
}

#[test]
fn setter_overwrites_previous_value() {
    let rec = point_builder()
        .set_field("x", 1)
        .set_field("y", 4)
        .set_field("x", 3)
        .build()
        .unwrap();
    assert_eq!(rec, vec![Some(3), Some(4)]);
}

#[test]
fn setter_order_does_not_matter() {
    let a = point_builder().set_field("x", 3).set_field("y", 4).build().unwrap();
    let b = point_builder().set_field("y", 4).set_field("x", 3).build().unwrap();
    assert_eq!(a, b);
}

#[test]
fn zero_field_record_builds_unconditionally() {
    let record = String::from("Empty");
    let rec = Builder::<i64>::new(lower(&record, &Vec::new())).build().unwrap();
    assert_eq!(rec, Vec::new());
}

#[test]
fn optional_field_may_stay_absent() {
    let record = String::from("Config");
    let fields = vec![field("name", "String"), field("alias", "Option<String>")];
    let plan = lower(&record, &fields);
    let rec = Builder::<String>::new(plan)
        .set_field("name", String::from("a"))
        .build()
        .unwrap();
    assert_eq!(rec, vec![Some(String::from("a")), None]);
}

#[test]
fn optional_field_setter_takes_inner_value() {
    let record = String::from("Config");
    let fields = vec![field("name", "String"), field("alias", "Option<String>")];
    let plan = lower(&record, &fields);
    let rec = Builder::<String>::new(plan)
        .set_field("name", String::from("a"))
        .set_field("alias", String::from("b"))
        .build()
        .unwrap();
    assert_eq!(rec, vec![Some(String::from("a")), Some(String::from("b"))]);
}
