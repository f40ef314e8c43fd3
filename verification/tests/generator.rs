use builder::assemble::{assemble, generate, Emission, MISSING_FIELDS};
use builder::fragment::{assembly_step, initializer, setter, slot};
use builder::ident::{builder_name, error_name};
use builder::schema::{Field, RecordDescription, Shape, ShapeError};

fn point() -> RecordDescription {
    RecordDescription::record("Point", vec![Field::new("x", "i64"), Field::new("y", "i64")])
}

const POINT_UNIT: &str = "impl Point {
    pub fn builder() -> PointBuilder {
        PointBuilder {
            x: None,
            y: None,
        }
    }
}

pub struct PointBuilder {
    x: Option<i64>,
    y: Option<i64>,
}

#[derive(Debug, Clone)]
pub struct PointBuilderError;

impl ::std::fmt::Display for PointBuilderError {
    fn fmt(&self, f: &mut ::std::fmt::Formatter) -> ::std::fmt::Result {
        f.write_str(\"Expected all fields to be defined.\")
    }
}

impl PointBuilder {
    pub fn build(&mut self) -> Result<Point, PointBuilderError> {
        Ok(Point {
            x: self.x.take().ok_or(PointBuilderError)?,
            y: self.y.take().ok_or(PointBuilderError)?,
        })
    }

    pub fn x(&mut self, x: i64) -> &mut Self { self.x = Some(x); self }
    pub fn y(&mut self, y: i64) -> &mut Self { self.y = Some(y); self }
}
";

#[test]
fn field_keeps_name_and_type() {
    let field = Field::new("speed", "u32");
    assert_eq!(field.name, "speed");
    assert_eq!(field.ty, "u32");
}

#[test]
fn record_description_is_named() {
    let desc = point();
    assert_eq!(desc.name, "Point");
    assert_eq!(
        desc.shape,
        Shape::Named(vec![Field::new("x", "i64"), Field::new("y", "i64")])
    );
}

#[test]
fn fields_come_out_in_declaration_order() {
    let desc = RecordDescription::record(
        "Job",
        vec![Field::new("zeta", "u8"), Field::new("alpha", "String"), Field::new("mid", "bool")],
    );
    let fields = desc.fields().unwrap();
    let names: Vec<&str> = fields.iter().map(|f| f.name.as_str()).collect();
    assert_eq!(names, vec!["zeta", "alpha", "mid"]);
    let types: Vec<&str> = fields.iter().map(|f| f.ty.as_str()).collect();
    assert_eq!(types, vec!["u8", "String", "bool"]);
}

#[test]
fn positional_record_has_no_field_list() {
    let desc = RecordDescription { name: "Pair".to_string(), shape: Shape::Positional };
    assert_eq!(desc.fields(), Err(ShapeError::ExpectedNamedFields));
    assert_eq!(generate(&desc), Err(ShapeError::ExpectedNamedFields));
}

#[test]
fn unit_record_has_no_field_list() {
    let desc = RecordDescription { name: "Marker".to_string(), shape: Shape::Unit };
    assert_eq!(desc.fields(), Err(ShapeError::ExpectedNamedFields));
    assert_eq!(generate(&desc), Err(ShapeError::ExpectedNamedFields));
}

#[test]
fn enumeration_is_not_a_record() {
    let desc = RecordDescription { name: "Colour".to_string(), shape: Shape::Enum };
    assert_eq!(desc.fields(), Err(ShapeError::ExpectedRecord));
    assert_eq!(generate(&desc), Err(ShapeError::ExpectedRecord));
}

#[test]
fn overlay_is_not_a_record() {
    let desc = RecordDescription { name: "Bits".to_string(), shape: Shape::Union };
    assert_eq!(desc.fields(), Err(ShapeError::ExpectedRecord));
    assert_eq!(generate(&desc), Err(ShapeError::ExpectedRecord));
}

#[test]
fn shape_error_messages() {
    assert_eq!(ShapeError::ExpectedRecord.message(), "Expected a struct!");
    assert_eq!(ShapeError::ExpectedNamedFields.message(), "Expected named fields");
}

#[test]
fn companion_names_carry_fixed_suffixes() {
    assert_eq!(builder_name("Point"), "PointBuilder");
    assert_eq!(error_name("Point"), "PointBuilderError");
    assert_eq!(builder_name(""), "Builder");
    assert_eq!(error_name(""), "BuilderError");
}

#[test]
fn companion_names_are_distinct() {
    for record in ["Point", "Builder", "X", "BuilderError"] {
        let builder = builder_name(record);
        let error = error_name(record);
        assert_ne!(builder, record);
        assert_ne!(error, record);
        assert_ne!(builder, error);
    }
}

#[test]
fn initializer_fragment_text() {
    assert_eq!(initializer(&Field::new("x", "i64")), "x: None,");
}

#[test]
fn slot_fragment_text() {
    assert_eq!(slot(&Field::new("x", "i64")), "x: Option<i64>,");
    assert_eq!(
        slot(&Field::new("tags", "Vec<String>")),
        "tags: Option<Vec<String>>,"
    );
}

#[test]
fn setter_fragment_text() {
    assert_eq!(
        setter(&Field::new("x", "i64")),
        "pub fn x(&mut self, x: i64) -> &mut Self { self.x = Some(x); self }"
    );
}

#[test]
fn assembly_step_fragment_text() {
    assert_eq!(
        assembly_step(&Field::new("x", "i64"), "PointBuilderError"),
        "x: self.x.take().ok_or(PointBuilderError)?,"
    );
}

#[test]
fn assembled_unit_of_point() {
    let fields = vec![Field::new("x", "i64"), Field::new("y", "i64")];
    let unit = assemble("Point", &fields);
    assert_eq!(
        unit,
        Emission {
            record: "Point".to_string(),
            builder: "PointBuilder".to_string(),
            error: "PointBuilderError".to_string(),
            initializers: vec!["x: None,".to_string(), "y: None,".to_string()],
            slots: vec!["x: Option<i64>,".to_string(), "y: Option<i64>,".to_string()],
            steps: vec![
                "x: self.x.take().ok_or(PointBuilderError)?,".to_string(),
                "y: self.y.take().ok_or(PointBuilderError)?,".to_string(),
            ],
            setters: vec![
                "pub fn x(&mut self, x: i64) -> &mut Self { self.x = Some(x); self }".to_string(),
                "pub fn y(&mut self, y: i64) -> &mut Self { self.y = Some(y); self }".to_string(),
            ],
        }
    );
}

#[test]
fn unit_parts_of_point() {
    let fields = vec![Field::new("x", "i64"), Field::new("y", "i64")];
    let unit = assemble("Point", &fields);
    assert_eq!(
        unit.accessor(),
        "impl Point {\n    pub fn builder() -> PointBuilder {\n        PointBuilder {\n            x: None,\n            y: None,\n        }\n    }\n}\n"
    );
    assert_eq!(
        unit.builder_type(),
        "pub struct PointBuilder {\n    x: Option<i64>,\n    y: Option<i64>,\n}\n"
    );
    assert_eq!(
        unit.error_type(),
        "#[derive(Debug, Clone)]\npub struct PointBuilderError;\n\nimpl ::std::fmt::Display for PointBuilderError {\n    fn fmt(&self, f: &mut ::std::fmt::Formatter) -> ::std::fmt::Result {\n        f.write_str(\"Expected all fields to be defined.\")\n    }\n}\n"
    );
    let parts = [unit.accessor(), unit.builder_type(), unit.error_type(), unit.operations()];
    assert_eq!(unit.render(), parts.join("\n"));
}

#[test]
fn generated_text_of_point() {
    assert_eq!(generate(&point()), Ok(POINT_UNIT.to_string()));
}

#[test]
fn error_text_is_fixed() {
    assert_eq!(MISSING_FIELDS, "Expected all fields to be defined.");
    let first = assemble("A", &vec![Field::new("one", "u8")]).error_type();
    let second = assemble("A", &vec![Field::new("other", "String"), Field::new("more", "u8")])
        .error_type();
    assert_eq!(first, second);
    assert!(first.contains("Expected all fields to be defined."));
}

#[test]
fn record_without_fields_gets_an_empty_builder() {
    let desc = RecordDescription::record("Empty", Vec::new());
    let text = generate(&desc).unwrap();
    assert_eq!(
        text,
        "impl Empty {\n    pub fn builder() -> EmptyBuilder {\n        EmptyBuilder {\n        }\n    }\n}\n\npub struct EmptyBuilder {\n}\n\n#[derive(Debug, Clone)]\npub struct EmptyBuilderError;\n\nimpl ::std::fmt::Display for EmptyBuilderError {\n    fn fmt(&self, f: &mut ::std::fmt::Formatter) -> ::std::fmt::Result {\n        f.write_str(\"Expected all fields to be defined.\")\n    }\n}\n\nimpl EmptyBuilder {\n    pub fn build(&mut self) -> Result<Empty, EmptyBuilderError> {\n        Ok(Empty {\n        })\n    }\n\n}\n"
    );
}

#[test]
fn one_fragment_of_each_kind_per_field() {
    for count in 1..6usize {
        let fields: Vec<Field> =
            (0..count).map(|i| Field::new(&format!("f{}", i), "u32")).collect();
        let unit = assemble("Wide", &fields);
        assert_eq!(unit.initializers.len(), count);
        assert_eq!(unit.slots.len(), count);
        assert_eq!(unit.steps.len(), count);
        assert_eq!(unit.setters.len(), count);
        for (i, field) in fields.iter().enumerate() {
            assert_eq!(unit.setters[i], setter(field));
            assert_eq!(unit.slots[i], slot(field));
            assert_eq!(unit.initializers[i], initializer(field));
            assert_eq!(unit.steps[i], assembly_step(field, "WideBuilderError"));
        }
    }
}

fn method_names(item: &syn::Item) -> Vec<String> {
    match item {
        syn::Item::Impl(imp) => imp
            .items
            .iter()
            .map(|i| match i {
                syn::ImplItem::Fn(f) => f.sig.ident.to_string(),
                _ => panic!("only operations are emitted"),
            })
            .collect(),
        _ => panic!("not a block of operations"),
    }
}

#[test]
fn emitted_unit_exposes_exactly_the_interface() {
    let desc = RecordDescription::record(
        "Job",
        vec![Field::new("id", "u64"), Field::new("owner", "String"), Field::new("done", "bool")],
    );
    let text = generate(&desc).unwrap();
    let file = syn::parse_str::<syn::File>(&text).unwrap();
    assert_eq!(file.items.len(), 5);
    assert_eq!(method_names(&file.items[0]), vec!["builder"]);
    match &file.items[1] {
        syn::Item::Struct(s) => {
            assert_eq!(s.ident.to_string(), "JobBuilder");
            let slots: Vec<String> =
                s.fields.iter().map(|f| f.ident.as_ref().unwrap().to_string()).collect();
            assert_eq!(slots, vec!["id", "owner", "done"]);
        }
        _ => panic!("the builder's definition comes second"),
    }
    match &file.items[2] {
        syn::Item::Struct(s) => {
            assert_eq!(s.ident.to_string(), "JobBuilderError");
            assert!(matches!(s.fields, syn::Fields::Unit));
        }
        _ => panic!("the error's definition comes third"),
    }
    assert_eq!(method_names(&file.items[3]), vec!["fmt"]);
    assert_eq!(method_names(&file.items[4]), vec!["build", "id", "owner", "done"]);
    match &file.items[4] {
        syn::Item::Impl(imp) => {
            for item in &imp.items {
                match item {
                    syn::ImplItem::Fn(f) => assert!(matches!(f.vis, syn::Visibility::Public(_))),
                    _ => panic!("only operations are emitted"),
                }
            }
        }
        _ => panic!("the operations come last"),
    }
}

#[test]
fn generation_is_deterministic() {
    let first = RecordDescription::record(
        "Job",
        vec![Field::new("id", "u64"), Field::new("owner", "String")],
    );
    let second = RecordDescription::record(
        &String::from("Job"),
        vec![Field::new(&"id".to_string(), "u64"), Field::new("owner", &"String".to_string())],
    );
    assert_eq!(generate(&first), generate(&second));
    assert_eq!(generate(&first), generate(&first));
    assert_eq!(
        assemble("Job", first.fields().unwrap()),
        assemble("Job", second.fields().unwrap())
    );
}

#[test]
fn field_order_changes_the_unit() {
    let xy = RecordDescription::record("P", vec![Field::new("x", "u8"), Field::new("y", "u8")]);
    let yx = RecordDescription::record("P", vec![Field::new("y", "u8"), Field::new("x", "u8")]);
    assert_ne!(generate(&xy), generate(&yx));
}
