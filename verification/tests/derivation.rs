use builder::decl::{FieldDecl, RecordDecl, RecordShape};

fn field(name: &str, ty: &str) -> FieldDecl {
    FieldDecl { name: String::from(name), ty: String::from(ty) }
}

fn named(record: &str, fields: Vec<FieldDecl>) -> RecordDecl {
    RecordDecl { name: String::from(record), shape: RecordShape::Named(fields) }
}

#[test]
fn point_generated_code_is_exact() {
    let decl = named("Point", vec![field("x", "i64"), field("y", "i64")]);
    let code = builder::emit::derive(&decl).unwrap();
    let expected = "impl Point {
    pub fn builder() -> PointBuilder {
        PointBuilder {
            x: None,
            y: None,
        }
    }
}

pub struct PointBuilder {
    x: Option<i64>,
    y: Option<i64>,
}

impl PointBuilder {
    pub fn x(mut self, x: i64) -> Self {
        self.x = Some(x);
        self
    }

    pub fn y(mut self, y: i64) -> Self {
        self.y = Some(y);
        self
    }

    pub fn build(self) -> Result<Point, String> {
        let x = match self.x {
            Some(value) => value,
            None => return Err(String::from(\"x must be set before we can build the Point\")),
        };
        let y = match self.y {
            Some(value) => value,
            None => return Err(String::from(\"y must be set before we can build the Point\")),
        };
        Ok(Point {
            x,
            y,
        })
    }
}
";
    assert_eq!(code, expected);
}

#[test]
fn option_field_collapses_to_one_layer() {
    let decl = named("Config", vec![field("name", "String"), field("alias", "Option<String>")]);
    let code = builder::emit::derive(&decl).unwrap();
    let expected = "impl Config {
    pub fn builder() -> ConfigBuilder {
        ConfigBuilder {
            name: None,
            alias: None,
        }
    }
}

pub struct ConfigBuilder {
    name: Option<String>,
    alias: Option<String>,
}

impl ConfigBuilder {
    pub fn name(mut self, name: String) -> Self {
        self.name = Some(name);
        self
    }

    pub fn alias(mut self, alias: String) -> Self {
        self.alias = Some(alias);
        self
    }

    pub fn build(self) -> Result<Config, String> {
        let name = match self.name {
            Some(value) => value,
            None => return Err(String::from(\"name must be set before we can build the Config\")),
        };
        let alias = self.alias;
        Ok(Config {
            name,
            alias,
        })
    }
}
";
    assert_eq!(code, expected);
}

#[test]
fn zero_field_record_generates_trivially_succeeding_builder() {
    let decl = named("Empty", Vec::new());
    let code = builder::emit::derive(&decl).unwrap();
    let expected = "impl Empty {
    pub fn builder() -> EmptyBuilder {
        EmptyBuilder {
        }
    }
}

pub struct EmptyBuilder {
}

impl EmptyBuilder {
    pub fn build(self) -> Result<Empty, String> {
        Ok(Empty {
        })
    }
}
";
    assert_eq!(code, expected);
}

#[test]
fn tuple_style_record_is_rejected() {
    let decl = RecordDecl { name: String::from("Pair"), shape: RecordShape::Positional };
    let d = builder::emit::derive(&decl).unwrap_err();
    assert_eq!(d.record, "Pair");
    assert_eq!(
        d.message,
        "can only derive Builder for structs with named fields (not tuple structs)"
    );
}

#[test]
fn unit_style_record_is_rejected() {
    let decl = RecordDecl { name: String::from("Marker"), shape: RecordShape::Unit };
    let d = builder::emit::derive(&decl).unwrap_err();
    assert_eq!(d.record, "Marker");
    assert_eq!(
        d.message,
        "can only derive Builder for structs with named fields (not unit structs)"
    );
}

#[test]
fn sum_type_is_rejected() {
    let decl = RecordDecl { name: String::from("Shape"), shape: RecordShape::NotAStruct };
    let d = builder::emit::derive(&decl).unwrap_err();
    assert_eq!(d.record, "Shape");
    assert_eq!(d.message, "can only derive Builder for structs");
}
