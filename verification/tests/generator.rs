use enum_map_gen::descriptor::{DataShape, EnumDescriptor, FieldKind, GenerationError,
    GenericParam, VariantDescriptor, validate};
use enum_map_gen::emitter::emit;
use enum_map_gen::enum_map_inner;
use enum_map_gen::ident::derive_snake;
use enum_map_gen::table::build;

fn unit_variant(name: &str) -> VariantDescriptor {
    VariantDescriptor { ident: String::from(name), disabled: false, fields: FieldKind::Unit }
}

fn disabled_variant(name: &str) -> VariantDescriptor {
    VariantDescriptor { ident: String::from(name), disabled: true, fields: FieldKind::Unit }
}

fn enum_descriptor(name: &str, vis: &str, variants: Vec<VariantDescriptor>) -> EnumDescriptor {
    EnumDescriptor {
        name: String::from(name),
        vis: String::from(vis),
        generics: Vec::new(),
        data: DataShape::Enum(variants),
    }
}

#[test]
fn derive_snake_single_word() {
    assert_eq!(derive_snake("Foo"), "foo");
}

#[test]
fn derive_snake_two_words() {
    assert_eq!(derive_snake("FooBar"), "foo-bar");
}

#[test]
fn derive_snake_no_acronym_merging() {
    assert_eq!(derive_snake("FooBBar"), "foo-b-bar");
    assert_eq!(derive_snake("HTTPServer"), "h-t-t-p-server");
}

#[test]
fn derive_snake_deterministic() {
    assert_eq!(derive_snake("WriteBack"), derive_snake("WriteBack"));
}

#[test]
fn derive_snake_identity_on_lower() {
    assert_eq!(derive_snake("foo-bar"), "foo-bar");
    assert_eq!(derive_snake("already"), "already");
}

#[test]
fn derive_snake_idempotent() {
    let once = derive_snake("FooBBar");
    assert_eq!(derive_snake(&once), once);
}

#[test]
fn derive_snake_empty() {
    assert_eq!(derive_snake(""), "");
}

#[test]
fn validate_accepts_plain_enum() {
    let d = enum_descriptor("Color", "pub", vec![unit_variant("Red"), unit_variant("Green")]);
    assert_eq!(validate(&d), Ok(()));
}

#[test]
fn validate_rejects_lifetime() {
    let d = EnumDescriptor {
        name: String::from("Color"),
        vis: String::from("pub"),
        generics: vec![GenericParam::Lifetime],
        data: DataShape::Enum(vec![unit_variant("Red")]),
    };
    assert_eq!(validate(&d), Err(GenerationError::UnsupportedLifetime));
}

#[test]
fn validate_rejects_struct_input() {
    let d = EnumDescriptor {
        name: String::from("Point"),
        vis: String::from("pub"),
        generics: Vec::new(),
        data: DataShape::Struct,
    };
    assert_eq!(validate(&d), Err(GenerationError::NotAnEnum));
}

#[test]
fn validate_rejects_union_input() {
    let d = EnumDescriptor {
        name: String::from("Raw"),
        vis: String::new(),
        generics: Vec::new(),
        data: DataShape::Union,
    };
    assert_eq!(validate(&d), Err(GenerationError::NotAnEnum));
}

#[test]
fn validate_rejects_retained_variant_with_fields() {
    let bad = VariantDescriptor {
        ident: String::from("Rgb"),
        disabled: false,
        fields: FieldKind::Unnamed,
    };
    let d = enum_descriptor("Color", "pub", vec![unit_variant("Red"), bad]);
    assert_eq!(validate(&d), Err(GenerationError::NonUnitVariant { variant: 1 }));
}

#[test]
fn validate_skips_disabled_variant_with_fields() {
    let skipped = VariantDescriptor {
        ident: String::from("Rgb"),
        disabled: true,
        fields: FieldKind::Named,
    };
    let d = enum_descriptor("Color", "pub", vec![unit_variant("Red"), skipped]);
    assert_eq!(validate(&d), Ok(()));
}

#[test]
fn validate_checks_lifetime_before_shape() {
    let d = EnumDescriptor {
        name: String::from("Point"),
        vis: String::new(),
        generics: vec![GenericParam::Type, GenericParam::Lifetime],
        data: DataShape::Struct,
    };
    assert_eq!(validate(&d), Err(GenerationError::UnsupportedLifetime));
}

#[test]
fn error_messages() {
    assert_eq!(
        GenerationError::UnsupportedLifetime.message(),
        "This macro doesn't support enums with lifetimes."
    );
    assert_eq!(GenerationError::NotAnEnum.message(), "This macro only supports enums.");
    assert_eq!(
        GenerationError::NonUnitVariant { variant: 0 }.message(),
        "This macro doesn't support enums with non-unit variants."
    );
}

#[test]
fn build_derives_member_table() {
    let d = enum_descriptor("Color", "pub", vec![unit_variant("Red"), unit_variant("Green")]);
    let m = build(&d);
    assert_eq!(m.name, "ColorMap");
    assert_eq!(m.enum_name, "Color");
    assert_eq!(m.vis, "pub");
    assert_eq!(m.elem, "T");
    assert_eq!(m.fields.len(), 2);
    assert_eq!(m.fields[0].ident, "red");
    assert_eq!(m.fields[0].pascal, "Red");
    assert_eq!(m.fields[0].variant, 0);
    assert_eq!(m.fields[1].ident, "green");
    assert_eq!(m.fields[1].pascal, "Green");
    assert_eq!(m.fields[1].variant, 1);
    assert_eq!(m.fields[0].field_decl, "    red: T,\n");
    assert_eq!(m.fields[0].get_arm, "            Color::Red => &self.red,\n");
    assert_eq!(m.fields[0].get_mut_arm, "            Color::Red => &mut self.red,\n");
    assert_eq!(m.fields[0].set_arm, "            Color::Red => self.red = new_value,\n");
    assert_eq!(m.fields[0].closure_init, "            red: func(Color::Red),\n");
    assert_eq!(m.fields[0].transform_init, "            red: func(Color::Red, self.red),\n");
}

#[test]
fn build_skips_disabled_without_renumbering() {
    let d = enum_descriptor(
        "Letter",
        "pub",
        vec![
            unit_variant("A"),
            unit_variant("B"),
            disabled_variant("C"),
            unit_variant("D"),
        ],
    );
    let m = build(&d);
    assert_eq!(m.fields.len(), 3);
    assert_eq!(m.fields[0].ident, "a");
    assert_eq!(m.fields[0].variant, 0);
    assert_eq!(m.fields[1].ident, "b");
    assert_eq!(m.fields[1].variant, 1);
    assert_eq!(m.fields[2].ident, "d");
    assert_eq!(m.fields[2].variant, 3);
}

#[test]
fn emit_full_declaration() {
    let d = enum_descriptor("Color", "pub", vec![unit_variant("Red"), unit_variant("Green")]);
    let m = build(&d);
    let text = emit(&m);
    let expected = "#[doc = \"A map over the variants of [Color]\"]
#[allow(missing_copy_implementations)]
#[derive(Debug, Clone, Default, PartialEq, Hash)]
pub struct ColorMap<T> {
    red: T,
    green: T,
}

impl<T> ColorMap<T> {
    pub fn new(
        red: T,
        green: T,
    ) -> ColorMap<T> {
        ColorMap {
            red,
            green,
        }
    }

    pub fn filled(value: T) -> ColorMap<T> where T: Clone {
        ColorMap {
            red: value.clone(),
            green: value.clone(),
        }
    }

    pub fn from_closure<F: Fn(Color) -> T>(func: F) -> ColorMap<T> {
        ColorMap {
            red: func(Color::Red),
            green: func(Color::Green),
        }
    }

    pub fn transform<U, F: Fn(Color, T) -> U>(self, func: F) -> ColorMap<U> {
        ColorMap {
            red: func(Color::Red, self.red),
            green: func(Color::Green, self.green),
        }
    }
}

impl<T> core::ops::Index<Color> for ColorMap<T> {
    type Output = T;

    fn index(&self, idx: Color) -> &T {
        match idx {
            Color::Red => &self.red,
            Color::Green => &self.green,
        }
    }
}

impl<T> core::ops::IndexMut<Color> for ColorMap<T> {
    fn index_mut(&mut self, idx: Color) -> &mut T {
        match idx {
            Color::Red => &mut self.red,
            Color::Green => &mut self.green,
        }
    }
}
";
    assert_eq!(text, expected);
}

#[test]
fn emit_inherited_visibility() {
    let d = enum_descriptor("Color", "", vec![unit_variant("Red")]);
    let m = build(&d);
    let text = emit(&m);
    assert!(text.contains("\nstruct ColorMap<T> {\n"));
    assert!(text.contains("    fn new(\n"));
}

#[test]
fn emit_skips_disabled_and_has_no_fallback_arm() {
    let d = enum_descriptor(
        "Letter",
        "pub",
        vec![
            unit_variant("A"),
            unit_variant("B"),
            disabled_variant("C"),
            unit_variant("D"),
        ],
    );
    let m = build(&d);
    let text = emit(&m);
    assert!(text.contains("    a: T,\n"));
    assert!(text.contains("    b: T,\n"));
    assert!(text.contains("    d: T,\n"));
    assert!(!text.contains("    c: T,\n"));
    assert!(!text.contains("Letter::C"));
    assert!(!text.contains("_ =>"));
    assert!(!text.contains("_ = >"));
}

#[test]
fn emit_enum_with_no_retained_variants() {
    let d = enum_descriptor("Void", "pub", vec![disabled_variant("Gone")]);
    let m = build(&d);
    assert_eq!(m.fields.len(), 0);
    let text = emit(&m);
    assert!(text.contains("pub struct VoidMap<T> {\n}\n"));
    assert!(text.contains("    pub fn new(\n    ) -> VoidMap<T> {\n"));
    assert!(!text.contains("gone"));
}

#[test]
fn enum_map_inner_emits_for_valid_input() {
    let d = enum_descriptor("Color", "pub", vec![unit_variant("Red"), unit_variant("Green")]);
    let m = build(&d);
    let direct = emit(&m);
    let piped = enum_map_inner(&d).expect("valid descriptor must generate");
    assert_eq!(piped, direct);
}

#[test]
fn enum_map_inner_rejects_invalid_input() {
    let lifetimes = EnumDescriptor {
        name: String::from("Color"),
        vis: String::new(),
        generics: vec![GenericParam::Lifetime],
        data: DataShape::Enum(vec![unit_variant("Red")]),
    };
    assert_eq!(enum_map_inner(&lifetimes), Err(GenerationError::UnsupportedLifetime));
    let not_enum = EnumDescriptor {
        name: String::from("Point"),
        vis: String::new(),
        generics: Vec::new(),
        data: DataShape::Struct,
    };
    assert_eq!(enum_map_inner(&not_enum), Err(GenerationError::NotAnEnum));
    let bad_variant = enum_descriptor(
        "Shape",
        "",
        vec![
            unit_variant("Dot"),
            VariantDescriptor {
                ident: String::from("Circle"),
                disabled: false,
                fields: FieldKind::Named,
            },
        ],
    );
    assert_eq!(enum_map_inner(&bad_variant), Err(GenerationError::NonUnitVariant { variant: 1 }));
}
