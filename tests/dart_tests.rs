use ptaas::dart::{
    create_serde_dart_class, rust_primitive_to_dart_primitive, DartClass, DartConstructor,
    DartConstructorParameter, DartFactoryConstructor, DartField, DartMethod, DartMethodParameter,
    DartOnelineConstructor, DartOnelineFactoryConstructor, DartOnelineMethod, DartParameter,
    DartParameters, DartType, MethodBody, NamedDartParameter, OnelineMethodBody,
};

fn s(text: &str) -> String {
    text.to_string()
}

fn field(name: &str, type_: DartType, optional: bool) -> DartField {
    DartField {
        keywords: vec![s("final")],
        name: s(name),
        type_,
        optional,
    }
}

fn project_fields() -> Vec<DartField> {
    vec![
        field("id", DartType::Primitive(s("String")), false),
        field("installed", DartType::Primitive(s("bool")), false),
        field("scripts", DartType::List(s("Script")), false),
    ]
}

const PROJECT_CLASS: &str = "@JsonSerializable()\nclass Project {\n\tfinal String id;\n\tfinal bool installed;\n\tfinal List<Script> scripts;\n\n\tProject ({ required this.id, required this.installed, required this.scripts });\n\n\tfactory Project.fromJson(Map<String, dynamic> json) => _$ProjectFromJson(json);\n\n\tMap<String, dynamic> toJson() => _$ProjectToJson(this);\n}";

#[test]
fn serde_class_of_a_project() {
    let class = create_serde_dart_class(project_fields(), s("Project"));
    assert_eq!(class.name, "Project");
    assert_eq!(class.fields, project_fields());
    assert_eq!(class.to_string(), PROJECT_CLASS);
}

#[test]
fn hand_built_project_class_matches_the_generated_one() {
    let named = |name: &str| NamedDartParameter {
        required: true,
        parameter: DartParameter::ConstructorParameter(DartConstructorParameter { name: s(name) }),
    };
    let json_type = DartType::Mapping(s("String"), s("dynamic"));
    let class = DartClass {
        decorators: vec![s("@JsonSerializable()")],
        name: s("Project"),
        fields: project_fields(),
        constructors: vec![
            DartConstructor::OneLiner(DartOnelineConstructor {
                name: s("Project"),
                parameters: DartParameters::Named(vec![
                    named("id"),
                    named("installed"),
                    named("scripts"),
                ]),
            }),
            DartConstructor::Factory(DartFactoryConstructor::OneLiner(
                DartOnelineFactoryConstructor {
                    class_name: s("Project"),
                    name: s("fromJson"),
                    parameters: DartParameters::Positional(vec![DartParameter::MethodParameter(
                        DartMethodParameter {
                            name: s("json"),
                            type_: json_type.clone(),
                        },
                    )]),
                    body: MethodBody::OneLiner(OnelineMethodBody {
                        name: s("_$ProjectFromJson"),
                        parameters: vec![s("json")],
                    }),
                },
            )),
        ],
        methods: vec![DartMethod::OneLiner(DartOnelineMethod {
            name: s("toJson"),
            type_: json_type,
            parameters: DartParameters::Positional(vec![]),
            body: MethodBody::OneLiner(OnelineMethodBody {
                name: s("_$ProjectToJson"),
                parameters: vec![s("this")],
            }),
        })],
    };
    assert_eq!(class.to_string(), PROJECT_CLASS);
    assert_eq!(class, create_serde_dart_class(project_fields(), s("Project")));
}

#[test]
fn serde_class_without_fields() {
    let class = create_serde_dart_class(Vec::new(), s("Empty"));
    assert_eq!(
        class.to_string(),
        "@JsonSerializable()\nclass Empty {\n\t\n\n\tEmpty ({  });\n\n\tfactory Empty.fromJson(Map<String, dynamic> json) => _$EmptyFromJson(json);\n\n\tMap<String, dynamic> toJson() => _$EmptyToJson(this);\n}"
    );
}

#[test]
fn types_render() {
    assert_eq!(DartType::Primitive(s("int")).to_string(), "int");
    assert_eq!(DartType::List(s("String")).to_string(), "List<String>");
    assert_eq!(
        DartType::Mapping(s("String"), s("int")).to_string(),
        "Map<String, int>"
    );
}

#[test]
fn fields_render() {
    assert_eq!(
        field("id", DartType::Primitive(s("String")), true).to_string(),
        "final String? id;"
    );
    let f = DartField {
        keywords: vec![s("static"), s("const")],
        name: s("limit"),
        type_: DartType::Primitive(s("int")),
        optional: false,
    };
    assert_eq!(f.to_string(), "static const int limit;");
    let f = DartField {
        keywords: vec![],
        name: s("x"),
        type_: DartType::Primitive(s("int")),
        optional: false,
    };
    assert_eq!(f.to_string(), " int x;");
}

#[test]
fn parameters_render() {
    let this_id = DartParameter::ConstructorParameter(DartConstructorParameter { name: s("id") });
    let typed = DartParameter::MethodParameter(DartMethodParameter {
        name: s("count"),
        type_: DartType::Primitive(s("int")),
    });
    assert_eq!(this_id.to_string(), "this.id");
    assert_eq!(typed.to_string(), "int count");
    let named = DartParameters::Named(vec![
        NamedDartParameter {
            required: false,
            parameter: this_id.clone(),
        },
        NamedDartParameter {
            required: true,
            parameter: typed.clone(),
        },
    ]);
    assert_eq!(named.to_string(), "{ this.id, required int count }");
    let positional = DartParameters::Positional(vec![this_id, typed]);
    assert_eq!(positional.to_string(), "this.id, int count");
    assert_eq!(DartParameters::Positional(vec![]).to_string(), "");
}

#[test]
fn bodies_constructors_and_methods_render() {
    let body = OnelineMethodBody {
        name: s("f"),
        parameters: vec![s("a"), s("b")],
    };
    assert_eq!(body.to_string(), "f(a, b)");
    assert_eq!(MethodBody::OneLiner(body.clone()).to_string(), "f(a, b)");
    let ctor = DartOnelineConstructor {
        name: s("Point"),
        parameters: DartParameters::Positional(vec![]),
    };
    assert_eq!(ctor.to_string(), "Point ();");
    assert_eq!(DartConstructor::OneLiner(ctor).to_string(), "Point ();");
    let method = DartOnelineMethod {
        name: s("sum"),
        type_: DartType::Primitive(s("int")),
        parameters: DartParameters::Positional(vec![]),
        body: MethodBody::OneLiner(body),
    };
    assert_eq!(method.to_string(), "int sum() => f(a, b);");
    assert_eq!(DartMethod::OneLiner(method).to_string(), "int sum() => f(a, b);");
}

#[test]
fn rust_primitives_map_to_dart_types() {
    assert_eq!(rust_primitive_to_dart_primitive("String"), "String");
    assert_eq!(rust_primitive_to_dart_primitive("bool"), "bool");
    for ty in [
        "i8", "i16", "i32", "i64", "i128", "isize", "u8", "u16", "u32", "u64", "u128", "usize",
    ] {
        assert_eq!(rust_primitive_to_dart_primitive(ty), "int");
    }
    assert_eq!(rust_primitive_to_dart_primitive("f32"), "double");
    assert_eq!(rust_primitive_to_dart_primitive("f64"), "double");
    assert_eq!(rust_primitive_to_dart_primitive("Script"), "Script");
    assert_eq!(rust_primitive_to_dart_primitive("u9"), "u9");
    assert_eq!(rust_primitive_to_dart_primitive(""), "");
}
