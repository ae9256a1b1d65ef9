//! A model of Dart class declarations and their source text.
//!
//! Each part renders with `to_string`, whose result is stated as the part's
//! `text`; [`create_serde_dart_class`] builds the JSON-serializable class of a
//! data type from its fields.

use crate::text::{join, join_strings, same_text, texts};
use vstd::prelude::*;
use vstd::string::StringExecFns;

verus! {

/// A type that can describe itself as Dart source.
pub trait DartConvertible {
    /// The Dart declaration of the type.
    fn to_dart() -> &'static str;
}

/// A Dart class: its decorators, name, fields, constructors and methods.
#[derive(Debug, Clone, PartialEq, Eq, Hash)]
pub struct DartClass {
    /// Lines such as `@JsonSerializable()`, one per decorator.
    pub decorators: Vec<String>,
    pub name: String,
    pub fields: Vec<DartField>,
    pub constructors: Vec<DartConstructor>,
    pub methods: Vec<DartMethod>,
}

/// A field, such as `final String? id;`.
#[derive(Debug, Clone, PartialEq, Eq, Hash)]
pub struct DartField {
    /// Such as `final` or `const`.
    pub keywords: Vec<String>,
    pub name: String,
    pub type_: DartType,
    /// Marks the type nullable with `?`.
    pub optional: bool,
}

/// A Dart type.
#[derive(Debug, Clone, PartialEq, Eq, Hash)]
pub enum DartType {
    /// A type written as it is.
    Primitive(String),
    /// `List<T>`.
    List(String),
    /// `Map<K, V>`.
    Mapping(String, String),
}

/// A constructor.
#[derive(Debug, Clone, PartialEq, Eq, Hash)]
pub enum DartConstructor {
    OneLiner(DartOnelineConstructor),
    Factory(DartFactoryConstructor),
}

/// A constructor on one line, such as `Project ({ required this.id });`.
#[derive(Debug, Clone, PartialEq, Eq, Hash)]
pub struct DartOnelineConstructor {
    pub name: String,
    pub parameters: DartParameters,
}

/// A factory constructor.
#[derive(Debug, Clone, PartialEq, Eq, Hash)]
pub enum DartFactoryConstructor {
    OneLiner(DartOnelineFactoryConstructor),
}

/// A factory constructor on one line, such as
/// `factory Project.fromJson(Map<String, dynamic> json) => _$ProjectFromJson(json);`.
#[derive(Debug, Clone, PartialEq, Eq, Hash)]
pub struct DartOnelineFactoryConstructor {
    pub class_name: String,
    pub name: String,
    pub parameters: DartParameters,
    pub body: MethodBody,
}

/// A method.
#[derive(Debug, Clone, PartialEq, Eq, Hash)]
pub enum DartMethod {
    OneLiner(DartOnelineMethod),
}

/// A method on one line, such as `Map<String, dynamic> toJson() => _$ProjectToJson(this);`.
#[derive(Debug, Clone, PartialEq, Eq, Hash)]
pub struct DartOnelineMethod {
    pub name: String,
    pub type_: DartType,
    pub parameters: DartParameters,
    pub body: MethodBody,
}

/// The body of a method or factory.
#[derive(Debug, Clone, PartialEq, Eq, Hash)]
pub enum MethodBody {
    OneLiner(OnelineMethodBody),
}

/// A body that is a single call without braces, such as `_$ProjectToJson(this)`.
#[derive(Debug, Clone, PartialEq, Eq, Hash)]
pub struct OnelineMethodBody {
    pub name: String,
    pub parameters: Vec<String>,
}

/// A parameter list.
#[derive(Debug, Clone, PartialEq, Eq, Hash)]
pub enum DartParameters {
    /// `{ a, required b }`.
    Named(Vec<NamedDartParameter>),
    /// `a, b`.
    Positional(Vec<DartParameter>),
}

/// A named parameter, possibly `required`.
#[derive(Debug, Clone, PartialEq, Eq, Hash)]
pub struct NamedDartParameter {
    pub required: bool,
    pub parameter: DartParameter,
}

/// A parameter.
#[derive(Debug, Clone, PartialEq, Eq, Hash)]
pub enum DartParameter {
    ConstructorParameter(DartConstructorParameter),
    MethodParameter(DartMethodParameter),
}

/// A constructor parameter that sets a field: `this.id`.
#[derive(Debug, Clone, PartialEq, Eq, Hash)]
pub struct DartConstructorParameter {
    pub name: String,
}

/// A typed method parameter: `String id`.
#[derive(Debug, Clone, PartialEq, Eq, Hash)]
pub struct DartMethodParameter {
    pub name: String,
    pub type_: DartType,
}

fn text_of(s: &str) -> (r: String)
    ensures
        r@ == s@,
{
    String::from_str(s)
}

impl DartType {
    pub open spec fn text(self) -> Seq<char> {
        match self {
            DartType::Primitive(name) => name@,
            DartType::List(name) => "List<"@ + name@ + ">"@,
            DartType::Mapping(key, value) => "Map<"@ + key@ + ", "@ + value@ + ">"@,
        }
    }

    pub fn to_string(&self) -> (r: String)
        ensures
            r@ == self.text(),
    {
        match self {
            DartType::Primitive(name) => name.clone(),
            DartType::List(name) => {
                let mut r = text_of("List<");
                r.append(name.as_str());
                r.append(">");
                r
            },
            DartType::Mapping(key, value) => {
                let mut r = text_of("Map<");
                r.append(key.as_str());
                r.append(", ");
                r.append(value.as_str());
                r.append(">");
                r
            },
        }
    }
}

impl OnelineMethodBody {
    pub open spec fn text(self) -> Seq<char> {
        self.name@ + "("@ + join(texts(self.parameters@), ", "@) + ")"@
    }

    pub fn to_string(&self) -> (r: String)
        ensures
            r@ == self.text(),
    {
        let parameters = join_strings(&self.parameters, ", ");
        let mut r = self.name.clone();
        r.append("(");
        r.append(parameters.as_str());
        r.append(")");
        r
    }
}

impl MethodBody {
    pub open spec fn text(self) -> Seq<char> {
        match self {
            MethodBody::OneLiner(body) => body.text(),
        }
    }

    pub fn to_string(&self) -> (r: String)
        ensures
            r@ == self.text(),
    {
        match self {
            MethodBody::OneLiner(body) => body.to_string(),
        }
    }
}

impl DartConstructorParameter {
    pub open spec fn text(self) -> Seq<char> {
        "this."@ + self.name@
    }

    pub fn to_string(&self) -> (r: String)
        ensures
            r@ == self.text(),
    {
        let mut r = text_of("this.");
        r.append(self.name.as_str());
        r
    }
}

impl DartMethodParameter {
    pub open spec fn text(self) -> Seq<char> {
        self.type_.text() + " "@ + self.name@
    }

    pub fn to_string(&self) -> (r: String)
        ensures
            r@ == self.text(),
    {
        let mut r = self.type_.to_string();
        r.append(" ");
        r.append(self.name.as_str());
        r
    }
}

impl DartParameter {
    pub open spec fn text(self) -> Seq<char> {
        match self {
            DartParameter::ConstructorParameter(p) => p.text(),
            DartParameter::MethodParameter(p) => p.text(),
        }
    }

    pub fn to_string(&self) -> (r: String)
        ensures
            r@ == self.text(),
    {
        match self {
            DartParameter::ConstructorParameter(p) => p.to_string(),
            DartParameter::MethodParameter(p) => p.to_string(),
        }
    }
}

impl NamedDartParameter {
    pub open spec fn text(self) -> Seq<char> {
        (if self.required {
            "required "@
        } else {
            ""@
        }) + self.parameter.text()
    }

    pub fn to_string(&self) -> (r: String)
        ensures
            r@ == self.text(),
    {
        let mut r = if self.required {
            text_of("required ")
        } else {
            text_of("")
        };
        let parameter = self.parameter.to_string();
        r.append(parameter.as_str());
        r
    }
}

pub open spec fn named_parameter_texts(items: Seq<NamedDartParameter>) -> Seq<Seq<char>> {
    items.map_values(|x: NamedDartParameter| x.text())
}

pub open spec fn parameter_texts(items: Seq<DartParameter>) -> Seq<Seq<char>> {
    items.map_values(|x: DartParameter| x.text())
}

fn render_named_parameters(items: &Vec<NamedDartParameter>) -> (r: Vec<String>)
    ensures
        texts(r@) == named_parameter_texts(items@),
{
    let mut out: Vec<String> = Vec::new();
    let mut i: usize = 0;
    while i < items.len()
        invariant
            i <= items@.len(),
            texts(out@) == named_parameter_texts(items@.take(i as int)),
        decreases items@.len() - i,
    {
        let ghost before = out@;
        let text = items[i].to_string();
        out.push(text);
        proof {
            let prev = named_parameter_texts(items@.take(i as int));
            let next = named_parameter_texts(items@.take(i + 1));
            assert(texts(before).len() == before.len());
            assert forall|k: int| 0 <= k < i + 1 implies texts(out@)[k] == next[k] by {
                if k < i {
                    assert(texts(before)[k] == prev[k]);
                }
            }
            assert(texts(out@) =~= next);
        }
        i = i + 1;
    }
    assert(items@.take(items@.len() as int) =~= items@);
    out
}

fn render_parameters(items: &Vec<DartParameter>) -> (r: Vec<String>)
    ensures
        texts(r@) == parameter_texts(items@),
{
    let mut out: Vec<String> = Vec::new();
    let mut i: usize = 0;
    while i < items.len()
        invariant
            i <= items@.len(),
            texts(out@) == parameter_texts(items@.take(i as int)),
        decreases items@.len() - i,
    {
        let ghost before = out@;
        let text = items[i].to_string();
        out.push(text);
        proof {
            let prev = parameter_texts(items@.take(i as int));
            let next = parameter_texts(items@.take(i + 1));
            assert(texts(before).len() == before.len());
            assert forall|k: int| 0 <= k < i + 1 implies texts(out@)[k] == next[k] by {
                if k < i {
                    assert(texts(before)[k] == prev[k]);
                }
            }
            assert(texts(out@) =~= next);
        }
        i = i + 1;
    }
    assert(items@.take(items@.len() as int) =~= items@);
    out
}

impl DartParameters {
    pub open spec fn text(self) -> Seq<char> {
        match self {
            DartParameters::Named(named) => "{ "@ + join(named_parameter_texts(named@), ", "@)
                + " }"@,
            DartParameters::Positional(positional) => join(parameter_texts(positional@), ", "@),
        }
    }

    pub fn to_string(&self) -> (r: String)
        ensures
            r@ == self.text(),
    {
        match self {
            DartParameters::Named(named) => {
                let params = join_strings(&render_named_parameters(named), ", ");
                let mut r = text_of("{ ");
                r.append(params.as_str());
                r.append(" }");
                r
            },
            DartParameters::Positional(positional) => join_strings(
                &render_parameters(positional),
                ", ",
            ),
        }
    }
}

impl DartOnelineConstructor {
    pub open spec fn text(self) -> Seq<char> {
        self.name@ + " ("@ + self.parameters.text() + ");"@
    }

    pub fn to_string(&self) -> (r: String)
        ensures
            r@ == self.text(),
    {
        let parameters = self.parameters.to_string();
        let mut r = self.name.clone();
        r.append(" (");
        r.append(parameters.as_str());
        r.append(");");
        r
    }
}

impl DartOnelineFactoryConstructor {
    pub open spec fn text(self) -> Seq<char> {
        "factory "@ + self.class_name@ + "."@ + self.name@ + "("@ + self.parameters.text() + ") => "@
            + self.body.text() + ";"@
    }

    pub fn to_string(&self) -> (r: String)
        ensures
            r@ == self.text(),
    {
        let parameters = self.parameters.to_string();
        let body = match &self.body {
            MethodBody::OneLiner(one_liner) => one_liner.to_string(),
        };
        let mut r = text_of("factory ");
        r.append(self.class_name.as_str());
        r.append(".");
        r.append(self.name.as_str());
        r.append("(");
        r.append(parameters.as_str());
        r.append(") => ");
        r.append(body.as_str());
        r.append(";");
        r
    }
}

impl DartFactoryConstructor {
    pub open spec fn text(self) -> Seq<char> {
        match self {
            DartFactoryConstructor::OneLiner(one_liner) => one_liner.text(),
        }
    }

    pub fn to_string(&self) -> (r: String)
        ensures
            r@ == self.text(),
    {
        match self {
            DartFactoryConstructor::OneLiner(one_liner) => one_liner.to_string(),
        }
    }
}

impl DartConstructor {
    pub open spec fn text(self) -> Seq<char> {
        match self {
            DartConstructor::OneLiner(one_liner) => one_liner.text(),
            DartConstructor::Factory(factory) => factory.text(),
        }
    }

    pub fn to_string(&self) -> (r: String)
        ensures
            r@ == self.text(),
    {
        match self {
            DartConstructor::OneLiner(one_liner) => one_liner.to_string(),
            DartConstructor::Factory(factory) => factory.to_string(),
        }
    }
}

impl DartOnelineMethod {
    pub open spec fn text(self) -> Seq<char> {
        self.type_.text() + " "@ + self.name@ + "("@ + self.parameters.text() + ") => "@
            + self.body.text() + ";"@
    }

    pub fn to_string(&self) -> (r: String)
        ensures
            r@ == self.text(),
    {
        let mut r = self.type_.to_string();
        r.append(" ");
        r.append(self.name.as_str());
        r.append("(");
        let parameters = self.parameters.to_string();
        r.append(parameters.as_str());
        r.append(") => ");
        let body = self.body.to_string();
        r.append(body.as_str());
        r.append(";");
        r
    }
}

impl DartMethod {
    pub open spec fn text(self) -> Seq<char> {
        match self {
            DartMethod::OneLiner(one_liner) => one_liner.text(),
        }
    }

    pub fn to_string(&self) -> (r: String)
        ensures
            r@ == self.text(),
    {
        match self {
            DartMethod::OneLiner(one_liner) => one_liner.to_string(),
        }
    }
}

impl DartField {
    pub open spec fn text(self) -> Seq<char> {
        join(texts(self.keywords@), " "@) + " "@ + self.type_.text() + (if self.optional {
            "?"@
        } else {
            ""@
        }) + " "@ + self.name@ + ";"@
    }

    pub fn to_string(&self) -> (r: String)
        ensures
            r@ == self.text(),
    {
        let mut r = join_strings(&self.keywords, " ");
        r.append(" ");
        let type_ = self.type_.to_string();
        r.append(type_.as_str());
        if self.optional {
            r.append("?");
        } else {
            r.append("");
        }
        r.append(" ");
        r.append(self.name.as_str());
        r.append(";");
        r
    }
}

pub open spec fn field_texts(items: Seq<DartField>) -> Seq<Seq<char>> {
    items.map_values(|x: DartField| x.text())
}

pub open spec fn constructor_texts(items: Seq<DartConstructor>) -> Seq<Seq<char>> {
    items.map_values(|x: DartConstructor| x.text())
}

pub open spec fn method_texts(items: Seq<DartMethod>) -> Seq<Seq<char>> {
    items.map_values(|x: DartMethod| x.text())
}

fn render_fields(items: &Vec<DartField>) -> (r: Vec<String>)
    ensures
        texts(r@) == field_texts(items@),
{
    let mut out: Vec<String> = Vec::new();
    let mut i: usize = 0;
    while i < items.len()
        invariant
            i <= items@.len(),
            texts(out@) == field_texts(items@.take(i as int)),
        decreases items@.len() - i,
    {
        let ghost before = out@;
        let text = items[i].to_string();
        out.push(text);
        proof {
            let prev = field_texts(items@.take(i as int));
            let next = field_texts(items@.take(i + 1));
            assert(texts(before).len() == before.len());
            assert forall|k: int| 0 <= k < i + 1 implies texts(out@)[k] == next[k] by {
                if k < i {
                    assert(texts(before)[k] == prev[k]);
                }
            }
            assert(texts(out@) =~= next);
        }
        i = i + 1;
    }
    assert(items@.take(items@.len() as int) =~= items@);
    out
}

fn render_constructors(items: &Vec<DartConstructor>) -> (r: Vec<String>)
    ensures
        texts(r@) == constructor_texts(items@),
{
    let mut out: Vec<String> = Vec::new();
    let mut i: usize = 0;
    while i < items.len()
        invariant
            i <= items@.len(),
            texts(out@) == constructor_texts(items@.take(i as int)),
        decreases items@.len() - i,
    {
        let ghost before = out@;
        let text = items[i].to_string();
        out.push(text);
        proof {
            let prev = constructor_texts(items@.take(i as int));
            let next = constructor_texts(items@.take(i + 1));
            assert(texts(before).len() == before.len());
            assert forall|k: int| 0 <= k < i + 1 implies texts(out@)[k] == next[k] by {
                if k < i {
                    assert(texts(before)[k] == prev[k]);
                }
            }
            assert(texts(out@) =~= next);
        }
        i = i + 1;
    }
    assert(items@.take(items@.len() as int) =~= items@);
    out
}

fn render_methods(items: &Vec<DartMethod>) -> (r: Vec<String>)
    ensures
        texts(r@) == method_texts(items@),
{
    let mut out: Vec<String> = Vec::new();
    let mut i: usize = 0;
    while i < items.len()
        invariant
            i <= items@.len(),
            texts(out@) == method_texts(items@.take(i as int)),
        decreases items@.len() - i,
    {
        let ghost before = out@;
        let text = items[i].to_string();
        out.push(text);
        proof {
            let prev = method_texts(items@.take(i as int));
            let next = method_texts(items@.take(i + 1));
            assert(texts(before).len() == before.len());
            assert forall|k: int| 0 <= k < i + 1 implies texts(out@)[k] == next[k] by {
                if k < i {
                    assert(texts(before)[k] == prev[k]);
                }
            }
            assert(texts(out@) =~= next);
        }
        i = i + 1;
    }
    assert(items@.take(items@.len() as int) =~= items@);
    out
}

impl DartClass {
    /// The decorators on lines of their own, then the class with its fields,
    /// constructors and methods, indented by a tab.
    pub open spec fn text(self) -> Seq<char> {
        join(texts(self.decorators@), "\n"@) + "\nclass "@ + self.name@ + " {\n\t"@ + join(
            field_texts(self.fields@),
            "\n\t"@,
        ) + "\n\n\t"@ + join(constructor_texts(self.constructors@), "\n\n\t"@) + "\n\n\t"@
            + join(method_texts(self.methods@), "\n\n\t"@) + "\n}"@
    }

    pub fn to_string(&self) -> (r: String)
        ensures
            r@ == self.text(),
    {
        let decorators = join_strings(&self.decorators, "\n");
        let fields = join_strings(&render_fields(&self.fields), "\n\t");
        let constructors = join_strings(&render_constructors(&self.constructors), "\n\n\t");
        let methods = join_strings(&render_methods(&self.methods), "\n\n\t");
        let mut r = decorators;
        r.append("\nclass ");
        r.append(self.name.as_str());
        r.append(" {\n\t");
        r.append(fields.as_str());
        r.append("\n\n\t");
        r.append(constructors.as_str());
        r.append("\n\n\t");
        r.append(methods.as_str());
        r.append("\n}");
        r
    }
}

/// The Rust integer type names, which all become Dart's `int`.
pub open spec fn is_rust_integer_name(ty: Seq<char>) -> bool {
    ty == "i8"@ || ty == "i16"@ || ty == "i32"@ || ty == "i64"@ || ty == "i128"@ || ty == "isize"@ || ty == "u8"@ || ty == "u16"@ || ty == "u32"@ || ty == "u64"@ || ty == "u128"@ || ty == "usize"@
}

/// The Dart type for a Rust type name: `String` and `bool` stay, integers
/// become `int`, floating-point types become `double`, anything else stays.
pub open spec fn dart_primitive_spec(ty: Seq<char>) -> Seq<char> {
    if ty == "String"@ {
        "String"@
    } else if ty == "bool"@ {
        "bool"@
    } else if is_rust_integer_name(ty) {
        "int"@
    } else if ty == "f32"@ || ty == "f64"@ {
        "double"@
    } else {
        ty
    }
}

fn is_rust_integer(ty: &str) -> (r: bool)
    ensures
        r == is_rust_integer_name(ty@),
{
    same_text(ty, "i8")
        || same_text(ty, "i16")
        || same_text(ty, "i32")
        || same_text(ty, "i64")
        || same_text(ty, "i128")
        || same_text(ty, "isize")
        || same_text(ty, "u8")
        || same_text(ty, "u16")
        || same_text(ty, "u32")
        || same_text(ty, "u64")
        || same_text(ty, "u128")
        || same_text(ty, "usize")
}

/// The Dart type name for a Rust type name.
pub fn rust_primitive_to_dart_primitive(ty: &str) -> (r: String)
    ensures
        r@ == dart_primitive_spec(ty@),
{
    if same_text(ty, "String") {
        text_of("String")
    } else if same_text(ty, "bool") {
        text_of("bool")
    } else if is_rust_integer(ty) {
        text_of("int")
    } else if same_text(ty, "f32") || same_text(ty, "f64") {
        text_of("double")
    } else {
        text_of(ty)
    }
}

/// `Map<String, dynamic>`, the type of a JSON object.
pub open spec fn is_json_object_type(t: DartType) -> bool {
    t matches DartType::Mapping(key, value) && key@ == "String"@ && value@ == "dynamic"@
}

/// The constructor `Name ({ required this.a, required this.b });` that sets
/// every field.
pub open spec fn is_serde_constructor(
    c: DartConstructor,
    fields: Seq<DartField>,
    class_name: Seq<char>,
) -> bool {
    &&& c matches DartConstructor::OneLiner(one_liner)
    &&& one_liner.name@ == class_name
    &&& one_liner.parameters matches DartParameters::Named(named)
    &&& named@.len() == fields.len()
    &&& forall|i: int|
        0 <= i < fields.len() ==> #[trigger] named@[i] == (NamedDartParameter {
            required: true,
            parameter: DartParameter::ConstructorParameter(
                DartConstructorParameter { name: fields[i].name },
            ),
        })
}

/// The factory `factory Name.fromJson(Map<String, dynamic> json) => _$NameFromJson(json);`.
pub open spec fn is_serde_from_json_factory(c: DartConstructor, class_name: Seq<char>) -> bool {
    &&& c matches DartConstructor::Factory(DartFactoryConstructor::OneLiner(factory))
    &&& factory.class_name@ == class_name
    &&& factory.name@ == "fromJson"@
    &&& factory.parameters matches DartParameters::Positional(positional)
    &&& positional@.len() == 1
    &&& positional@[0] matches DartParameter::MethodParameter(json)
    &&& json.name@ == "json"@
    &&& is_json_object_type(json.type_)
    &&& factory.body matches MethodBody::OneLiner(body)
    &&& body.name@ == "_$"@ + class_name + "FromJson"@
    &&& texts(body.parameters@) == seq!["json"@]
}

/// The method `Map<String, dynamic> toJson() => _$NameToJson(this);`.
pub open spec fn is_serde_to_json_method(m: DartMethod, class_name: Seq<char>) -> bool {
    &&& m matches DartMethod::OneLiner(method)
    &&& method.name@ == "toJson"@
    &&& is_json_object_type(method.type_)
    &&& method.parameters matches DartParameters::Positional(positional)
    &&& positional@.len() == 0
    &&& method.body matches MethodBody::OneLiner(body)
    &&& body.name@ == "_$"@ + class_name + "ToJson"@
    &&& texts(body.parameters@) == seq!["this"@]
}

fn json_object_type() -> (r: DartType)
    ensures
        is_json_object_type(r),
{
    DartType::Mapping(text_of("String"), text_of("dynamic"))
}

fn generated_function_name(class_name: &String, suffix: &str) -> (r: String)
    ensures
        r@ == "_$"@ + class_name@ + suffix@,
{
    let mut r = text_of("_$");
    r.append(class_name.as_str());
    r.append(suffix);
    r
}

/// The JSON-serializable Dart class for a data type with these fields: the
/// `@JsonSerializable()` decorator, the fields, a constructor that sets each
/// field, a `fromJson` factory and a `toJson` method, both delegating to the
/// generated `_$` functions.
pub fn create_serde_dart_class(fields: Vec<DartField>, class_name: String) -> (r: DartClass)
    ensures
        texts(r.decorators@) == seq!["@JsonSerializable()"@],
        r.name == class_name,
        r.fields == fields,
        r.constructors@.len() == 2,
        is_serde_constructor(r.constructors@[0], fields@, class_name@),
        is_serde_from_json_factory(r.constructors@[1], class_name@),
        r.methods@.len() == 1,
        is_serde_to_json_method(r.methods@[0], class_name@),
{
    let mut named: Vec<NamedDartParameter> = Vec::new();
    let mut i: usize = 0;
    while i < fields.len()
        invariant
            i <= fields@.len(),
            named@.len() == i,
            forall|k: int|
                0 <= k < i ==> #[trigger] named@[k] == (NamedDartParameter {
                    required: true,
                    parameter: DartParameter::ConstructorParameter(
                        DartConstructorParameter { name: fields@[k].name },
                    ),
                }),
        decreases fields@.len() - i,
    {
        let name = fields[i].name.clone();
        named.push(
            NamedDartParameter {
                required: true,
                parameter: DartParameter::ConstructorParameter(DartConstructorParameter { name }),
            },
        );
        i = i + 1;
    }
    let constructor = DartConstructor::OneLiner(
        DartOnelineConstructor {
            name: class_name.clone(),
            parameters: DartParameters::Named(named),
        },
    );

    let factory_body = MethodBody::OneLiner(
        OnelineMethodBody {
            name: generated_function_name(&class_name, "FromJson"),
            parameters: vec![text_of("json")],
        },
    );
    let factory_parameters = DartParameters::Positional(
        vec![
            DartParameter::MethodParameter(
                DartMethodParameter { name: text_of("json"), type_: json_object_type() },
            ),
        ],
    );
    let factory = DartConstructor::Factory(
        DartFactoryConstructor::OneLiner(
            DartOnelineFactoryConstructor {
                class_name: class_name.clone(),
                name: text_of("fromJson"),
                parameters: factory_parameters,
                body: factory_body,
            },
        ),
    );

    let to_json_body = MethodBody::OneLiner(
        OnelineMethodBody {
            name: generated_function_name(&class_name, "ToJson"),
            parameters: vec![text_of("this")],
        },
    );
    let to_json = DartMethod::OneLiner(
        DartOnelineMethod {
            name: text_of("toJson"),
            type_: json_object_type(),
            parameters: DartParameters::Positional(Vec::new()),
            body: to_json_body,
        },
    );

    let decorators = vec![text_of("@JsonSerializable()")];
    proof {
        assert(texts(decorators@) =~= seq!["@JsonSerializable()"@]);
    }
    let constructors = vec![constructor, factory];
    let methods = vec![to_json];
    let r = DartClass { decorators, name: class_name, fields, constructors, methods };
    proof {
        if let MethodBody::OneLiner(b) = r.constructors@[1]->Factory_0->OneLiner_0.body {
            assert(texts(b.parameters@) =~= seq!["json"@]);
        }
        if let MethodBody::OneLiner(b) = r.methods@[0]->OneLiner_0.body {
            assert(texts(b.parameters@) =~= seq!["this"@]);
        }
    }
    r
}

} // verus!
