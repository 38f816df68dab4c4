//! The template renderer: a handlebars registry in strict mode, without
//! escaping, with the `rand_pass` helper, and the manifest as the data that
//! templates read.

use vstd::prelude::*;
use vstd::string::*;
use crate::up::manifest::{distinct, names_of, Manifest, Metadata, Port, Variable};
use crate::up::rand_pass::{error_text, rand_pass_helper};

verus! {

#[verifier::external_type_specification]
#[verifier::external_body]
pub struct ExRegistry<'reg>(handlebars::Handlebars<'reg>);

#[verifier::external_type_specification]
#[verifier::external_body]
pub struct ExTemplateError(handlebars::TemplateError);

#[verifier::external_type_specification]
#[verifier::external_body]
pub struct ExJsonValue(handlebars::JsonValue);

/// Whether handlebars accepts `source` as the template called `name`.
pub uninterp spec fn template_parses(name: Seq<char>, source: Seq<char>) -> bool;

/// What handlebars says of a `source` that it does not accept as the
/// template called `name`.
pub uninterp spec fn parse_fault(name: Seq<char>, source: Seq<char>) -> Seq<char>;

/// The text that a template error displays.
pub uninterp spec fn template_error_display(error: handlebars::TemplateError) -> Seq<char>;

/// What a template that includes another one is refused with.
pub const PARTIAL_REFUSED: &'static str = "templates that include other templates are not supported";

/// The byte `{`.
pub const BRACE: u8 = 0x7b;

/// The byte `>`.
pub const INCLUDE: u8 = 0x3e;

/// A byte that may stand between the opening braces of a tag and its first
/// sign: white space, the `~` that trims white space, and the `#` that opens
/// a block.
pub open spec fn is_filler(byte: u8) -> bool {
    byte == 0x20 || byte == 0x09 || byte == 0x0a || byte == 0x0d || byte == 0x7e || byte == 0x23
}

/// At `i` two braces open a tag whose first sign, at `j`, is `>`: the tag
/// includes another template.
pub open spec fn includes_at(bytes: Seq<u8>, i: int, j: int) -> bool {
    &&& 0 <= i
    &&& i + 2 <= j < bytes.len()
    &&& bytes[i] == BRACE
    &&& bytes[i + 1] == BRACE
    &&& bytes[j] == INCLUDE
    &&& forall|k: int| i + 2 <= k < j ==> is_filler(#[trigger] bytes[k])
}

/// The text has a tag that includes another template: two braces, then
/// nothing but white space, `~` and `#`, then `>`.
pub open spec fn has_partial_tag(source: Seq<char>) -> bool {
    exists|i: int, j: int| includes_at(vstd::utf8::encode_utf8(source), i, j)
}

/// The renderer takes `source` as the template called `name`: it includes
/// no other template, and handlebars accepts it.
pub open spec fn accepted(name: Seq<char>, source: Seq<char>) -> bool {
    !has_partial_tag(source) && template_parses(name, source)
}

/// The name under which the secret helper is registered.
pub const RAND_PASS: &'static str = "rand_pass";

/// Where rendering a template went wrong.
#[derive(Debug, Clone, Copy, PartialEq, Eq, Structural)]
pub enum Stage {
    /// The template's source has a syntax error.
    Compile,
    /// The template refers to something that is not there, or a helper failed.
    Render,
}

/// A template that could not be rendered.
#[derive(Debug, PartialEq, Eq)]
pub struct RenderFault {
    /// The template's name: its path relative to the deployment directory.
    pub template: String,
    pub stage: Stage,
    /// What the engine reported.
    pub reason: String,
}

/// A JSON value, as the contracts see it.
pub enum Json {
    /// A string.
    Text(Seq<char>),
    /// A number that is a non-negative integer.
    Number(int),
    /// An array.
    List(Seq<Json>),
    /// An object: its fields by name.
    Object(Map<Seq<char>, Json>),
    /// Anything else.
    Other,
}

/// What a JSON value of the engine holds.
pub uninterp spec fn json_view(value: handlebars::JsonValue) -> Json;

/// What each of `values` holds.
pub open spec fn json_views(values: Seq<handlebars::JsonValue>) -> Seq<Json> {
    Seq::new(values.len(), |i: int| json_view(values[i]))
}

/// The fields of the object that is made of `fields`, whose names differ.
pub open spec fn object_of(fields: Seq<(String, handlebars::JsonValue)>) -> Map<Seq<char>, Json>
    decreases fields.len(),
{
    if fields.len() == 0 {
        Map::empty()
    } else {
        object_of(fields.drop_last()).insert(fields.last().0@, json_view(fields.last().1))
    }
}

/// Whether the registry treats a variable that is not there as an error.
pub uninterp spec fn registry_strict(registry: handlebars::Handlebars<'static>) -> bool;

/// Whether the registry escapes substituted text for HTML.
pub uninterp spec fn registry_escapes(registry: handlebars::Handlebars<'static>) -> bool;

/// The names of the helpers that the registry holds.
pub uninterp spec fn registry_helpers(registry: handlebars::Handlebars<'static>) -> Set<Seq<char>>;

/// Whether none of the registry's templates includes another template.
pub uninterp spec fn registry_partial_free(registry: handlebars::Handlebars<'static>) -> bool;

/// Calls `Handlebars::new`: a registry that is not strict and escapes for
/// HTML.
#[verifier::external_body]
fn registry_new() -> (registry: handlebars::Handlebars<'static>)
    ensures
        !registry_strict(registry),
        registry_escapes(registry),
        registry_partial_free(registry),
{
    handlebars::Handlebars::new()
}

/// Calls `Handlebars::register_escape_fn` with `handlebars::no_escape`, so
/// that substituted text is written as it is. Nothing else changes.
#[verifier::external_body]
fn registry_no_escape(registry: &mut handlebars::Handlebars<'static>)
    ensures
        !registry_escapes(*final(registry)),
        registry_strict(*final(registry)) == registry_strict(*old(registry)),
        registry_helpers(*final(registry)) == registry_helpers(*old(registry)),
        registry_partial_free(*final(registry)) == registry_partial_free(*old(registry)),
{
    registry.register_escape_fn(handlebars::no_escape);
}

/// Calls `Handlebars::set_strict_mode`. Nothing else changes.
#[verifier::external_body]
fn registry_set_strict(registry: &mut handlebars::Handlebars<'static>, enabled: bool)
    ensures
        registry_strict(*final(registry)) == enabled,
        registry_escapes(*final(registry)) == registry_escapes(*old(registry)),
        registry_helpers(*final(registry)) == registry_helpers(*old(registry)),
        registry_partial_free(*final(registry)) == registry_partial_free(*old(registry)),
{
    registry.set_strict_mode(enabled);
}

/// Calls `Handlebars::register_helper` with a closure that hands the helper
/// call and its render context to `rand_pass_helper`. The registry then
/// holds a helper of that name; nothing else changes.
#[verifier::external_body]
fn registry_add_rand_pass(registry: &mut handlebars::Handlebars<'static>, name: &str)
    ensures
        registry_helpers(*final(registry)) == registry_helpers(*old(registry)).insert(name@),
        registry_strict(*final(registry)) == registry_strict(*old(registry)),
        registry_escapes(*final(registry)) == registry_escapes(*old(registry)),
        registry_partial_free(*final(registry)) == registry_partial_free(*old(registry)),
{
    registry.register_helper(
        name,
        Box::new(
            |h: &handlebars::Helper,
             _: &handlebars::Handlebars,
             _: &handlebars::Context,
             rc: &mut handlebars::RenderContext,
             _: &mut dyn handlebars::Output| rand_pass_helper(h, rc),
        ),
    );
}

/// Calls `Handlebars::register_template_string`. It fails exactly on a
/// source that does not parse, whatever the registry holds, with an error
/// that name and source decide, and changes none of the registry's settings
/// and helpers. A registry none of whose templates includes another stays
/// so where nothing is added, or what is added has no tag that includes.
#[verifier::external_body]
fn registry_compile(
    registry: &mut handlebars::Handlebars<'static>,
    name: &str,
    source: &str,
) -> (compiled: Result<(), handlebars::TemplateError>)
    ensures
        compiled is Ok <==> template_parses(name@, source@),
        compiled matches Err(error) ==> template_error_display(error) == parse_fault(
            name@,
            source@,
        ),
        registry_strict(*final(registry)) == registry_strict(*old(registry)),
        registry_escapes(*final(registry)) == registry_escapes(*old(registry)),
        registry_helpers(*final(registry)) == registry_helpers(*old(registry)),
        registry_partial_free(*old(registry)) && (compiled is Err || !has_partial_tag(source@))
            ==> registry_partial_free(*final(registry)),
{
    registry.register_template_string(name, source)
}

/// Calls `Handlebars::render` with a JSON value as the data. A registry
/// with a template that includes another is left out: the engine follows
/// such inclusions without counting them, and templates that include each
/// other never end.
#[verifier::external_body]
fn registry_render(
    registry: &handlebars::Handlebars<'static>,
    name: &str,
    data: &handlebars::JsonValue,
) -> Result<String, handlebars::RenderError>
    requires
        registry_partial_free(*registry),
{
    registry.render(name, data)
}

/// The `Display` text of a `TemplateError`.
#[verifier::external_body]
fn template_error_text(error: &handlebars::TemplateError) -> (text: String)
    ensures
        text@ == template_error_display(*error),
{
    error.to_string()
}

/// The `Display` text of a `RenderError`.
#[verifier::external_body]
fn render_error_text(error: &handlebars::RenderError) -> (text: String)
    ensures
        text@ == error_text(*error),
{
    error.to_string()
}

/// Calls `handlebars::to_json` on a string: a JSON string of that text.
#[verifier::external_body]
fn json_text(text: &str) -> (value: handlebars::JsonValue)
    ensures
        json_view(value) == Json::Text(text@),
{
    handlebars::to_json(text)
}

/// Calls `handlebars::to_json` on a port number: a JSON number of that
/// value.
#[verifier::external_body]
fn json_number(number: u16) -> (value: handlebars::JsonValue)
    ensures
        json_view(value) == Json::Number(number as int),
{
    handlebars::to_json(number)
}

/// Calls `handlebars::to_json` on a list of values: a JSON array of them.
#[verifier::external_body]
fn json_list(items: Vec<handlebars::JsonValue>) -> (value: handlebars::JsonValue)
    ensures
        json_view(value) == Json::List(json_views(items@)),
{
    handlebars::to_json(items)
}

/// Calls `handlebars::to_json` on a map made of `fields`, whose names
/// differ: a JSON object with each of them as a field.
#[verifier::external_body]
fn json_object(fields: Vec<(String, handlebars::JsonValue)>) -> (value: handlebars::JsonValue)
    requires
        distinct(names_of(fields@)),
    ensures
        json_view(value) == Json::Object(object_of(fields@)),
{
    handlebars::to_json(fields.into_iter().collect::<std::collections::BTreeMap<_, _>>())
}

/// The list of `texts` as JSON.
pub open spec fn texts_model(texts: Seq<String>) -> Json {
    Json::List(Seq::new(texts.len(), |i: int| Json::Text(texts[i]@)))
}

/// The metadata as JSON: an object of its four fields.
pub open spec fn metadata_model(metadata: Metadata) -> Json {
    Json::Object(
        Map::<Seq<char>, Json>::empty().insert("name"@, Json::Text(metadata.name@)).insert(
            "desc"@,
            Json::Text(metadata.desc@),
        ).insert("tags"@, texts_model(metadata.tags@)).insert(
            "version"@,
            Json::Text(metadata.version@),
        ),
    )
}

/// A port as JSON: an object of its three fields.
pub open spec fn port_model(port: Port) -> Json {
    Json::Object(
        Map::<Seq<char>, Json>::empty().insert("ip"@, Json::Text(port.ip@)).insert(
            "port"@,
            Json::Number(port.port as int),
        ).insert("desc"@, Json::Text(port.desc@)),
    )
}

/// A variable as JSON: an object of its three fields.
pub open spec fn variable_model(variable: Variable) -> Json {
    Json::Object(
        Map::<Seq<char>, Json>::empty().insert("name"@, Json::Text(variable.name@)).insert(
            "desc"@,
            Json::Text(variable.desc@),
        ).insert("value"@, Json::Text(variable.value@)),
    )
}

/// The ports by name, as JSON, where their names differ.
pub open spec fn ports_model(ports: Seq<(String, Port)>) -> Map<Seq<char>, Json>
    decreases ports.len(),
{
    if ports.len() == 0 {
        Map::empty()
    } else {
        ports_model(ports.drop_last()).insert(ports.last().0@, port_model(ports.last().1))
    }
}

/// The variables by name, as JSON, where their names differ.
pub open spec fn variables_model(variables: Seq<(String, Variable)>) -> Map<Seq<char>, Json>
    decreases variables.len(),
{
    if variables.len() == 0 {
        Map::empty()
    } else {
        variables_model(variables.drop_last()).insert(
            variables.last().0@,
            variable_model(variables.last().1),
        )
    }
}

/// The manifest as JSON: an object with the fields `metadata`, `templates`,
/// `ports` and `variables`.
pub open spec fn manifest_model(manifest: Manifest) -> Json {
    Json::Object(
        Map::<Seq<char>, Json>::empty().insert("metadata"@, metadata_model(manifest.metadata)).insert(
            "templates"@,
            texts_model(manifest.templates@),
        ).insert("ports"@, Json::Object(ports_model(manifest.ports@))).insert(
            "variables"@,
            Json::Object(variables_model(manifest.variables@)),
        ),
    )
}

/// The data of a new application's manifest, as JSON: an object with the
/// one field `app_id`.
pub open spec fn identity_model(app_id: Seq<char>) -> Json {
    Json::Object(Map::<Seq<char>, Json>::empty().insert("app_id"@, Json::Text(app_id)))
}

/// One more field makes one more entry of the object.
proof fn lemma_object_push(
    fields: Seq<(String, handlebars::JsonValue)>,
    entry: (String, handlebars::JsonValue),
)
    ensures
        object_of(fields.push(entry)) == object_of(fields).insert(entry.0@, json_view(entry.1)),
{
    assert(fields.push(entry).drop_last() =~= fields);
}

/// The field `name` with `value`.
fn field(name: &str, value: handlebars::JsonValue) -> (pair: (String, handlebars::JsonValue))
    ensures
        pair.0@ == name@,
        pair.1 == value,
{
    (String::from_str(name), value)
}

/// Adds a field to the fields of an object under construction.
fn add_field(
    fields: &mut Vec<(String, handlebars::JsonValue)>,
    entry: (String, handlebars::JsonValue),
)
    ensures
        final(fields)@ == old(fields)@.push(entry),
        names_of(final(fields)@) == names_of(old(fields)@).push(entry.0@),
        object_of(final(fields)@) == object_of(old(fields)@).insert(
            entry.0@,
            json_view(entry.1),
        ),
{
    proof {
        lemma_object_push(fields@, entry);
    }
    fields.push(entry);
}

fn texts_json(texts: &Vec<String>) -> (value: handlebars::JsonValue)
    ensures
        json_view(value) == texts_model(texts@),
{
    let mut items: Vec<handlebars::JsonValue> = Vec::new();
    let mut i: usize = 0;
    while i < texts.len()
        invariant
            i <= texts.len(),
            items.len() == i,
            forall|k: int| 0 <= k < i ==> json_view(#[trigger] items@[k]) == Json::Text(texts@[k]@),
        decreases texts.len() - i,
    {
        items.push(json_text(texts[i].as_str()));
        i = i + 1;
    }
    assert(json_views(items@) =~= texts_model(texts@)->List_0);
    json_list(items)
}

fn metadata_json(metadata: &Metadata) -> (value: handlebars::JsonValue)
    ensures
        json_view(value) == metadata_model(*metadata),
{
    let mut fields: Vec<(String, handlebars::JsonValue)> = Vec::new();
    add_field(&mut fields, field("name", json_text(metadata.name.as_str())));
    add_field(&mut fields, field("desc", json_text(metadata.desc.as_str())));
    add_field(&mut fields, field("tags", texts_json(&metadata.tags)));
    add_field(&mut fields, field("version", json_text(metadata.version.as_str())));
    proof {
        reveal_strlit("name");
        reveal_strlit("desc");
        reveal_strlit("tags");
        reveal_strlit("version");
        assert("name"@[0] != "desc"@[0] && "name"@[0] != "tags"@[0] && "desc"@[0] != "tags"@[0]);
    }
    json_object(fields)
}

fn port_json(port: &Port) -> (value: handlebars::JsonValue)
    ensures
        json_view(value) == port_model(*port),
{
    let mut fields: Vec<(String, handlebars::JsonValue)> = Vec::new();
    add_field(&mut fields, field("ip", json_text(port.ip.as_str())));
    add_field(&mut fields, field("port", json_number(port.port)));
    add_field(&mut fields, field("desc", json_text(port.desc.as_str())));
    proof {
        reveal_strlit("ip");
        reveal_strlit("port");
        reveal_strlit("desc");
        assert("port"@[0] != "desc"@[0]);
    }
    json_object(fields)
}

fn variable_json(variable: &Variable) -> (value: handlebars::JsonValue)
    ensures
        json_view(value) == variable_model(*variable),
{
    let mut fields: Vec<(String, handlebars::JsonValue)> = Vec::new();
    add_field(&mut fields, field("name", json_text(variable.name.as_str())));
    add_field(&mut fields, field("desc", json_text(variable.desc.as_str())));
    add_field(&mut fields, field("value", json_text(variable.value.as_str())));
    proof {
        reveal_strlit("name");
        reveal_strlit("desc");
        reveal_strlit("value");
        assert("name"@[0] != "desc"@[0]);
    }
    json_object(fields)
}

fn ports_json(ports: &Vec<(String, Port)>) -> (value: handlebars::JsonValue)
    requires
        distinct(names_of(ports@)),
    ensures
        json_view(value) == Json::Object(ports_model(ports@)),
{
    let mut fields: Vec<(String, handlebars::JsonValue)> = Vec::new();
    let mut i: usize = 0;
    while i < ports.len()
        invariant
            i <= ports.len(),
            names_of(fields@) == names_of(ports@.take(i as int)),
            object_of(fields@) == ports_model(ports@.take(i as int)),
        decreases ports.len() - i,
    {
        add_field(&mut fields, (ports[i].0.clone(), port_json(&ports[i].1)));
        assert(ports@.take(i + 1).drop_last() =~= ports@.take(i as int));
        i = i + 1;
    }
    assert(ports@.take(i as int) =~= ports@);
    json_object(fields)
}

fn variables_json(variables: &Vec<(String, Variable)>) -> (value: handlebars::JsonValue)
    requires
        distinct(names_of(variables@)),
    ensures
        json_view(value) == Json::Object(variables_model(variables@)),
{
    let mut fields: Vec<(String, handlebars::JsonValue)> = Vec::new();
    let mut i: usize = 0;
    while i < variables.len()
        invariant
            i <= variables.len(),
            names_of(fields@) == names_of(variables@.take(i as int)),
            object_of(fields@) == variables_model(variables@.take(i as int)),
        decreases variables.len() - i,
    {
        add_field(&mut fields, (variables[i].0.clone(), variable_json(&variables[i].1)));
        assert(variables@.take(i + 1).drop_last() =~= variables@.take(i as int));
        i = i + 1;
    }
    assert(variables@.take(i as int) =~= variables@);
    json_object(fields)
}

/// The data that templates read: the manifest as a JSON object with the
/// fields `metadata`, `templates`, `ports` and `variables`. The manifest's
/// ports differ in their names, and so do its variables.
pub fn context_of(manifest: &Manifest) -> (value: handlebars::JsonValue)
    requires
        distinct(names_of(manifest.ports@)),
        distinct(names_of(manifest.variables@)),
    ensures
        json_view(value) == manifest_model(*manifest),
{
    let mut fields: Vec<(String, handlebars::JsonValue)> = Vec::new();
    add_field(&mut fields, field("metadata", metadata_json(&manifest.metadata)));
    add_field(&mut fields, field("templates", texts_json(&manifest.templates)));
    add_field(&mut fields, field("ports", ports_json(&manifest.ports)));
    add_field(&mut fields, field("variables", variables_json(&manifest.variables)));
    proof {
        reveal_strlit("metadata");
        reveal_strlit("templates");
        reveal_strlit("ports");
        reveal_strlit("variables");
        assert("metadata"@[0] != "templates"@[0] && "metadata"@[0] != "ports"@[0]
            && "templates"@[0] != "ports"@[0]);
    }
    json_object(fields)
}

/// The data of a manifest that is not loaded yet: a JSON object without
/// fields.
pub fn empty_context() -> (value: handlebars::JsonValue)
    ensures
        json_view(value) == Json::Object(Map::empty()),
{
    json_object(Vec::new())
}

/// The data that a new application's manifest is rendered against: a JSON
/// object with the one field `app_id`.
pub fn identity_context(app_id: &str) -> (value: handlebars::JsonValue)
    ensures
        json_view(value) == identity_model(app_id@),
{
    let mut fields: Vec<(String, handlebars::JsonValue)> = Vec::new();
    add_field(&mut fields, field("app_id", json_text(app_id)));
    json_object(fields)
}

/// Whether `source` has a tag that includes another template.
pub fn includes_partial(source: &str) -> (found: bool)
    ensures
        found == has_partial_tag(source@),
{
    let bytes = source.as_bytes();
    let n = bytes.len();
    let mut i: usize = 0;
    while i < n
        invariant
            i <= n,
            n == bytes@.len(),
            bytes@ == source.spec_bytes(),
            forall|a: int, b: int| 0 <= a < i ==> !includes_at(bytes@, a, b),
        decreases n - i,
    {
        if bytes[i] == BRACE && i + 1 < n && bytes[i + 1] == BRACE {
            let mut j: usize = i + 2;
            while j < n && is_filler_byte(bytes[j])
                invariant
                    i + 2 <= j <= n,
                    n == bytes@.len(),
                    forall|k: int| i + 2 <= k < j ==> is_filler(#[trigger] bytes@[k]),
                decreases n - j,
            {
                j = j + 1;
            }
            if j < n && bytes[j] == INCLUDE {
                assert(includes_at(bytes@, i as int, j as int));
                return true;
            }
        }
        i = i + 1;
    }
    false
}

/// Whether `byte` may stand between the opening braces of a tag and its
/// first sign.
fn is_filler_byte(byte: u8) -> (filler: bool)
    ensures
        filler == is_filler(byte),
{
    byte == 0x20 || byte == 0x09 || byte == 0x0a || byte == 0x0d || byte == 0x7e || byte == 0x23
}

/// What a rendering comes to: the text, or the fault of the template `name`
/// with the engine's reason.
pub fn rendered_or_fault(name: &String, outcome: Result<String, String>) -> (rendered: Result<
    String,
    RenderFault,
>)
    ensures
        rendered == match outcome {
            Ok(text) => Ok::<String, RenderFault>(text),
            Err(reason) => Err(RenderFault { template: *name, stage: Stage::Render, reason }),
        },
{
    match outcome {
        Ok(text) => Ok(text),
        Err(reason) => Err(RenderFault { template: name.clone(), stage: Stage::Render, reason }),
    }
}

/// A registry of compiled templates and the names they were compiled under.
pub struct Renderer {
    registry: handlebars::Handlebars<'static>,
    names: Vec<String>,
}

impl Renderer {
    /// The renderer is one that rendering ends with: none of its templates
    /// includes another template.
    pub closed spec fn sound(&self) -> bool {
        registry_partial_free(self.registry)
    }

    /// The names of the templates compiled so far, in the order of their
    /// registration.
    pub closed spec fn compiled(&self) -> Seq<String> {
        self.names@
    }

    /// Whether a variable that is not there is an error.
    pub closed spec fn strict(&self) -> bool {
        registry_strict(self.registry)
    }

    /// Whether substituted text is escaped for HTML.
    pub closed spec fn escaping(&self) -> bool {
        registry_escapes(self.registry)
    }

    /// The names of the helpers that templates can call.
    pub closed spec fn helpers(&self) -> Set<Seq<char>> {
        registry_helpers(self.registry)
    }

    /// A renderer with no template: undefined variables are errors, output
    /// is not escaped, and `rand_pass` is available.
    pub fn new() -> (renderer: Renderer)
        ensures
            renderer.sound(),
            renderer.compiled().len() == 0,
            renderer.strict(),
            !renderer.escaping(),
            renderer.helpers().contains(RAND_PASS@),
    {
        let mut registry = registry_new();
        registry_no_escape(&mut registry);
        registry_set_strict(&mut registry, true);
        registry_add_rand_pass(&mut registry, RAND_PASS);
        Renderer { registry, names: Vec::new() }
    }

    /// A renderer with no template and the engine's defaults: undefined
    /// variables render as nothing and output is escaped for HTML.
    pub fn plain() -> (renderer: Renderer)
        ensures
            renderer.sound(),
            renderer.compiled().len() == 0,
            !renderer.strict(),
            renderer.escaping(),
    {
        Renderer { registry: registry_new(), names: Vec::new() }
    }

    /// Compiles `source` under `name`. A source that includes another
    /// template is refused before the engine sees it; one that does not parse
    /// is refused by the engine. Either leaves the renderer as it was.
    pub fn register(&mut self, name: &String, source: &str) -> (registered: Result<
        (),
        RenderFault,
    >)
        ensures
            registered is Ok <==> accepted(name@, source@),
            registered is Ok ==> final(self).compiled() == old(self).compiled().push(*name),
            registered matches Err(fault) ==> {
                &&& final(self).compiled() == old(self).compiled()
                &&& fault.template == *name
                &&& fault.stage == Stage::Compile
                &&& fault.reason@ == if has_partial_tag(source@) {
                    PARTIAL_REFUSED@
                } else {
                    parse_fault(name@, source@)
                }
            },
            final(self).strict() == old(self).strict(),
            final(self).escaping() == old(self).escaping(),
            final(self).helpers() == old(self).helpers(),
            old(self).sound() ==> final(self).sound(),
    {
        if includes_partial(source) {
            return Err(
                RenderFault {
                    template: name.clone(),
                    stage: Stage::Compile,
                    reason: String::from_str(PARTIAL_REFUSED),
                },
            );
        }
        match registry_compile(&mut self.registry, name.as_str(), source) {
            Ok(()) => {
                self.names.push(name.clone());
                Ok(())
            },
            Err(error) => Err(
                RenderFault {
                    template: name.clone(),
                    stage: Stage::Compile,
                    reason: template_error_text(&error),
                },
            ),
        }
    }

    /// Renders the template compiled under `name` against `data`. The output
    /// differs from call to call where the template asks for secrets.
    pub fn render(&self, name: &String, data: &handlebars::JsonValue) -> (rendered: Result<
        String,
        RenderFault,
    >)
        requires
            self.sound(),
        ensures
            rendered matches Err(fault) ==> fault.template == *name && fault.stage
                == Stage::Render,
    {
        let outcome = match registry_render(&self.registry, name.as_str(), data) {
            Ok(text) => Ok(text),
            Err(error) => Err(render_error_text(&error)),
        };
        rendered_or_fault(name, outcome)
    }
}

} // verus!
