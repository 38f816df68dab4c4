use collie_app::up::manifest::{Manifest, Metadata, Port, Variable};
use collie_app::up::renderer::{
    context_of, empty_context, identity_context, includes_partial, rendered_or_fault, RenderFault,
    Renderer, Stage, PARTIAL_REFUSED, RAND_PASS,
};

fn sample() -> Manifest {
    Manifest {
        metadata: Metadata {
            name: "demo".to_string(),
            desc: "a <demo> & more".to_string(),
            tags: vec!["one".to_string(), "two".to_string()],
            version: "1.2.3".to_string(),
        },
        templates: vec!["a.env".to_string()],
        ports: vec![(
            "http".to_string(),
            Port { ip: "127.0.0.1".to_string(), port: 8080, desc: "web".to_string() },
        )],
        variables: vec![(
            "domain".to_string(),
            Variable {
                name: "domain".to_string(),
                desc: "host name".to_string(),
                value: "example.org".to_string(),
            },
        )],
    }
}

fn render(source: &str) -> Result<String, collie_app::up::renderer::RenderFault> {
    let mut renderer = Renderer::new();
    let name = "file".to_string();
    renderer.register(&name, source)?;
    renderer.render(&name, &context_of(&sample()))
}

#[test]
fn manifest_fields_are_substituted() {
    assert_eq!(render("{{metadata.name}}-{{metadata.version}}").unwrap(), "demo-1.2.3");
    assert_eq!(render("{{ports.http.ip}}:{{ports.http.port}}").unwrap(), "127.0.0.1:8080");
    assert_eq!(render("{{variables.domain.value}}").unwrap(), "example.org");
    assert_eq!(render("{{#each metadata.tags}}{{this}},{{/each}}").unwrap(), "one,two,");
    assert_eq!(render("{{templates.[0]}}").unwrap(), "a.env");
    assert_eq!(render("{{variables.domain.name}}/{{variables.domain.desc}}").unwrap(), "domain/host name");
    assert_eq!(render("{{ports.http.desc}}").unwrap(), "web");
}

#[test]
fn output_is_not_escaped() {
    assert_eq!(render("{{metadata.desc}}").unwrap(), "a <demo> & more");
}

#[test]
fn text_without_markers_is_kept() {
    let text = "#!/bin/sh\necho \"$HOME\" && exit 0\n";
    assert_eq!(render(text).unwrap(), text);
}

#[test]
fn an_undefined_variable_is_an_error() {
    let fault = render("{{variables.missing.value}}").unwrap_err();
    assert_eq!(fault.template, "file");
    assert_eq!(fault.stage, Stage::Render);
    assert!(!fault.reason.is_empty());
}

#[test]
fn a_syntax_error_is_a_compile_fault_and_registers_nothing() {
    let mut renderer = Renderer::new();
    let bad = "bad".to_string();
    let fault = renderer.register(&bad, "{{#if x}}never closed").unwrap_err();
    assert_eq!(fault.template, "bad");
    assert_eq!(fault.stage, Stage::Compile);
    assert!(!fault.reason.is_empty());
    let rendered = renderer.render(&bad, &context_of(&sample()));
    assert_eq!(rendered.unwrap_err().stage, Stage::Render);
}

#[test]
fn secrets_are_generated_while_rendering() {
    assert_eq!(RAND_PASS, "rand_pass");
    let first = render(r#"{{rand_pass "p" 24}}pass={{@p}}"#).unwrap();
    let second = render(r#"{{rand_pass "p" 24}}pass={{@p}}"#).unwrap();
    assert_eq!(first.len(), 5 + 24);
    assert!(first.starts_with("pass="));
    assert_ne!(first, second);
}

#[test]
fn a_failing_helper_is_a_render_fault() {
    let fault = render(r#"{{rand_pass "p" 2}}"#).unwrap_err();
    assert_eq!(fault.stage, Stage::Render);
    assert!(fault.reason.contains("Can't generate password"));
}

#[test]
fn plain_renderer_has_the_engine_defaults() {
    let mut renderer = Renderer::plain();
    let name = "manifest.yaml".to_string();
    renderer.register(&name, "id: {{app_id}}{{nothing}}").unwrap();
    let rendered = renderer.render(&name, &identity_context("abc@COLI")).unwrap();
    assert_eq!(rendered, "id: abc@COLI");
    let mut plain = Renderer::plain();
    plain.register(&name, r#"{{rand_pass "p" 8}}"#).unwrap();
    assert!(plain.render(&name, &identity_context("x")).is_err());
}

#[test]
fn the_context_is_the_manifest_field_by_field() {
    let context = context_of(&sample());
    assert_eq!(context.as_object().unwrap().len(), 4);
    let metadata = &context["metadata"];
    assert_eq!(metadata.as_object().unwrap().len(), 4);
    assert_eq!(metadata["name"], "demo");
    assert_eq!(metadata["desc"], "a <demo> & more");
    assert_eq!(metadata["version"], "1.2.3");
    assert_eq!(metadata["tags"].as_array().unwrap().len(), 2);
    assert_eq!(metadata["tags"][0], "one");
    assert_eq!(metadata["tags"][1], "two");
    assert_eq!(context["templates"].as_array().unwrap().len(), 1);
    assert_eq!(context["templates"][0], "a.env");
    let ports = context["ports"].as_object().unwrap();
    assert_eq!(ports.len(), 1);
    assert_eq!(ports["http"].as_object().unwrap().len(), 3);
    assert_eq!(ports["http"]["ip"], "127.0.0.1");
    assert_eq!(ports["http"]["port"], 8080);
    assert!(ports["http"]["port"].is_u64());
    assert_eq!(ports["http"]["desc"], "web");
    let variables = context["variables"].as_object().unwrap();
    assert_eq!(variables.len(), 1);
    assert_eq!(variables["domain"].as_object().unwrap().len(), 3);
    assert_eq!(variables["domain"]["name"], "domain");
    assert_eq!(variables["domain"]["desc"], "host name");
    assert_eq!(variables["domain"]["value"], "example.org");
}

#[test]
fn an_empty_manifest_gives_empty_collections() {
    let manifest = Manifest {
        metadata: Metadata {
            name: String::new(),
            desc: String::new(),
            tags: Vec::new(),
            version: String::new(),
        },
        templates: Vec::new(),
        ports: Vec::new(),
        variables: Vec::new(),
    };
    let context = context_of(&manifest);
    assert_eq!(context.to_string(), r#"{"metadata":{"desc":"","name":"","tags":[],"version":""},"ports":{},"templates":[],"variables":{}}"#);
}

#[test]
fn the_other_contexts_are_small_objects() {
    assert_eq!(empty_context().to_string(), "{}");
    assert_eq!(identity_context("abc@COLI").to_string(), r#"{"app_id":"abc@COLI"}"#);
}

#[test]
fn a_rendering_is_its_text_or_a_fault_of_the_template() {
    let name = "conf/app.env".to_string();
    assert_eq!(rendered_or_fault(&name, Ok("A=1".to_string())), Ok("A=1".to_string()));
    assert_eq!(
        rendered_or_fault(&name, Err("no such variable".to_string())),
        Err(RenderFault {
            template: "conf/app.env".to_string(),
            stage: Stage::Render,
            reason: "no such variable".to_string(),
        })
    );
}

#[test]
fn strict_and_plain_renderers_differ() {
    let name = "t".to_string();
    let data = identity_context("<id>");
    let mut strict = Renderer::new();
    strict.register(&name, "{{app_id}}").unwrap();
    assert_eq!(strict.render(&name, &data).unwrap(), "<id>");
    let mut plain = Renderer::plain();
    plain.register(&name, "{{app_id}}").unwrap();
    assert_eq!(plain.render(&name, &data).unwrap(), "&lt;id&gt;");
    let mut strict = Renderer::new();
    strict.register(&name, "[{{missing}}]").unwrap();
    assert!(strict.render(&name, &data).is_err());
    let mut plain = Renderer::plain();
    plain.register(&name, "[{{missing}}]").unwrap();
    assert_eq!(plain.render(&name, &data).unwrap(), "[]");
}

#[test]
fn tags_that_include_are_found() {
    for source in [
        "{{> a}}",
        "{{>a}}",
        "x {{~> a}} y",
        "{{ # > a}}",
        "{{#> layout}}x{{/layout}}",
        "{{~#>a}}",
        "\n{{\t>\ta}}",
        "{{\r\n~ #\n>a}}",
        "{{>",
        "{{{>a}}}",
        "{{x}}{{> b}}",
        "\\{{> a}}",
    ] {
        assert!(includes_partial(source), "{source:?}");
    }
}

#[test]
fn other_text_includes_nothing() {
    for source in [
        "",
        "{",
        "{{",
        "{{ ",
        "{{~",
        "{{name}}",
        "a > b",
        "{{#if x}}>{{/if}}",
        "{{ x > y }}",
        "{ {> a}}",
        "{>{> a}}",
        "{{!-- > --}}",
        "{{!> a}}",
        "{{*> a}}",
        "{{&> a}}",
        "{{/> a}}",
        "{{#if a}}{{/if}} > {{b}}",
        "{{rand_pass \"p\" 8}}{{@p}}",
        "#!/bin/sh\necho ok > /dev/null\n",
        "{{\u{a0}> a}}",
    ] {
        assert!(!includes_partial(source), "{source:?}");
    }
}

#[test]
fn a_template_that_includes_another_is_refused_before_the_engine() {
    let mut renderer = Renderer::new();
    let a = "a".to_string();
    let b = "b".to_string();
    for (name, source) in [(&a, "{{> b}}"), (&b, "{{> a}}"), (&a, "{{#*inline \"x\"}}{{> x}}{{/inline}}{{> x}}")] {
        assert_eq!(
            renderer.register(name, source),
            Err(RenderFault {
                template: name.clone(),
                stage: Stage::Compile,
                reason: PARTIAL_REFUSED.to_string(),
            })
        );
    }
    let rendered = renderer.render(&a, &empty_context());
    assert_eq!(rendered.unwrap_err().stage, Stage::Render);
    renderer.register(&a, "fine").unwrap();
    assert_eq!(renderer.render(&a, &empty_context()).unwrap(), "fine");
}

#[test]
fn a_source_that_does_not_parse_is_refused_with_the_engines_words() {
    let mut renderer = Renderer::new();
    let name = "conf/app.env".to_string();
    let fault = renderer.register(&name, "line one\n{{#if x}}never closed").unwrap_err();
    assert_eq!(fault.stage, Stage::Compile);
    assert_ne!(fault.reason, PARTIAL_REFUSED);
    assert!(!fault.reason.is_empty());
    let again = Renderer::plain().register(&name, "line one\n{{#if x}}never closed").unwrap_err();
    assert_eq!(again.reason, fault.reason);
}
