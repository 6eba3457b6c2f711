use base16_templater::failure::{Failure, Kind};
use base16_templater::palette::{context_name, SchemeInput, SchemeOutput};
use base16_templater::render::{
    is_standalone, render_standalone, render_template, vet, MAX_SECTIONS,
};

fn scheme() -> SchemeOutput {
    let mut found = vec![Some("Test".to_string()), Some("A".to_string())];
    let colours = [
        "#000000", "#111111", "#222222", "#333333", "#444444", "#555555", "#666666", "#777777",
        "#888888", "#999999", "#aaaaaa", "#bbbbbb", "#cccccc", "#dddddd", "#eeeeee", "#ffffff",
    ];
    for colour in colours {
        found.push(Some(colour.to_string()));
    }
    SchemeOutput::from(&SchemeInput::from_fields(&found).unwrap())
}

fn rendered(template: &str, scheme: &SchemeOutput) -> Result<String, Failure> {
    match render_template(template, scheme) {
        Some(result) => result,
        None => panic!("{} does not stand alone", template),
    }
}

#[test]
fn renders_scheme_name_and_colour() {
    let text = rendered("name={{scheme-name}} bg={{base00-hex}}\n", &scheme()).unwrap();
    assert_eq!(text, "name=Test bg=#000000\n");
}

#[test]
fn renders_every_field_under_its_name() {
    let scheme = scheme();
    let entries = scheme.entries();
    for index in 0..18 {
        let template = format!("<{{{{{{{}}}}}}}>", context_name(index));
        let text = rendered(&template, &scheme).unwrap();
        assert_eq!(text, format!("<{}>", entries[index].1));
    }
    let text = render_standalone("{{scheme-author}}/{{base0A-hex}}/{{base0F-hex}}", &scheme).unwrap();
    assert_eq!(text, "A/#aaaaaa/#ffffff");
}

#[test]
fn text_without_tags_is_kept() {
    assert_eq!(rendered("", &scheme()).unwrap(), "");
    assert_eq!(rendered("a { b } . }\n", &scheme()).unwrap(), "a { b } . }\n");
}

#[test]
fn escaped_and_unescaped_tags() {
    let mut found: Vec<Option<String>> = Vec::new();
    for _ in 0..18 {
        found.push(Some("<&>".to_string()));
    }
    let scheme = SchemeOutput::from(&SchemeInput::from_fields(&found).unwrap());
    let text = rendered("{{scheme-name}}|{{{scheme-name}}}|{{&scheme-name}}", &scheme).unwrap();
    assert_eq!(text, "&lt;&amp;&gt;|<&>|<&>");
}

#[test]
fn an_unknown_name_is_a_render_error() {
    let cases = [
        ("[{{no-such-field}}]", "no-such-field"),
        ("{{base0a-hex}}", "base0a-hex"),
        ("{{base10-hex}}", "base10-hex"),
        ("{{scheme}}", "scheme"),
        ("{{base00}}", "base00"),
        ("{{scheme-name}}{{ base0F }}", "base0F"),
        ("{{{nope}}}", "nope"),
        ("{{{ nope }}}", "nope"),
        ("{{&nope}}", "nope"),
        ("{{& nope\t}}", "nope"),
        ("{{#nope}}x{{/nope}}", "nope"),
        ("{{^nope}}x{{/nope}}", "nope"),
        ("{{#scheme-name}}{{inner}}{{/scheme-name}}", "inner"),
        ("{{scheme-name.x}}", "scheme-name.x"),
        ("{{scheme-name.}}", "scheme-name."),
        ("{{ #scheme-name }}", "#scheme-name"),
        ("{{! fine }}{{a {{ b}}", "a {{ b"),
        ("{ {{x}}", "x"),
        ("{{{{x}}}}", "{x"),
    ];
    for (template, name) in cases {
        match rendered(template, &scheme()) {
            Err(Failure::Render(detail)) => {
                assert_eq!(detail, format!("no field named {}", name), "{}", template)
            }
            other => panic!("{} gave {:?}", template, other),
        }
    }
}

#[test]
fn known_names_are_found_in_every_kind_of_tag() {
    let cases = [
        ("{{ scheme-name }}", "Test"),
        ("{{\tscheme-author\n}}", "A"),
        ("{{{base00-hex}}}", "#000000"),
        ("{{{ base0F-hex }}}", "#ffffff"),
        ("{{&base0A-hex}}", "#aaaaaa"),
        ("{{& base0A-hex }}", "#aaaaaa"),
        ("{{! no {{ name }}x", "x"),
        ("{{!}}", ""),
        ("{{#scheme-name}}{{base01-hex}}{{/scheme-name}}", "#111111"),
        ("{{# scheme-name }}in{{/ scheme-name }}", "in"),
        ("{{^scheme-name}}out{{/scheme-name}}", ""),
        ("{{#.}}{{scheme-name}}{{/.}}", "Test"),
        ("{{scheme-name}", "scheme-name}"),
        ("a { b } {c}", "a { b } {c}"),
    ];
    for (template, expected) in cases {
        assert_eq!(rendered(template, &scheme()).unwrap(), expected, "{}", template);
    }
}

#[test]
fn a_syntax_error_carries_the_diagnostic_of_the_engine() {
    let expected = mustache::compile_str("{{#open}}").unwrap_err().to_string();
    match rendered("{{#open}}", &scheme()) {
        Err(Failure::TemplateSyntax(detail)) => assert_eq!(detail, expected),
        other => panic!("got {:?}", other),
    }
}

#[test]
fn a_syntax_error_comes_before_an_unknown_name() {
    for template in ["{{nope}}{{#scheme-name}}", "{{nope}}{{/nope}}", "{{#nope}}"] {
        match rendered(template, &scheme()) {
            Err(failure) => assert_eq!(failure.kind(), Kind::TemplateSyntax, "{}", template),
            Ok(text) => panic!("{} rendered as {}", template, text),
        }
    }
}

#[test]
fn sections_on_fields_are_rendered() {
    let template = "{{#scheme-name}}yes{{/scheme-name}}{{^scheme-author}}no{{/scheme-author}}";
    assert_eq!(rendered(template, &scheme()).unwrap(), "yes");
}

#[test]
fn broken_syntax_is_a_syntax_error() {
    for template in ["{{#open}}never closed", "{{unclosed", "{{/early}}", "{{}}", "{{name}x", "{{{name}} x"] {
        match rendered(template, &scheme()) {
            Err(failure) => assert_eq!(failure.kind(), Kind::TemplateSyntax, "{}", template),
            Ok(text) => panic!("{} rendered as {}", template, text),
        }
    }
}

#[test]
fn foreign_tags_are_not_rendered() {
    let templates = [
        "{{> header}}",
        "{{>header}}",
        "a {{=<% %>=}} b",
        "{{.}}",
        "x{{ . }}y",
        "{{{.}}}",
        "{{{ . }}}",
        "{{&.}}",
        "{{& .\t}}",
        "{{#scheme-name}}{{.}}{{/scheme-name}}",
        "{{\u{a0}.\u{2003}}}",
    ];
    for template in templates {
        assert!(!is_standalone(template), "{}", template);
        assert!(render_template(template, &scheme()).is_none(), "{}", template);
    }
}

#[test]
fn ordinary_templates_stand_alone() {
    let templates = [
        "",
        "{",
        "{{",
        "{{scheme-name}}",
        "{{ scheme-name }}.",
        "{{a.b}}",
        "{{.a}}",
        "{{a.}}",
        "{ . }",
        "{{#. }}x{{/.}}",
        "{{! a comment }}",
        "{{ > not a partial }}",
        ". }}",
        "{{x . }}",
    ];
    for template in templates {
        assert!(is_standalone(template), "{}", template);
        assert!(render_template(template, &scheme()).is_some(), "{}", template);
    }
}

fn letters(text: &str) -> usize {
    text.chars().filter(|c| *c == 'a').count()
}

fn render_all_standalone(alphabet: &[char], longest: usize, check_letters: bool) -> usize {
    let scheme = scheme();
    let mut rendered = 0;
    let mut indices = vec![0usize; 0];
    loop {
        let template: String = indices.iter().map(|&index| alphabet[index]).collect();
        if let Some(result) = render_template(&template, &scheme) {
            match result {
                Ok(text) => assert!(
                    !check_letters || letters(&text) == letters(&template),
                    "{} gave {}",
                    template,
                    text
                ),
                Err(failure) => assert!(
                    failure.kind() == Kind::TemplateSyntax || failure.kind() == Kind::Render,
                    "{}",
                    template
                ),
            }
            rendered += 1;
        }
        let mut place = 0;
        while place < indices.len() && indices[place] + 1 == alphabet.len() {
            indices[place] = 0;
            place += 1;
        }
        if place < indices.len() {
            indices[place] += 1;
        } else if indices.len() < longest {
            indices.push(0);
        } else {
            return rendered;
        }
    }
}

#[test]
fn the_engine_takes_every_short_standalone_template() {
    let alphabet = ['{', '}', '.', ' ', '&', '#', '^', '/', '=', '>', '!', 'a'];
    assert!(render_all_standalone(&alphabet, 5, false) > 200000);
}

#[test]
fn the_engine_takes_every_standalone_template_of_dots_and_braces() {
    let alphabet = ['{', '}', '.', ' ', '&', 'a'];
    assert!(render_all_standalone(&alphabet, 7, false) > 250000);
}

#[test]
fn no_tag_with_a_name_escapes_the_scan() {
    // No name of the scheme can be written with these characters, so a template that renders
    // has no tag with a name, and the engine must have kept every letter of it.
    let alphabet = ['{', '}', '.', ' ', '&', '#', '/', 'a'];
    assert!(render_all_standalone(&alphabet, 6, true) > 250000);
}

#[test]
fn a_template_with_many_sections_does_not_stand_alone() {
    assert_eq!(MAX_SECTIONS, 64);
    let nest = |depth: usize| {
        format!("{}x{}", "{{#scheme-name}}".repeat(depth), "{{/scheme-name}}".repeat(depth))
    };
    assert!(is_standalone(&nest(64)));
    assert_eq!(rendered(&nest(64), &scheme()).unwrap(), "x");
    assert!(!is_standalone(&nest(65)));
    assert!(render_template(&nest(65), &scheme()).is_none());
    let row = "{{^scheme-name}}{{/scheme-name}}".repeat(65);
    assert!(!is_standalone(&row));
}

#[test]
fn vet_keeps_a_failure_and_a_text_with_known_names() {
    let kept = vet("{{> p}}{{scheme-name}}", Ok("text".to_string()));
    assert_eq!(kept.unwrap(), "text");
    let kept = vet("{{> p}}{{nope}}", Err(Failure::TemplateSyntax("bad".to_string())));
    assert_eq!(kept.unwrap_err().message(), "template syntax error: bad");
    let kept = vet("{{=| |=}}{{nope}}", Ok("text".to_string()));
    assert_eq!(kept.unwrap(), "text");
    let refused = vet("{{.}}{{nope}}", Ok("text".to_string()));
    assert_eq!(refused.unwrap_err().message(), "render error: no field named nope");
}

fn engine_names_a_field(template: &str) -> Option<bool> {
    let compiled = mustache::compile_str(template).ok()?;
    let shown = format!("{:?}", compiled);
    Some(
        shown.contains("EscapedTag([\"")
            || shown.contains("UnescapedTag([\"")
            || shown.contains("Section([\""),
    )
}

fn scan_agrees_with_engine(prefix: &str, alphabet: &[char], longest: usize) -> usize {
    // No name of the scheme can be written with these characters, so the scan finds an unknown
    // name exactly where the engine has a tag with a name.
    let mut compiled = 0;
    let mut indices = vec![0usize; 0];
    loop {
        let rest: String = indices.iter().map(|&index| alphabet[index]).collect();
        let template = format!("{}{}", prefix, rest);
        if let Some(named) = engine_names_a_field(&template) {
            let refused = vet(&template, Ok(String::new())).is_err();
            assert_eq!(refused, named, "{}", template);
            compiled += 1;
        }
        let mut place = 0;
        while place < indices.len() && indices[place] + 1 == alphabet.len() {
            indices[place] = 0;
            place += 1;
        }
        if place < indices.len() {
            indices[place] += 1;
        } else if indices.len() < longest {
            indices.push(0);
        } else {
            return compiled;
        }
    }
}

#[test]
fn the_scan_reads_tags_as_the_engine_does() {
    let alphabet = ['{', '}', '=', ' ', '|', 'a', '#', '/', '!', '&'];
    assert!(scan_agrees_with_engine("", &alphabet, 5) > 50000);
}

#[test]
fn the_scan_reads_long_tags_as_the_engine_does() {
    let alphabet = ['{', '}', '=', ' ', 'a'];
    assert!(scan_agrees_with_engine("", &alphabet, 8) > 100000);
}

#[test]
fn the_scan_follows_delimiters_of_one_character() {
    let alphabet = ['|', ' ', 'a', '{', '}', '=', '#'];
    assert!(scan_agrees_with_engine("{{=| |=}}", &alphabet, 6) > 20000);
}

#[test]
fn the_scan_follows_delimiters_of_two_characters() {
    let alphabet = ['<', '%', '>', 'a', ' ', '{', '}'];
    assert!(scan_agrees_with_engine("x{{=<% %>=}}\n", &alphabet, 6) > 20000);
}

#[test]
fn the_scan_follows_delimiters_of_three_characters() {
    let alphabet = ['[', ']', 'a', ' ', '='];
    assert!(scan_agrees_with_engine("{{= [[[  ]]] =}}", &alphabet, 7) > 20000);
    assert!(scan_agrees_with_engine("{{=[[[ ]=}}", &alphabet, 7) > 20000);
    assert!(scan_agrees_with_engine("{{=[ ]]]=}}", &alphabet, 7) > 1000);
}

#[test]
fn the_scan_follows_delimiters_that_repeat_a_character() {
    let alphabet = ['a', 'b', ' ', '='];
    assert!(scan_agrees_with_engine("{{=aab ba=}}", &alphabet, 8) > 20000);
}

#[test]
fn the_scan_follows_a_second_change_of_delimiters() {
    let alphabet = ['<', '>', 'a', '|', ' ', '='];
    assert!(scan_agrees_with_engine("{{=| |=}}|a||=< >=|", &alphabet, 6) > 1000);
    assert!(scan_agrees_with_engine("{{=| |=}}|={{ }}=|", &['{', '}', 'a', '|', ' '], 7) > 20000);
}

#[test]
fn an_unknown_name_is_found_before_and_behind_a_change_of_delimiters() {
    let cases = [
        ("{{missing}}{{=<% %>=}}", "missing"),
        ("{{=<% %>=}}<%missing%>", "missing"),
        ("{{=<% %>=}}<% scheme-name %><%& base0g-hex %>", "base0g-hex"),
        ("{{=<% %>=}}<%={{ }}=%>{{missing}}", "missing"),
        ("{{=| |=}}|#nope|x|/nope|", "nope"),
        ("{{= [[  ]] =}}[[{nope}]]", "nope"),
    ];
    for (template, name) in cases {
        match vet(template, Ok("text".to_string())) {
            Err(Failure::Render(detail)) => {
                assert_eq!(detail, format!("no field named {}", name), "{}", template)
            }
            other => panic!("{} gave {:?}", template, other),
        }
    }
}

#[test]
fn known_names_are_found_behind_a_change_of_delimiters() {
    let templates = [
        "{{=<% %>=}}<%scheme-name%>{{nope}}",
        "{{=<% %>=}}<%#scheme-name%><%base00-hex%><%/scheme-name%>",
        "{{scheme-name}}{{=| |=}}|base0F-hex|{{nope}}|! {{nope}} |",
        "{{=<% %>=}}<%={{ }}=%>{{scheme-author}}<%nope%>",
        "{{=[[[ ]]]=}}[[[nope]]]",
    ];
    for template in templates {
        assert_eq!(vet(template, Ok("text".to_string())).unwrap(), "text", "{}", template);
    }
}
