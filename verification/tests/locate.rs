use base16_templater::failure::Failure;
use base16_templater::locate::{
    file_name_of, find_templates, is_template_path, output_path, search_pattern, TemplateRef,
};

#[test]
fn search_pattern_looks_at_every_depth() {
    assert_eq!(search_pattern("themes"), "themes/**/base16-templater*.mustache");
    assert_eq!(search_pattern(""), "/**/base16-templater*.mustache");
    assert_eq!(search_pattern("/a/b/"), "/a/b//**/base16-templater*.mustache");
}

#[test]
fn templates_are_known_by_their_name() {
    assert!(is_template_path("base16-templater.mustache"));
    assert!(is_template_path("base16-templater-foo.mustache"));
    assert!(is_template_path("dir/base16-templater-foo.mustache"));
    assert!(is_template_path("/a/b/c/d/e/base16-templater.vim.mustache"));
    assert!(is_template_path("./base16-templater..mustache"));
    assert!(is_template_path("d\u{e9}p\u{f4}t/base16-templater-\u{e9}.mustache"));
}

#[test]
fn other_names_are_not_templates() {
    assert!(!is_template_path(""));
    assert!(!is_template_path("base16-templater"));
    assert!(!is_template_path(".mustache"));
    assert!(!is_template_path("base16-templatermustache"));
    assert!(!is_template_path("base16-template.mustache"));
    assert!(!is_template_path("Base16-templater.mustache"));
    assert!(!is_template_path("base16-templater.Mustache"));
    assert!(!is_template_path("base16-templater.mustache.bak"));
    assert!(!is_template_path("xbase16-templater.mustache"));
    assert!(!is_template_path("base16-templater.mustache/readme"));
    assert!(!is_template_path("base16-templater/x.mustache"));
    assert!(!is_template_path("dir/other.mustache"));
}

#[test]
fn matching_does_not_depend_on_depth() {
    let names = ["base16-templater-a.mustache", "readme.md", "base16-templater.mustache", "a.mustache"];
    let dirs = ["", "x/", "x/y/", "/x/y/z/", "./"];
    let mut found = 0;
    let mut ignored = 0;
    for dir in dirs {
        for name in names {
            if is_template_path(&format!("{}{}", dir, name)) {
                found += 1;
            } else {
                ignored += 1;
            }
        }
    }
    assert_eq!(found, 10);
    assert_eq!(ignored, 10);
}

#[test]
fn output_path_drops_the_template_extension() {
    assert_eq!(output_path("base16-templater-foo.mustache"), "base16-templater-foo");
    assert_eq!(output_path("dir/sub/base16-templater-foo.mustache"), "dir/sub/base16-templater-foo");
    assert_eq!(output_path("/abs/base16-templater.mustache"), "/abs/base16-templater");
}

#[test]
fn output_path_keeps_embedded_dots() {
    assert_eq!(output_path("base16-templater.vim.rc.mustache"), "base16-templater.vim.rc");
    assert_eq!(output_path("a.b/base16-templater-x.y.mustache"), "a.b/base16-templater-x.y");
    assert_eq!(output_path("d\u{e9}/base16-templater-\u{e9}.z.mustache"), "d\u{e9}/base16-templater-\u{e9}.z");
}

#[test]
fn output_path_drops_one_extension_only() {
    assert_eq!(output_path("x.tar.gz"), "x.tar");
    assert_eq!(output_path("x."), "x");
    assert_eq!(output_path(output_path("x.tar.gz").as_str()), "x");
}

#[test]
fn output_path_leaves_names_without_extension() {
    assert_eq!(output_path(""), "");
    assert_eq!(output_path("plain"), "plain");
    assert_eq!(output_path("dir.d/plain"), "dir.d/plain");
    assert_eq!(output_path(".hidden"), ".hidden");
    assert_eq!(output_path("dir/.hidden"), "dir/.hidden");
    assert_eq!(output_path("dir.d/"), "dir.d/");
}

#[test]
fn find_templates_accepts_a_plain_directory() {
    let mut scan = find_templates("no/such/directory/anywhere").unwrap();
    assert!(scan.next().is_none());
}

#[test]
fn find_templates_refuses_a_broken_pattern() {
    let scan = find_templates("themes/***");
    assert!(matches!(scan, Err(Failure::InvalidSearchPattern(_))));
    let scan = find_templates("a**b");
    assert!(matches!(scan, Err(Failure::InvalidSearchPattern(_))));
    let expected = glob::glob("a**b/**/base16-templater*.mustache").unwrap_err().to_string();
    match find_templates("a**b") {
        Err(failure) => assert_eq!(failure.message(), format!("invalid search pattern: {}", expected)),
        Ok(_) => panic!("the pattern was accepted"),
    }
}

#[test]
fn a_template_reference_holds_both_paths() {
    let template = TemplateRef::at("a/b/base16-templater.x.y.mustache".to_string()).unwrap();
    assert_eq!(template.source(), "a/b/base16-templater.x.y.mustache");
    assert_eq!(template.output(), "a/b/base16-templater.x.y");
    assert_eq!(template.output_name(), "base16-templater.x.y");
    let copy = template.duplicate();
    assert_eq!(copy.source(), template.source());
    assert_eq!(copy.output(), template.output());
    assert_eq!(copy.output_name(), template.output_name());
}

#[test]
fn only_templates_have_a_reference() {
    assert!(TemplateRef::at("base16-templater.mustache".to_string()).is_some());
    assert!(TemplateRef::at("a/readme.mustache".to_string()).is_none());
    assert!(TemplateRef::at("base16-templater.mustache/x".to_string()).is_none());
    assert!(TemplateRef::at(String::new()).is_none());
}

#[test]
fn the_file_name_is_the_last_component() {
    assert_eq!(file_name_of("a/b/c.d"), "c.d");
    assert_eq!(file_name_of("c.d"), "c.d");
    assert_eq!(file_name_of("/c"), "c");
    assert_eq!(file_name_of("a/b/"), "");
    assert_eq!(file_name_of(""), "");
    assert_eq!(file_name_of("d\u{e9}/\u{e9}t\u{e9}"), "\u{e9}t\u{e9}");
}
