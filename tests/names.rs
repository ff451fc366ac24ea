use gobject_gen::glib_utils::{
    decimal, join, lower_case_instance_name, run, split_words, str_eq, tokens_GObject,
    tokens_ParentClassFfi, tokens_ParentInstance, tokens_ParentInstanceFfi,
};
use gobject_gen::ast::{Class, Path, PathSegment};

#[test]
fn lower_cases_simple_names() {
    assert_eq!("foo", lower_case_instance_name("Foo"));
    assert_eq!(
        "snake_case_sliding_through_the_grass",
        lower_case_instance_name("SnakeCaseSlidingThroughTheGrass")
    );
    assert_eq!("", lower_case_instance_name(""));
    assert_eq!("ifyoureallywantto", lower_case_instance_name("ifyoureallywantto"));
    assert_eq!("if_you_really_want_to", lower_case_instance_name("if_you_really_want_to"));
}

#[test]
fn lower_cases_non_ascii_names() {
    assert_eq!("y\u{306}es", lower_case_instance_name("Y\u{306}es"));
    assert_eq!(
        "trying_this_y\u{306}es_y\u{306}es",
        lower_case_instance_name("TryingThisY\u{306}esY\u{306}es")
    );
    assert_eq!(
        "y\u{306}es_y\u{306}es_trying_this",
        lower_case_instance_name("Y\u{306}esY\u{306}esTryingThis")
    );
}

#[test]
fn lower_cases_with_sequential_uppercase_characters() {
    assert_eq!("gtk_rbtree", lower_case_instance_name("GtkRBTree"));
    assert_eq!("rbtree_internals", lower_case_instance_name("RBTreeInternals"));
    assert_eq!("gtkrbtree", lower_case_instance_name("GTKRBTree"));
    assert_eq!(
        "thisisaterribleclassname",
        lower_case_instance_name("THISISATERRIBLECLASSNAME")
    );
}

#[test]
fn lower_cases_single_letters() {
    assert_eq!("a", lower_case_instance_name("A"));
    assert_eq!("ab_c", lower_case_instance_name("AbC"));
}

#[test]
fn name_checks_all_pass() {
    assert!(run());
}

#[test]
fn joins_parts_with_separator() {
    let parts = vec!["a".to_string(), "bc".to_string(), "".to_string()];
    assert_eq!("a::bc::", join(&parts, "::"));
    assert_eq!("", join(&Vec::new(), "::"));
    assert_eq!("x", join(&vec!["x".to_string()], "_"));
}

#[test]
fn writes_decimal_numerals() {
    assert_eq!("0", decimal(0));
    assert_eq!("7", decimal(7));
    assert_eq!("10", decimal(10));
    assert_eq!("18446744073709551615", decimal(u64::MAX));
}

#[test]
fn compares_strings_by_characters() {
    assert!(str_eq("abc", "abc"));
    assert!(!str_eq("abc", "abd"));
    assert!(!str_eq("ab", "abc"));
    assert!(str_eq("", ""));
}

fn flags(marks: &str) -> Vec<bool> {
    marks.chars().map(|c| c == 'U').collect()
}

#[test]
fn splits_words_at_marked_capitals() {
    assert_eq!(split_words("GtkRBTree", &flags("ullUUUlll")), vec!["Gtk", "RBTree"]);
    assert_eq!(split_words("abC", &flags("llU")), vec!["ab", "C"]);
    assert_eq!(split_words("aB", &flags("lU")), vec!["aB"]);
    assert_eq!(split_words("xyz", &flags("llU")), vec!["xy", "z"]);
    assert_eq!(split_words("", &flags("")), Vec::<String>::new());
    assert_eq!(split_words("ABC", &flags("UUU")), vec!["ABC"]);
}

#[test]
fn names_parent_types() {
    let root = Class { name: "Foo".to_string(), extends: None, fields: Vec::new() };
    assert_eq!(tokens_GObject(), "glib::Object");
    assert_eq!(tokens_ParentInstance(&root), "glib::Object");
    let sub = Class {
        name: "Foo".to_string(),
        extends: Some(Path {
            leading_colon: false,
            segments: vec![
                PathSegment { ident: "gtk".to_string(), has_arguments: false },
                PathSegment { ident: "Widget".to_string(), has_arguments: false },
            ],
        }),
        fields: Vec::new(),
    };
    assert_eq!(tokens_ParentInstance(&sub), "gtk::Widget");
    assert_eq!(tokens_ParentInstanceFfi(&sub), "<gtk::Widget as glib::wrapper::Wrapper>::GlibType");
    assert_eq!(tokens_ParentClassFfi(&sub), "<gtk::Widget as glib::wrapper::Wrapper>::GlibClassType");
}
