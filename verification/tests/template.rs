use caddy_dev::template::{placeholder_of, render, replace_all};
use caddy_dev::vars::VariableSet;

fn vars(pairs: &[(&str, &str)]) -> VariableSet {
    VariableSet::from_pairs(pairs.iter().map(|(k, v)| (k.to_string(), v.to_string())).collect())
}

#[test]
fn placeholder_wraps_the_key_in_double_braces() {
    assert_eq!(placeholder_of("port"), "{{port}}");
    assert_eq!(placeholder_of(""), "{{}}");
}

#[test]
fn replace_all_agrees_with_the_standard_library() {
    let cases = [
        ("a{{x}}b{{x}}c", "{{x}}", "1"),
        ("aaaa", "aa", "b"),
        ("aaa", "aa", "b"),
        ("abcabc", "bc", ""),
        ("nothing here", "{{x}}", "y"),
        ("", "{{x}}", "y"),
        ("{{x}}", "{{x}}", "{{x}}{{x}}"),
        ("\u{e9}{{k}}\u{1f600}", "{{k}}", "\u{fc}"),
        ("{{{{a}}}}", "{{a}}", "a"),
        ("ab", "abc", "x"),
    ];
    for (text, pattern, replacement) in cases {
        assert_eq!(replace_all(text, pattern, replacement), text.replace(pattern, replacement));
    }
}

#[test]
fn replace_all_with_an_empty_pattern_changes_nothing() {
    assert_eq!(replace_all("abc", "", "x"), "abc");
}

#[test]
fn every_occurrence_of_a_key_is_replaced() {
    let out = render(
        "{{host}}:{{port}} {\n  reverse_proxy {{host}}:{{upstream}}\n}\n",
        &vars(&[("host", "localhost"), ("port", "8080"), ("upstream", "3000")]),
    );
    assert_eq!(out, "localhost:8080 {\n  reverse_proxy localhost:3000\n}\n");
}

#[test]
fn a_placeholder_without_a_variable_stays() {
    let out = render("{{a}} and {{b}} and {{ a }}", &vars(&[("a", "1")]));
    assert_eq!(out, "1 and {{b}} and {{ a }}");
}

#[test]
fn rendering_twice_gives_the_same_text() {
    let template = "x={{x}} y={{y}} z={{z}}";
    let set = vars(&[("y", "2"), ("x", "1"), ("y", "3")]);
    let first = render(template, &set);
    let second = render(template, &set);
    assert_eq!(first, "x=1 y=3 z={{z}}");
    assert_eq!(first, second);
}

#[test]
fn no_variables_leave_the_template_as_it_is() {
    let template = "{{a}} {{b}}\n\ttext \u{1f600} {{ }}\n";
    assert_eq!(render(template, &VariableSet::new()), template);
}

#[test]
fn a_value_that_holds_a_later_placeholder_is_read_again() {
    let out = render("{{a}}", &vars(&[("a", "{{b}}"), ("b", "x")]));
    assert_eq!(out, "x");
    let out = render("{{a}}", &vars(&[("b", "x"), ("a", "{{b}}")]));
    assert_eq!(out, "{{b}}");
}

#[test]
fn order_does_not_matter_for_plain_values() {
    let template = "{{a}}-{{b}}-{{c}}-{{a}}";
    let one = render(template, &vars(&[("a", "1"), ("b", "2"), ("c", "3")]));
    let two = render(template, &vars(&[("c", "3"), ("a", "1"), ("b", "2")]));
    assert_eq!(one, "1-2-3-1");
    assert_eq!(one, two);
}
