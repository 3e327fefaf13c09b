use i3bar_core::template::{select_arity, Arity, ArityVariants, ConfigError, RenderError, Template, Value};

fn count(n: i64) -> Vec<(String, Value)> {
    vec![("count".to_string(), Value::from_integer(n))]
}

#[test]
fn arity_selection_by_count() {
    assert_eq!(select_arity(0), Arity::Zero);
    assert_eq!(select_arity(1), Arity::One);
    assert_eq!(select_arity(2), Arity::Many);
    assert_eq!(select_arity(17), Arity::Many);
    assert_eq!(select_arity(u64::MAX), Arity::Many);
}

#[test]
fn zero_variant_renders_up_to_date() {
    let v = ArityVariants {
        zero: Template::parse("Up to date").unwrap(),
        one: Template::parse("{count:1}").unwrap(),
        many: Template::parse("{count:1}").unwrap(),
    };
    assert_eq!(v.render_for(0, &count(0)).unwrap(), "Up to date");
    assert_eq!(v.render_for(5, &count(5)).unwrap(), "5");
}

#[test]
fn width_pads_integers_on_the_left() {
    let t = Template::parse("n={count:3}!").unwrap();
    assert_eq!(t.render(&count(7)).unwrap(), "n=  7!");
    assert_eq!(t.render(&count(-12)).unwrap(), "n=-12!");
    assert_eq!(t.render(&count(12345)).unwrap(), "n=12345!");
}

#[test]
fn width_pads_text_on_the_right() {
    let t = Template::parse("[{name:4}]").unwrap();
    let b = vec![("name".to_string(), Value::from_string("ab".to_string()))];
    assert_eq!(t.render(&b).unwrap(), "[ab  ]");
}

#[test]
fn render_is_repeatable() {
    let t = Template::parse("{a} and {b:2}").unwrap();
    let b = vec![
        ("a".to_string(), Value::from_string("x".to_string())),
        ("b".to_string(), Value::from_integer(3)),
    ];
    let first = t.render(&b).unwrap();
    let second = t.render(&b).unwrap();
    assert_eq!(first, second);
    assert_eq!(first, "x and  3");
}

#[test]
fn first_binding_wins() {
    let t = Template::parse("{a}").unwrap();
    let b = vec![
        ("a".to_string(), Value::from_integer(1)),
        ("a".to_string(), Value::from_integer(2)),
    ];
    assert_eq!(t.render(&b).unwrap(), "1");
}

#[test]
fn missing_binding_is_an_error() {
    let t = Template::parse("{other}").unwrap();
    assert_eq!(t.render(&count(1)).err(), Some(RenderError::MissingBinding));
}

#[test]
fn malformed_templates_are_rejected() {
    for text in ["{", "}", "a{b", "a}b", "{}", "{:3}", "{a:}", "{a:x}", "{a b}", "{a{b}}", "{a:1:2}", "{a:99999999999999999999999}"] {
        assert_eq!(Template::parse(text).err(), Some(ConfigError::Template), "{}", text);
    }
}

#[test]
fn empty_template_renders_empty() {
    let t = Template::parse("").unwrap();
    assert_eq!(t.render(&Vec::new()).unwrap(), "");
}

#[test]
fn uniform_variants_agree() {
    let v = ArityVariants::uniform("{count} items").unwrap();
    assert_eq!(v.render_for(0, &count(0)).unwrap(), "0 items");
    assert_eq!(v.render_for(1, &count(1)).unwrap(), "1 items");
    assert!(ArityVariants::uniform("{count").is_err());
}
