use runst::error::BackendError;
use runst::template::{
    humantime_filter, humantime_text, template_error, WindowRenderState,
    NOTIFICATION_MESSAGE_TEMPLATE,
};
use tera::{Context, Tera, Value};

fn rendered(template: &str) -> String {
    let state = WindowRenderState::new(template, "Monospace 10").unwrap_or_else(|e| panic!("{e:?}"));
    let mut context = Context::new();
    context.insert("summary", "hello");
    context.insert("age", &90u64);
    context.insert("text", "abc");
    state
        .template
        .render(NOTIFICATION_MESSAGE_TEMPLATE, &context)
        .unwrap()
}

#[test]
fn template_is_kept_under_its_name() {
    assert_eq!(rendered("<b>{{ summary }}</b>"), "<b>hello</b>");
}

#[test]
fn only_the_message_template_is_there() {
    let state = WindowRenderState::new("a", "Sans").unwrap_or_else(|e| panic!("{e:?}"));
    let names: Vec<&str> = state.template.get_template_names().collect();
    assert_eq!(names, vec!["notification_message_template"]);
}

#[test]
fn white_space_at_the_ends_is_dropped() {
    assert_eq!(rendered("  \n\u{3000}a b\t\u{85}\u{a0}\n"), "a b");
    assert_eq!(rendered("\u{200b}a"), "\u{200b}a");
    assert_eq!(rendered(" \u{2028} "), "");
}

#[test]
fn white_space_around_makes_no_difference() {
    for (before, after) in [("", ""), (" ", "\n"), ("\u{2028}\t", ""), ("", "\u{3000} ")] {
        let template = format!("{before}<i>{{{{ summary }}}}</i>{after}");
        assert_eq!(rendered(&template), "<i>hello</i>");
    }
}

#[test]
fn font_is_kept() {
    let state = WindowRenderState::new("a", " Monospace 10 ").unwrap_or_else(|e| panic!("{e:?}"));
    assert_eq!(state.font, " Monospace 10 ");
}

#[test]
fn humantime_is_registered() {
    assert_eq!(rendered("{{ age | humantime }}"), "1m 30s");
    assert_eq!(rendered("{{ 0 | humantime }}"), "0s");
    assert_eq!(rendered("{{ 9420 | humantime }}"), "2h 37m");
}

#[test]
fn humantime_refuses_text_in_a_template() {
    let state = WindowRenderState::new("{{ text | humantime }}", "Sans")
        .unwrap_or_else(|e| panic!("{e:?}"));
    let mut context = Context::new();
    context.insert("text", "abc");
    assert!(state
        .template
        .render(NOTIFICATION_MESSAGE_TEMPLATE, &context)
        .is_err());
}

#[test]
fn filter_writes_seconds() {
    let answer = humantime_filter(&Value::from(3661u64)).unwrap();
    assert_eq!(answer, Value::String("1h 1m 1s".to_string()));
    let answer = humantime_filter(&Value::from(31_557_600u64)).unwrap();
    assert_eq!(answer, Value::String("1year".to_string()));
    assert!(humantime_filter(&Value::from(u64::MAX)).is_ok());
}

#[test]
fn filter_refuses_other_values() {
    let error = humantime_filter(&Value::from("abc")).unwrap_err();
    assert_eq!(
        error.to_string(),
        "Filter `humantime_filter` was called on an incorrect value: got `\"abc\"` but expected a u64"
    );
    let error = humantime_filter(&Value::from(-1i64)).unwrap_err();
    assert_eq!(
        error.to_string(),
        "Filter `humantime_filter` was called on an incorrect value: got `-1` but expected a u64"
    );
    assert!(humantime_filter(&Value::Null).is_err());
    assert!(humantime_filter(&Value::Bool(true)).is_err());
    assert!(humantime_filter(&Value::from(1.5f64)).is_err());
    assert!(humantime_filter(&Value::Array(vec![Value::from(1u64)])).is_err());
}

#[test]
fn filter_decision_on_plain_values() {
    assert_eq!(humantime_text(Some(60), "60"), Ok("1m".to_string()));
    assert_eq!(
        humantime_text(None, "[1]"),
        Err("Filter `humantime_filter` was called on an incorrect value: got `[1]` but expected a u64"
            .to_string())
    );
}

#[test]
fn parse_failure_gives_its_cause() {
    match WindowRenderState::new("{{ summary", "Sans") {
        Err(BackendError::TemplateParse(cause)) => {
            assert!(cause.contains("{{ summary"));
            assert!(!cause.contains("Failed to parse"));
        }
        _ => panic!("a parse failure was expected"),
    }
    match WindowRenderState::new("{{ 99999999999999999999 }}", "Sans") {
        Err(BackendError::TemplateParse(cause)) => {
            assert_eq!(cause, "Integer out of bounds: `99999999999999999999`")
        }
        _ => panic!("a parse failure was expected"),
    }
}

#[test]
fn failure_without_cause_is_handed_on() {
    match WindowRenderState::new("{% extends \"base\" %}", "Sans") {
        Err(BackendError::Template(error)) => assert_eq!(
            error.to_string(),
            "Template 'notification_message_template' is inheriting from 'base', which doesn't exist or isn't loaded."
        ),
        _ => panic!("a template failure was expected"),
    }
}

#[test]
fn failures_are_sorted_by_their_cause() {
    let parsed = template_error(Some("why".to_string()), tera::Error::msg("outer"));
    assert!(matches!(parsed, BackendError::TemplateParse(cause) if cause == "why"));
    let other = template_error(None, tera::Error::msg("outer"));
    assert!(matches!(other, BackendError::Template(error) if error.to_string() == "outer"));
}

#[test]
fn preparation_follows_the_answer() {
    let mut engine = Tera::default();
    engine.add_raw_template("x", "{{ 61 | humantime }}").unwrap();
    let state = WindowRenderState::complete(engine, Ok(()), "Serif")
        .unwrap_or_else(|e| panic!("{e:?}"));
    assert_eq!(state.template.render("x", &Context::new()).unwrap(), "1m 1s");
    assert_eq!(state.font, "Serif");

    let refused = tera::Error::chain("outer", "inner");
    let outcome = WindowRenderState::complete(Tera::default(), Err(refused), "Serif");
    assert!(matches!(outcome, Err(BackendError::TemplateParse(cause)) if cause == "inner"));
}
