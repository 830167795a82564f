use ferrum::models::environment::{EnvVar, Environment};
use ferrum::utils::env_interpolation::interpolate;
use ferrum::utils::json_format::{pretty_or_input, pretty_print};

fn make_env() -> Environment {
    let mut env = Environment::new("test");
    env.vars.push(EnvVar::new("BASE_URL", "https://example.com"));
    env.vars.push(EnvVar::new("TOKEN", "abc123"));
    env
}

#[test]
fn test_basic_interpolation() {
    let env = make_env();
    let result = interpolate("{{BASE_URL}}/users", Some(&env));
    assert_eq!(result, "https://example.com/users");
}

#[test]
fn test_multiple_vars() {
    let env = make_env();
    let result = interpolate("{{BASE_URL}}/auth?token={{TOKEN}}", Some(&env));
    assert_eq!(result, "https://example.com/auth?token=abc123");
}

#[test]
fn test_no_env() {
    let result = interpolate("{{BASE_URL}}/users", None);
    assert_eq!(result, "{{BASE_URL}}/users");
}

#[test]
fn test_unknown_var_unchanged() {
    let env = make_env();
    let result = interpolate("{{UNKNOWN}}/path", Some(&env));
    assert_eq!(result, "{{UNKNOWN}}/path");
}

#[test]
fn test_disabled_var_unchanged() {
    let mut env = make_env();
    env.vars[0].enabled = false;
    let result = interpolate("{{BASE_URL}}/path", Some(&env));
    assert_eq!(result, "{{BASE_URL}}/path");
}

#[test]
fn interpolation_replaces_every_occurrence_in_order_of_variables() {
    let mut env = Environment::new("e");
    env.vars.push(EnvVar::new("A", "{{B}}"));
    env.vars.push(EnvVar::new("B", "x"));
    assert_eq!(interpolate("{{A}}-{{A}}-{{B}}", Some(&env)), "x-x-x");
    let mut env2 = Environment::new("e");
    env2.vars.push(EnvVar::new("B", "x"));
    env2.vars.push(EnvVar::new("A", "{{B}}"));
    assert_eq!(interpolate("{{A}}-{{B}}", Some(&env2)), "{{B}}-x");
}

#[test]
fn interpolation_without_placeholders_is_identity() {
    let env = make_env();
    assert_eq!(interpolate("plain text / no braces", Some(&env)), "plain text / no braces");
    assert_eq!(interpolate("", Some(&env)), "");
}

#[test]
fn all_disabled_environment_changes_nothing() {
    let mut env = make_env();
    env.vars[0].enabled = false;
    env.vars[1].enabled = false;
    let s = "{{BASE_URL}}/{{TOKEN}}";
    assert_eq!(interpolate(s, Some(&env)), s);
}

#[test]
fn pretty_print_formats_valid_json() {
    assert_eq!(pretty_print("{\"a\":1}"), "{\n  \"a\": 1\n}");
    assert_eq!(pretty_print("[1,2]"), "[\n  1,\n  2\n]");
}

#[test]
fn pretty_print_returns_invalid_json_unchanged() {
    assert_eq!(pretty_print("not json"), "not json");
    assert_eq!(pretty_print("{\"a\":"), "{\"a\":");
}

#[test]
fn pretty_or_input_prefers_the_pretty_text() {
    assert_eq!(pretty_or_input("raw", Some("nice".to_string())), "nice");
    assert_eq!(pretty_or_input("raw", None), "raw");
}
