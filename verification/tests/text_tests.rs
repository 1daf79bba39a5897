use scaffold::text::{to_kebab_case, to_snake_case};

#[test]
fn project_name_derivations_match_the_documented_example() {
    assert_eq!(to_kebab_case("My App"), "my-app");
    assert_eq!(to_snake_case("My App"), "my_app");
}

#[test]
fn kebab_collapses_runs_of_underscores_and_spaces() {
    assert_eq!(to_kebab_case("my__app"), "my-app");
    assert_eq!(to_kebab_case("my _ app"), "my-app");
    assert_eq!(to_kebab_case("a b_c"), "a-b-c");
}

#[test]
fn snake_collapses_runs_of_hyphens_and_spaces() {
    assert_eq!(to_snake_case("my--app"), "my_app");
    assert_eq!(to_snake_case("my - app"), "my_app");
    assert_eq!(to_snake_case("A-B c"), "a_b_c");
}

#[test]
fn kebab_keeps_existing_hyphens_and_snake_keeps_existing_underscores() {
    assert_eq!(to_kebab_case("my-app"), "my-app");
    assert_eq!(to_snake_case("my_app"), "my_app");
}

#[test]
fn derivations_lowercase_ascii_letters() {
    assert_eq!(to_kebab_case("MyApp"), "myapp");
    assert_eq!(to_snake_case("MyApp"), "myapp");
    assert_eq!(to_kebab_case("WEB_UI"), "web-ui");
}

#[test]
fn empty_name_stays_empty() {
    assert_eq!(to_kebab_case(""), "");
    assert_eq!(to_snake_case(""), "");
}
