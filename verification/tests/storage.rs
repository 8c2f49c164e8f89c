use biglinux_microphone::config::storage::{key_before_v, merge, preserving_unknown, rebase_local, Json};

fn num(text: &str) -> Json {
    Json::Number(text.to_string())
}

fn obj(members: Vec<(&str, Json)>) -> Json {
    Json::Object(members.into_iter().map(|(k, v)| (k.to_string(), v)).collect())
}

fn settings(strength: &str, width: &str) -> Json {
    obj(vec![
        ("noise_reduction", obj(vec![("enabled", Json::Bool(true)), ("strength", num(strength))])),
        ("window", obj(vec![("height", num("600")), ("width", num(width))])),
    ])
}

#[test]
fn independent_edits_survive_in_either_order() {
    let base = settings("1.0", "800");
    let ui = settings("1.0", "920");
    let cli = settings("0.37", "800");
    let merged = merge(&base, &ui, &cli).unwrap();
    assert!(merged.same(&settings("0.37", "920")));
    let other_way = merge(&base, &cli, &ui).unwrap();
    assert!(merged.same(&other_way));
}

#[test]
fn conflicting_edits_are_not_silently_lost() {
    let base = settings("1.0", "800");
    let ui = settings("1.0", "920");
    let cli = settings("1.0", "1024");
    let error = merge(&base, &ui, &cli).unwrap_err();
    assert_eq!(
        error,
        "settings.window.width changed in another application. Reload the settings before trying again."
    );
}

#[test]
fn an_unchanged_side_takes_the_other_edit() {
    let base = settings("1.0", "800");
    let edit = settings("0.5", "800");
    assert!(merge(&base, &edit, &base).unwrap().same(&edit));
    assert!(merge(&base, &base, &edit).unwrap().same(&edit));
    assert!(merge(&base, &edit, &edit).unwrap().same(&edit));
}

#[test]
fn different_scalars_conflict_at_the_root() {
    let error = merge(&num("1"), &num("2"), &num("3")).unwrap_err();
    assert_eq!(error, "settings changed in another application. Reload the settings before trying again.");
}

#[test]
fn saving_keeps_members_this_version_does_not_know() {
    let stored = obj(vec![
        ("a", num("1")),
        ("extra", obj(vec![("x", num("1"))])),
        ("window", obj(vec![("future", Json::Bool(true)), ("width", num("800"))])),
    ]);
    let known = obj(vec![("a", num("2")), ("window", obj(vec![("width", num("920"))]))]);
    let saved = preserving_unknown(&stored, &known).unwrap();
    let expected = obj(vec![
        ("a", num("2")),
        ("extra", obj(vec![("x", num("1"))])),
        ("window", obj(vec![("future", Json::Bool(true)), ("width", num("920"))])),
    ]);
    assert!(saved.same(&expected));
}

#[test]
fn saving_over_something_that_is_not_an_object_is_refused() {
    assert!(preserving_unknown(&Json::Array(vec![]), &obj(vec![("a", num("1"))])).is_none());
    assert!(preserving_unknown(&Json::Null, &obj(vec![])).is_none());
}

#[test]
fn a_known_scalar_replaces_a_stored_object() {
    let stored = obj(vec![("a", obj(vec![("x", num("1"))]))]);
    let known = obj(vec![("a", Json::Text("plain".to_string()))]);
    let saved = preserving_unknown(&stored, &known).unwrap();
    assert!(saved.same(&obj(vec![("a", Json::Text("plain".to_string()))])));
}

#[test]
fn a_local_edit_is_carried_onto_settled_settings() {
    let submitted = obj(vec![("w", num("1"))]);
    let current = obj(vec![("w", num("2"))]);
    let settled = obj(vec![("w", num("1")), ("z", num("3"))]);
    let rebased = rebase_local(&submitted, &current, &settled);
    assert!(rebased.same(&obj(vec![("w", num("2")), ("z", num("3"))])));
    let unedited = rebase_local(&submitted, &submitted, &settled);
    assert!(unedited.same(&settled));
}

#[test]
fn keys_sort_character_by_character() {
    let s = |t: &str| t.to_string();
    assert!(key_before_v(&s("a"), &s("b")));
    assert!(!key_before_v(&s("b"), &s("a")));
    assert!(!key_before_v(&s("a"), &s("a")));
    assert!(key_before_v(&s("ab"), &s("b")));
    assert!(key_before_v(&s(""), &s("a")));
    assert!(key_before_v(&s("a"), &s("ab")));
}

#[test]
fn copies_and_comparisons_see_the_whole_tree() {
    let value = obj(vec![("list", Json::Array(vec![num("1"), Json::Text("x".to_string()), Json::Null]))]);
    assert!(value.copy().same(&value));
    let other = obj(vec![("list", Json::Array(vec![num("1"), Json::Text("y".to_string()), Json::Null]))]);
    assert!(!value.same(&other));
}

fn worker_settings(strength: &str, model: &str) -> Json {
    obj(vec![("noise_reduction", obj(vec![("model", num(model)), ("strength", num(strength))]))])
}

#[test]
fn worker_normalization_keeps_newer_ui_edits() {
    let submitted = worker_settings("1.0", "0");
    let current = worker_settings("0.41", "0");
    let settled = worker_settings("1.0", "2");
    let result = rebase_local(&submitted, &current, &settled);
    assert!(result.same(&worker_settings("0.41", "2")));
}
