use biglinux_microphone::config::compat::upgrade_stored;
use biglinux_microphone::config::storage::Json;

fn num(text: &str) -> Json {
    Json::Number(text.to_string())
}

fn text(t: &str) -> Json {
    Json::Text(t.to_string())
}

fn obj(members: Vec<(&str, Json)>) -> Json {
    Json::Object(members.into_iter().map(|(k, v)| (k.to_string(), v)).collect())
}

#[test]
fn an_explicit_off_stays_off_when_the_mode_arrives() {
    let old = obj(vec![("echo_cancel", obj(vec![("enabled", Json::Bool(false))]))]);
    let up = upgrade_stored(&old);
    assert!(up.same(&obj(vec![(
        "echo_cancel",
        obj(vec![("enabled", Json::Bool(false)), ("mode", text("off"))])
    )])));
}

#[test]
fn an_echo_canceller_that_was_on_or_has_a_mode_is_left_alone() {
    let on = obj(vec![("echo_cancel", obj(vec![("enabled", Json::Bool(true))]))]);
    assert!(upgrade_stored(&on).same(&on));
    let with_mode =
        obj(vec![("echo_cancel", obj(vec![("enabled", Json::Bool(false)), ("mode", text("auto"))]))]);
    assert!(upgrade_stored(&with_mode).same(&with_mode));
}

#[test]
fn a_file_that_names_a_model_keeps_it_by_hand() {
    let old = obj(vec![("noise_reduction", obj(vec![("model", num("2"))]))]);
    let up = upgrade_stored(&old);
    assert!(up.same(&obj(vec![
        ("noise_reduction", obj(vec![("model", num("2"))])),
        ("quality", text("manual")),
    ])));
    let chosen = obj(vec![
        ("noise_reduction", obj(vec![("model", num("2"))])),
        ("quality", text("auto")),
    ]);
    assert!(upgrade_stored(&chosen).same(&chosen));
    let no_model = obj(vec![("noise_reduction", obj(vec![("enabled", Json::Bool(true))]))]);
    assert!(upgrade_stored(&no_model).same(&no_model));
}

#[test]
fn the_retired_routing_list_is_dropped() {
    let old = obj(vec![(
        "output_filter",
        obj(vec![("enabled", Json::Bool(true)), ("routed_apps", Json::Array(vec![text("Firefox")]))]),
    )]);
    let up = upgrade_stored(&old);
    assert!(up.same(&obj(vec![("output_filter", obj(vec![("enabled", Json::Bool(true))]))])));
}

#[test]
fn every_upgrade_applies_at_once_and_other_values_pass_through() {
    let old = obj(vec![
        ("echo_cancel", obj(vec![("enabled", Json::Bool(false))])),
        ("noise_reduction", obj(vec![("model", num("0"))])),
        ("output_filter", obj(vec![("routed_apps", Json::Array(vec![]))])),
    ]);
    let up = upgrade_stored(&old);
    assert!(up.same(&obj(vec![
        ("echo_cancel", obj(vec![("enabled", Json::Bool(false)), ("mode", text("off"))])),
        ("noise_reduction", obj(vec![("model", num("0"))])),
        ("output_filter", obj(vec![])),
        ("quality", text("manual")),
    ])));
    assert!(upgrade_stored(&Json::Array(vec![num("1")])).same(&Json::Array(vec![num("1")])));
    assert!(upgrade_stored(&Json::Null).same(&Json::Null));
}
