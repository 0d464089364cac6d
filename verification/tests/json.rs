use privacy_mask::json::{lookup_member, merge, merged, Json, JsonNumber};

fn text(s: &str) -> Json {
    Json::Text(s.to_string())
}

fn num(n: u64) -> Json {
    Json::Number(JsonNumber::PosInt(n))
}

fn object(members: Vec<(&str, Json)>) -> Json {
    Json::Object(members.into_iter().map(|(k, v)| (k.to_string(), v)).collect())
}

#[test]
fn array_patch_replaces_array() {
    let mut a =
        object(vec![("customReplaceRules", Json::Array(vec![text("rule1"), text("rule2")]))]);
    let b = object(vec![("customReplaceRules", Json::Array(vec![text("ruleA")]))]);
    merge(&mut a, &b);
    assert_eq!(a, object(vec![("customReplaceRules", Json::Array(vec![text("ruleA")]))]));
}

#[test]
fn shorter_array_discards_the_rest() {
    let a = Json::Array(vec![num(1), num(2), num(3)]);
    let shorter = Json::Array(vec![num(9), num(8)]);
    assert_eq!(merged(a.clone(), &shorter), shorter);
    assert_eq!(merged(a, &Json::Array(vec![])), Json::Array(vec![]));
}

#[test]
fn objects_merge_member_by_member() {
    let mut a = object(vec![
        ("keep", num(1)),
        ("nested", object(vec![("x", num(1)), ("y", num(2))])),
        ("flag", Json::Bool(false)),
    ]);
    let b = object(vec![
        ("nested", object(vec![("y", num(20)), ("z", num(30))])),
        ("flag", Json::Bool(true)),
        ("added", text("new")),
    ]);
    merge(&mut a, &b);
    assert_eq!(
        a,
        object(vec![
            ("keep", num(1)),
            ("nested", object(vec![("x", num(1)), ("y", num(20)), ("z", num(30))])),
            ("flag", Json::Bool(true)),
            ("added", text("new")),
        ])
    );
}

#[test]
fn scalar_patch_overwrites() {
    assert_eq!(merged(num(1), &num(2)), num(2));
    assert_eq!(merged(text("a"), &Json::Null), Json::Null);
    assert_eq!(merged(Json::Null, &Json::Bool(true)), Json::Bool(true));
    assert_eq!(merged(object(vec![("a", num(1))]), &text("flat")), text("flat"));
    assert_eq!(merged(num(1), &object(vec![("a", num(1))])), object(vec![("a", num(1))]));
    assert_eq!(merged(Json::Array(vec![num(1)]), &object(vec![])), object(vec![]));
    let one_and_a_half = Json::Number(JsonNumber::Float(0x3ff8000000000000));
    assert_eq!(merged(Json::Number(JsonNumber::NegInt(-3)), &one_and_a_half), one_and_a_half);
}

#[test]
fn empty_object_patch_changes_nothing() {
    let a = object(vec![("a", num(1)), ("b", Json::Array(vec![num(2)]))]);
    assert_eq!(merged(a.clone(), &object(vec![])), a);
}

#[test]
fn new_object_member_is_taken_as_it_is() {
    let a = object(vec![("a", Json::Null)]);
    let b = object(vec![("a", object(vec![("x", num(1))])), ("b", object(vec![("y", num(2))]))]);
    assert_eq!(merged(a, &b), b);
}

#[test]
fn get_finds_members_of_objects_only() {
    let a = object(vec![("a", num(1)), ("b", text("two")), ("a", num(3))]);
    assert_eq!(a.get("a"), Some(&num(1)));
    assert_eq!(a.get("b"), Some(&text("two")));
    assert_eq!(a.get("c"), None);
    assert_eq!(num(1).get("a"), None);
    assert_eq!(Json::Array(vec![num(1)]).get("0"), None);
    let members = vec![("k".to_string(), Json::Bool(true))];
    assert_eq!(lookup_member(&members, "k"), Some(&Json::Bool(true)));
    assert_eq!(lookup_member(&members, "K"), None);
}

#[test]
fn clone_is_deep() {
    let a = object(vec![("list", Json::Array(vec![object(vec![("x", text("y"))]), Json::Null]))]);
    let b = a.clone();
    assert_eq!(a, b);
}
