//! Behaviour of the typed model against hand-built parse trees: vocabulary
//! lookups, selector resolution, input and rule deserialization, and the
//! canonical renderings.

use secrule::adapter::{Deserialize, Node, NodeKind, Serialize};
use secrule::input::{Input, InputParseError, Selector};
use secrule::rule::{SecRule, SecRuleParseError};
use secrule::util::{str_eq, Pairs, PairsExt};
use secrule::vocab::{InputType, SelectorType};

fn node(kind: NodeKind, text: &str, children: Vec<Node>) -> Node {
    Node { kind, text: text.to_string(), children }
}

fn leaf(kind: NodeKind, text: &str) -> Node {
    node(kind, text, Vec::new())
}

/// An input node as the grammar shapes it: optional modifier child, the
/// name child, optional key child.
fn input_node(modifier: Option<&str>, name: &str, key: Option<&str>) -> Node {
    let mut text = String::new();
    let mut children = Vec::new();
    if let Some(m) = modifier {
        text.push_str(m);
        children.push(leaf(NodeKind::InputModifier, m));
    }
    text.push_str(name);
    children.push(leaf(NodeKind::InputName, name));
    if let Some(k) = key {
        text.push_str(":");
        text.push_str(k);
        children.push(leaf(NodeKind::SelectorKey, k));
    }
    node(NodeKind::Input, &text, children)
}

fn inputs_node(items: Vec<Node>) -> Node {
    let texts: Vec<&str> = items.iter().map(|n| n.text.as_str()).collect();
    node(NodeKind::Inputs, &texts.join("|"), items)
}

#[test]
fn input_type_inverse_is_exhaustive() {
    let all = InputType::variants();
    assert_eq!(all.len(), 38);
    for t in all {
        assert_eq!(InputType::from_name(t.name()), Some(t));
    }
}

#[test]
fn selector_type_inverse_is_exhaustive() {
    let all = SelectorType::variants();
    assert_eq!(all.len(), 3);
    for t in all {
        assert_eq!(SelectorType::from_name(t.name()), Some(t));
    }
}

#[test]
fn vocabulary_names_are_canonical() {
    assert_eq!(InputType::ArgsGet.name(), "ARGS_GET");
    assert_eq!(InputType::Tx.name(), "TX");
    assert_eq!(InputType::MultipartPartHeaders.name(), "MULTIPART_PART_HEADERS");
    assert_eq!(SelectorType::Include.name(), "");
    assert_eq!(SelectorType::Exclude.name(), "!");
    assert_eq!(SelectorType::Count.name(), "&");
}

#[test]
fn unknown_names_are_rejected() {
    assert_eq!(InputType::from_name("NOT_A_REAL_INPUT"), None);
    assert_eq!(InputType::from_name("args_get"), None);
    assert_eq!(InputType::from_name("ARGS_GET "), None);
    assert_eq!(InputType::from_name(""), None);
    assert_eq!(SelectorType::from_name("?"), None);
    assert_eq!(SelectorType::from_name("!!"), None);
}

#[test]
fn unknown_input_fails_deserialization() {
    let n = input_node(None, "NOT_A_REAL_INPUT", None);
    match Input::deserialize(&n) {
        Err(InputParseError::UnknownInput(s)) => assert_eq!(s, "NOT_A_REAL_INPUT"),
        other => panic!("expected an unknown-input error, got {:?}", other),
    }
}

#[test]
fn selector_resolution_table() {
    let ok = |s: Selector| Ok(s);
    assert_eq!(Selector::from_parts(None, Some("k"), "t"), ok(Selector::Include("k".to_string())));
    assert_eq!(Selector::from_parts(None, None, "t"), ok(Selector::Absent));
    assert_eq!(
        Selector::from_parts(Some("!"), Some("k"), "t"),
        ok(Selector::Exclude("k".to_string()))
    );
    assert_eq!(
        Selector::from_parts(Some("!"), None, "!TX"),
        Err(InputParseError::InvalidSelector("!TX".to_string()))
    );
    assert_eq!(
        Selector::from_parts(Some("&"), Some("k"), "t"),
        ok(Selector::Count("k".to_string()))
    );
    assert_eq!(Selector::from_parts(Some("&"), None, "t"), ok(Selector::CountAll));
    assert_eq!(
        Selector::from_parts(Some("?"), Some("k"), "?ARGS:k"),
        Err(InputParseError::InvalidModifier("?ARGS:k".to_string()))
    );
    assert_eq!(
        Selector::from_parts(Some("?"), None, "?ARGS"),
        Err(InputParseError::InvalidModifier("?ARGS".to_string()))
    );
    assert_eq!(
        Selector::from_parts(Some(""), Some("k"), "t"),
        Err(InputParseError::InvalidModifier("t".to_string()))
    );
}

#[test]
fn selector_accessors() {
    assert_eq!(Selector::Absent.arg(), None);
    assert_eq!(Selector::Include("k".to_string()).arg(), Some("k"));
    assert_eq!(Selector::Exclude("k".to_string()).arg(), Some("k"));
    assert_eq!(Selector::Count("k".to_string()).arg(), Some("k"));
    assert_eq!(Selector::CountAll.arg(), None);
    assert_eq!(Selector::Absent.type_(), None);
    assert_eq!(Selector::Include("k".to_string()).type_(), Some(SelectorType::Include));
    assert_eq!(Selector::Exclude("k".to_string()).type_(), Some(SelectorType::Exclude));
    assert_eq!(Selector::Count("k".to_string()).type_(), Some(SelectorType::Count));
    assert_eq!(Selector::CountAll.type_(), Some(SelectorType::Count));
    assert_eq!(Selector::Absent.prefix(), None);
    assert_eq!(Selector::Include("k".to_string()).prefix(), Some(""));
    assert_eq!(Selector::Exclude("k".to_string()).prefix(), Some("!"));
    assert_eq!(Selector::CountAll.prefix(), Some("&"));
}

#[test]
fn exclude_header_round_trips() {
    let n = input_node(Some("!"), "REQUEST_HEADERS", Some("X-Forwarded-For"));
    assert_eq!(n.text, "!REQUEST_HEADERS:X-Forwarded-For");
    let v = Input::deserialize(&n).unwrap();
    assert_eq!(v.input, InputType::RequestHeaders);
    assert_eq!(v.selector, Selector::Exclude("X-Forwarded-For".to_string()));
    assert_eq!(v.serialize(), "!REQUEST_HEADERS:X-Forwarded-For");
}

#[test]
fn count_all_round_trips() {
    let n = input_node(Some("&"), "TX", None);
    assert_eq!(n.text, "&TX");
    let v = Input::deserialize(&n).unwrap();
    assert_eq!(v.input, InputType::Tx);
    assert_eq!(v.selector, Selector::CountAll);
    assert_eq!(v.serialize(), "&TX");
}

#[test]
fn exclude_without_key_is_invalid() {
    let n = input_node(Some("!"), "TX", None);
    match Input::deserialize(&n) {
        Err(InputParseError::InvalidSelector(s)) => assert_eq!(s, "!TX"),
        other => panic!("expected an invalid-selector error, got {:?}", other),
    }
}

#[test]
fn serialize_covers_all_four_shapes() {
    let plain = Input { input: InputType::Args, selector: Selector::Absent };
    assert_eq!(plain.serialize(), "ARGS");
    let keyed = Input { input: InputType::Args, selector: Selector::Include("id".to_string()) };
    assert_eq!(keyed.serialize(), "ARGS:id");
    let excluded = Input { input: InputType::Args, selector: Selector::Exclude("id".to_string()) };
    assert_eq!(excluded.serialize(), "!ARGS:id");
    let counted = Input { input: InputType::Args, selector: Selector::Count("id".to_string()) };
    assert_eq!(counted.serialize(), "&ARGS:id");
    let counted_all = Input { input: InputType::Args, selector: Selector::CountAll };
    assert_eq!(counted_all.serialize(), "&ARGS");
}

#[test]
fn keyed_include_round_trips() {
    let n = input_node(None, "REQUEST_COOKIES", Some("session"));
    let v = Input::deserialize(&n).unwrap();
    assert_eq!(v.input, InputType::RequestCookies);
    assert_eq!(v.selector, Selector::Include("session".to_string()));
    assert_eq!(v.serialize(), "REQUEST_COOKIES:session");
}

#[test]
fn input_rejects_wrong_node_kind() {
    let n = leaf(NodeKind::Operator, "TX");
    match Input::deserialize(&n) {
        Err(InputParseError::UnexpectedRule(k)) => assert_eq!(k, NodeKind::Operator),
        other => panic!("expected a wrong-kind error, got {:?}", other),
    }
}

#[test]
fn list_join_and_split() {
    let items = vec![
        Input { input: InputType::ArgsGet, selector: Selector::Absent },
        Input { input: InputType::Files, selector: Selector::CountAll },
    ];
    assert_eq!(items.serialize(), "ARGS_GET|&FILES");
    let n = inputs_node(vec![input_node(None, "ARGS_GET", None), input_node(Some("&"), "FILES", None)]);
    assert_eq!(n.text, "ARGS_GET|&FILES");
    let back = <Vec<Input> as Deserialize>::deserialize(&n).unwrap();
    assert_eq!(back, items);
}

#[test]
fn empty_list_serializes_to_nothing() {
    let items: Vec<Input> = Vec::new();
    assert_eq!(items.serialize(), "");
    let n = inputs_node(Vec::new());
    assert_eq!(<Vec<Input> as Deserialize>::deserialize(&n).unwrap(), items);
}

#[test]
fn list_reports_first_bad_element() {
    let n = inputs_node(vec![
        input_node(None, "ARGS", None),
        input_node(None, "NOT_A_REAL_INPUT", None),
        input_node(Some("!"), "TX", None),
    ]);
    match <Vec<Input> as Deserialize>::deserialize(&n) {
        Err(InputParseError::UnknownInput(s)) => assert_eq!(s, "NOT_A_REAL_INPUT"),
        other => panic!("expected the second element's error, got {:?}", other),
    }
}

#[test]
fn list_rejects_wrong_node_kind() {
    let n = leaf(NodeKind::Input, "ARGS");
    match <Vec<Input> as Deserialize>::deserialize(&n) {
        Err(InputParseError::UnexpectedRule(k)) => assert_eq!(k, NodeKind::Input),
        other => panic!("expected a wrong-kind error, got {:?}", other),
    }
}

/// A rule node over the component types the library itself provides: one
/// input reference standing in the operator position and an input list in
/// the action position exercise the aggregate's child dispatch.
type TestRule = SecRule<Input, Vec<Input>>;

fn rule_node(inputs: Node, op: Node, actions: Node) -> Node {
    node(NodeKind::SecRule, "", vec![inputs, op, actions])
}

#[test]
fn rule_composes_all_three_children() {
    let n = rule_node(
        inputs_node(vec![input_node(None, "ARGS", None)]),
        input_node(Some("&"), "TX", None),
        inputs_node(vec![input_node(None, "FILES", None)]),
    );
    let r = TestRule::deserialize(&n).unwrap();
    assert_eq!(r.inputs, vec![Input { input: InputType::Args, selector: Selector::Absent }]);
    assert_eq!(r.op, Input { input: InputType::Tx, selector: Selector::CountAll });
    assert_eq!(r.actions, vec![Input { input: InputType::Files, selector: Selector::Absent }]);
}

#[test]
fn rule_attributes_operator_failure() {
    let n = rule_node(
        inputs_node(vec![input_node(None, "ARGS", None)]),
        input_node(None, "NOT_A_REAL_INPUT", None),
        inputs_node(vec![]),
    );
    match TestRule::deserialize(&n) {
        Err(SecRuleParseError::Operator(InputParseError::UnknownInput(s))) => {
            assert_eq!(s, "NOT_A_REAL_INPUT");
        },
        other => panic!("expected the operator child's error, got {:?}", other),
    }
}

#[test]
fn rule_attributes_input_failure() {
    let n = rule_node(
        inputs_node(vec![input_node(Some("!"), "TX", None)]),
        input_node(Some("&"), "TX", None),
        inputs_node(vec![]),
    );
    match TestRule::deserialize(&n) {
        Err(SecRuleParseError::Input(InputParseError::InvalidSelector(s))) => {
            assert_eq!(s, "!TX");
        },
        other => panic!("expected the input child's error, got {:?}", other),
    }
}

#[test]
fn rule_attributes_action_failure() {
    let n = rule_node(
        inputs_node(vec![input_node(None, "ARGS", None)]),
        input_node(Some("&"), "TX", None),
        inputs_node(vec![input_node(None, "NOT_A_REAL_INPUT", None)]),
    );
    match TestRule::deserialize(&n) {
        Err(SecRuleParseError::Action(InputParseError::UnknownInput(s))) => {
            assert_eq!(s, "NOT_A_REAL_INPUT");
        },
        other => panic!("expected the action child's error, got {:?}", other),
    }
}

#[test]
fn rule_rejects_wrong_node_kind() {
    let n = leaf(NodeKind::Inputs, "");
    match TestRule::deserialize(&n) {
        Err(SecRuleParseError::UnexpectedRule(k)) => assert_eq!(k, NodeKind::Inputs),
        other => panic!("expected a wrong-kind error, got {:?}", other),
    }
}

#[test]
fn pairs_consume_children_in_order() {
    let children = vec![leaf(NodeKind::InputModifier, "!"), leaf(NodeKind::InputName, "TX")];
    let mut pairs = Pairs::new(&children);
    assert!(pairs.next_if_rule(NodeKind::SelectorKey).is_none());
    let m = pairs.next_if_rule(NodeKind::InputModifier).unwrap();
    assert_eq!(m.text, "!");
    assert!(pairs.next_if_rule(NodeKind::InputModifier).is_none());
    assert_eq!(pairs.peek().unwrap().text, "TX");
    assert_eq!(pairs.next().unwrap().text, "TX");
    assert!(pairs.next().is_none());
}

#[test]
fn str_eq_is_exact() {
    assert!(str_eq("", ""));
    assert!(str_eq("ARGS", "ARGS"));
    assert!(!str_eq("ARGS", "ARGS_GET"));
    assert!(!str_eq("ARGS", "args"));
    assert!(!str_eq("ARGS", " ARGS"));
}
