use material_yew::dialog::dialog_action::{ActionProps, ActionType, MatDialogAction};
use std::borrow::Cow;
use yew::html::Children;
use std::rc::Rc;
use yew::html::onclick;
use yew::virtual_dom::{Key, VList, VNode, VTag, VText};
use yew::Callback;

fn text(content: &'static str) -> VNode {
    VNode::from(VText::new(content))
}

fn element(name: &'static str, children: Vec<VNode>) -> VTag {
    let mut tag = VTag::new(name);
    for child in children {
        tag.add_child(child);
    }
    tag
}

fn attributes(tag: &VTag) -> Vec<(String, String)> {
    tag.attributes.iter().map(|(key, value)| (key.to_string(), value.to_string())).collect()
}

fn pair(key: &str, value: &str) -> (String, String) {
    (key.to_string(), value.to_string())
}

fn items(html: VNode) -> Vec<VNode> {
    match html {
        VNode::VList(list) => list.children,
        other => panic!("expected a fragment, got {:?}", other),
    }
}

fn as_tag(node: &VNode) -> &VTag {
    match node {
        VNode::VTag(tag) => tag,
        other => panic!("expected an element, got {:?}", other),
    }
}

fn render(action_type: ActionType, action: Option<&'static str>, children: Vec<VNode>) -> Vec<VNode> {
    let props = ActionProps {
        action_type,
        action: action.map(Cow::Borrowed),
        children: Children::new(children),
    };
    items(MatDialogAction::create(props).view())
}

#[test]
fn action_type_names_its_slot() {
    assert_eq!(ActionType::Primary.to_cow_string(), "primaryAction");
    assert_eq!(ActionType::Secondary.to_cow_string(), "secondaryAction");
    assert_eq!(ActionType::Primary.to_string(), "primaryAction".to_string());
    assert_eq!(ActionType::Secondary.to_string(), "secondaryAction".to_string());
}

#[test]
fn button_becomes_primary_action_with_dialog_action() {
    let button = element("button", vec![text("OK")]);
    let out = render(ActionType::Primary, Some("confirm"), vec![VNode::from(button)]);
    assert_eq!(out.len(), 1);
    let tag = as_tag(&out[0]);
    assert_eq!(tag.tag(), "button");
    assert_eq!(
        attributes(tag),
        vec![pair("slot", "primaryAction"), pair("dialogAction", "confirm")]
    );
    assert_eq!(tag.children.children, vec![text("OK")]);
}

#[test]
fn plain_text_is_wrapped_in_a_secondary_action_span() {
    let out = render(ActionType::Secondary, None, vec![text("Cancel")]);
    assert_eq!(out.len(), 1);
    let span = as_tag(&out[0]);
    assert_eq!(span.tag(), "span");
    assert_eq!(attributes(span), vec![pair("slot", "secondaryAction")]);
    assert_eq!(span.children.children, vec![text("Cancel")]);
}

#[test]
fn no_children_give_an_empty_fragment() {
    let props = ActionProps {
        action_type: ActionType::Primary,
        action: Some(Cow::Borrowed("close")),
        children: Children::new(Vec::new()),
    };
    let html = MatDialogAction::create(props).view();
    assert_eq!(html, VNode::VList(VList::new()));
    assert!(items(html).is_empty());
}

#[test]
fn wrapped_text_carries_the_dialog_action_too() {
    let out = render(ActionType::Primary, Some("discard"), vec![text("Discard")]);
    let span = as_tag(&out[0]);
    assert_eq!(span.tag(), "span");
    assert_eq!(
        attributes(span),
        vec![pair("slot", "primaryAction"), pair("dialogAction", "discard")]
    );
    assert_eq!(span.children.children, vec![text("Discard")]);
}

#[test]
fn element_without_action_gets_only_the_slot() {
    let out = render(ActionType::Secondary, None, vec![VNode::from(element("a", vec![text("Back")]))]);
    let tag = as_tag(&out[0]);
    assert_eq!(tag.tag(), "a");
    assert_eq!(attributes(tag), vec![pair("slot", "secondaryAction")]);
}

#[test]
fn every_child_gives_one_node_in_order() {
    let children = vec![
        VNode::from(element("button", vec![text("Yes")])),
        text("or"),
        VNode::from(element("a", vec![text("No")])),
        VNode::VList(VList::new_with_children(vec![text("x"), text("y")], None)),
    ];
    let out = render(ActionType::Primary, None, children);
    assert_eq!(out.len(), 4);
    assert_eq!(as_tag(&out[0]).tag(), "button");
    assert_eq!(as_tag(&out[0]).children.children, vec![text("Yes")]);
    assert_eq!(as_tag(&out[1]).tag(), "span");
    assert_eq!(as_tag(&out[1]).children.children, vec![text("or")]);
    assert_eq!(as_tag(&out[2]).tag(), "a");
    assert_eq!(as_tag(&out[2]).children.children, vec![text("No")]);
    assert_eq!(as_tag(&out[3]).tag(), "span");
    assert_eq!(
        as_tag(&out[3]).children.children,
        vec![VNode::VList(VList::new_with_children(vec![text("x"), text("y")], None))]
    );
    for node in &out {
        assert_eq!(attributes(as_tag(node)), vec![pair("slot", "primaryAction")]);
    }
}

#[test]
fn other_attributes_of_an_element_are_kept() {
    let mut button = element("button", vec![text("OK")]);
    button.add_attribute("id", "ok");
    button.add_attribute("class", "wide");
    button.set_kind("submit");
    let out = render(ActionType::Primary, Some("accept"), vec![VNode::from(button)]);
    let tag = as_tag(&out[0]);
    assert_eq!(
        attributes(tag),
        vec![
            pair("id", "ok"),
            pair("class", "wide"),
            pair("slot", "primaryAction"),
            pair("dialogAction", "accept"),
        ]
    );
    assert_eq!(tag.kind, Some(Cow::Borrowed("submit")));
    assert_eq!(tag.children.children, vec![text("OK")]);
}

#[test]
fn the_head_of_an_element_is_kept() {
    let mut input = VTag::new("input");
    input.set_value("typed");
    input.set_kind("checkbox");
    input.set_checked(true);
    input.key = Some(Key::from("first"));
    input.add_listener(Rc::new(onclick::Wrapper::new(Callback::noop())));
    let before = input.clone();
    let out = render(ActionType::Primary, None, vec![VNode::from(input)]);
    let tag = as_tag(&out[0]);
    assert_eq!(tag.tag(), "input");
    assert_eq!(tag.value, Some(Cow::Borrowed("typed")));
    assert_eq!(tag.kind, Some(Cow::Borrowed("checkbox")));
    assert!(tag.checked);
    assert_eq!(tag.key, Some(Key::from("first")));
    assert_eq!(tag.listeners.len(), 1);
    assert_eq!(tag.listeners[0].kind(), "onclick");
    assert_eq!(tag.node_ref, before.node_ref);
    assert!(tag.children.children.is_empty());
    let mut expected = before;
    expected.add_attribute("slot", "primaryAction");
    assert_eq!(*tag, expected);
}

#[test]
fn a_wrapping_span_is_plain() {
    let out = render(ActionType::Primary, None, vec![text("plain")]);
    let span = as_tag(&out[0]);
    assert_eq!(span.tag(), "span");
    assert_eq!(span.value, None);
    assert_eq!(span.kind, None);
    assert!(!span.checked);
    assert_eq!(span.key, None);
    assert!(span.listeners.is_empty());
}

#[test]
fn a_fresh_child_gets_exactly_one_slot_attribute() {
    let out = render(
        ActionType::Primary,
        Some("confirm"),
        vec![VNode::from(element("button", Vec::new())), text("plain")],
    );
    for node in &out {
        let found = attributes(as_tag(node));
        assert_eq!(found.iter().filter(|(key, _)| key == "slot").count(), 1);
        assert_eq!(found.iter().filter(|(key, _)| key == "dialogAction").count(), 1);
        assert_eq!(found.len(), 2);
    }
}

#[test]
fn a_slot_the_element_already_names_is_replaced() {
    let mut button = element("button", Vec::new());
    button.add_attribute("slot", "footer");
    button.add_attribute("title", "go");
    let out = render(ActionType::Secondary, None, vec![VNode::from(button)]);
    assert_eq!(
        attributes(as_tag(&out[0])),
        vec![pair("slot", "secondaryAction"), pair("title", "go")]
    );
}

#[test]
fn update_changes_nothing_and_asks_for_no_render() {
    let props = ActionProps {
        action_type: ActionType::Primary,
        action: None,
        children: Children::new(vec![text("Close")]),
    };
    let mut component = MatDialogAction::create(props);
    assert!(!component.update(()));
    let out = items(component.view());
    assert_eq!(out.len(), 1);
    assert_eq!(attributes(as_tag(&out[0])), vec![pair("slot", "primaryAction")]);
}

#[test]
fn change_replaces_the_props_and_asks_for_a_render() {
    let first = ActionProps {
        action_type: ActionType::Primary,
        action: None,
        children: Children::new(vec![text("Close")]),
    };
    let second = ActionProps {
        action_type: ActionType::Secondary,
        action: Some(Cow::Owned("cancel".to_string())),
        children: Children::new(vec![text("Cancel"), text("Never mind")]),
    };
    let mut component = MatDialogAction::create(first);
    assert!(component.change(second));
    let out = items(component.view());
    assert_eq!(out.len(), 2);
    for node in &out {
        assert_eq!(
            attributes(as_tag(node)),
            vec![pair("slot", "secondaryAction"), pair("dialogAction", "cancel")]
        );
    }
    assert_eq!(as_tag(&out[0]).children.children, vec![text("Cancel")]);
    assert_eq!(as_tag(&out[1]).children.children, vec![text("Never mind")]);
}

#[test]
fn rendering_twice_gives_the_same_output() {
    let props = ActionProps {
        action_type: ActionType::Primary,
        action: Some(Cow::Borrowed("ok")),
        children: Children::new(vec![VNode::from(element("button", vec![text("OK")])), text("!")]),
    };
    let component = MatDialogAction::create(props);
    assert_eq!(component.view(), component.view());
}

#[test]
fn props_can_be_cloned() {
    let props = ActionProps {
        action_type: ActionType::Secondary,
        action: Some(Cow::Borrowed("later")),
        children: Children::new(vec![text("Later")]),
    };
    let copy = props.clone();
    assert_eq!(
        MatDialogAction::create(props).view(),
        MatDialogAction::create(copy).view()
    );
}
