use hubbub::bridge::{RawEvent, Response, TreeHandler, dispatch, dispatch_all};
use hubbub::marshal::{RawAttribute, RawTag};
use hubbub::tree::TreeBuilder;
use hubbub::types::{NULL_NODE, QuirksMode};

fn element_event(name: &[u8], attributes: Vec<RawAttribute>) -> RawEvent {
    RawEvent::CreateElement {
        tag: RawTag { ns: 1, name: name.to_vec(), attributes, self_closing: false },
    }
}

fn node_of(response: Response) -> usize {
    match response {
        Response::Node(n) => n,
        _ => panic!("expected a node response"),
    }
}

/// Feeding the literal input `"<p>Hi</p>"` drives exactly these callbacks:
/// one element creation for `p` with no attributes, one text creation for
/// `Hi`, an append of the text under `p`, and an append of `p` under the
/// root; completing the input creates nothing further.
#[test]
fn paragraph_fixture_builds_expected_tree() {
    let mut builder = TreeBuilder::new();
    let root = builder.create_root();

    let p = node_of(dispatch(&mut builder, &element_event(b"p", Vec::new())));
    let text = node_of(dispatch(&mut builder, &RawEvent::CreateText { data: b"Hi".to_vec() }));
    let effective_text = node_of(dispatch(&mut builder, &RawEvent::AppendChild {
        parent: p,
        child: text,
    }));
    let effective_p = node_of(dispatch(&mut builder, &RawEvent::AppendChild {
        parent: root,
        child: p,
    }));

    assert_eq!(effective_text, text);
    assert_eq!(effective_p, p);
    assert_eq!(builder.node_count(), 3);
    assert_eq!(builder.element_name(p), Some(b"p".to_vec()));
    assert_eq!(builder.attribute_count(p), 0);
    assert_eq!(builder.text_data(text), Some(b"Hi".to_vec()));
    assert_eq!(builder.parent_identity(text), p);
    assert_eq!(builder.parent_identity(p), root);
    assert!(!builder.is_poisoned());

    // End of input triggers no further creation: the node count is final.
    assert_eq!(builder.node_count(), 3);
}

/// An append followed immediately by a parent query on the child answers
/// the parent.
#[test]
fn append_then_get_parent_answers_parent() {
    let mut builder = TreeBuilder::new();
    let root = builder.create_root();
    let p = node_of(dispatch(&mut builder, &element_event(b"p", Vec::new())));
    let effective = node_of(dispatch(&mut builder, &RawEvent::AppendChild {
        parent: root,
        child: p,
    }));
    assert_eq!(effective, p);
    let answer = node_of(dispatch(&mut builder, &RawEvent::GetParent {
        node: p,
        element_only: false,
    }));
    assert_eq!(answer, root);
}

#[test]
fn get_parent_element_only_skips_non_elements() {
    let mut builder = TreeBuilder::new();
    let root = builder.create_root();
    let section = node_of(dispatch(&mut builder, &element_event(b"section", Vec::new())));
    let text = node_of(dispatch(&mut builder, &RawEvent::CreateText { data: b"x".to_vec() }));
    dispatch(&mut builder, &RawEvent::AppendChild { parent: root, child: section });
    dispatch(&mut builder, &RawEvent::AppendChild { parent: section, child: text });

    // The direct parent of the text is the element itself.
    let direct = node_of(dispatch(&mut builder, &RawEvent::GetParent {
        node: text,
        element_only: true,
    }));
    assert_eq!(direct, section);
    // The element's ancestors hold no element, only the document root.
    let none = node_of(dispatch(&mut builder, &RawEvent::GetParent {
        node: section,
        element_only: true,
    }));
    assert_eq!(none, NULL_NODE);
    let root_answer = node_of(dispatch(&mut builder, &RawEvent::GetParent {
        node: section,
        element_only: false,
    }));
    assert_eq!(root_answer, root);
}

/// The markup `<a href="1"><a href="1" href="2">` reduces to one element
/// and two attribute merges carrying `href=1` and then `href=2`; the first
/// occurrence wins.
#[test]
fn add_attributes_first_occurrence_wins() {
    let mut builder = TreeBuilder::new();
    let a = node_of(dispatch(&mut builder, &element_event(b"a", vec![RawAttribute {
        ns: 0,
        name: b"href".to_vec(),
        value: b"1".to_vec(),
    }])));
    dispatch(&mut builder, &RawEvent::AddAttributes {
        node: a,
        attributes: vec![RawAttribute { ns: 0, name: b"href".to_vec(), value: b"2".to_vec() }],
    });
    assert_eq!(builder.attribute_value(a, &b"href".to_vec()), Some(b"1".to_vec()));
    assert_eq!(builder.attribute_count(a), 1);
}

#[test]
fn add_attributes_appends_new_names_in_order() {
    let mut builder = TreeBuilder::new();
    let a = node_of(dispatch(&mut builder, &element_event(b"a", Vec::new())));
    dispatch(&mut builder, &RawEvent::AddAttributes {
        node: a,
        attributes: vec![
            RawAttribute { ns: 0, name: b"href".to_vec(), value: b"u".to_vec() },
            RawAttribute { ns: 0, name: b"id".to_vec(), value: b"k".to_vec() },
        ],
    });
    assert_eq!(builder.attribute_count(a), 2);
    assert_eq!(builder.attribute_value(a, &b"href".to_vec()), Some(b"u".to_vec()));
    assert_eq!(builder.attribute_value(a, &b"id".to_vec()), Some(b"k".to_vec()));
    assert_eq!(builder.attribute_value(a, &b"class".to_vec()), None);
}

/// Each quirks-mode code decodes to its mode, and the latest notification
/// is authoritative. The engine reports full-quirks for a document whose
/// root is `<html>` with no doctype, and no-quirks for one with a
/// standards-mode doctype; the bridge relays whichever code it sends.
#[test]
fn quirks_mode_notifications_latest_wins() {
    let mut builder = TreeBuilder::new();
    assert_eq!(builder.quirks_mode(), QuirksMode::NoQuirks);
    dispatch(&mut builder, &RawEvent::SetQuirksMode { mode: 2 });
    assert_eq!(builder.quirks_mode(), QuirksMode::FullQuirks);
    dispatch(&mut builder, &RawEvent::SetQuirksMode { mode: 1 });
    assert_eq!(builder.quirks_mode(), QuirksMode::LimitedQuirks);
    dispatch(&mut builder, &RawEvent::SetQuirksMode { mode: 0 });
    assert_eq!(builder.quirks_mode(), QuirksMode::NoQuirks);
}

/// References and unreferences bracket each identity: with every
/// reference matched, no reference is outstanding; an unmatched
/// unreference is a double free and poisons the builder.
#[test]
fn reference_bracketing_balances() {
    let mut builder = TreeBuilder::new();
    let n = node_of(dispatch(&mut builder, &element_event(b"div", Vec::new())));
    assert_eq!(builder.reference_count(n), 0);
    dispatch(&mut builder, &RawEvent::RefNode { node: n });
    dispatch(&mut builder, &RawEvent::RefNode { node: n });
    assert_eq!(builder.reference_count(n), 2);
    dispatch(&mut builder, &RawEvent::UnrefNode { node: n });
    dispatch(&mut builder, &RawEvent::UnrefNode { node: n });
    assert_eq!(builder.reference_count(n), 0);
    assert!(!builder.is_poisoned());

    dispatch(&mut builder, &RawEvent::UnrefNode { node: n });
    assert!(builder.is_poisoned());
}

#[test]
fn teardown_check_sees_outstanding_references() {
    let mut builder = TreeBuilder::new();
    let n = node_of(dispatch(&mut builder, &element_event(b"div", Vec::new())));
    assert!(builder.all_references_released());
    dispatch(&mut builder, &RawEvent::RefNode { node: n });
    assert!(!builder.all_references_released());
    dispatch(&mut builder, &RawEvent::UnrefNode { node: n });
    assert!(builder.all_references_released());
}

#[test]
fn operations_on_unissued_identities_poison() {
    let mut builder = TreeBuilder::new();
    assert!(!builder.is_poisoned());
    dispatch(&mut builder, &RawEvent::RefNode { node: 42 });
    assert!(builder.is_poisoned());
}

#[test]
fn remove_child_detaches() {
    let mut builder = TreeBuilder::new();
    let root = builder.create_root();
    let p = node_of(dispatch(&mut builder, &element_event(b"p", Vec::new())));
    dispatch(&mut builder, &RawEvent::AppendChild { parent: root, child: p });
    assert_eq!(builder.parent_identity(p), root);
    let removed = node_of(dispatch(&mut builder, &RawEvent::RemoveChild {
        parent: root,
        child: p,
    }));
    assert_eq!(removed, p);
    assert_eq!(builder.parent_identity(p), NULL_NODE);
    assert!(!builder.is_poisoned());
}

#[test]
fn insert_before_attaches_under_parent() {
    let mut builder = TreeBuilder::new();
    let root = builder.create_root();
    let first = node_of(dispatch(&mut builder, &element_event(b"li", Vec::new())));
    dispatch(&mut builder, &RawEvent::AppendChild { parent: root, child: first });
    let second = node_of(dispatch(&mut builder, &element_event(b"li", Vec::new())));
    let effective = node_of(dispatch(&mut builder, &RawEvent::InsertBefore {
        parent: root,
        child: second,
        sibling: first,
    }));
    assert_eq!(effective, second);
    assert_eq!(builder.parent_identity(second), root);
}

#[test]
fn clone_node_copies_payload_not_references() {
    let mut builder = TreeBuilder::new();
    let a = node_of(dispatch(&mut builder, &element_event(b"a", vec![RawAttribute {
        ns: 0,
        name: b"href".to_vec(),
        value: b"u".to_vec(),
    }])));
    dispatch(&mut builder, &RawEvent::RefNode { node: a });
    let copy = node_of(dispatch(&mut builder, &RawEvent::CloneNode { node: a, deep: false }));
    assert_ne!(copy, a);
    assert_eq!(builder.element_name(copy), Some(b"a".to_vec()));
    assert_eq!(builder.attribute_value(copy, &b"href".to_vec()), Some(b"u".to_vec()));
    assert_eq!(builder.reference_count(copy), 0);
    assert_eq!(builder.reference_count(a), 1);
    assert_eq!(builder.parent_identity(copy), NULL_NODE);
}

#[test]
fn reparent_children_moves_all_children() {
    let mut builder = TreeBuilder::new();
    let old_parent = node_of(dispatch(&mut builder, &element_event(b"ul", Vec::new())));
    let new_parent = node_of(dispatch(&mut builder, &element_event(b"ol", Vec::new())));
    let one = node_of(dispatch(&mut builder, &element_event(b"li", Vec::new())));
    let two = node_of(dispatch(&mut builder, &element_event(b"li", Vec::new())));
    dispatch(&mut builder, &RawEvent::AppendChild { parent: old_parent, child: one });
    dispatch(&mut builder, &RawEvent::AppendChild { parent: old_parent, child: two });
    dispatch(&mut builder, &RawEvent::ReparentChildren { node: old_parent, new_parent });
    assert_eq!(builder.parent_identity(one), new_parent);
    assert_eq!(builder.parent_identity(two), new_parent);
    match dispatch(&mut builder, &RawEvent::HasChildren { node: old_parent }) {
        Response::Truth(answer) => assert!(!answer),
        _ => panic!("expected a truth response"),
    }
    match dispatch(&mut builder, &RawEvent::HasChildren { node: new_parent }) {
        Response::Truth(answer) => assert!(answer),
        _ => panic!("expected a truth response"),
    }
}

#[test]
fn document_level_notifications_are_recorded() {
    let mut builder = TreeBuilder::new();
    let form = node_of(dispatch(&mut builder, &element_event(b"form", Vec::new())));
    let input = node_of(dispatch(&mut builder, &element_event(b"input", Vec::new())));
    dispatch(&mut builder, &RawEvent::FormAssociate { form, node: input });
    assert_eq!(builder.form_count(), 1);
    assert_eq!(builder.form_pair(0), Some((form, input)));

    let script = node_of(dispatch(&mut builder, &element_event(b"script", Vec::new())));
    dispatch(&mut builder, &RawEvent::CompleteScript { node: script });
    assert_eq!(builder.script_count(), 1);
    assert_eq!(builder.script_at(0), Some(script));

    let style = node_of(dispatch(&mut builder, &element_event(b"style", Vec::new())));
    dispatch(&mut builder, &RawEvent::CompleteStyle { node: style });
    assert_eq!(builder.style_count(), 1);

    dispatch(&mut builder, &RawEvent::EncodingChange { name: b"windows-1252".to_vec() });
    assert_eq!(builder.encoding_name(), Some(b"windows-1252".to_vec()));
    assert!(!builder.is_poisoned());
}

#[test]
fn create_comment_and_doctype_answer_fresh_identities() {
    let mut builder = TreeBuilder::new();
    let comment = node_of(dispatch(&mut builder, &RawEvent::CreateComment {
        data: b" note ".to_vec(),
    }));
    let doctype = node_of(dispatch(&mut builder, &RawEvent::CreateDoctype {
        doctype: hubbub::marshal::RawDoctype {
            name: b"html".to_vec(),
            public_missing: true,
            public_id: Vec::new(),
            system_missing: true,
            system_id: Vec::new(),
            force_quirks: false,
        },
    }));
    assert_ne!(comment, doctype);
    assert_eq!(builder.node_count(), 2);
}

#[test]
fn dispatch_all_forwards_in_order() {
    let mut builder = TreeBuilder::new();
    let events = vec![
        element_event(b"p", Vec::new()),
        RawEvent::CreateText { data: b"Hi".to_vec() },
        RawEvent::AppendChild { parent: 1, child: 2 },
    ];
    let responses = dispatch_all(&mut builder, &events);
    assert_eq!(responses.len(), 3);
    assert_eq!(node_of(responses[0]), 1);
    assert_eq!(node_of(responses[1]), 2);
    assert_eq!(builder.parent_identity(2), 1);
}

#[test]
fn event_check_rejects_malformed_codes() {
    let bad_tag = RawEvent::CreateElement {
        tag: RawTag { ns: 99, name: b"p".to_vec(), attributes: Vec::new(), self_closing: false },
    };
    assert!(!bad_tag.check());
    let bad_mode = RawEvent::SetQuirksMode { mode: 3 };
    assert!(!bad_mode.check());
    let good = RawEvent::SetQuirksMode { mode: 2 };
    assert!(good.check());
}

#[test]
fn handler_methods_are_callable_directly() {
    let mut builder = TreeBuilder::new();
    let node = builder.create_comment(b"c".to_vec());
    builder.ref_node(node);
    assert_eq!(builder.reference_count(node), 1);
    builder.unref_node(node);
    assert_eq!(builder.reference_count(node), 0);
}
