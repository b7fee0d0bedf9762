//! A reference tree-construction capability.
//!
//! [`TreeBuilder`] implements the callback contract over an arena of nodes.
//! It keeps what the protocol obliges a client to keep: the parent link of
//! every node, the merged attribute set of every element with first
//! occurrence winning, the engine's reference-count bracketing, the latest
//! quirks mode and encoding notifications, and the form, script and style
//! records. It does not track sibling order: no operation of the callback
//! contract reads it back, so a parent link per node carries every
//! observable answer.
//!
//! The builder is deliberately strict about the engine's side of the
//! contract: an operation naming an identity it never issued, or an
//! unreference without a matching reference, marks the builder poisoned
//! instead of guessing. A poisoned builder stops mutating but keeps
//! logging, so the ghost operation log stays a faithful record.

use vstd::prelude::*;

use crate::bridge::{TreeHandler, TreeOp};
use crate::types::{AttrModel, Attribute, Doctype, DoctypeModel, NULL_NODE, NodeDataPtr, Ns,
    QuirksMode, Tag, copy_text, text_eq};

verus! {

/// What a node of the reference tree is.
#[derive(Debug)]
pub enum NodeKind {
    /// The document root the client made for [`TreeBuilder::create_root`].
    Document,
    /// An element, with its namespace and name.
    Element { ns: Ns, name: Vec<u8> },
    /// A text node.
    Text { data: Vec<u8> },
    /// A comment node.
    Comment { data: Vec<u8> },
    /// A doctype node.
    Doctype { doctype: Doctype },
}

/// The mathematical value of a [`NodeKind`].
#[verifier::ext_equal]
pub ghost enum NodeKindModel {
    Document,
    Element { ns: Ns, name: Seq<u8> },
    Text { data: Seq<u8> },
    Comment { data: Seq<u8> },
    Doctype { doctype: DoctypeModel },
}

impl View for NodeKind {
    type V = NodeKindModel;

    open spec fn view(&self) -> NodeKindModel {
        match *self {
            NodeKind::Document => NodeKindModel::Document,
            NodeKind::Element { ns, ref name } => NodeKindModel::Element { ns, name: name@ },
            NodeKind::Text { ref data } => NodeKindModel::Text { data: data@ },
            NodeKind::Comment { ref data } => NodeKindModel::Comment { data: data@ },
            NodeKind::Doctype { ref doctype } => NodeKindModel::Doctype { doctype: doctype@ },
        }
    }
}

impl NodeKind {
    /// A deep copy of the payload.
    pub fn duplicate(&self) -> (copy: NodeKind)
        ensures
            copy@ == self@,
    {
        match self {
            NodeKind::Document => NodeKind::Document,
            NodeKind::Element { ns, name } => NodeKind::Element {
                ns: *ns,
                name: copy_text(name),
            },
            NodeKind::Text { data } => NodeKind::Text { data: copy_text(data) },
            NodeKind::Comment { data } => NodeKind::Comment { data: copy_text(data) },
            NodeKind::Doctype { doctype } => NodeKind::Doctype { doctype: doctype.duplicate() },
        }
    }
}

/// One node of the reference tree.
#[derive(Debug)]
pub struct NodeRec {
    /// The node's payload.
    pub kind: NodeKind,
    /// The identity of the node's parent, or [`NULL_NODE`] while detached.
    pub parent: NodeDataPtr,
    /// The node's merged attribute set, in arrival order.
    pub attributes: Vec<Attribute>,
    /// How many references the engine currently holds on the node.
    pub refs: u64,
}

/// The mathematical value of a [`NodeRec`].
#[verifier::ext_equal]
pub ghost struct NodeModel {
    pub kind: NodeKindModel,
    pub parent: NodeDataPtr,
    pub attrs: Seq<AttrModel>,
    pub refs: int,
}

impl View for NodeRec {
    type V = NodeModel;

    open spec fn view(&self) -> NodeModel {
        NodeModel {
            kind: self.kind@,
            parent: self.parent,
            attrs: self.attributes@.map_values(|a: Attribute| a@),
            refs: self.refs as int,
        }
    }
}

/// The mathematical state of a [`TreeBuilder`]: the arena (identity `n`
/// is `nodes[n - 1]`; zero is the null identity), the latest document-level
/// notifications, the association records, the poison flag, and the log of
/// every operation received.
#[verifier::ext_equal]
pub ghost struct TreeModel {
    pub nodes: Seq<NodeModel>,
    pub quirks: QuirksMode,
    pub encoding: Option<Seq<u8>>,
    pub forms: Seq<(NodeDataPtr, NodeDataPtr)>,
    pub scripts: Seq<NodeDataPtr>,
    pub styles: Seq<NodeDataPtr>,
    pub poisoned: bool,
    pub log: Seq<TreeOp>,
}

/// How one operation changes the number of references the engine holds on
/// node `n`.
pub open spec fn ref_delta(op: TreeOp, n: NodeDataPtr) -> int {
    match op {
        TreeOp::RefNode { node } => if node == n {
            1
        } else {
            0
        },
        TreeOp::UnrefNode { node } => if node == n {
            -1
        } else {
            0
        },
        _ => 0,
    }
}

/// References minus unreferences that a log records for node `n`.
pub open spec fn ref_balance(log: Seq<TreeOp>, n: NodeDataPtr) -> int
    decreases log.len(),
{
    if log.len() == 0 {
        0
    } else {
        ref_balance(log.drop_last(), n) + ref_delta(log.last(), n)
    }
}

/// One more logged operation moves the balance by that operation's delta.
pub proof fn lemma_ref_balance_push(log: Seq<TreeOp>, op: TreeOp, n: NodeDataPtr)
    ensures
        ref_balance(log.push(op), n) == ref_balance(log, n) + ref_delta(op, n),
{
    assert(log.push(op).drop_last() =~= log);
    assert(log.push(op).last() == op);
}

/// Whether an operation is a reference-count notification.
pub open spec fn is_ref_op(op: TreeOp) -> bool {
    op is RefNode || op is UnrefNode
}

impl TreeModel {
    /// Whether `node` names a node of the arena.
    pub open spec fn valid_id(self, node: NodeDataPtr) -> bool {
        1 <= node <= self.nodes.len()
    }

    /// The node a valid identity names.
    pub open spec fn node(self, node: NodeDataPtr) -> NodeModel
        recommends
            self.valid_id(node),
    {
        self.nodes[node - 1]
    }

    /// Well-formedness: parent links stay inside the arena, reference
    /// counts fit the counter, and—as long as the engine has not broken the
    /// contract—the count of every node equals the balance of the log, and
    /// identities never issued have balance zero.
    pub open spec fn wf(self) -> bool {
        &&& forall|i: int|
            0 <= i < self.nodes.len() ==> (#[trigger] self.nodes[i]).parent <= self.nodes.len()
        &&& forall|i: int| 0 <= i < self.nodes.len() ==> 0 <= (#[trigger] self.nodes[i]).refs
            <= u64::MAX
        &&& !self.poisoned ==> forall|n: NodeDataPtr|
            #[trigger] ref_balance(self.log, n) == (if self.valid_id(n) {
                self.node(n).refs
            } else {
                0
            })
    }

    /// The same state with one more operation logged.
    pub open spec fn logged(self, op: TreeOp) -> TreeModel {
        TreeModel { log: self.log.push(op), ..self }
    }

    /// The same state, poisoned.
    pub open spec fn poison(self) -> TreeModel {
        TreeModel { poisoned: true, ..self }
    }

    /// The same state with the node a valid identity names replaced.
    pub open spec fn with_node(self, node: NodeDataPtr, replacement: NodeModel) -> TreeModel
        recommends
            self.valid_id(node),
    {
        TreeModel { nodes: self.nodes.update(node - 1, replacement), ..self }
    }

    /// The same state with a fresh node appended; its identity is
    /// `self.nodes.len() + 1`.
    pub open spec fn with_new_node(self, fresh: NodeModel) -> TreeModel {
        TreeModel { nodes: self.nodes.push(fresh), ..self }
    }
}

/// A fresh, detached, unreferenced node.
pub open spec fn fresh_node(kind: NodeKindModel, attrs: Seq<AttrModel>) -> NodeModel {
    NodeModel { kind, parent: NULL_NODE, attrs, refs: 0 }
}

/// The state after a creation operation: the node is appended detached and
/// unreferenced, and the operation is logged. Creation never poisons.
pub open spec fn spec_create(
    t: TreeModel,
    kind: NodeKindModel,
    attrs: Seq<AttrModel>,
    op: TreeOp,
) -> TreeModel {
    t.with_new_node(fresh_node(kind, attrs)).logged(op)
}

/// The state after a reference notification: the count rises by one; an
/// identity never issued, or a counter at its limit, poisons instead.
pub open spec fn spec_ref_node(t: TreeModel, node: NodeDataPtr) -> TreeModel {
    let logged = t.logged(TreeOp::RefNode { node });
    if t.poisoned {
        logged
    } else if t.valid_id(node) && t.node(node).refs < u64::MAX {
        logged.with_node(node, NodeModel { refs: t.node(node).refs + 1, ..t.node(node) })
    } else {
        logged.poison()
    }
}

/// The state after an unreference notification: the count falls by one; an
/// identity never issued, or an unreference without a matching reference (a
/// double free), poisons instead.
pub open spec fn spec_unref_node(t: TreeModel, node: NodeDataPtr) -> TreeModel {
    let logged = t.logged(TreeOp::UnrefNode { node });
    if t.poisoned {
        logged
    } else if t.valid_id(node) && t.node(node).refs > 0 {
        logged.with_node(node, NodeModel { refs: t.node(node).refs - 1, ..t.node(node) })
    } else {
        logged.poison()
    }
}

/// Whether an attachment of `child` under `parent` is acceptable: both
/// identities were issued and differ.
pub open spec fn attach_ok(t: TreeModel, parent: NodeDataPtr, child: NodeDataPtr) -> bool {
    t.valid_id(parent) && t.valid_id(child) && parent != child
}

/// The node `child` names, reattached under `parent`.
pub open spec fn attached(t: TreeModel, parent: NodeDataPtr, child: NodeDataPtr) -> NodeModel
    recommends
        t.valid_id(child),
{
    NodeModel { parent, ..t.node(child) }
}

/// The state after an append: the child's parent link moves to `parent`.
pub open spec fn spec_append_child(t: TreeModel, parent: NodeDataPtr, child: NodeDataPtr)
    -> TreeModel {
    let logged = t.logged(TreeOp::AppendChild { parent, child, effective: child });
    if t.poisoned {
        logged
    } else if attach_ok(t, parent, child) {
        logged.with_node(child, attached(t, parent, child))
    } else {
        logged.poison()
    }
}

/// The state after an insert-before: the builder keeps no sibling order,
/// so the child's parent link moves exactly as in an append; the named
/// sibling must have been issued too.
pub open spec fn spec_insert_before(
    t: TreeModel,
    parent: NodeDataPtr,
    child: NodeDataPtr,
    sibling: NodeDataPtr,
) -> TreeModel {
    let logged = t.logged(TreeOp::InsertBefore { parent, child, sibling, effective: child });
    if t.poisoned {
        logged
    } else if attach_ok(t, parent, child) && t.valid_id(sibling) {
        logged.with_node(child, attached(t, parent, child))
    } else {
        logged.poison()
    }
}

/// The state after a removal: the child, which must currently sit under
/// `parent`, becomes detached.
pub open spec fn spec_remove_child(t: TreeModel, parent: NodeDataPtr, child: NodeDataPtr)
    -> TreeModel {
    let logged = t.logged(TreeOp::RemoveChild { parent, child, removed: child });
    if t.poisoned {
        logged
    } else if t.valid_id(parent) && t.valid_id(child) && t.node(child).parent == parent {
        logged.with_node(child, NodeModel { parent: NULL_NODE, ..t.node(child) })
    } else {
        logged.poison()
    }
}

/// What a clone answers: the fresh identity, or the null identity when
/// the builder is poisoned or the identity was never issued.
pub open spec fn clone_answer(t: TreeModel, node: NodeDataPtr) -> NodeDataPtr {
    if !t.poisoned && t.valid_id(node) {
        (t.nodes.len() + 1) as usize
    } else {
        NULL_NODE
    }
}

/// What a parent query on the builder answers: [`parent_answer`] for a
/// live identity, the null identity when the builder is poisoned or the
/// identity was never issued.
pub open spec fn get_parent_answer(t: TreeModel, node: NodeDataPtr, element_only: bool)
    -> NodeDataPtr {
    if !t.poisoned && t.valid_id(node) {
        parent_answer(t, node, element_only)
    } else {
        NULL_NODE
    }
}

/// What a child query on the builder answers.
pub open spec fn has_children_answer(t: TreeModel, node: NodeDataPtr) -> bool {
    if !t.poisoned && t.valid_id(node) {
        has_child_answer(t, node)
    } else {
        false
    }
}

/// The state after a clone: a fresh detached node with the same payload
/// and attributes but no references. The builder keeps no child lists, so
/// a deep clone has nothing further to copy than a shallow one.
pub open spec fn spec_clone_node(t: TreeModel, node: NodeDataPtr, deep: bool) -> TreeModel {
    let answer = clone_answer(t, node);
    let logged = t.logged(TreeOp::CloneNode { node, deep, copy: answer });
    if t.poisoned {
        logged
    } else if t.valid_id(node) {
        logged.with_new_node(fresh_node(t.node(node).kind, t.node(node).attrs))
    } else {
        logged.poison()
    }
}

/// Every node that sat under `node` reattached under `new_parent`, all
/// others unchanged.
pub open spec fn reparented(
    nodes: Seq<NodeModel>,
    node: NodeDataPtr,
    new_parent: NodeDataPtr,
) -> Seq<NodeModel> {
    Seq::new(
        nodes.len(),
        |i: int|
            if nodes[i].parent == node {
                NodeModel { parent: new_parent, ..nodes[i] }
            } else {
                nodes[i]
            },
    )
}

/// The state after a reparenting: all children of `node` move under
/// `new_parent`; their relative order is untracked, there being no
/// operation that reads it back.
pub open spec fn spec_reparent_children(
    t: TreeModel,
    node: NodeDataPtr,
    new_parent: NodeDataPtr,
) -> TreeModel {
    let logged = t.logged(TreeOp::ReparentChildren { node, new_parent });
    if t.poisoned {
        logged
    } else if t.valid_id(node) && t.valid_id(new_parent) {
        TreeModel { nodes: reparented(t.nodes, node, new_parent), ..logged }
    } else {
        logged.poison()
    }
}

/// The nearest element ancestor of `node`, walking parent links with
/// enough fuel to cross the whole arena; the null identity when the walk
/// reaches a root (or runs out of fuel on a degenerate cyclic state).
pub open spec fn elem_ancestor(t: TreeModel, node: NodeDataPtr, fuel: nat) -> NodeDataPtr
    recommends
        t.valid_id(node),
    decreases fuel,
{
    if fuel == 0 {
        NULL_NODE
    } else {
        let parent = t.node(node).parent;
        if parent == NULL_NODE || !t.valid_id(parent) {
            NULL_NODE
        } else if t.node(parent).kind is Element {
            parent
        } else {
            elem_ancestor(t, parent, (fuel - 1) as nat)
        }
    }
}

/// What a parent query answers: the direct parent, or with `element_only`
/// the nearest element ancestor.
pub open spec fn parent_answer(t: TreeModel, node: NodeDataPtr, element_only: bool)
    -> NodeDataPtr
    recommends
        t.valid_id(node),
{
    if element_only {
        elem_ancestor(t, node, t.nodes.len())
    } else {
        t.node(node).parent
    }
}

/// The state after a parent query: nothing changes unless the identity was
/// never issued, which poisons.
pub open spec fn spec_get_parent(t: TreeModel, node: NodeDataPtr, element_only: bool)
    -> TreeModel {
    let answer = get_parent_answer(t, node, element_only);
    let logged = t.logged(TreeOp::GetParent { node, element_only, answer });
    if t.poisoned || t.valid_id(node) {
        logged
    } else {
        logged.poison()
    }
}

/// What a child query answers: whether any node sits under `node`.
pub open spec fn has_child_answer(t: TreeModel, node: NodeDataPtr) -> bool {
    exists|i: int| 0 <= i < t.nodes.len() && (#[trigger] t.nodes[i]).parent == node
}

/// The state after a child query: nothing changes unless the identity was
/// never issued, which poisons.
pub open spec fn spec_has_children(t: TreeModel, node: NodeDataPtr) -> TreeModel {
    let answer = has_children_answer(t, node);
    let logged = t.logged(TreeOp::HasChildren { node, present: answer });
    if t.poisoned || t.valid_id(node) {
        logged
    } else {
        logged.poison()
    }
}

/// The state after a form association: the pair is recorded.
pub open spec fn spec_form_associate(t: TreeModel, form: NodeDataPtr, node: NodeDataPtr)
    -> TreeModel {
    let logged = t.logged(TreeOp::FormAssociate { form, node });
    if t.poisoned {
        logged
    } else if t.valid_id(form) && t.valid_id(node) {
        TreeModel { forms: t.forms.push((form, node)), ..logged }
    } else {
        logged.poison()
    }
}

/// Whether some attribute of `attrs` bears `name`.
pub open spec fn has_attr(attrs: Seq<AttrModel>, name: Seq<u8>) -> bool {
    exists|i: int| 0 <= i < attrs.len() && (#[trigger] attrs[i]).name == name
}

/// The value of the first attribute of `attrs` bearing `name`, if any.
pub open spec fn attr_value(attrs: Seq<AttrModel>, name: Seq<u8>) -> Option<Seq<u8>>
    decreases attrs.len(),
{
    if attrs.len() == 0 {
        None
    } else if attrs[0].name == name {
        Some(attrs[0].value)
    } else {
        attr_value(attrs.drop_first(), name)
    }
}

/// The merge the callback contract prescribes: incoming attributes are
/// taken in order, and one whose name is already present is dropped — the
/// first occurrence wins, matching HTML semantics.
pub open spec fn merge_attrs(existing: Seq<AttrModel>, incoming: Seq<AttrModel>)
    -> Seq<AttrModel>
    decreases incoming.len(),
{
    if incoming.len() == 0 {
        existing
    } else {
        let taken = if has_attr(existing, incoming[0].name) {
            existing
        } else {
            existing.push(incoming[0])
        };
        merge_attrs(taken, incoming.drop_first())
    }
}

/// The state after an attribute merge on `node`.
pub open spec fn spec_add_attributes(
    t: TreeModel,
    node: NodeDataPtr,
    attrs: Seq<AttrModel>,
) -> TreeModel {
    let logged = t.logged(TreeOp::AddAttributes { node, attrs });
    if t.poisoned {
        logged
    } else if t.valid_id(node) {
        logged.with_node(
            node,
            NodeModel { attrs: merge_attrs(t.node(node).attrs, attrs), ..t.node(node) },
        )
    } else {
        logged.poison()
    }
}

/// The state after a quirks-mode notification: the latest one is
/// authoritative.
pub open spec fn spec_set_quirks_mode(t: TreeModel, mode: QuirksMode) -> TreeModel {
    let logged = t.logged(TreeOp::SetQuirksMode { mode });
    if t.poisoned {
        logged
    } else {
        TreeModel { quirks: mode, ..logged }
    }
}

/// The state after an encoding-change notification: the restart signal is
/// recorded; node identities stay valid, their reference bookkeeping being
/// independent of the text encoding.
pub open spec fn spec_encoding_change(t: TreeModel, name: Seq<u8>) -> TreeModel {
    let logged = t.logged(TreeOp::EncodingChange { name });
    if t.poisoned {
        logged
    } else {
        TreeModel { encoding: Some(name), ..logged }
    }
}

/// The state after a script-completion notification: the element is
/// recorded as ready for execution.
pub open spec fn spec_complete_script(t: TreeModel, node: NodeDataPtr) -> TreeModel {
    let logged = t.logged(TreeOp::CompleteScript { node });
    if t.poisoned {
        logged
    } else if t.valid_id(node) {
        TreeModel { scripts: t.scripts.push(node), ..logged }
    } else {
        logged.poison()
    }
}

/// The state after a style-completion notification.
pub open spec fn spec_complete_style(t: TreeModel, node: NodeDataPtr) -> TreeModel {
    let logged = t.logged(TreeOp::CompleteStyle { node });
    if t.poisoned {
        logged
    } else if t.valid_id(node) {
        TreeModel { styles: t.styles.push(node), ..logged }
    } else {
        logged.poison()
    }
}

/// The state of a fresh builder.
pub open spec fn empty_tree() -> TreeModel {
    TreeModel {
        nodes: Seq::empty(),
        quirks: QuirksMode::NoQuirks,
        encoding: None,
        forms: Seq::empty(),
        scripts: Seq::empty(),
        styles: Seq::empty(),
        poisoned: false,
        log: Seq::empty(),
    }
}

/// Well-formedness survives a logged operation that is no reference
/// notification and leaves every length, parent range and count in place.
proof fn lemma_wf_plain(t: TreeModel, t2: TreeModel, op: TreeOp)
    requires
        t.wf(),
        !is_ref_op(op),
        t2.log == t.log.push(op),
        t2.poisoned == t.poisoned,
        t2.nodes.len() == t.nodes.len(),
        forall|i: int|
            0 <= i < t2.nodes.len() ==> (#[trigger] t2.nodes[i]).parent <= t2.nodes.len(),
        forall|i: int|
            0 <= i < t2.nodes.len() ==> (#[trigger] t2.nodes[i]).refs == t.nodes[i].refs,
    ensures
        t2.wf(),
{
    if !t2.poisoned {
        assert forall|n: NodeDataPtr|
            #[trigger] ref_balance(t2.log, n) == (if t2.valid_id(n) {
                t2.node(n).refs
            } else {
                0
            }) by {
            lemma_ref_balance_push(t.log, op, n);
            assert(ref_balance(t.log, n) == (if t.valid_id(n) {
                t.node(n).refs
            } else {
                0
            }));
        }
    }
}

/// Well-formedness survives appending a fresh unreferenced node under a
/// logged operation that is no reference notification.
proof fn lemma_wf_create(t: TreeModel, t2: TreeModel, op: TreeOp, fresh: NodeModel)
    requires
        t.wf(),
        !is_ref_op(op),
        t2.log == t.log.push(op),
        t2.poisoned == t.poisoned,
        t2.nodes == t.nodes.push(fresh),
        fresh.refs == 0,
        fresh.parent <= t2.nodes.len(),
    ensures
        t2.wf(),
{
    assert forall|i: int|
        0 <= i < t2.nodes.len() implies (#[trigger] t2.nodes[i]).parent <= t2.nodes.len() by {
        if i < t.nodes.len() {
            assert(t2.nodes[i] == t.nodes[i]);
        }
    }
    if !t2.poisoned {
        assert forall|n: NodeDataPtr|
            #[trigger] ref_balance(t2.log, n) == (if t2.valid_id(n) {
                t2.node(n).refs
            } else {
                0
            }) by {
            lemma_ref_balance_push(t.log, op, n);
            assert(ref_balance(t.log, n) == (if t.valid_id(n) {
                t.node(n).refs
            } else {
                0
            }));
        }
    }
}

/// Well-formedness survives poisoning under any logged operation, the
/// nodes staying as they were.
proof fn lemma_wf_poison(t: TreeModel, t2: TreeModel, op: TreeOp)
    requires
        t.wf(),
        t2.log == t.log.push(op),
        t2.poisoned,
        t2.nodes == t.nodes,
    ensures
        t2.wf(),
{
}

/// Well-formedness survives a reference notification on an issued identity
/// whose counter has room.
proof fn lemma_wf_ref(t: TreeModel, node: NodeDataPtr)
    requires
        t.wf(),
        !t.poisoned,
        t.valid_id(node),
        t.node(node).refs < u64::MAX,
    ensures
        spec_ref_node(t, node).wf(),
{
    let t2 = spec_ref_node(t, node);
    let op = TreeOp::RefNode { node };
    assert forall|n: NodeDataPtr|
        #[trigger] ref_balance(t2.log, n) == (if t2.valid_id(n) {
            t2.node(n).refs
        } else {
            0
        }) by {
        lemma_ref_balance_push(t.log, op, n);
        assert(ref_balance(t.log, n) == (if t.valid_id(n) {
            t.node(n).refs
        } else {
            0
        }));
    }
}

/// Well-formedness survives an unreference notification on an issued
/// identity that still holds a reference.
proof fn lemma_wf_unref(t: TreeModel, node: NodeDataPtr)
    requires
        t.wf(),
        !t.poisoned,
        t.valid_id(node),
        t.node(node).refs > 0,
    ensures
        spec_unref_node(t, node).wf(),
{
    let t2 = spec_unref_node(t, node);
    let op = TreeOp::UnrefNode { node };
    assert forall|n: NodeDataPtr|
        #[trigger] ref_balance(t2.log, n) == (if t2.valid_id(n) {
            t2.node(n).refs
        } else {
            0
        }) by {
        lemma_ref_balance_push(t.log, op, n);
        assert(ref_balance(t.log, n) == (if t.valid_id(n) {
            t.node(n).refs
        } else {
            0
        }));
    }
}

/// Law: every reference is matched. On a well-formed, unpoisoned builder
/// state, an identity whose log shows as many unreferences as references
/// holds no outstanding reference, so the client may reclaim the node — no
/// leak.
pub proof fn lemma_balanced_identity_unreferenced(t: TreeModel, node: NodeDataPtr)
    requires
        t.wf(),
        !t.poisoned,
        t.valid_id(node),
        ref_balance(t.log, node) == 0,
    ensures
        t.node(node).refs == 0,
{
}

/// Law: no double free. A well-formed builder state that is not poisoned
/// never saw more unreferences than references for any identity: an
/// unmatched unreference poisons instead of driving a count negative.
pub proof fn lemma_no_unmatched_unref(t: TreeModel, node: NodeDataPtr)
    requires
        t.wf(),
        !t.poisoned,
    ensures
        ref_balance(t.log, node) >= 0,
{
}

/// Law: an append is immediately visible to a parent query. After
/// appending `child` under `parent`, a parent query on `child` without the
/// element-only filter answers `parent`.
pub proof fn lemma_append_then_get_parent(t: TreeModel, parent: NodeDataPtr, child: NodeDataPtr)
    requires
        !t.poisoned,
        attach_ok(t, parent, child),
    ensures
        !spec_append_child(t, parent, child).poisoned,
        parent_answer(spec_append_child(t, parent, child), child, false) == parent,
{
}

/// A value already present keeps its place under one more attribute.
proof fn lemma_attr_value_push(attrs: Seq<AttrModel>, extra: AttrModel, name: Seq<u8>)
    requires
        attr_value(attrs, name) is Some,
    ensures
        attr_value(attrs.push(extra), name) == attr_value(attrs, name),
    decreases attrs.len(),
{
    if attrs.len() == 0 {
    } else if attrs[0].name == name {
        assert(attrs.push(extra)[0] == attrs[0]);
    } else {
        assert(attrs.push(extra).drop_first() =~= attrs.drop_first().push(extra));
        lemma_attr_value_push(attrs.drop_first(), extra, name);
    }
}

/// A name that already has a value keeps it through any later merge.
pub proof fn lemma_merge_keeps_present(
    existing: Seq<AttrModel>,
    incoming: Seq<AttrModel>,
    name: Seq<u8>,
)
    requires
        attr_value(existing, name) is Some,
    ensures
        attr_value(merge_attrs(existing, incoming), name) == attr_value(existing, name),
    decreases incoming.len(),
{
    if incoming.len() == 0 {
    } else {
        let taken = if has_attr(existing, incoming[0].name) {
            existing
        } else {
            existing.push(incoming[0])
        };
        if !has_attr(existing, incoming[0].name) {
            lemma_attr_value_push(existing, incoming[0], name);
        }
        lemma_merge_keeps_present(taken, incoming.drop_first(), name);
    }
}

/// Law: the first occurrence of an attribute name wins. When two merges
/// carry overlapping names, a name valued by the first merge keeps that
/// value through the second, whatever the second carries.
pub proof fn lemma_first_occurrence_wins(
    existing: Seq<AttrModel>,
    first: Seq<AttrModel>,
    second: Seq<AttrModel>,
    name: Seq<u8>,
)
    requires
        attr_value(merge_attrs(existing, first), name) is Some,
    ensures
        attr_value(merge_attrs(merge_attrs(existing, first), second), name) == attr_value(
            merge_attrs(existing, first),
            name,
        ),
{
    lemma_merge_keeps_present(merge_attrs(existing, first), second, name);
}

/// Deep-copies an attribute vector, value for value.
fn copy_attributes(attrs: &Vec<Attribute>) -> (copy: Vec<Attribute>)
    ensures
        copy@.map_values(|a: Attribute| a@) == attrs@.map_values(|a: Attribute| a@),
{
    let mut out: Vec<Attribute> = Vec::new();
    let mut i: usize = 0;
    while i < attrs.len()
        invariant
            0 <= i <= attrs@.len(),
            out@.len() == i,
            forall|k: int| 0 <= k < i ==> (#[trigger] out@[k])@ == attrs@[k]@,
        decreases attrs@.len() - i,
    {
        out.push(attrs[i].duplicate());
        i = i + 1;
    }
    proof {
        assert(out@.map_values(|a: Attribute| a@) =~~= attrs@.map_values(|a: Attribute| a@));
    }
    out
}

/// Whether some attribute of the vector bears `name`.
fn has_named_attr(attrs: &Vec<Attribute>, name: &Vec<u8>) -> (found: bool)
    ensures
        found == has_attr(attrs@.map_values(|a: Attribute| a@), name@),
{
    let ghost s = attrs@.map_values(|a: Attribute| a@);
    let mut j: usize = 0;
    while j < attrs.len()
        invariant
            0 <= j <= attrs@.len(),
            s == attrs@.map_values(|a: Attribute| a@),
            forall|k: int| 0 <= k < j ==> (#[trigger] s[k]).name != name@,
        decreases attrs@.len() - j,
    {
        if text_eq(&attrs[j].name, name) {
            proof {
                assert(s[j as int].name == name@);
            }
            return true;
        }
        j = j + 1;
    }
    false
}

/// The reference tree-construction capability.
pub struct TreeBuilder {
    nodes: Vec<NodeRec>,
    quirks: QuirksMode,
    encoding: Option<Vec<u8>>,
    forms: Vec<(NodeDataPtr, NodeDataPtr)>,
    scripts: Vec<NodeDataPtr>,
    styles: Vec<NodeDataPtr>,
    poisoned: bool,
    history: Ghost<Seq<TreeOp>>,
}

impl View for TreeBuilder {
    type V = TreeModel;

    closed spec fn view(&self) -> TreeModel {
        TreeModel {
            nodes: self.nodes@.map_values(|n: NodeRec| n@),
            quirks: self.quirks,
            encoding: match self.encoding {
                Some(ref name) => Some(name@),
                None => None,
            },
            forms: self.forms@,
            scripts: self.scripts@,
            styles: self.styles@,
            poisoned: self.poisoned,
            log: self.history@,
        }
    }
}

impl TreeBuilder {
    /// A fresh builder: no nodes, no-quirks, nothing logged.
    pub fn new() -> (builder: TreeBuilder)
        ensures
            builder@ == empty_tree(),
            builder@.wf(),
    {
        let builder = TreeBuilder {
            nodes: Vec::new(),
            quirks: QuirksMode::NoQuirks,
            encoding: None,
            forms: Vec::new(),
            scripts: Vec::new(),
            styles: Vec::new(),
            poisoned: false,
            history: Ghost(Seq::empty()),
        };
        proof {
            assert(builder@ =~= empty_tree());
        }
        builder
    }

    /// Creates the document root the client hands to the parser as its
    /// document node. This is client-side setup, not a callback, so it is
    /// not logged.
    pub fn create_root(&mut self) -> (node: NodeDataPtr)
        ensures
            final(self)@ == old(self)@.with_new_node(fresh_node(NodeKindModel::Document,
                Seq::empty())),
            node == old(self)@.nodes.len() + 1,
            old(self)@.wf() ==> final(self)@.wf(),
    {
        let ghost t = self@;
        self.nodes.push(
            NodeRec { kind: NodeKind::Document, parent: NULL_NODE, attributes: Vec::new(),
                refs: 0 },
        );
        let node = self.nodes.len();
        proof {
            let fresh = fresh_node(NodeKindModel::Document, Seq::empty());
            assert(self@.nodes =~~= t.nodes.push(fresh));
            assert(self@ =~~= t.with_new_node(fresh));
            if t.wf() {
                let t2 = self@;
                assert forall|i: int|
                    0 <= i < t2.nodes.len() implies (#[trigger] t2.nodes[i]).parent
                    <= t2.nodes.len() by {
                    if i < t.nodes.len() {
                        assert(t2.nodes[i] == t.nodes[i]);
                    }
                }
                if !t2.poisoned {
                    assert forall|n: NodeDataPtr|
                        #[trigger] ref_balance(t2.log, n) == (if t2.valid_id(n) {
                            t2.node(n).refs
                        } else {
                            0
                        }) by {
                        assert(ref_balance(t.log, n) == (if t.valid_id(n) {
                            t.node(n).refs
                        } else {
                            0
                        }));
                    }
                }
            }
        }
        node
    }

    /// How many nodes the arena holds.
    pub fn node_count(&self) -> (count: usize)
        ensures
            count == self@.nodes.len(),
    {
        self.nodes.len()
    }

    /// Whether the engine broke the callback contract at some point.
    pub fn is_poisoned(&self) -> (poisoned: bool)
        ensures
            poisoned == self@.poisoned,
    {
        self.poisoned
    }

    /// The latest quirks mode the engine reported.
    pub fn quirks_mode(&self) -> (mode: QuirksMode)
        ensures
            mode == self@.quirks,
    {
        self.quirks
    }

    /// The parent link of a node; the null identity for a detached node or
    /// an identity never issued.
    pub fn parent_identity(&self, node: NodeDataPtr) -> (parent: NodeDataPtr)
        ensures
            parent == (if self@.valid_id(node) {
                self@.node(node).parent
            } else {
                NULL_NODE
            }),
    {
        if 1 <= node && node <= self.nodes.len() {
            self.nodes[node - 1].parent
        } else {
            NULL_NODE
        }
    }

    /// How many references the engine holds on a node; zero for an
    /// identity never issued.
    pub fn reference_count(&self, node: NodeDataPtr) -> (count: u64)
        ensures
            self@.valid_id(node) ==> count == self@.node(node).refs,
            !self@.valid_id(node) ==> count == 0,
    {
        if 1 <= node && node <= self.nodes.len() {
            self.nodes[node - 1].refs
        } else {
            0
        }
    }

    /// How many attributes a node carries; zero for an identity never
    /// issued.
    pub fn attribute_count(&self, node: NodeDataPtr) -> (count: usize)
        ensures
            self@.valid_id(node) ==> count == self@.node(node).attrs.len(),
            !self@.valid_id(node) ==> count == 0,
    {
        if 1 <= node && node <= self.nodes.len() {
            self.nodes[node - 1].attributes.len()
        } else {
            0
        }
    }

    /// The value of the first attribute of `node` bearing `name`, if any.
    pub fn attribute_value(&self, node: NodeDataPtr, name: &Vec<u8>) -> (value: Option<Vec<u8>>)
        ensures
            self@.valid_id(node) ==> (match attr_value(self@.node(node).attrs, name@) {
                Some(v) => value is Some && value->0@ == v,
                None => value is None,
            }),
            !self@.valid_id(node) ==> value is None,
    {
        if !(1 <= node && node <= self.nodes.len()) {
            return None;
        }
        let attrs = &self.nodes[node - 1].attributes;
        let ghost s = attrs@.map_values(|a: Attribute| a@);
        proof {
            assert(s.skip(0) =~= s);
        }
        let mut j: usize = 0;
        while j < attrs.len()
            invariant
                0 <= j <= attrs@.len(),
                1 <= node && node <= self@.nodes.len(),
                s == attrs@.map_values(|a: Attribute| a@),
                s == self@.node(node).attrs,
                attr_value(s, name@) == attr_value(s.skip(j as int), name@),
            decreases attrs@.len() - j,
        {
            proof {
                assert(s.skip(j as int)[0] == s[j as int]);
                assert(s.skip(j as int).drop_first() =~= s.skip(j + 1));
            }
            if text_eq(&attrs[j].name, name) {
                proof {
                    assert(s[j as int] == attrs@[j as int]@);
                    assert(s[j as int].name == name@);
                    assert(attr_value(s.skip(j as int), name@) == Some(s[j as int].value));
                    assert(attr_value(s, name@) == Some(s[j as int].value));
                    assert(attr_value(self@.node(node).attrs, name@) == Some(s[j as int].value));
                }
                return Some(copy_text(&attrs[j].value));
            }
            j = j + 1;
        }
        proof {
            assert(s.skip(attrs@.len() as int) =~= Seq::<AttrModel>::empty());
        }
        None
    }

    /// The name of an element node; `None` for any other node or an
    /// identity never issued.
    pub fn element_name(&self, node: NodeDataPtr) -> (name: Option<Vec<u8>>)
        ensures
            self@.valid_id(node) && self@.node(node).kind is Element ==> name is Some
                && name->0@ == self@.node(node).kind->Element_name,
            !(self@.valid_id(node) && self@.node(node).kind is Element) ==> name is None,
    {
        if 1 <= node && node <= self.nodes.len() {
            match &self.nodes[node - 1].kind {
                NodeKind::Element { ns: _, name } => Some(copy_text(name)),
                _ => None,
            }
        } else {
            None
        }
    }

    /// The text of a text node; `None` for any other node or an identity
    /// never issued.
    pub fn text_data(&self, node: NodeDataPtr) -> (data: Option<Vec<u8>>)
        ensures
            self@.valid_id(node) && self@.node(node).kind is Text ==> data is Some && data->0@
                == self@.node(node).kind->Text_data,
            !(self@.valid_id(node) && self@.node(node).kind is Text) ==> data is None,
    {
        if 1 <= node && node <= self.nodes.len() {
            match &self.nodes[node - 1].kind {
                NodeKind::Text { data } => Some(copy_text(data)),
                _ => None,
            }
        } else {
            None
        }
    }

    /// The charset name of the latest encoding-change notification, if
    /// any.
    pub fn encoding_name(&self) -> (name: Option<Vec<u8>>)
        ensures
            (match self@.encoding {
                Some(e) => name is Some && name->0@ == e,
                None => name is None,
            }),
    {
        match &self.encoding {
            Some(e) => Some(copy_text(e)),
            None => None,
        }
    }

    /// How many form associations were recorded.
    pub fn form_count(&self) -> (count: usize)
        ensures
            count == self@.forms.len(),
    {
        self.forms.len()
    }

    /// The recorded form association at `index`, oldest first.
    pub fn form_pair(&self, index: usize) -> (pair: Option<(NodeDataPtr, NodeDataPtr)>)
        ensures
            index < self@.forms.len() ==> pair == Some(self@.forms[index as int]),
            index >= self@.forms.len() ==> pair is None,
    {
        if index < self.forms.len() {
            Some(self.forms[index])
        } else {
            None
        }
    }

    /// How many script elements completed.
    pub fn script_count(&self) -> (count: usize)
        ensures
            count == self@.scripts.len(),
    {
        self.scripts.len()
    }

    /// The identity of the completed script at `index`, oldest first.
    pub fn script_at(&self, index: usize) -> (node: Option<NodeDataPtr>)
        ensures
            index < self@.scripts.len() ==> node == Some(self@.scripts[index as int]),
            index >= self@.scripts.len() ==> node is None,
    {
        if index < self.scripts.len() {
            Some(self.scripts[index])
        } else {
            None
        }
    }

    /// How many style elements completed.
    pub fn style_count(&self) -> (count: usize)
        ensures
            count == self@.styles.len(),
    {
        self.styles.len()
    }

    /// Whether the engine has released every reference it took: the
    /// teardown check. On an unpoisoned builder this holds exactly when
    /// the log's references and unreferences match for every identity.
    pub fn all_references_released(&self) -> (released: bool)
        ensures
            released == (forall|i: int|
                0 <= i < self@.nodes.len() ==> (#[trigger] self@.nodes[i]).refs == 0),
    {
        let count = self.nodes.len();
        let mut j: usize = 0;
        while j < count
            invariant
                0 <= j <= count,
                count == self@.nodes.len(),
                forall|i: int| 0 <= i < j ==> (#[trigger] self@.nodes[i]).refs == 0,
            decreases count - j,
        {
            if self.nodes[j].refs != 0 {
                proof {
                    assert(self@.nodes[j as int].refs != 0);
                }
                return false;
            }
            j = j + 1;
        }
        true
    }
}

impl TreeHandler for TreeBuilder {
    open spec fn log(&self) -> Seq<TreeOp> {
        self@.log
    }

    fn create_comment(&mut self, data: Vec<u8>) -> (node: NodeDataPtr)
        ensures
            final(self)@ == spec_create(
                old(self)@,
                NodeKindModel::Comment { data: data@ },
                Seq::empty(),
                TreeOp::CreateComment { data: data@, node },
            ),
            node == old(self)@.nodes.len() + 1,
            old(self)@.wf() ==> final(self)@.wf(),
    {
        let ghost t = self@;
        let ghost d = data@;
        self.nodes.push(
            NodeRec {
                kind: NodeKind::Comment { data },
                parent: NULL_NODE,
                attributes: Vec::new(),
                refs: 0,
            },
        );
        let node = self.nodes.len();
        self.history = Ghost(self.history@.push(TreeOp::CreateComment { data: d, node }));
        proof {
            let op = TreeOp::CreateComment { data: d, node };
            let fresh = fresh_node(NodeKindModel::Comment { data: d }, Seq::empty());
            assert(self@.nodes =~~= t.nodes.push(fresh));
            assert(self@ =~~= spec_create(t, NodeKindModel::Comment { data: d }, Seq::empty(),
                op));
            if t.wf() {
                lemma_wf_create(t, self@, op, fresh);
            }
        }
        node
    }

    fn create_doctype(&mut self, doctype: Doctype) -> (node: NodeDataPtr)
        ensures
            final(self)@ == spec_create(
                old(self)@,
                NodeKindModel::Doctype { doctype: doctype@ },
                Seq::empty(),
                TreeOp::CreateDoctype { doctype: doctype@, node },
            ),
            node == old(self)@.nodes.len() + 1,
            old(self)@.wf() ==> final(self)@.wf(),
    {
        let ghost t = self@;
        let ghost d = doctype@;
        self.nodes.push(
            NodeRec {
                kind: NodeKind::Doctype { doctype },
                parent: NULL_NODE,
                attributes: Vec::new(),
                refs: 0,
            },
        );
        let node = self.nodes.len();
        self.history = Ghost(self.history@.push(TreeOp::CreateDoctype { doctype: d, node }));
        proof {
            let op = TreeOp::CreateDoctype { doctype: d, node };
            let fresh = fresh_node(NodeKindModel::Doctype { doctype: d }, Seq::empty());
            assert(self@.nodes =~~= t.nodes.push(fresh));
            assert(self@ =~~= spec_create(t, NodeKindModel::Doctype { doctype: d }, Seq::empty(),
                op));
            if t.wf() {
                lemma_wf_create(t, self@, op, fresh);
            }
        }
        node
    }

    fn create_element(&mut self, tag: Tag) -> (node: NodeDataPtr)
        ensures
            final(self)@ == spec_create(
                old(self)@,
                NodeKindModel::Element { ns: tag@.ns, name: tag@.name },
                tag@.attributes,
                TreeOp::CreateElement { tag: tag@, node },
            ),
            node == old(self)@.nodes.len() + 1,
            old(self)@.wf() ==> final(self)@.wf(),
    {
        let ghost t = self@;
        let ghost tg = tag@;
        let Tag { ns, name, attributes, self_closing: _ } = tag;
        self.nodes.push(
            NodeRec { kind: NodeKind::Element { ns, name }, parent: NULL_NODE, attributes,
                refs: 0 },
        );
        let node = self.nodes.len();
        self.history = Ghost(self.history@.push(TreeOp::CreateElement { tag: tg, node }));
        proof {
            let op = TreeOp::CreateElement { tag: tg, node };
            let fresh = fresh_node(NodeKindModel::Element { ns: tg.ns, name: tg.name },
                tg.attributes);
            assert(self@.nodes =~~= t.nodes.push(fresh));
            assert(self@ =~~= spec_create(t, NodeKindModel::Element { ns: tg.ns, name: tg.name },
                tg.attributes, op));
            if t.wf() {
                lemma_wf_create(t, self@, op, fresh);
            }
        }
        node
    }

    fn create_text(&mut self, data: Vec<u8>) -> (node: NodeDataPtr)
        ensures
            final(self)@ == spec_create(
                old(self)@,
                NodeKindModel::Text { data: data@ },
                Seq::empty(),
                TreeOp::CreateText { data: data@, node },
            ),
            node == old(self)@.nodes.len() + 1,
            old(self)@.wf() ==> final(self)@.wf(),
    {
        let ghost t = self@;
        let ghost d = data@;
        self.nodes.push(
            NodeRec {
                kind: NodeKind::Text { data },
                parent: NULL_NODE,
                attributes: Vec::new(),
                refs: 0,
            },
        );
        let node = self.nodes.len();
        self.history = Ghost(self.history@.push(TreeOp::CreateText { data: d, node }));
        proof {
            let op = TreeOp::CreateText { data: d, node };
            let fresh = fresh_node(NodeKindModel::Text { data: d }, Seq::empty());
            assert(self@.nodes =~~= t.nodes.push(fresh));
            assert(self@ =~~= spec_create(t, NodeKindModel::Text { data: d }, Seq::empty(), op));
            if t.wf() {
                lemma_wf_create(t, self@, op, fresh);
            }
        }
        node
    }

    fn ref_node(&mut self, node: NodeDataPtr)
        ensures
            final(self)@ == spec_ref_node(old(self)@, node),
            old(self)@.wf() ==> final(self)@.wf(),
    {
        let ghost t = self@;
        if !self.poisoned {
            if 1 <= node && node <= self.nodes.len() {
                let current = self.nodes[node - 1].refs;
                if current < u64::MAX {
                    self.nodes[node - 1].refs = current + 1;
                } else {
                    self.poisoned = true;
                }
            } else {
                self.poisoned = true;
            }
        }
        self.history = Ghost(self.history@.push(TreeOp::RefNode { node }));
        proof {
            assert(self@ =~~= spec_ref_node(t, node));
            if t.wf() {
                if !t.poisoned && t.valid_id(node) && t.node(node).refs < u64::MAX {
                    lemma_wf_ref(t, node);
                } else {
                    lemma_wf_poison(t, self@, TreeOp::RefNode { node });
                }
            }
        }
    }

    fn unref_node(&mut self, node: NodeDataPtr)
        ensures
            final(self)@ == spec_unref_node(old(self)@, node),
            old(self)@.wf() ==> final(self)@.wf(),
    {
        let ghost t = self@;
        if !self.poisoned {
            if 1 <= node && node <= self.nodes.len() {
                let current = self.nodes[node - 1].refs;
                if current > 0 {
                    self.nodes[node - 1].refs = current - 1;
                } else {
                    self.poisoned = true;
                }
            } else {
                self.poisoned = true;
            }
        }
        self.history = Ghost(self.history@.push(TreeOp::UnrefNode { node }));
        proof {
            assert(self@ =~~= spec_unref_node(t, node));
            if t.wf() {
                if !t.poisoned && t.valid_id(node) && t.node(node).refs > 0 {
                    lemma_wf_unref(t, node);
                } else {
                    lemma_wf_poison(t, self@, TreeOp::UnrefNode { node });
                }
            }
        }
    }

    fn append_child(&mut self, parent: NodeDataPtr, child: NodeDataPtr) -> (effective:
        NodeDataPtr)
        ensures
            final(self)@ == spec_append_child(old(self)@, parent, child),
            effective == child,
            old(self)@.wf() ==> final(self)@.wf(),
    {
        let ghost t = self@;
        if !self.poisoned {
            if 1 <= parent && parent <= self.nodes.len() && 1 <= child
                && child <= self.nodes.len() && parent != child {
                self.nodes[child - 1].parent = parent;
            } else {
                self.poisoned = true;
            }
        }
        self.history = Ghost(self.history@.push(TreeOp::AppendChild { parent, child, effective: child }));
        proof {
            assert(self@ =~~= spec_append_child(t, parent, child));
            if t.wf() {
                if !t.poisoned && attach_ok(t, parent, child) {
                    lemma_wf_plain(t, self@, TreeOp::AppendChild { parent, child, effective: child });
                } else {
                    lemma_wf_poison(t, self@, TreeOp::AppendChild { parent, child, effective: child });
                }
            }
        }
        child
    }

    fn insert_before(
        &mut self,
        parent: NodeDataPtr,
        child: NodeDataPtr,
        sibling: NodeDataPtr,
    ) -> (effective: NodeDataPtr)
        ensures
            final(self)@ == spec_insert_before(old(self)@, parent, child, sibling),
            effective == child,
            old(self)@.wf() ==> final(self)@.wf(),
    {
        let ghost t = self@;
        if !self.poisoned {
            if 1 <= parent && parent <= self.nodes.len() && 1 <= child
                && child <= self.nodes.len() && parent != child && 1 <= sibling
                && sibling <= self.nodes.len() {
                self.nodes[child - 1].parent = parent;
            } else {
                self.poisoned = true;
            }
        }
        self.history = Ghost(self.history@.push(TreeOp::InsertBefore { parent, child, sibling, effective: child }));
        proof {
            assert(self@ =~~= spec_insert_before(t, parent, child, sibling));
            if t.wf() {
                if !t.poisoned && attach_ok(t, parent, child) && t.valid_id(sibling) {
                    lemma_wf_plain(t, self@, TreeOp::InsertBefore { parent, child, sibling, effective: child });
                } else {
                    lemma_wf_poison(t, self@, TreeOp::InsertBefore { parent, child, sibling, effective: child });
                }
            }
        }
        child
    }

    fn remove_child(&mut self, parent: NodeDataPtr, child: NodeDataPtr) -> (removed: NodeDataPtr)
        ensures
            final(self)@ == spec_remove_child(old(self)@, parent, child),
            removed == child,
            old(self)@.wf() ==> final(self)@.wf(),
    {
        let ghost t = self@;
        if !self.poisoned {
            if 1 <= parent && parent <= self.nodes.len() && 1 <= child
                && child <= self.nodes.len() && self.nodes[child - 1].parent == parent {
                self.nodes[child - 1].parent = NULL_NODE;
            } else {
                self.poisoned = true;
            }
        }
        self.history = Ghost(self.history@.push(TreeOp::RemoveChild { parent, child, removed: child }));
        proof {
            assert(self@ =~~= spec_remove_child(t, parent, child));
            if t.wf() {
                if !t.poisoned && t.valid_id(parent) && t.valid_id(child) && t.node(child).parent
                    == parent {
                    lemma_wf_plain(t, self@, TreeOp::RemoveChild { parent, child, removed: child });
                } else {
                    lemma_wf_poison(t, self@, TreeOp::RemoveChild { parent, child, removed: child });
                }
            }
        }
        child
    }

    fn clone_node(&mut self, node: NodeDataPtr, deep: bool) -> (copy: NodeDataPtr)
        ensures
            final(self)@ == spec_clone_node(old(self)@, node, deep),
            !old(self)@.poisoned && old(self)@.valid_id(node) ==> copy == old(
                self,
            )@.nodes.len() + 1,
            old(self)@.poisoned || !old(self)@.valid_id(node) ==> copy == NULL_NODE,
            old(self)@.wf() ==> final(self)@.wf(),
    {
        let ghost t = self@;
        let mut copy: NodeDataPtr = NULL_NODE;
        if !self.poisoned {
            if 1 <= node && node <= self.nodes.len() {
                let kind = self.nodes[node - 1].kind.duplicate();
                let attributes = copy_attributes(&self.nodes[node - 1].attributes);
                self.nodes.push(NodeRec { kind, parent: NULL_NODE, attributes, refs: 0 });
                copy = self.nodes.len();
            } else {
                self.poisoned = true;
            }
        }
        self.history = Ghost(self.history@.push(TreeOp::CloneNode { node, deep, copy }));
        proof {
            let op = TreeOp::CloneNode { node, deep, copy };
            if !t.poisoned && t.valid_id(node) {
                let fresh = fresh_node(t.node(node).kind, t.node(node).attrs);
                assert(self@.nodes =~~= t.nodes.push(fresh));
                assert(self@ =~~= spec_clone_node(t, node, deep));
                if t.wf() {
                    lemma_wf_create(t, self@, op, fresh);
                }
            } else {
                assert(self@ =~~= spec_clone_node(t, node, deep));
                if t.wf() {
                    lemma_wf_poison(t, self@, op);
                }
            }
        }
        copy
    }

    fn reparent_children(&mut self, node: NodeDataPtr, new_parent: NodeDataPtr)
        ensures
            final(self)@ == spec_reparent_children(old(self)@, node, new_parent),
            old(self)@.wf() ==> final(self)@.wf(),
    {
        let ghost t = self@;
        if !self.poisoned {
            if 1 <= node && node <= self.nodes.len() && 1 <= new_parent
                && new_parent <= self.nodes.len() {
                let count = self.nodes.len();
                let mut j: usize = 0;
                while j < count
                    invariant
                        0 <= j <= count,
                        count == self.nodes@.len(),
                        self.nodes@.len() == t.nodes.len(),
                        self.quirks == t.quirks,
                        self@.encoding == t.encoding,
                        self.forms@ == t.forms,
                        self.scripts@ == t.scripts,
                        self.styles@ == t.styles,
                        self.poisoned == t.poisoned,
                        self.history@ == t.log,
                        forall|k: int|
                            0 <= k < j ==> (#[trigger] self.nodes@[k])@ == reparented(t.nodes,
                                node, new_parent)[k],
                        forall|k: int| j <= k < count ==> (#[trigger] self.nodes@[k])@
                            == t.nodes[k],
                    decreases count - j,
                {
                    if self.nodes[j].parent == node {
                        self.nodes[j].parent = new_parent;
                    }
                    j = j + 1;
                }
                proof {
                    assert(self@.nodes =~~= reparented(t.nodes, node, new_parent));
                }
            } else {
                self.poisoned = true;
            }
        }
        self.history = Ghost(self.history@.push(TreeOp::ReparentChildren { node, new_parent }));
        proof {
            let op = TreeOp::ReparentChildren { node, new_parent };
            assert(self@ =~~= spec_reparent_children(t, node, new_parent));
            if t.wf() {
                if !t.poisoned && t.valid_id(node) && t.valid_id(new_parent) {
                    lemma_wf_plain(t, self@, op);
                } else {
                    lemma_wf_poison(t, self@, op);
                }
            }
        }
    }

    fn get_parent(&mut self, node: NodeDataPtr, element_only: bool) -> (parent: NodeDataPtr)
        ensures
            final(self)@ == spec_get_parent(old(self)@, node, element_only),
            !old(self)@.poisoned && old(self)@.valid_id(node) ==> parent == parent_answer(
                old(self)@,
                node,
                element_only,
            ),
            old(self)@.poisoned || !old(self)@.valid_id(node) ==> parent == NULL_NODE,
            old(self)@.wf() ==> final(self)@.wf(),
    {
        let ghost t = self@;
        let mut answer: NodeDataPtr = NULL_NODE;
        if !self.poisoned {
            if 1 <= node && node <= self.nodes.len() {
                if !element_only {
                    answer = self.nodes[node - 1].parent;
                } else {
                    let mut cur = node;
                    let mut fuel = self.nodes.len();
                    let mut done = false;
                    proof {
                        assert(t == self@);
                    }
                    while !done && fuel > 0
                        invariant
                            t == self@,
                            1 <= cur <= t.nodes.len(),
                            fuel <= t.nodes.len(),
                            done ==> answer == elem_ancestor(t, node, t.nodes.len() as nat),
                            !done ==> answer == NULL_NODE && elem_ancestor(t, node,
                                t.nodes.len() as nat) == elem_ancestor(t, cur, fuel as nat),
                        decreases fuel, (if done { 0int } else { 1int }),
                    {
                        let p = self.nodes[cur - 1].parent;
                        if p == NULL_NODE || p > self.nodes.len() {
                            done = true;
                        } else {
                            let is_elem = match &self.nodes[p - 1].kind {
                                NodeKind::Element { .. } => true,
                                _ => false,
                            };
                            if is_elem {
                                answer = p;
                                done = true;
                            } else {
                                cur = p;
                                fuel = fuel - 1;
                            }
                        }
                    }
                    proof {
                        if !done {
                            assert(fuel == 0);
                            assert(elem_ancestor(t, cur, 0nat) == NULL_NODE);
                        }
                        assert(answer == elem_ancestor(t, node, t.nodes.len() as nat));
                    }
                }
            } else {
                self.poisoned = true;
            }
        }
        self.history = Ghost(self.history@.push(TreeOp::GetParent { node, element_only, answer }));
        proof {
            assert(self@ =~~= spec_get_parent(t, node, element_only));
            if t.wf() {
                if !t.poisoned && t.valid_id(node) {
                    lemma_wf_plain(t, self@, TreeOp::GetParent { node, element_only, answer });
                } else {
                    lemma_wf_poison(t, self@, TreeOp::GetParent { node, element_only, answer });
                }
            }
        }
        answer
    }

    fn has_children(&mut self, node: NodeDataPtr) -> (answer: bool)
        ensures
            final(self)@ == spec_has_children(old(self)@, node),
            !old(self)@.poisoned && old(self)@.valid_id(node) ==> answer == has_child_answer(
                old(self)@,
                node,
            ),
            old(self)@.poisoned || !old(self)@.valid_id(node) ==> answer == false,
            old(self)@.wf() ==> final(self)@.wf(),
    {
        let ghost t = self@;
        let mut answer = false;
        if !self.poisoned {
            if 1 <= node && node <= self.nodes.len() {
                let count = self.nodes.len();
                let mut j: usize = 0;
                while j < count && !answer
                    invariant
                        t == self@,
                        0 <= j <= count,
                        count == t.nodes.len(),
                        answer ==> has_child_answer(t, node),
                        !answer ==> forall|k: int|
                            0 <= k < j ==> (#[trigger] t.nodes[k]).parent != node,
                    decreases count - j,
                {
                    if self.nodes[j].parent == node {
                        answer = true;
                        proof {
                            assert(t.nodes[j as int].parent == node);
                        }
                    }
                    j = j + 1;
                }
            } else {
                self.poisoned = true;
            }
        }
        self.history = Ghost(self.history@.push(TreeOp::HasChildren { node, present: answer }));
        proof {
            assert(self@ =~~= spec_has_children(t, node));
            if t.wf() {
                if !t.poisoned && t.valid_id(node) {
                    lemma_wf_plain(t, self@, TreeOp::HasChildren { node, present: answer });
                } else {
                    lemma_wf_poison(t, self@, TreeOp::HasChildren { node, present: answer });
                }
            }
        }
        answer
    }

    fn form_associate(&mut self, form: NodeDataPtr, node: NodeDataPtr)
        ensures
            final(self)@ == spec_form_associate(old(self)@, form, node),
            old(self)@.wf() ==> final(self)@.wf(),
    {
        let ghost t = self@;
        if !self.poisoned {
            if 1 <= form && form <= self.nodes.len() && 1 <= node && node <= self.nodes.len() {
                self.forms.push((form, node));
            } else {
                self.poisoned = true;
            }
        }
        self.history = Ghost(self.history@.push(TreeOp::FormAssociate { form, node }));
        proof {
            assert(self@ =~~= spec_form_associate(t, form, node));
            if t.wf() {
                if !t.poisoned && t.valid_id(form) && t.valid_id(node) {
                    lemma_wf_plain(t, self@, TreeOp::FormAssociate { form, node });
                } else {
                    lemma_wf_poison(t, self@, TreeOp::FormAssociate { form, node });
                }
            }
        }
    }

    fn add_attributes(&mut self, node: NodeDataPtr, attrs: Vec<Attribute>)
        ensures
            final(self)@ == spec_add_attributes(
                old(self)@,
                node,
                attrs@.map_values(|a: Attribute| a@),
            ),
            old(self)@.wf() ==> final(self)@.wf(),
    {
        let ghost t = self@;
        let ghost incoming = attrs@.map_values(|a: Attribute| a@);
        if !self.poisoned {
            if 1 <= node && node <= self.nodes.len() {
                let ghost existing = t.node(node).attrs;
                let mut merged: Vec<Attribute> = copy_attributes(&self.nodes[node - 1].attributes);
                proof {
                    assert(incoming.skip(0) =~= incoming);
                }
                let mut i: usize = 0;
                while i < attrs.len()
                    invariant
                        0 <= i <= attrs@.len(),
                        incoming == attrs@.map_values(|a: Attribute| a@),
                        merge_attrs(merged@.map_values(|a: Attribute| a@), incoming.skip(i as int))
                            == merge_attrs(existing, incoming),
                    decreases attrs@.len() - i,
                {
                    let ghost cur = merged@.map_values(|a: Attribute| a@);
                    let present = has_named_attr(&merged, &attrs[i].name);
                    if !present {
                        merged.push(attrs[i].duplicate());
                    }
                    proof {
                        let cur2 = merged@.map_values(|a: Attribute| a@);
                        assert(incoming.skip(i as int).drop_first() =~= incoming.skip(i + 1));
                        assert(incoming.skip(i as int)[0] == incoming[i as int]);
                        if present {
                            assert(cur2 =~~= cur);
                        } else {
                            assert(cur2 =~~= cur.push(incoming[i as int]));
                        }
                        assert(merge_attrs(cur, incoming.skip(i as int)) == merge_attrs(cur2,
                            incoming.skip(i + 1)));
                    }
                    i = i + 1;
                }
                proof {
                    assert(incoming.skip(attrs@.len() as int) =~= Seq::<AttrModel>::empty());
                    assert(merged@.map_values(|a: Attribute| a@) == merge_attrs(existing,
                        incoming));
                }
                self.nodes[node - 1].attributes = merged;
            } else {
                self.poisoned = true;
            }
        }
        self.history = Ghost(self.history@.push(TreeOp::AddAttributes { node, attrs: incoming }));
        proof {
            let op = TreeOp::AddAttributes { node, attrs: incoming };
            assert(self@ =~~= spec_add_attributes(t, node, incoming));
            if t.wf() {
                if !t.poisoned && t.valid_id(node) {
                    lemma_wf_plain(t, self@, op);
                } else {
                    lemma_wf_poison(t, self@, op);
                }
            }
        }
    }

    fn set_quirks_mode(&mut self, mode: QuirksMode)
        ensures
            final(self)@ == spec_set_quirks_mode(old(self)@, mode),
            old(self)@.wf() ==> final(self)@.wf(),
    {
        let ghost t = self@;
        if !self.poisoned {
            self.quirks = mode;
        }
        self.history = Ghost(self.history@.push(TreeOp::SetQuirksMode { mode }));
        proof {
            assert(self@ =~~= spec_set_quirks_mode(t, mode));
            if t.wf() {
                if !t.poisoned {
                    lemma_wf_plain(t, self@, TreeOp::SetQuirksMode { mode });
                } else {
                    lemma_wf_poison(t, self@, TreeOp::SetQuirksMode { mode });
                }
            }
        }
    }

    fn encoding_change(&mut self, name: Vec<u8>)
        ensures
            final(self)@ == spec_encoding_change(old(self)@, name@),
            old(self)@.wf() ==> final(self)@.wf(),
    {
        let ghost t = self@;
        let ghost nm = name@;
        if !self.poisoned {
            self.encoding = Some(name);
        }
        self.history = Ghost(self.history@.push(TreeOp::EncodingChange { name: nm }));
        proof {
            assert(self@ =~~= spec_encoding_change(t, nm));
            if t.wf() {
                if !t.poisoned {
                    lemma_wf_plain(t, self@, TreeOp::EncodingChange { name: nm });
                } else {
                    lemma_wf_poison(t, self@, TreeOp::EncodingChange { name: nm });
                }
            }
        }
    }

    fn complete_script(&mut self, node: NodeDataPtr)
        ensures
            final(self)@ == spec_complete_script(old(self)@, node),
            old(self)@.wf() ==> final(self)@.wf(),
    {
        let ghost t = self@;
        if !self.poisoned {
            if 1 <= node && node <= self.nodes.len() {
                self.scripts.push(node);
            } else {
                self.poisoned = true;
            }
        }
        self.history = Ghost(self.history@.push(TreeOp::CompleteScript { node }));
        proof {
            assert(self@ =~~= spec_complete_script(t, node));
            if t.wf() {
                if !t.poisoned && t.valid_id(node) {
                    lemma_wf_plain(t, self@, TreeOp::CompleteScript { node });
                } else {
                    lemma_wf_poison(t, self@, TreeOp::CompleteScript { node });
                }
            }
        }
    }

    fn complete_style(&mut self, node: NodeDataPtr)
        ensures
            final(self)@ == spec_complete_style(old(self)@, node),
            old(self)@.wf() ==> final(self)@.wf(),
    {
        let ghost t = self@;
        if !self.poisoned {
            if 1 <= node && node <= self.nodes.len() {
                self.styles.push(node);
            } else {
                self.poisoned = true;
            }
        }
        self.history = Ghost(self.history@.push(TreeOp::CompleteStyle { node }));
        proof {
            assert(self@ =~~= spec_complete_style(t, node));
            if t.wf() {
                if !t.poisoned && t.valid_id(node) {
                    lemma_wf_plain(t, self@, TreeOp::CompleteStyle { node });
                } else {
                    lemma_wf_poison(t, self@, TreeOp::CompleteStyle { node });
                }
            }
        }
    }
}

} // verus!
