//! The tree-construction callback bridge.
//!
//! The engine reports every tree mutation, node creation and document-level
//! event through a fixed set of operations. Each operation arrives in
//! engine-native form (byte spans, flat attribute arrays, enumerated codes),
//! is marshaled into owned semantic values, and is forwarded to the client's
//! tree-construction capability; the client's answer is copied back into the
//! engine's output slot.
//!
//! Every conforming capability keeps a ghost log of the operations it has
//! received, each recorded together with the value the capability answered,
//! and each bridge function proves two things against that log: it appends
//! exactly the marshaled operation, and what it hands back for the engine's
//! output slot is exactly the answer that operation records. The bridge
//! forwards every callback, in order, with faithfully marshaled arguments,
//! threads the client's answer through untouched, and does nothing else.

use vstd::prelude::*;

use crate::marshal::{RawAttribute, RawDoctype, RawTag, attrs_wf, check_attributes,
    from_hubbub_attributes, from_hubbub_doctype, from_hubbub_quirks_mode, from_hubbub_string,
    from_hubbub_tag, marshal_attrs, marshal_doctype, marshal_tag, quirks_code_valid,
    quirks_of_code};
use crate::parser::Parser;
use crate::status::EngineError;
use crate::types::{AttrModel, DoctypeModel, NodeDataPtr, QuirksMode, TagModel};

verus! {

/// One operation of the callback contract, with its arguments already
/// marshaled and, for the operations the engine provides an output slot
/// for, the value the capability answered (`node`, `effective`, `removed`,
/// `copy`, `answer`, `present`). The ghost log of a capability is a sequence of these,
/// so a contract over the log pins the answers along with the arguments.
pub ghost enum TreeOp {
    CreateComment { data: Seq<u8>, node: NodeDataPtr },
    CreateDoctype { doctype: DoctypeModel, node: NodeDataPtr },
    CreateElement { tag: TagModel, node: NodeDataPtr },
    CreateText { data: Seq<u8>, node: NodeDataPtr },
    RefNode { node: NodeDataPtr },
    UnrefNode { node: NodeDataPtr },
    AppendChild { parent: NodeDataPtr, child: NodeDataPtr, effective: NodeDataPtr },
    InsertBefore {
        parent: NodeDataPtr,
        child: NodeDataPtr,
        sibling: NodeDataPtr,
        effective: NodeDataPtr,
    },
    RemoveChild { parent: NodeDataPtr, child: NodeDataPtr, removed: NodeDataPtr },
    CloneNode { node: NodeDataPtr, deep: bool, copy: NodeDataPtr },
    ReparentChildren { node: NodeDataPtr, new_parent: NodeDataPtr },
    GetParent { node: NodeDataPtr, element_only: bool, answer: NodeDataPtr },
    HasChildren { node: NodeDataPtr, present: bool },
    FormAssociate { form: NodeDataPtr, node: NodeDataPtr },
    AddAttributes { node: NodeDataPtr, attrs: Seq<AttrModel> },
    SetQuirksMode { mode: QuirksMode },
    EncodingChange { name: Seq<u8> },
    CompleteScript { node: NodeDataPtr },
    CompleteStyle { node: NodeDataPtr },
}

/// The client's tree-construction capability.
///
/// The engine is single-threaded and never invokes two operations
/// concurrently; re-entrance happens only through the documented
/// script-injection path. Every value handed to a method is owned: the
/// capability may keep it. Each method appends exactly its operation — with
/// the value it answers, where the operation has one — to the capability's
/// ghost log, which is how ordering guarantees, answer threading and
/// reference-counting obligations are stated.
pub trait TreeHandler: Sized {
    /// The operations received so far, in order.
    spec fn log(&self) -> Seq<TreeOp>;

    /// Creates a comment node owning `data`; answers its identity.
    fn create_comment(&mut self, data: Vec<u8>) -> (node: NodeDataPtr)
        ensures
            final(self).log() == old(self).log().push(TreeOp::CreateComment { data: data@, node }),
    ;

    /// Creates a doctype node; answers its identity.
    fn create_doctype(&mut self, doctype: crate::types::Doctype) -> (node: NodeDataPtr)
        ensures
            final(self).log() == old(self).log().push(
                TreeOp::CreateDoctype { doctype: doctype@, node },
            ),
    ;

    /// Creates an element node from the tag, attributes included; answers
    /// its identity.
    fn create_element(&mut self, tag: crate::types::Tag) -> (node: NodeDataPtr)
        ensures
            final(self).log() == old(self).log().push(TreeOp::CreateElement { tag: tag@, node }),
    ;

    /// Creates a text node owning `data`; answers its identity.
    fn create_text(&mut self, data: Vec<u8>) -> (node: NodeDataPtr)
        ensures
            final(self).log() == old(self).log().push(TreeOp::CreateText { data: data@, node }),
    ;

    /// Increments the reference count of `node`; must not fail.
    fn ref_node(&mut self, node: NodeDataPtr)
        ensures
            final(self).log() == old(self).log().push(TreeOp::RefNode { node }),
    ;

    /// Decrements the reference count of `node`; at zero the client may
    /// reclaim the node, the bridge never reclaims on its own.
    fn unref_node(&mut self, node: NodeDataPtr)
        ensures
            final(self).log() == old(self).log().push(TreeOp::UnrefNode { node }),
    ;

    /// Appends `child` under `parent`; answers the node actually inserted,
    /// which may differ from `child` when the client merges adjacent text
    /// nodes.
    fn append_child(&mut self, parent: NodeDataPtr, child: NodeDataPtr) -> (effective:
        NodeDataPtr)
        ensures
            final(self).log() == old(self).log().push(TreeOp::AppendChild { parent, child, effective }),
    ;

    /// Inserts `child` before `sibling` under `parent`; same answer contract
    /// as [`TreeHandler::append_child`].
    fn insert_before(
        &mut self,
        parent: NodeDataPtr,
        child: NodeDataPtr,
        sibling: NodeDataPtr,
    ) -> (effective: NodeDataPtr)
        ensures
            final(self).log() == old(self).log().push(
                TreeOp::InsertBefore { parent, child, sibling, effective },
            ),
    ;

    /// Detaches `child` from `parent`; answers the detached node.
    fn remove_child(&mut self, parent: NodeDataPtr, child: NodeDataPtr) -> (removed: NodeDataPtr)
        ensures
            final(self).log() == old(self).log().push(TreeOp::RemoveChild { parent, child, removed }),
    ;

    /// Produces a shallow or deep copy preserving attributes and namespace
    /// but not reference counts; answers the copy's identity.
    fn clone_node(&mut self, node: NodeDataPtr, deep: bool) -> (copy: NodeDataPtr)
        ensures
            final(self).log() == old(self).log().push(TreeOp::CloneNode { node, deep, copy }),
    ;

    /// Moves all children of `node` under `new_parent`, preserving order.
    fn reparent_children(&mut self, node: NodeDataPtr, new_parent: NodeDataPtr)
        ensures
            final(self).log() == old(self).log().push(
                TreeOp::ReparentChildren { node, new_parent },
            ),
    ;

    /// Answers the nearest ancestor of `node`, skipping non-element
    /// ancestors when `element_only` is set; the null identity when none.
    fn get_parent(&mut self, node: NodeDataPtr, element_only: bool) -> (parent: NodeDataPtr)
        ensures
            final(self).log() == old(self).log().push(TreeOp::GetParent { node, element_only, answer: parent }),
    ;

    /// Answers whether `node` has any children.
    fn has_children(&mut self, node: NodeDataPtr) -> (answer: bool)
        ensures
            final(self).log() == old(self).log().push(TreeOp::HasChildren { node, present: answer }),
    ;

    /// Records that `node` belongs to the form identified by `form`.
    fn form_associate(&mut self, form: NodeDataPtr, node: NodeDataPtr)
        ensures
            final(self).log() == old(self).log().push(TreeOp::FormAssociate { form, node }),
    ;

    /// Merges `attrs` into the node's attribute set; a name already present
    /// keeps its value (first occurrence wins).
    fn add_attributes(&mut self, node: NodeDataPtr, attrs: Vec<crate::types::Attribute>)
        ensures
            final(self).log() == old(self).log().push(
                TreeOp::AddAttributes {
                    node,
                    attrs: attrs@.map_values(|a: crate::types::Attribute| a@),
                },
            ),
    ;

    /// Records the document's quirks mode; the latest notification is
    /// authoritative.
    fn set_quirks_mode(&mut self, mode: QuirksMode)
        ensures
            final(self).log() == old(self).log().push(TreeOp::SetQuirksMode { mode }),
    ;

    /// Notifies that the engine restarted with a different charset: a
    /// restart signal, not a correction. Nodes built under the stale
    /// encoding must be discarded by the client if it cannot re-decode them.
    fn encoding_change(&mut self, name: Vec<u8>)
        ensures
            final(self).log() == old(self).log().push(TreeOp::EncodingChange { name: name@ }),
    ;

    /// Notifies that a script element is ready for execution; only during
    /// the synchronous extent of this notification may chunks be inserted.
    fn complete_script(&mut self, node: NodeDataPtr)
        ensures
            final(self).log() == old(self).log().push(TreeOp::CompleteScript { node }),
    ;

    /// Notifies that a style element's content is fully parsed.
    fn complete_style(&mut self, node: NodeDataPtr)
        ensures
            final(self).log() == old(self).log().push(TreeOp::CompleteStyle { node }),
    ;
}

/// One callback as it crosses the boundary: the operation selector with its
/// engine-native arguments.
#[derive(Debug)]
pub enum RawEvent {
    CreateComment { data: Vec<u8> },
    CreateDoctype { doctype: RawDoctype },
    CreateElement { tag: RawTag },
    CreateText { data: Vec<u8> },
    RefNode { node: usize },
    UnrefNode { node: usize },
    AppendChild { parent: usize, child: usize },
    InsertBefore { parent: usize, child: usize, sibling: usize },
    RemoveChild { parent: usize, child: usize },
    CloneNode { node: usize, deep: bool },
    ReparentChildren { node: usize, new_parent: usize },
    GetParent { node: usize, element_only: bool },
    HasChildren { node: usize },
    FormAssociate { form: usize, node: usize },
    AddAttributes { node: usize, attributes: Vec<RawAttribute> },
    SetQuirksMode { mode: i32 },
    EncodingChange { name: Vec<u8> },
    CompleteScript { node: usize },
    CompleteStyle { node: usize },
}

/// What the bridge writes back into the engine's output slot.
#[derive(Clone, Copy, PartialEq, Eq, Structural, Debug)]
pub enum Response {
    /// A node identity, for the operations that answer one.
    Node(NodeDataPtr),
    /// A truth value, for the child query.
    Truth(bool),
    /// Nothing: the operation has no output slot.
    Done,
}

impl RawEvent {
    /// Whether every enumerated code in the event is in its domain. A code
    /// outside it is an engine contract violation, unrecoverable by design.
    pub open spec fn wf(&self) -> bool {
        match *self {
            RawEvent::CreateElement { ref tag } => tag.wf(),
            RawEvent::AddAttributes { node: _, ref attributes } => attrs_wf(attributes@),
            RawEvent::SetQuirksMode { mode } => quirks_code_valid(mode),
            _ => true,
        }
    }

    /// Decides [`RawEvent::wf`], so the caller can fail fast on a malformed
    /// event instead of handing it to the bridge.
    pub fn check(&self) -> (valid: bool)
        ensures
            valid == self.wf(),
    {
        match self {
            RawEvent::CreateElement { tag } => tag.check(),
            RawEvent::AddAttributes { node: _, attributes } => check_attributes(attributes),
            RawEvent::SetQuirksMode { mode } => 0 <= *mode && *mode <= 2,
            _ => true,
        }
    }

    /// Whether the engine provides a node output slot for this operation.
    pub open spec fn answers_node(&self) -> bool {
        match *self {
            RawEvent::CreateComment { .. } => true,
            RawEvent::CreateDoctype { .. } => true,
            RawEvent::CreateElement { .. } => true,
            RawEvent::CreateText { .. } => true,
            RawEvent::AppendChild { .. } => true,
            RawEvent::InsertBefore { .. } => true,
            RawEvent::RemoveChild { .. } => true,
            RawEvent::CloneNode { .. } => true,
            RawEvent::GetParent { .. } => true,
            _ => false,
        }
    }

    /// Whether the engine provides a truth-valued output slot.
    pub open spec fn answers_truth(&self) -> bool {
        *self matches RawEvent::HasChildren { .. }
    }
}

/// Whether a response fits the output slot the engine provides for an
/// event: a node where a node is expected, a truth value for the child
/// query, nothing anywhere else.
pub open spec fn shape_matches(event: RawEvent, response: Response) -> bool {
    &&& event.answers_node() ==> response is Node
    &&& event.answers_truth() ==> response is Truth
    &&& !event.answers_node() && !event.answers_truth() ==> response == Response::Done
}

/// The marshaled operation an event carries, recording `response` as the
/// capability's answer where the operation has one.
pub open spec fn event_op_with(event: RawEvent, response: Response) -> TreeOp
    recommends
        event.wf(),
        shape_matches(event, response),
{
    match event {
        RawEvent::CreateComment { data } => TreeOp::CreateComment {
            data: data@,
            node: response->Node_0,
        },
        RawEvent::CreateDoctype { doctype } => TreeOp::CreateDoctype {
            doctype: marshal_doctype(doctype),
            node: response->Node_0,
        },
        RawEvent::CreateElement { tag } => TreeOp::CreateElement {
            tag: marshal_tag(tag),
            node: response->Node_0,
        },
        RawEvent::CreateText { data } => TreeOp::CreateText {
            data: data@,
            node: response->Node_0,
        },
        RawEvent::RefNode { node } => TreeOp::RefNode { node },
        RawEvent::UnrefNode { node } => TreeOp::UnrefNode { node },
        RawEvent::AppendChild { parent, child } => TreeOp::AppendChild {
            parent,
            child,
            effective: response->Node_0,
        },
        RawEvent::InsertBefore { parent, child, sibling } => TreeOp::InsertBefore {
            parent,
            child,
            sibling,
            effective: response->Node_0,
        },
        RawEvent::RemoveChild { parent, child } => TreeOp::RemoveChild {
            parent,
            child,
            removed: response->Node_0,
        },
        RawEvent::CloneNode { node, deep } => TreeOp::CloneNode {
            node,
            deep,
            copy: response->Node_0,
        },
        RawEvent::ReparentChildren { node, new_parent } => TreeOp::ReparentChildren {
            node,
            new_parent,
        },
        RawEvent::GetParent { node, element_only } => TreeOp::GetParent {
            node,
            element_only,
            answer: response->Node_0,
        },
        RawEvent::HasChildren { node } => TreeOp::HasChildren {
            node,
            present: response->Truth_0,
        },
        RawEvent::FormAssociate { form, node } => TreeOp::FormAssociate { form, node },
        RawEvent::AddAttributes { node, attributes } => TreeOp::AddAttributes {
            node,
            attrs: marshal_attrs(attributes@),
        },
        RawEvent::SetQuirksMode { mode } => TreeOp::SetQuirksMode { mode: quirks_of_code(mode) },
        RawEvent::EncodingChange { name } => TreeOp::EncodingChange { name: name@ },
        RawEvent::CompleteScript { node } => TreeOp::CompleteScript { node },
        RawEvent::CompleteStyle { node } => TreeOp::CompleteStyle { node },
    }
}

/// Bridges a comment-creation callback: deep-copies the text and forwards.
pub fn create_comment<T: TreeHandler>(handler: &mut T, data: &Vec<u8>) -> (node: NodeDataPtr)
    ensures
        final(handler).log() == old(handler).log().push(TreeOp::CreateComment { data: data@, node }),
{
    handler.create_comment(from_hubbub_string(data))
}

/// Bridges a doctype-creation callback: marshals the record and forwards.
pub fn create_doctype<T: TreeHandler>(handler: &mut T, doctype: &RawDoctype) -> (node: NodeDataPtr)
    ensures
        final(handler).log() == old(handler).log().push(
            TreeOp::CreateDoctype { doctype: marshal_doctype(*doctype), node },
        ),
{
    handler.create_doctype(from_hubbub_doctype(doctype))
}

/// Bridges an element-creation callback: marshals the tag, attributes
/// included, and forwards.
pub fn create_element<T: TreeHandler>(handler: &mut T, tag: &RawTag) -> (node: NodeDataPtr)
    requires
        tag.wf(),
    ensures
        final(handler).log() == old(handler).log().push(
            TreeOp::CreateElement { tag: marshal_tag(*tag), node },
        ),
{
    handler.create_element(from_hubbub_tag(tag))
}

/// Bridges a text-creation callback: deep-copies the text and forwards.
pub fn create_text<T: TreeHandler>(handler: &mut T, data: &Vec<u8>) -> (node: NodeDataPtr)
    ensures
        final(handler).log() == old(handler).log().push(TreeOp::CreateText { data: data@, node }),
{
    handler.create_text(from_hubbub_string(data))
}

/// Bridges a reference notification; the identity is threaded through
/// opaquely.
pub fn ref_node<T: TreeHandler>(handler: &mut T, node: NodeDataPtr)
    ensures
        final(handler).log() == old(handler).log().push(TreeOp::RefNode { node }),
{
    handler.ref_node(node)
}

/// Bridges an unreference notification.
pub fn unref_node<T: TreeHandler>(handler: &mut T, node: NodeDataPtr)
    ensures
        final(handler).log() == old(handler).log().push(TreeOp::UnrefNode { node }),
{
    handler.unref_node(node)
}

/// Bridges an append callback; answers the effectively inserted node.
pub fn append_child<T: TreeHandler>(
    handler: &mut T,
    parent: NodeDataPtr,
    child: NodeDataPtr,
) -> (effective: NodeDataPtr)
    ensures
        final(handler).log() == old(handler).log().push(TreeOp::AppendChild { parent, child, effective }),
{
    handler.append_child(parent, child)
}

/// Bridges an insert-before callback; answers the effectively inserted node.
pub fn insert_before<T: TreeHandler>(
    handler: &mut T,
    parent: NodeDataPtr,
    child: NodeDataPtr,
    sibling: NodeDataPtr,
) -> (effective: NodeDataPtr)
    ensures
        final(handler).log() == old(handler).log().push(
            TreeOp::InsertBefore { parent, child, sibling, effective },
        ),
{
    handler.insert_before(parent, child, sibling)
}

/// Bridges a removal callback; answers the detached node.
pub fn remove_child<T: TreeHandler>(
    handler: &mut T,
    parent: NodeDataPtr,
    child: NodeDataPtr,
) -> (removed: NodeDataPtr)
    ensures
        final(handler).log() == old(handler).log().push(TreeOp::RemoveChild { parent, child, removed }),
{
    handler.remove_child(parent, child)
}

/// Bridges a clone callback; answers the copy's identity.
pub fn clone_node<T: TreeHandler>(handler: &mut T, node: NodeDataPtr, deep: bool) -> (copy:
    NodeDataPtr)
    ensures
        final(handler).log() == old(handler).log().push(TreeOp::CloneNode { node, deep, copy }),
{
    handler.clone_node(node, deep)
}

/// Bridges a reparenting callback.
pub fn reparent_children<T: TreeHandler>(
    handler: &mut T,
    node: NodeDataPtr,
    new_parent: NodeDataPtr,
)
    ensures
        final(handler).log() == old(handler).log().push(
            TreeOp::ReparentChildren { node, new_parent },
        ),
{
    handler.reparent_children(node, new_parent)
}

/// Bridges a parent query; answers the ancestor or the null identity.
pub fn get_parent<T: TreeHandler>(
    handler: &mut T,
    node: NodeDataPtr,
    element_only: bool,
) -> (parent: NodeDataPtr)
    ensures
        final(handler).log() == old(handler).log().push(TreeOp::GetParent { node, element_only, answer: parent }),
{
    handler.get_parent(node, element_only)
}

/// Bridges a child query.
pub fn has_children<T: TreeHandler>(handler: &mut T, node: NodeDataPtr) -> (answer: bool)
    ensures
        final(handler).log() == old(handler).log().push(TreeOp::HasChildren { node, present: answer }),
{
    handler.has_children(node)
}

/// Bridges a form association notification.
pub fn form_associate<T: TreeHandler>(handler: &mut T, form: NodeDataPtr, node: NodeDataPtr)
    ensures
        final(handler).log() == old(handler).log().push(TreeOp::FormAssociate { form, node }),
{
    handler.form_associate(form, node)
}

/// Bridges an attribute-merge callback: marshals the array and forwards.
/// The engine guarantees no duplicate names within one call; overlap with
/// attributes already on the node is the client's policy (first wins).
pub fn add_attributes<T: TreeHandler>(
    handler: &mut T,
    node: NodeDataPtr,
    attributes: &Vec<RawAttribute>,
)
    requires
        attrs_wf(attributes@),
    ensures
        final(handler).log() == old(handler).log().push(
            TreeOp::AddAttributes { node, attrs: marshal_attrs(attributes@) },
        ),
{
    handler.add_attributes(node, from_hubbub_attributes(attributes))
}

/// Bridges a quirks-mode notification: decodes the code and forwards.
pub fn set_quirks_mode<T: TreeHandler>(handler: &mut T, mode: i32)
    requires
        quirks_code_valid(mode),
    ensures
        final(handler).log() == old(handler).log().push(
            TreeOp::SetQuirksMode { mode: quirks_of_code(mode) },
        ),
{
    handler.set_quirks_mode(from_hubbub_quirks_mode(mode))
}

/// Bridges an encoding-change notification: deep-copies the charset name
/// and forwards.
pub fn encoding_change<T: TreeHandler>(handler: &mut T, name: &Vec<u8>)
    ensures
        final(handler).log() == old(handler).log().push(TreeOp::EncodingChange { name: name@ }),
{
    handler.encoding_change(from_hubbub_string(name))
}

/// Bridges a script-completion notification. The synchronous extent of the
/// forwarded call is the script-injection window.
pub fn complete_script<T: TreeHandler>(handler: &mut T, node: NodeDataPtr)
    ensures
        final(handler).log() == old(handler).log().push(TreeOp::CompleteScript { node }),
{
    handler.complete_script(node)
}

/// Bridges a style-completion notification.
pub fn complete_style<T: TreeHandler>(handler: &mut T, node: NodeDataPtr)
    ensures
        final(handler).log() == old(handler).log().push(TreeOp::CompleteStyle { node }),
{
    handler.complete_style(node)
}

/// Decodes one callback, forwards it, and answers what belongs in the
/// engine's output slot. The capability receives exactly the marshaled
/// operation, appended to its log; the response fits the slot the engine
/// provides and carries exactly the answer that the logged operation
/// records — the identity the capability chose travels to the engine
/// untouched.
pub fn dispatch<T: TreeHandler>(handler: &mut T, event: &RawEvent) -> (response: Response)
    requires
        event.wf(),
    ensures
        shape_matches(*event, response),
        final(handler).log() == old(handler).log().push(event_op_with(*event, response)),
{
    match event {
        RawEvent::CreateComment { data } => Response::Node(create_comment(handler, data)),
        RawEvent::CreateDoctype { doctype } => Response::Node(create_doctype(handler, doctype)),
        RawEvent::CreateElement { tag } => Response::Node(create_element(handler, tag)),
        RawEvent::CreateText { data } => Response::Node(create_text(handler, data)),
        RawEvent::RefNode { node } => {
            ref_node(handler, *node);
            Response::Done
        },
        RawEvent::UnrefNode { node } => {
            unref_node(handler, *node);
            Response::Done
        },
        RawEvent::AppendChild { parent, child } => Response::Node(
            append_child(handler, *parent, *child),
        ),
        RawEvent::InsertBefore { parent, child, sibling } => Response::Node(
            insert_before(handler, *parent, *child, *sibling),
        ),
        RawEvent::RemoveChild { parent, child } => Response::Node(
            remove_child(handler, *parent, *child),
        ),
        RawEvent::CloneNode { node, deep } => Response::Node(clone_node(handler, *node, *deep)),
        RawEvent::ReparentChildren { node, new_parent } => {
            reparent_children(handler, *node, *new_parent);
            Response::Done
        },
        RawEvent::GetParent { node, element_only } => Response::Node(
            get_parent(handler, *node, *element_only),
        ),
        RawEvent::HasChildren { node } => Response::Truth(has_children(handler, *node)),
        RawEvent::FormAssociate { form, node } => {
            form_associate(handler, *form, *node);
            Response::Done
        },
        RawEvent::AddAttributes { node, attributes } => {
            add_attributes(handler, *node, attributes);
            Response::Done
        },
        RawEvent::SetQuirksMode { mode } => {
            set_quirks_mode(handler, *mode);
            Response::Done
        },
        RawEvent::EncodingChange { name } => {
            encoding_change(handler, name);
            Response::Done
        },
        RawEvent::CompleteScript { node } => {
            complete_script(handler, *node);
            Response::Done
        },
        RawEvent::CompleteStyle { node } => {
            complete_style(handler, *node);
            Response::Done
        },
    }
}

/// Dispatches a sequence of callbacks in order. The capability's log grows
/// by exactly the marshaled operations, in the order the engine issued
/// them — the bridge never reorders or batches — and the answered
/// responses come back aligned with the events, each equal to the answer
/// its logged operation records.
pub fn dispatch_all<T: TreeHandler>(handler: &mut T, events: &Vec<RawEvent>) -> (responses: Vec<
    Response,
>)
    requires
        forall|i: int| 0 <= i < events@.len() ==> (#[trigger] events@[i]).wf(),
    ensures
        responses@.len() == events@.len(),
        forall|i: int| 0 <= i < events@.len() ==> shape_matches(events@[i],
            #[trigger] responses@[i]),
        final(handler).log() == old(handler).log() + Seq::new(
            events@.len(),
            |i: int| event_op_with(events@[i], responses@[i]),
        ),
{
    let mut responses: Vec<Response> = Vec::new();
    let mut i: usize = 0;
    while i < events.len()
        invariant
            0 <= i <= events@.len(),
            forall|k: int| 0 <= k < events@.len() ==> (#[trigger] events@[k]).wf(),
            responses@.len() == i,
            forall|k: int| 0 <= k < i ==> shape_matches(events@[k], #[trigger] responses@[k]),
            handler.log() == old(handler).log() + Seq::new(
                i as nat,
                |k: int| event_op_with(events@[k], responses@[k]),
            ),
        decreases events@.len() - i,
    {
        let ghost before = responses@;
        let response = dispatch(handler, &events[i]);
        responses.push(response);
        proof {
            assert(Seq::new((i + 1) as nat, |k: int| event_op_with(events@[k], responses@[k]))
                =~= Seq::new(i as nat, |k: int| event_op_with(events@[k], before[k])).push(
                event_op_with(events@[i as int], response),
            ));
            assert(handler.log() == old(handler).log() + Seq::new(
                (i + 1) as nat,
                |k: int| event_op_with(events@[k], responses@[k]),
            ));
        }
        i = i + 1;
    }
    responses
}

/// Delivers a script-completion notification together with its injection
/// window: the window opens when the notification is handed to the
/// capability and closes the moment the capability returns, so
/// [`Parser::insert_chunk`] accepts exactly within the synchronous extent
/// of the notification. Refused, with nothing delivered, when no engine
/// call is on the stack: callbacks only happen inside one, so that is an
/// engine contract violation to fail fast on.
pub fn deliver_complete_script<T: TreeHandler>(
    parser: &mut Parser,
    handler: &mut T,
    node: NodeDataPtr,
) -> (outcome: Result<(), EngineError>)
    ensures
        old(parser)@.state is Feeding && old(parser)@.script_depth < usize::MAX ==> ({
            &&& outcome == Result::<(), EngineError>::Ok(())
            &&& final(handler).log() == old(handler).log().push(TreeOp::CompleteScript { node })
            &&& final(parser)@ == old(parser)@
        }),
        !(old(parser)@.state is Feeding && old(parser)@.script_depth < usize::MAX) ==> ({
            &&& outcome == Result::<(), EngineError>::Err(EngineError::ProtocolViolation)
            &&& final(parser)@ == old(parser)@
            &&& *final(handler) == *old(handler)
        }),
{
    proof {
        crate::parser::lemma_script_depth_nonnegative(parser);
    }
    match parser.enter_script_window() {
        Ok(opened) => opened,
        Err(violation) => {
            return Err(violation);
        },
    }
    complete_script(handler, node);
    let closed = parser.exit_script_window();
    proof {
        assert(closed is Ok);
        assert(parser@ =~~= old(parser)@);
    }
    Ok(())
}

} // verus!
