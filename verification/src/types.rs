//! Client-facing semantic values and the opaque per-node identity.
//!
//! Everything here is owned data: the marshaling layer deep-copies every
//! byte span out of the engine's transient buffers before a value of these
//! types is built, so a client never holds a borrow past a callback's
//! return.

use vstd::prelude::*;

verus! {

/// An opaque handle identifying a client-owned tree node.
///
/// The engine never interprets its bit pattern; the bridge only threads it
/// through. The value [`NULL_NODE`] stands for "no node".
pub type NodeDataPtr = usize;

/// The identity that stands for "no node", as returned by a parent query on
/// a root.
pub const NULL_NODE: NodeDataPtr = 0;

/// A namespace, decoded from the engine's enumerated code.
#[derive(Clone, Copy, PartialEq, Eq, Structural, Debug)]
pub enum Ns {
    NullNs,
    HtmlNs,
    MathMlNs,
    SvgNs,
    XLinkNs,
    XmlNs,
    XmlNsNs,
}

/// A document quirks mode, decoded from the engine's enumerated code.
///
/// Set at most effectively once per document, but the contract does not
/// forbid repeated notifications: the latest one is authoritative.
#[derive(Clone, Copy, PartialEq, Eq, Structural, Debug)]
pub enum QuirksMode {
    NoQuirks,
    LimitedQuirks,
    FullQuirks,
}

/// Deep-copies owned text, byte for byte.
pub fn copy_text(data: &Vec<u8>) -> (copy: Vec<u8>)
    ensures
        copy@ == data@,
{
    let mut out: Vec<u8> = Vec::new();
    let mut i: usize = 0;
    while i < data.len()
        invariant
            0 <= i <= data@.len(),
            out@ == data@.subrange(0, i as int),
        decreases data@.len() - i,
    {
        out.push(data[i]);
        i = i + 1;
    }
    proof {
        assert(out@ =~= data@);
    }
    out
}

/// Whether two owned texts hold the same bytes.
pub fn text_eq(left: &Vec<u8>, right: &Vec<u8>) -> (same: bool)
    ensures
        same == (left@ == right@),
{
    if left.len() != right.len() {
        return false;
    }
    let mut i: usize = 0;
    while i < left.len()
        invariant
            left@.len() == right@.len(),
            0 <= i <= left@.len(),
            forall|j: int| 0 <= j < i ==> left@[j] == right@[j],
        decreases left@.len() - i,
    {
        if left[i] != right[i] {
            return false;
        }
        i = i + 1;
    }
    proof {
        assert(left@ =~= right@);
    }
    true
}

/// One attribute of an element: namespace, name and value, all owned.
#[derive(Debug)]
pub struct Attribute {
    pub ns: Ns,
    pub name: Vec<u8>,
    pub value: Vec<u8>,
}

impl Attribute {
    /// A deep copy of the attribute.
    pub fn duplicate(&self) -> (copy: Attribute)
        ensures
            copy@ == self@,
    {
        Attribute { ns: self.ns, name: copy_text(&self.name), value: copy_text(&self.value) }
    }
}

/// The mathematical value of an [`Attribute`].
#[verifier::ext_equal]
pub ghost struct AttrModel {
    pub ns: Ns,
    pub name: Seq<u8>,
    pub value: Seq<u8>,
}

impl View for Attribute {
    type V = AttrModel;

    open spec fn view(&self) -> AttrModel {
        AttrModel { ns: self.ns, name: self.name@, value: self.value@ }
    }
}

/// A start- or end-tag record: namespace, name, attributes in engine order
/// (duplicates permitted), and the self-closing flag. Created per tag token
/// and consumed immediately by element creation.
#[derive(Debug)]
pub struct Tag {
    pub ns: Ns,
    pub name: Vec<u8>,
    pub attributes: Vec<Attribute>,
    pub self_closing: bool,
}

/// The mathematical value of a [`Tag`].
#[verifier::ext_equal]
pub ghost struct TagModel {
    pub ns: Ns,
    pub name: Seq<u8>,
    pub attributes: Seq<AttrModel>,
    pub self_closing: bool,
}

impl View for Tag {
    type V = TagModel;

    open spec fn view(&self) -> TagModel {
        TagModel {
            ns: self.ns,
            name: self.name@,
            attributes: self.attributes@.map_values(|a: Attribute| a@),
            self_closing: self.self_closing,
        }
    }
}

/// A doctype record. The engine reports a missing public or system
/// identifier separately from an empty one, and the distinction is kept:
/// `None` means absent, `Some` of an empty sequence means present and empty.
#[derive(Debug)]
pub struct Doctype {
    pub name: Vec<u8>,
    pub public_id: Option<Vec<u8>>,
    pub system_id: Option<Vec<u8>>,
    pub force_quirks: bool,
}

impl Doctype {
    /// A deep copy of the doctype record.
    pub fn duplicate(&self) -> (copy: Doctype)
        ensures
            copy@ == self@,
    {
        Doctype {
            name: copy_text(&self.name),
            public_id: match &self.public_id {
                Some(id) => Some(copy_text(id)),
                None => None,
            },
            system_id: match &self.system_id {
                Some(id) => Some(copy_text(id)),
                None => None,
            },
            force_quirks: self.force_quirks,
        }
    }
}

/// The mathematical value of a [`Doctype`].
#[verifier::ext_equal]
pub ghost struct DoctypeModel {
    pub name: Seq<u8>,
    pub public_id: Option<Seq<u8>>,
    pub system_id: Option<Seq<u8>>,
    pub force_quirks: bool,
}

impl View for Doctype {
    type V = DoctypeModel;

    open spec fn view(&self) -> DoctypeModel {
        DoctypeModel {
            name: self.name@,
            public_id: match self.public_id {
                Some(ref id) => Some(id@),
                None => None,
            },
            system_id: match self.system_id {
                Some(ref id) => Some(id@),
                None => None,
            },
            force_quirks: self.force_quirks,
        }
    }
}

} // verus!
