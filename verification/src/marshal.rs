//! Marshaling between engine-native value representations and client-facing
//! semantic values.
//!
//! The engine hands values over as byte spans, flat attribute arrays and
//! enumerated integer codes, all transient: they are only valid for the
//! duration of the callback that carries them. The functions here deep-copy
//! every byte and decode every code into a closed enum before anything is
//! forwarded to the client. Decoding is exact: a code outside its domain is
//! an engine contract violation, so the decoding functions require a valid
//! code and the bridge fails fast (before the call) on anything else.

use vstd::prelude::*;

use crate::types::{AttrModel, Attribute, Doctype, DoctypeModel, Ns, NodeDataPtr, QuirksMode, Tag,
    TagModel, copy_text};

verus! {

/// An attribute as the engine reports it: an enumerated namespace code and
/// two byte spans, here already lifted to owned bytes at the boundary.
#[derive(Debug)]
pub struct RawAttribute {
    pub ns: i32,
    pub name: Vec<u8>,
    pub value: Vec<u8>,
}

/// A tag record as the engine reports it: a namespace code, a name span and
/// a flat attribute array.
#[derive(Debug)]
pub struct RawTag {
    pub ns: i32,
    pub name: Vec<u8>,
    pub attributes: Vec<RawAttribute>,
    pub self_closing: bool,
}

/// A doctype record as the engine reports it. The `public_missing` and
/// `system_missing` flags carry the distinction between an absent identifier
/// and an empty one; when a flag is set, the matching span is meaningless.
#[derive(Debug)]
pub struct RawDoctype {
    pub name: Vec<u8>,
    pub public_missing: bool,
    pub public_id: Vec<u8>,
    pub system_missing: bool,
    pub system_id: Vec<u8>,
    pub force_quirks: bool,
}

/// Whether a code names a namespace.
pub open spec fn ns_code_valid(code: i32) -> bool {
    0 <= code <= 6
}

/// The namespace a valid code names.
pub open spec fn ns_of_code(code: i32) -> Ns
    recommends
        ns_code_valid(code),
{
    if code == 1 {
        Ns::HtmlNs
    } else if code == 2 {
        Ns::MathMlNs
    } else if code == 3 {
        Ns::SvgNs
    } else if code == 4 {
        Ns::XLinkNs
    } else if code == 5 {
        Ns::XmlNs
    } else if code == 6 {
        Ns::XmlNsNs
    } else {
        Ns::NullNs
    }
}

/// The code of a namespace; inverse of [`ns_of_code`] on the valid codes.
pub open spec fn code_of_ns(ns: Ns) -> i32 {
    match ns {
        Ns::NullNs => 0,
        Ns::HtmlNs => 1,
        Ns::MathMlNs => 2,
        Ns::SvgNs => 3,
        Ns::XLinkNs => 4,
        Ns::XmlNs => 5,
        Ns::XmlNsNs => 6,
    }
}

/// Whether a code names a quirks mode.
pub open spec fn quirks_code_valid(code: i32) -> bool {
    0 <= code <= 2
}

/// The quirks mode a valid code names.
pub open spec fn quirks_of_code(code: i32) -> QuirksMode
    recommends
        quirks_code_valid(code),
{
    if code == 1 {
        QuirksMode::LimitedQuirks
    } else if code == 2 {
        QuirksMode::FullQuirks
    } else {
        QuirksMode::NoQuirks
    }
}

/// The code of a quirks mode; inverse of [`quirks_of_code`] on the valid
/// codes.
pub open spec fn code_of_quirks(mode: QuirksMode) -> i32 {
    match mode {
        QuirksMode::NoQuirks => 0,
        QuirksMode::LimitedQuirks => 1,
        QuirksMode::FullQuirks => 2,
    }
}

/// The marshaled value of a raw attribute.
pub open spec fn marshal_attr(raw: RawAttribute) -> AttrModel
    recommends
        ns_code_valid(raw.ns),
{
    AttrModel { ns: ns_of_code(raw.ns), name: raw.name@, value: raw.value@ }
}

/// The marshaled values of a raw attribute array, in engine order.
pub open spec fn marshal_attrs(raw: Seq<RawAttribute>) -> Seq<AttrModel> {
    raw.map_values(|a: RawAttribute| marshal_attr(a))
}

/// The marshaled value of a raw tag record.
pub open spec fn marshal_tag(raw: RawTag) -> TagModel {
    TagModel {
        ns: ns_of_code(raw.ns),
        name: raw.name@,
        attributes: marshal_attrs(raw.attributes@),
        self_closing: raw.self_closing,
    }
}

/// The marshaled value of a raw doctype record: a set missing flag becomes
/// an absent identifier, a clear one keeps the span even when it is empty.
pub open spec fn marshal_doctype(raw: RawDoctype) -> DoctypeModel {
    DoctypeModel {
        name: raw.name@,
        public_id: if raw.public_missing {
            None
        } else {
            Some(raw.public_id@)
        },
        system_id: if raw.system_missing {
            None
        } else {
            Some(raw.system_id@)
        },
        force_quirks: raw.force_quirks,
    }
}

impl RawAttribute {
    /// Whether the record's namespace code is in its domain.
    pub open spec fn wf(&self) -> bool {
        ns_code_valid(self.ns)
    }
}

/// Whether every record of a raw attribute array is well-formed.
pub open spec fn attrs_wf(attrs: Seq<RawAttribute>) -> bool {
    forall|i: int| 0 <= i < attrs.len() ==> (#[trigger] attrs[i]).wf()
}

/// Decides [`attrs_wf`], so a caller can fail fast on a malformed array
/// before it reaches the bridge.
pub fn check_attributes(attrs: &Vec<RawAttribute>) -> (valid: bool)
    ensures
        valid == attrs_wf(attrs@),
{
    let mut i: usize = 0;
    while i < attrs.len()
        invariant
            0 <= i <= attrs@.len(),
            forall|j: int| 0 <= j < i ==> (#[trigger] attrs@[j]).wf(),
        decreases attrs@.len() - i,
    {
        if !(0 <= attrs[i].ns && attrs[i].ns <= 6) {
            proof {
                assert(!(attrs@[i as int]).wf());
            }
            return false;
        }
        i = i + 1;
    }
    true
}

impl RawTag {
    /// Whether the record's namespace codes are all in their domains.
    pub open spec fn wf(&self) -> bool {
        &&& ns_code_valid(self.ns)
        &&& attrs_wf(self.attributes@)
    }

    /// Decides [`RawTag::wf`], so a caller can fail fast on a malformed
    /// record before it reaches the bridge.
    pub fn check(&self) -> (valid: bool)
        ensures
            valid == self.wf(),
    {
        if !(0 <= self.ns && self.ns <= 6) {
            return false;
        }
        check_attributes(&self.attributes)
    }
}

/// Deep-copies a byte span out of the engine's transient buffer into owned
/// text the client may keep.
pub fn from_hubbub_string(data: &Vec<u8>) -> (copy: Vec<u8>)
    ensures
        copy@ == data@,
{
    copy_text(data)
}

/// Decodes the engine's namespace code.
///
/// A code outside the domain is an engine contract violation, which the
/// bridge treats as unrecoverable before making this call.
pub fn from_hubbub_ns(ns: i32) -> (decoded: Ns)
    requires
        ns_code_valid(ns),
    ensures
        decoded == ns_of_code(ns),
{
    if ns == 1 {
        Ns::HtmlNs
    } else if ns == 2 {
        Ns::MathMlNs
    } else if ns == 3 {
        Ns::SvgNs
    } else if ns == 4 {
        Ns::XLinkNs
    } else if ns == 5 {
        Ns::XmlNs
    } else if ns == 6 {
        Ns::XmlNsNs
    } else {
        Ns::NullNs
    }
}

/// Encodes a namespace back into the engine's code.
pub fn to_hubbub_ns(ns: Ns) -> (code: i32)
    ensures
        code == code_of_ns(ns),
        ns_of_code(code) == ns,
        ns_code_valid(code),
{
    match ns {
        Ns::NullNs => 0,
        Ns::HtmlNs => 1,
        Ns::MathMlNs => 2,
        Ns::SvgNs => 3,
        Ns::XLinkNs => 4,
        Ns::XmlNs => 5,
        Ns::XmlNsNs => 6,
    }
}

/// Decodes the engine's quirks-mode code; same domain rule as
/// [`from_hubbub_ns`].
pub fn from_hubbub_quirks_mode(mode: i32) -> (decoded: QuirksMode)
    requires
        quirks_code_valid(mode),
    ensures
        decoded == quirks_of_code(mode),
{
    if mode == 1 {
        QuirksMode::LimitedQuirks
    } else if mode == 2 {
        QuirksMode::FullQuirks
    } else {
        QuirksMode::NoQuirks
    }
}

/// Marshals one attribute: the code decoded, both spans deep-copied.
pub fn from_hubbub_attribute(raw: &RawAttribute) -> (attr: Attribute)
    requires
        raw.wf(),
    ensures
        attr@ == marshal_attr(*raw),
{
    Attribute {
        ns: from_hubbub_ns(raw.ns),
        name: from_hubbub_string(&raw.name),
        value: from_hubbub_string(&raw.value),
    }
}

/// Marshals a flat attribute array, preserving engine order and keeping
/// duplicates.
pub fn from_hubbub_attributes(raw: &Vec<RawAttribute>) -> (attrs: Vec<Attribute>)
    requires
        attrs_wf(raw@),
    ensures
        attrs@.map_values(|a: Attribute| a@) == marshal_attrs(raw@),
{
    let mut out: Vec<Attribute> = Vec::new();
    let mut i: usize = 0;
    while i < raw.len()
        invariant
            0 <= i <= raw@.len(),
            forall|k: int| 0 <= k < raw@.len() ==> (#[trigger] raw@[k]).wf(),
            out@.len() == i,
            forall|k: int| 0 <= k < i ==> (#[trigger] out@[k])@ == marshal_attr(raw@[k]),
        decreases raw@.len() - i,
    {
        out.push(from_hubbub_attribute(&raw[i]));
        i = i + 1;
    }
    proof {
        assert(out@.map_values(|a: Attribute| a@) =~= marshal_attrs(raw@));
    }
    out
}

/// Marshals a tag record into an owned [`Tag`].
pub fn from_hubbub_tag(raw: &RawTag) -> (tag: Tag)
    requires
        raw.wf(),
    ensures
        tag@ == marshal_tag(*raw),
{
    Tag {
        ns: from_hubbub_ns(raw.ns),
        name: from_hubbub_string(&raw.name),
        attributes: from_hubbub_attributes(&raw.attributes),
        self_closing: raw.self_closing,
    }
}

/// Marshals a doctype record into an owned [`Doctype`], keeping the
/// missing-versus-empty distinction of both identifiers.
pub fn from_hubbub_doctype(raw: &RawDoctype) -> (doctype: Doctype)
    ensures
        doctype@ == marshal_doctype(*raw),
{
    Doctype {
        name: from_hubbub_string(&raw.name),
        public_id: if raw.public_missing {
            None
        } else {
            Some(from_hubbub_string(&raw.public_id))
        },
        system_id: if raw.system_missing {
            None
        } else {
            Some(from_hubbub_string(&raw.system_id))
        },
        force_quirks: raw.force_quirks,
    }
}

/// Reads a node identity out of the engine's untyped output slot. The
/// identity is opaque: it is threaded through unchanged, never interpreted.
pub fn from_hubbub_node(node: usize) -> (identity: NodeDataPtr)
    ensures
        identity == node,
{
    node
}

/// Writes a node identity into the engine's untyped output slot, unchanged.
pub fn to_hubbub_node(node: NodeDataPtr) -> (slot: usize)
    ensures
        slot == node,
{
    node
}

} // verus!
