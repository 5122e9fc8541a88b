//! Metadata carried by every node for diagnostics and tooling. It never
//! takes part in unification.

use vstd::prelude::*;

use crate::{Language, NodeId, SourceLocation};

verus! {

/// What a node carries besides its structure.
#[derive(Debug, Clone, PartialEq, Eq)]
pub struct Metadata {
    /// Where the node came from.
    pub source: Option<SourceLocation>,
    /// Documentation attached to the node.
    pub docs: Option<String>,
    /// Decorators or native attributes, in order.
    pub attributes: Vec<Attribute>,
    /// Named relations to other nodes.
    pub cross_refs: Vec<CrossRef>,
    /// Optimisation hints, one entry per key.
    pub hints: Vec<(String, String)>,
}

/// A decorator or native attribute, with its arguments.
#[derive(Debug, Clone, PartialEq, Eq)]
pub struct Attribute {
    /// Name of the attribute.
    pub name: String,
    /// Its arguments, in order.
    pub args: Vec<String>,
}

/// A named relation to another node.
#[derive(Debug, Clone, PartialEq, Eq)]
pub struct CrossRef {
    /// What the relation is.
    pub kind: CrossRefKind,
    /// The node it points to.
    pub target: NodeId,
    /// Language in which the relation was found.
    pub source_language: Language,
    /// Optional explanation.
    pub description: Option<String>,
}

/// Kinds of relation between nodes.
#[derive(Debug, Clone, Copy, PartialEq, Eq, Structural)]
pub enum CrossRefKind {
    /// A front-end call reaches a native function.
    PythonToC,
    /// A native function implements a front-end built-in.
    CImplementsPython,
    /// The call was unified.
    Unified,
    /// The types are equivalent.
    TypeEquiv,
    /// Control flows from one node to the other.
    ControlFlow,
}

/// The keys of a list of hints, as character sequences.
pub open spec fn hint_keys(h: Seq<(String, String)>) -> Seq<Seq<char>> {
    h.map_values(|e: (String, String)| e.0@)
}

/// Metadata holding nothing.
pub open spec fn is_empty_metadata(m: Metadata) -> bool {
    &&& m.source is None
    &&& m.docs is None
    &&& m.attributes@.len() == 0
    &&& m.cross_refs@.len() == 0
    &&& m.hints@.len() == 0
}

/// Two attributes with the same name and arguments.
pub open spec fn attribute_eq(a: Attribute, b: Attribute) -> bool {
    a.name == b.name && a.args@ == b.args@
}

/// Two metadata records with the same contents.
pub open spec fn metadata_eq(a: Metadata, b: Metadata) -> bool {
    &&& a.source == b.source
    &&& a.docs == b.docs
    &&& a.attributes@.len() == b.attributes@.len()
    &&& forall|i: int|
        0 <= i < a.attributes@.len() ==> attribute_eq(#[trigger] a.attributes@[i], b.attributes@[i])
    &&& a.cross_refs@ == b.cross_refs@
    &&& a.hints@ == b.hints@
}

impl Metadata {
    /// Metadata holding nothing.
    pub fn new() -> (r: Self)
        ensures
            is_empty_metadata(r),
    {
        Metadata {
            source: None,
            docs: None,
            attributes: Vec::new(),
            cross_refs: Vec::new(),
            hints: Vec::new(),
        }
    }

    /// Metadata holding only a source location.
    pub fn with_source(source: SourceLocation) -> (r: Self)
        ensures
            r.source == Some(source),
            r.docs is None,
            r.attributes@.len() == 0,
            r.cross_refs@.len() == 0,
            r.hints@.len() == 0,
    {
        Metadata {
            source: Some(source),
            docs: None,
            attributes: Vec::new(),
            cross_refs: Vec::new(),
            hints: Vec::new(),
        }
    }

    /// The same metadata with its documentation set to `docs`.
    pub fn with_docs(self, docs: String) -> (r: Self)
        ensures
            r == (Metadata { docs: Some(docs), ..self }),
    {
        let mut m = self;
        m.docs = Some(docs);
        m
    }

    /// Appends an attribute.
    pub fn add_attribute(&mut self, attr: Attribute)
        ensures
            final(self).attributes@ == old(self).attributes@.push(attr),
            final(self).source == old(self).source,
            final(self).docs == old(self).docs,
            final(self).cross_refs == old(self).cross_refs,
            final(self).hints == old(self).hints,
    {
        self.attributes.push(attr);
    }

    /// Appends a cross-reference.
    pub fn add_cross_ref(&mut self, cross_ref: CrossRef)
        ensures
            final(self).cross_refs@ == old(self).cross_refs@.push(cross_ref),
            final(self).source == old(self).source,
            final(self).docs == old(self).docs,
            final(self).attributes == old(self).attributes,
            final(self).hints == old(self).hints,
    {
        self.cross_refs.push(cross_ref);
    }

    /// Sets the hint for `key` to `value`: the first entry with that key has
    /// its value replaced, or a new entry is appended when there is none.
    pub fn add_hint(&mut self, key: String, value: String)
        ensures
            final(self).source == old(self).source,
            final(self).docs == old(self).docs,
            final(self).attributes == old(self).attributes,
            final(self).cross_refs == old(self).cross_refs,
            !hint_keys(old(self).hints@).contains(key@) ==> final(self).hints@ == old(
                self,
            ).hints@.push((key, value)),
            hint_keys(old(self).hints@).contains(key@) ==> exists|i: int|
                0 <= i < old(self).hints@.len() && old(self).hints@[i].0@ == key@ && (forall|
                    j: int,
                | 0 <= j < i ==> old(self).hints@[j].0@ != key@) && final(self).hints@ == old(
                    self,
                ).hints@.update(i, (old(self).hints@[i].0, value)),
    {
        let mut i: usize = 0;
        while i < self.hints.len()
            invariant
                self.hints == old(self).hints,
                self.source == old(self).source,
                self.docs == old(self).docs,
                self.attributes == old(self).attributes,
                self.cross_refs == old(self).cross_refs,
                i <= self.hints@.len(),
                forall|j: int| 0 <= j < i ==> self.hints@[j].0@ != key@,
            decreases self.hints@.len() - i,
        {
            if crate::text::str_eq(self.hints[i].0.as_str(), key.as_str()) {
                assert(hint_keys(self.hints@)[i as int] == key@);
                let old_key = self.hints[i].0.clone();
                self.hints.set(i, (old_key, value));
                return;
            }
            i += 1;
        }
        proof {
            if hint_keys(self.hints@).contains(key@) {
                let k = choose|k: int| 0 <= k < hint_keys(self.hints@).len() && hint_keys(self.hints@)[k] == key@;
                assert(self.hints@[k].0@ == key@);
            }
        }
        self.hints.push((key, value));
    }

    /// A copy with the same contents.
    pub fn copy(&self) -> (r: Self)
        ensures
            metadata_eq(r, *self),
    {
        let source = match &self.source {
            Some(s) => Some(s.copy()),
            None => None,
        };
        let mut attributes: Vec<Attribute> = Vec::new();
        let mut i: usize = 0;
        while i < self.attributes.len()
            invariant
                i <= self.attributes@.len(),
                attributes@.len() == i,
                forall|j: int|
                    0 <= j < i ==> attribute_eq(#[trigger] attributes@[j], self.attributes@[j]),
            decreases self.attributes@.len() - i,
        {
            attributes.push(self.attributes[i].copy());
            i += 1;
        }
        let mut cross_refs: Vec<CrossRef> = Vec::new();
        let mut i: usize = 0;
        while i < self.cross_refs.len()
            invariant
                i <= self.cross_refs@.len(),
                cross_refs@ == self.cross_refs@.subrange(0, i as int),
            decreases self.cross_refs@.len() - i,
        {
            cross_refs.push(self.cross_refs[i].copy());
            i += 1;
            assert(cross_refs@ =~= self.cross_refs@.subrange(0, i as int));
        }
        let mut hints: Vec<(String, String)> = Vec::new();
        let mut i: usize = 0;
        while i < self.hints.len()
            invariant
                i <= self.hints@.len(),
                hints@ == self.hints@.subrange(0, i as int),
            decreases self.hints@.len() - i,
        {
            hints.push((self.hints[i].0.clone(), self.hints[i].1.clone()));
            i += 1;
            assert(hints@ =~= self.hints@.subrange(0, i as int));
        }
        assert(self.cross_refs@.subrange(0, self.cross_refs@.len() as int) =~= self.cross_refs@);
        assert(self.hints@.subrange(0, self.hints@.len() as int) =~= self.hints@);
        let docs = match &self.docs {
            Some(d) => Some(d.clone()),
            None => None,
        };
        Metadata { source, docs, attributes, cross_refs, hints }
    }
}

impl Attribute {
    /// An attribute without arguments.
    pub fn new(name: String) -> (r: Self)
        ensures
            r.name == name,
            r.args@.len() == 0,
    {
        Attribute { name, args: Vec::new() }
    }

    /// An attribute with arguments.
    pub fn with_args(name: String, args: Vec<String>) -> (r: Self)
        ensures
            r == (Attribute { name, args }),
    {
        Attribute { name, args }
    }

    /// A copy with the same name and arguments.
    pub fn copy(&self) -> (r: Self)
        ensures
            attribute_eq(r, *self),
    {
        let mut args: Vec<String> = Vec::new();
        let mut i: usize = 0;
        while i < self.args.len()
            invariant
                i <= self.args@.len(),
                args@ == self.args@.subrange(0, i as int),
            decreases self.args@.len() - i,
        {
            args.push(self.args[i].clone());
            i += 1;
            assert(args@ =~= self.args@.subrange(0, i as int));
        }
        assert(self.args@.subrange(0, self.args@.len() as int) =~= self.args@);
        Attribute { name: self.name.clone(), args }
    }
}

impl CrossRef {
    /// A relation without description.
    pub fn new(kind: CrossRefKind, target: NodeId, source_language: Language) -> (r: Self)
        ensures
            r == (CrossRef { kind, target, source_language, description: None }),
    {
        CrossRef { kind, target, source_language, description: None }
    }

    /// The same relation with its description set to `description`.
    pub fn with_description(self, description: String) -> (r: Self)
        ensures
            r == (CrossRef { description: Some(description), ..self }),
    {
        let mut c = self;
        c.description = Some(description);
        c
    }

    /// A copy of the relation.
    pub fn copy(&self) -> (r: Self)
        ensures
            r == *self,
    {
        let description = match &self.description {
            Some(d) => Some(d.clone()),
            None => None,
        };
        CrossRef {
            kind: self.kind,
            target: self.target,
            source_language: self.source_language,
            description,
        }
    }
}

} // verus!
