//! The contract document: the versioned list of the methods a host
//! answers, and the check that a document lists exactly those.

use vstd::prelude::*;
use crate::ordered::{ascending, sorted_distinct};
use crate::protocol::{required_method_names, required_methods, OPENRPC_VERSION};
use crate::text::{concat4, debug_text, join, joined, quoted, same_text, texts};

verus! {

/// What the host reads of a contract document.
#[derive(Debug, Clone, PartialEq, Eq)]
pub struct OpenRpcDocument {
    /// The version of the document format.
    pub openrpc: String,
    /// The names of the methods, in the order of the document.
    pub methods: Vec<String>,
}

/// What is wrong with a contract document, over plain values.
pub enum ContractFault {
    VersionMismatch { found: Seq<char>, expected: Seq<char> },
    MethodSetMismatch { required: Seq<Seq<char>>, listed: Seq<Seq<char>> },
}

/// Why a contract document was rejected.
#[derive(Debug, Clone, PartialEq, Eq)]
pub enum ContractError {
    /// The document is of another format version.
    VersionMismatch { found: String, expected: String },
    /// The document's methods are not the required ones; both sets are
    /// given in ascending order.
    MethodSetMismatch { required: Vec<String>, listed: Vec<String> },
}

impl View for ContractError {
    type V = ContractFault;

    open spec fn view(&self) -> ContractFault {
        match self {
            ContractError::VersionMismatch { found, expected } => ContractFault::VersionMismatch {
                found: found@,
                expected: expected@,
            },
            ContractError::MethodSetMismatch { required, listed } =>
                ContractFault::MethodSetMismatch {
                    required: texts(required@),
                    listed: texts(listed@),
                },
        }
    }
}

/// A set of names as it is printed for debugging: between braces, each
/// name quoted, a comma and a space between them.
pub open spec fn set_text(names: Seq<Seq<char>>) -> Seq<char> {
    "{"@ + joined(Seq::new(names.len(), |i: int| debug_text(names[i])), ", "@) + "}"@
}

impl ContractFault {
    /// The fault in words.
    pub open spec fn message(self) -> Seq<char> {
        match self {
            ContractFault::VersionMismatch { found, expected } => "embedded OpenRPC version "@
                + found + " does not match expected "@ + expected,
            ContractFault::MethodSetMismatch { required, listed } =>
                "OpenRPC method set mismatch. expected="@ + set_text(required) + " actual="@
                    + set_text(listed),
        }
    }
}

fn print_set(names: &Vec<String>) -> (text: String)
    ensures
        text@ == set_text(texts(names@)),
{
    let mut shown: Vec<String> = Vec::new();
    let mut i: usize = 0;
    while i < names.len()
        invariant
            i <= names.len(),
            shown.len() == i,
            forall|j: int| 0 <= j < i ==> shown@[j]@ == debug_text(names@[j]@),
        decreases names.len() - i,
    {
        let q = quoted(names[i].as_str());
        shown.push(q);
        i += 1;
    }
    assert(texts(shown@) =~= Seq::new(
        texts(names@).len(),
        |i: int| debug_text(texts(names@)[i]),
    ));
    let inner = join(&shown, ", ");
    let mut text: String = "{".to_owned();
    text.append(inner.as_str());
    text.append("}");
    text
}

impl ContractError {
    /// The error in words.
    pub fn message(&self) -> (text: String)
        ensures
            text@ == self@.message(),
    {
        match self {
            ContractError::VersionMismatch { found, expected } => concat4(
                "embedded OpenRPC version ",
                found.as_str(),
                " does not match expected ",
                expected.as_str(),
            ),
            ContractError::MethodSetMismatch { required, listed } => {
                let e = print_set(required);
                let a = print_set(listed);
                concat4("OpenRPC method set mismatch. expected=", e.as_str(), " actual=", a.as_str())
            },
        }
    }
}

/// Whether two lists hold the same strings in the same order.
pub fn same_texts(a: &Vec<String>, b: &Vec<String>) -> (same: bool)
    ensures
        same == (texts(a@) == texts(b@)),
{
    if a.len() != b.len() {
        assert(texts(a@).len() != texts(b@).len());
        return false;
    }
    let mut i: usize = 0;
    while i < a.len()
        invariant
            i <= a.len(),
            a.len() == b.len(),
            forall|j: int| 0 <= j < i ==> a@[j]@ == b@[j]@,
        decreases a.len() - i,
    {
        if !same_text(a[i].as_str(), b[i].as_str()) {
            assert(texts(a@)[i as int] != texts(b@)[i as int]);
            return false;
        }
        i += 1;
    }
    assert(texts(a@) =~= texts(b@));
    true
}

/// What is wrong with a document: it has to be of the expected format
/// version, and the set of its method names has to be the set of the
/// required ones, no more and no fewer.
pub open spec fn document_fault(openrpc: Seq<char>, methods: Seq<Seq<char>>) -> Option<
    ContractFault,
> {
    if openrpc != OPENRPC_VERSION@ {
        Some(ContractFault::VersionMismatch { found: openrpc, expected: OPENRPC_VERSION@ })
    } else if methods.to_set() != required_method_names().to_set() {
        Some(
            ContractFault::MethodSetMismatch {
                required: ascending(required_method_names().to_set()),
                listed: ascending(methods.to_set()),
            },
        )
    } else {
        None
    }
}

impl OpenRpcDocument {
    /// The document this host is built with.
    pub fn embedded() -> (doc: OpenRpcDocument)
        ensures
            doc.openrpc@ == OPENRPC_VERSION@,
            texts(doc.methods@) == required_method_names(),
    {
        OpenRpcDocument { openrpc: OPENRPC_VERSION.to_owned(), methods: required_methods() }
    }

    /// Checks the format version and the set of methods.
    pub fn check(&self) -> (r: Result<(), ContractError>)
        ensures
            match r {
                Ok(()) => document_fault(self.openrpc@, texts(self.methods@)) is None,
                Err(e) => document_fault(self.openrpc@, texts(self.methods@)) == Some(e@),
            },
    {
        if !same_text(self.openrpc.as_str(), OPENRPC_VERSION) {
            return Err(
                ContractError::VersionMismatch {
                    found: self.openrpc.clone(),
                    expected: OPENRPC_VERSION.to_owned(),
                },
            );
        }
        let required = required_methods();
        let actual = sorted_distinct(&self.methods);
        let expected = sorted_distinct(&required);
        if same_texts(&actual, &expected) {
            Ok(())
        } else {
            Err(ContractError::MethodSetMismatch { required: expected, listed: actual })
        }
    }
}

/// Checks the document this host is built with. It passes.
pub fn validate_openrpc_spec() -> (r: Result<(), ContractError>)
    ensures
        r is Ok,
{
    let doc = OpenRpcDocument::embedded();
    doc.check()
}

/// The method names of the document this host is built with.
pub fn openrpc_method_names() -> (names: Vec<String>)
    ensures
        texts(names@) == required_method_names(),
{
    let doc = OpenRpcDocument::embedded();
    doc.methods
}

} // verus!
