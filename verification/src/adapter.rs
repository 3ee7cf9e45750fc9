//! The parse-tree adapter protocol.
//!
//! The grammar component (an external collaborator) hands over a tree of
//! kind-tagged nodes; each model type claims exactly one node kind, builds
//! itself from a node of that kind, and renders itself back to canonical
//! text. The two traits here state that contract once, so that the rule
//! aggregate can treat every sub-component uniformly.

use vstd::prelude::*;

verus! {

/// The kind tag carried by every parse-tree node: one tag per grammar
/// construct. The operator and action constructs are owned by other
/// components, but their tags appear here so a rule node can hand their
/// subtrees on unopened.
#[derive(Debug, Clone, Copy, PartialEq, Eq, Hash, Structural)]
pub enum NodeKind {
    SecRule,
    Inputs,
    Input,
    InputModifier,
    InputName,
    SelectorKey,
    Operator,
    Actions,
}

/// One node of the parse tree produced by the grammar component: a kind tag,
/// the raw text the node matched, and its children in grammar order. The
/// model types never tokenize text themselves; they only classify and
/// traverse nodes they are handed.
#[derive(Debug)]
pub struct Node {
    pub kind: NodeKind,
    pub text: String,
    pub children: Vec<Node>,
}

/// A type that claims one parse-tree node kind and can be built from a node
/// of that kind. Failure is always a returned value, never a panic: the
/// grammar guarantees `shape_ok` of every node it produces, and under that
/// guarantee `deserialize` succeeds exactly on the nodes `good` admits,
/// returning the model `value_of` describes, or else the error `error_of`
/// describes.
pub trait Deserialize: Sized + DeepView {
    type Error: DeepView;

    /// The node kind this type claims.
    spec fn claimed_kind() -> NodeKind;

    /// What the grammar guarantees about the shape of a node of the claimed
    /// kind. Deserialization is defined only on such nodes; on a node of
    /// another kind it reports the wrong kind without looking further.
    spec fn shape_ok(n: Node) -> bool;

    /// Whether deserialization of `n` succeeds.
    spec fn good(n: Node) -> bool;

    /// The model of the value built from `n`, meaningful when `good(n)`.
    spec fn value_of(n: Node) -> Self::V;

    /// The model of the error reported for `n`, meaningful when `!good(n)`.
    spec fn error_of(n: Node) -> <Self::Error as DeepView>::V;

    fn deserialize(input: &Node) -> (r: Result<Self, Self::Error>)
        requires
            Self::shape_ok(*input),
        ensures
            (match r {
                Ok(v) => Self::good(*input) && v.deep_view() == Self::value_of(*input),
                Err(e) => !Self::good(*input) && e.deep_view() == Self::error_of(*input),
            }),
    ;
}

/// A type that renders itself to the canonical textual form the grammar
/// recognizes. Rendering is a pure function of the value's model.
pub trait Serialize: DeepView {
    /// The canonical text for a model value.
    spec fn rendered(v: Self::V) -> Seq<char>;

    fn serialize(&self) -> (out: String)
        ensures
            out@ == Self::rendered(self.deep_view()),
    ;
}

} // verus!
