//! The rule aggregate: an ordered list of input references, one match
//! operator, and an ordered action list, composed into a single directive
//! record. The operator and action-list components belong to other parts of
//! the rule compiler; here they are taken through the same adapter protocol
//! the input model implements, so the aggregate treats every child
//! uniformly.

use vstd::prelude::*;

use crate::adapter::{Deserialize, Node, NodeKind};
use crate::input::{Input, InputParseError, InputParseErrorView, InputView};

verus! {

/// One rule directive: the inputs the operator is evaluated against, left
/// to right, the operator itself, and the actions to run, left to right.
/// `Op` is the match-operator component and `Acts` the action-list
/// component; each implements the adapter protocol for its own node kind.
/// A rule value exists only if all three children deserialized: no partial
/// aggregate is ever exposed.
#[derive(Debug, Clone, Eq, PartialEq, Hash)]
pub struct SecRule<Op, Acts> {
    pub inputs: Vec<Input>,
    pub op: Op,
    pub actions: Acts,
}

/// The model of a `SecRule`.
#[verifier::ext_equal]
pub ghost struct SecRuleView<OpV, ActsV> {
    pub inputs: Seq<InputView>,
    pub op: OpV,
    pub actions: ActsV,
}

impl<Op: DeepView, Acts: DeepView> DeepView for SecRule<Op, Acts> {
    type V = SecRuleView<Op::V, Acts::V>;

    open spec fn deep_view(&self) -> SecRuleView<Op::V, Acts::V> {
        SecRuleView {
            inputs: self.inputs.deep_view(),
            op: self.op.deep_view(),
            actions: self.actions.deep_view(),
        }
    }
}

/// The ways deserializing a rule node can fail: the node itself is of the
/// wrong kind, or one of its three children failed. A child's failure is
/// wrapped, never replaced, so the aggregate error names the failing child
/// and keeps the child's own error.
#[derive(Debug, Clone, Eq, PartialEq, Hash)]
pub enum SecRuleParseError<OpErr, ActErr> {
    UnexpectedRule(NodeKind),
    Input(InputParseError),
    Operator(OpErr),
    Action(ActErr),
}

/// The model of a `SecRuleParseError`.
#[verifier::ext_equal]
pub ghost enum SecRuleParseErrorView<OpErrV, ActErrV> {
    UnexpectedRule(NodeKind),
    Input(InputParseErrorView),
    Operator(OpErrV),
    Action(ActErrV),
}

impl<OpErr: DeepView, ActErr: DeepView> DeepView for SecRuleParseError<OpErr, ActErr> {
    type V = SecRuleParseErrorView<OpErr::V, ActErr::V>;

    open spec fn deep_view(&self) -> SecRuleParseErrorView<OpErr::V, ActErr::V> {
        match self {
            SecRuleParseError::UnexpectedRule(k) => SecRuleParseErrorView::UnexpectedRule(*k),
            SecRuleParseError::Input(e) => SecRuleParseErrorView::Input(e.deep_view()),
            SecRuleParseError::Operator(e) => SecRuleParseErrorView::Operator(e.deep_view()),
            SecRuleParseError::Action(e) => SecRuleParseErrorView::Action(e.deep_view()),
        }
    }
}

impl<Op: Deserialize, Acts: Deserialize> Deserialize for SecRule<Op, Acts> {
    type Error = SecRuleParseError<Op::Error, Acts::Error>;

    open spec fn claimed_kind() -> NodeKind {
        NodeKind::SecRule
    }

    /// The grammar gives a rule node exactly three children, in fixed
    /// order: the input list, the operator, the action list.
    open spec fn shape_ok(n: Node) -> bool {
        n.kind == Self::claimed_kind() ==> {
            &&& n.children@.len() == 3
            &&& <Vec<Input> as Deserialize>::shape_ok(n.children@[0])
            &&& Op::shape_ok(n.children@[1])
            &&& Acts::shape_ok(n.children@[2])
        }
    }

    open spec fn good(n: Node) -> bool {
        &&& n.kind == Self::claimed_kind()
        &&& <Vec<Input> as Deserialize>::good(n.children@[0])
        &&& Op::good(n.children@[1])
        &&& Acts::good(n.children@[2])
    }

    open spec fn value_of(n: Node) -> SecRuleView<Op::V, Acts::V> {
        SecRuleView {
            inputs: <Vec<Input> as Deserialize>::value_of(n.children@[0]),
            op: Op::value_of(n.children@[1]),
            actions: Acts::value_of(n.children@[2]),
        }
    }

    /// The first failing child, in grammar order, wrapped with its
    /// position.
    open spec fn error_of(n: Node) -> SecRuleParseErrorView<
        <Op::Error as DeepView>::V,
        <Acts::Error as DeepView>::V,
    > {
        if n.kind != Self::claimed_kind() {
            SecRuleParseErrorView::UnexpectedRule(n.kind)
        } else if !<Vec<Input> as Deserialize>::good(n.children@[0]) {
            SecRuleParseErrorView::Input(<Vec<Input> as Deserialize>::error_of(n.children@[0]))
        } else if !Op::good(n.children@[1]) {
            SecRuleParseErrorView::Operator(Op::error_of(n.children@[1]))
        } else {
            SecRuleParseErrorView::Action(Acts::error_of(n.children@[2]))
        }
    }

    fn deserialize(input: &Node) -> (r: Result<Self, Self::Error>) {
        if input.kind != NodeKind::SecRule {
            return Err(SecRuleParseError::UnexpectedRule(input.kind));
        }
        let inputs = match <Vec<Input> as Deserialize>::deserialize(&input.children[0]) {
            Ok(v) => v,
            Err(e) => {
                return Err(SecRuleParseError::Input(e));
            },
        };
        let op = match Op::deserialize(&input.children[1]) {
            Ok(v) => v,
            Err(e) => {
                return Err(SecRuleParseError::Operator(e));
            },
        };
        let actions = match Acts::deserialize(&input.children[2]) {
            Ok(v) => v,
            Err(e) => {
                return Err(SecRuleParseError::Action(e));
            },
        };
        Ok(SecRule { inputs, op, actions })
    }
}

/// Law (aggregate round trip): a rule node whose three children each
/// deserialize yields exactly the record of their three values, so
/// rendering each child canonically and re-reading the rule reproduces the
/// aggregate.
pub proof fn lemma_sec_rule_composes<Op: Deserialize, Acts: Deserialize>(n: Node)
    requires
        n.kind == NodeKind::SecRule,
        <Vec<Input> as Deserialize>::good(n.children@[0]),
        Op::good(n.children@[1]),
        Acts::good(n.children@[2]),
    ensures
        <SecRule<Op, Acts> as Deserialize>::good(n),
        <SecRule<Op, Acts> as Deserialize>::value_of(n) == (SecRuleView {
            inputs: <Vec<Input> as Deserialize>::value_of(n.children@[0]),
            op: Op::value_of(n.children@[1]),
            actions: Acts::value_of(n.children@[2]),
        }),
{
}

/// Law (error attribution): when the input list is well formed but the
/// operator child is malformed, the rule fails, the failure names the
/// operator position, and it embeds the operator's own error; no partial
/// aggregate exists that could expose the input list.
pub proof fn lemma_sec_rule_operator_attribution<Op: Deserialize, Acts: Deserialize>(n: Node)
    requires
        n.kind == NodeKind::SecRule,
        <Vec<Input> as Deserialize>::good(n.children@[0]),
        !Op::good(n.children@[1]),
    ensures
        !<SecRule<Op, Acts> as Deserialize>::good(n),
        <SecRule<Op, Acts> as Deserialize>::error_of(n) == SecRuleParseErrorView::<
            <Op::Error as DeepView>::V,
            <Acts::Error as DeepView>::V,
        >::Operator(Op::error_of(n.children@[1])),
{
}

} // verus!
