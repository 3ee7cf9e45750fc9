//! The input model: the closed vocabulary of input-source names, the
//! collection selector attached to an input reference, and the input
//! reference itself, together with its parse-tree adapter.

use vstd::prelude::*;
use vstd::string::StringExecFns;

use crate::adapter::{Deserialize, Node, NodeKind, Serialize};
use crate::util::{Pairs, PairsExt};
use crate::vocab::{InputType, SelectorType};

verus! {

/// The collection-narrowing selector attached to an input reference:
/// no suffix at all, include one key, exclude one key, count one key, or
/// count the whole collection.
#[derive(Debug, Clone, Eq, PartialEq, Hash)]
pub enum Selector {
    Absent,
    Include(String),
    Exclude(String),
    Count(String),
    CountAll,
}

/// The model of a `Selector`: the same variants over character sequences.
#[verifier::ext_equal]
pub ghost enum SelectorView {
    Absent,
    Include(Seq<char>),
    Exclude(Seq<char>),
    Count(Seq<char>),
    CountAll,
}

impl DeepView for Selector {
    type V = SelectorView;

    open spec fn deep_view(&self) -> SelectorView {
        match self {
            Selector::Absent => SelectorView::Absent,
            Selector::Include(k) => SelectorView::Include(k@),
            Selector::Exclude(k) => SelectorView::Exclude(k@),
            Selector::Count(k) => SelectorView::Count(k@),
            Selector::CountAll => SelectorView::CountAll,
        }
    }
}

impl SelectorView {
    /// The key the selector carries, if any.
    pub open spec fn key(self) -> Option<Seq<char>> {
        match self {
            SelectorView::Absent => None,
            SelectorView::Include(k) => Some(k),
            SelectorView::Exclude(k) => Some(k),
            SelectorView::Count(k) => Some(k),
            SelectorView::CountAll => None,
        }
    }

    /// The modifier symbol of every variant but `Absent`; counting maps to
    /// the count modifier whether or not a key is present.
    pub open spec fn modifier(self) -> Option<SelectorType> {
        match self {
            SelectorView::Absent => None,
            SelectorView::Include(_) => Some(SelectorType::Include),
            SelectorView::Exclude(_) => Some(SelectorType::Exclude),
            SelectorView::Count(_) => Some(SelectorType::Count),
            SelectorView::CountAll => Some(SelectorType::Count),
        }
    }

    /// The canonical prefix spelling: the modifier's spelling, or empty when
    /// no selector is present.
    pub open spec fn prefix_text(self) -> Seq<char> {
        match self.modifier() {
            Some(t) => t.spec_name(),
            None => Seq::empty(),
        }
    }

    /// The canonical suffix: `:` and the key when one is carried, else empty.
    pub open spec fn key_suffix(self) -> Seq<char> {
        match self.key() {
            Some(k) => ":"@ + k,
            None => Seq::empty(),
        }
    }
}

/// The ways deserializing one input reference can fail.
#[derive(Debug, Clone, Eq, PartialEq, Hash)]
pub enum InputParseError {
    /// The adapter was handed a node of the wrong kind; carries the kind
    /// observed.
    UnexpectedRule(NodeKind),
    /// The input-source name is not in the closed vocabulary; carries the
    /// offending text.
    UnknownInput(String),
    /// The modifier/key combination is not in the resolution table; carries
    /// the full original text of the reference.
    InvalidSelector(String),
    /// The modifier text is not a recognized selector modifier; carries the
    /// full original text of the reference.
    InvalidModifier(String),
}

/// The model of an `InputParseError`.
#[verifier::ext_equal]
pub ghost enum InputParseErrorView {
    UnexpectedRule(NodeKind),
    UnknownInput(Seq<char>),
    InvalidSelector(Seq<char>),
    InvalidModifier(Seq<char>),
}

impl DeepView for InputParseError {
    type V = InputParseErrorView;

    open spec fn deep_view(&self) -> InputParseErrorView {
        match self {
            InputParseError::UnexpectedRule(k) => InputParseErrorView::UnexpectedRule(*k),
            InputParseError::UnknownInput(s) => InputParseErrorView::UnknownInput(s@),
            InputParseError::InvalidSelector(s) => InputParseErrorView::InvalidSelector(s@),
            InputParseError::InvalidModifier(s) => InputParseErrorView::InvalidModifier(s@),
        }
    }
}

impl Selector {
    /// The resolution of an optional modifier and an optional key, by the
    /// table: no modifier with a key is include; no modifier and no key is
    /// no selector; exclude demands a key; count with a key counts that key
    /// and without one counts the whole collection; anything else — a
    /// modifier spelling outside the vocabulary, or the explicit include
    /// spelling — is an invalid modifier. `input` is the full original text,
    /// carried into the errors for diagnostics.
    pub open spec fn spec_from_parts(
        modifier: Option<Seq<char>>,
        selector: Option<Seq<char>>,
        input: Seq<char>,
    ) -> Result<SelectorView, InputParseErrorView> {
        match modifier {
            None => match selector {
                Some(s) => Ok(SelectorView::Include(s)),
                None => Ok(SelectorView::Absent),
            },
            Some(m) => match SelectorType::spec_from_name(m) {
                Some(SelectorType::Exclude) => match selector {
                    Some(s) => Ok(SelectorView::Exclude(s)),
                    None => Err(InputParseErrorView::InvalidSelector(input)),
                },
                Some(SelectorType::Count) => match selector {
                    Some(s) => Ok(SelectorView::Count(s)),
                    None => Ok(SelectorView::CountAll),
                },
                _ => Err(InputParseErrorView::InvalidModifier(input)),
            },
        }
    }

    /// The key this selector carries, if any.
    pub fn arg(&self) -> (r: Option<&str>)
        ensures
            (match r {
                Some(s) => self.deep_view().key() == Some(s@),
                None => self.deep_view().key() is None,
            }),
    {
        match self {
            Selector::Absent => None,
            Selector::Include(s) => Some(s.as_str()),
            Selector::Exclude(s) => Some(s.as_str()),
            Selector::Count(s) => Some(s.as_str()),
            Selector::CountAll => None,
        }
    }

    /// The modifier symbol of every variant but `Absent`.
    pub fn type_(&self) -> (r: Option<SelectorType>)
        ensures
            r == self.deep_view().modifier(),
    {
        match self {
            Selector::Absent => None,
            Selector::Include(_) => Some(SelectorType::Include),
            Selector::Exclude(_) => Some(SelectorType::Exclude),
            Selector::Count(_) => Some(SelectorType::Count),
            Selector::CountAll => Some(SelectorType::Count),
        }
    }

    /// The canonical spelling of this selector's modifier, if one is present.
    pub fn prefix(&self) -> (r: Option<&'static str>)
        ensures
            (match r {
                Some(p) => self.deep_view().modifier() is Some
                    && p@ == self.deep_view().prefix_text(),
                None => self.deep_view().modifier() is None,
            }),
    {
        let type_ = self.type_();
        match type_ {
            Some(t) => Some(t.name()),
            None => None,
        }
    }

    /// Resolve an optional modifier and an optional key exactly as
    /// `spec_from_parts` lays down.
    pub fn from_parts(modifier: Option<&str>, selector: Option<&str>, input: &str) -> (r: Result<
        Selector,
        InputParseError,
    >)
        ensures
            ({
                let sr = Self::spec_from_parts(modifier.deep_view(), selector.deep_view(), input@);
                match r {
                    Ok(v) => sr is Ok && v.deep_view() == sr->Ok_0,
                    Err(e) => sr is Err && e.deep_view() == sr->Err_0,
                }
            }),
    {
        match modifier {
            None => match selector {
                Some(s) => Ok(Selector::Include(s.to_owned())),
                None => Ok(Selector::Absent),
            },
            Some(m) => match SelectorType::from_name(m) {
                Some(SelectorType::Exclude) => match selector {
                    Some(s) => Ok(Selector::Exclude(s.to_owned())),
                    None => Err(InputParseError::InvalidSelector(input.to_owned())),
                },
                Some(SelectorType::Count) => match selector {
                    Some(s) => Ok(Selector::Count(s.to_owned())),
                    None => Ok(Selector::CountAll),
                },
                _ => Err(InputParseError::InvalidModifier(input.to_owned())),
            },
        }
    }
}

/// One input reference: a vocabulary symbol paired with exactly one
/// selector.
#[derive(Debug, Clone, Eq, PartialEq, Hash)]
pub struct Input {
    pub input: InputType,
    pub selector: Selector,
}

/// The model of an `Input`.
#[verifier::ext_equal]
pub ghost struct InputView {
    pub input: InputType,
    pub selector: SelectorView,
}

impl DeepView for Input {
    type V = InputView;

    open spec fn deep_view(&self) -> InputView {
        InputView { input: self.input, selector: self.selector.deep_view() }
    }
}

/// Whether an input node opens with a modifier child. The grammar puts the
/// optional modifier first, so it is recognized by kind, never consumed
/// unconditionally.
pub open spec fn input_has_modifier(n: Node) -> bool {
    n.children@.len() > 0 && n.children@[0].kind == NodeKind::InputModifier
}

/// The modifier child's text, when one is present.
pub open spec fn input_modifier_text(n: Node) -> Option<Seq<char>> {
    if input_has_modifier(n) {
        Some(n.children@[0].text@)
    } else {
        None
    }
}

/// Where the mandatory vocabulary-name child stands.
pub open spec fn input_name_index(n: Node) -> int {
    if input_has_modifier(n) {
        1
    } else {
        0
    }
}

/// The vocabulary-name child's text.
pub open spec fn input_name_text(n: Node) -> Seq<char> {
    n.children@[input_name_index(n)].text@
}

/// The selector-key child's text, when one follows the name child.
pub open spec fn input_key_text(n: Node) -> Option<Seq<char>> {
    if n.children@.len() > input_name_index(n) + 1 {
        Some(n.children@[input_name_index(n) + 1].text@)
    } else {
        None
    }
}

impl Deserialize for Input {
    type Error = InputParseError;

    open spec fn claimed_kind() -> NodeKind {
        NodeKind::Input
    }

    /// The grammar gives an input node an optional modifier child, then the
    /// mandatory name child, then an optional selector-key child.
    open spec fn shape_ok(n: Node) -> bool {
        n.kind == Self::claimed_kind() ==> {
            &&& n.children@.len() >= 1
            &&& input_has_modifier(n) ==> n.children@.len() >= 2
        }
    }

    open spec fn good(n: Node) -> bool {
        &&& n.kind == Self::claimed_kind()
        &&& InputType::spec_from_name(input_name_text(n)) is Some
        &&& Selector::spec_from_parts(input_modifier_text(n), input_key_text(n), n.text@) is Ok
    }

    open spec fn value_of(n: Node) -> InputView {
        InputView {
            input: InputType::spec_from_name(input_name_text(n))->Some_0,
            selector: Selector::spec_from_parts(
                input_modifier_text(n),
                input_key_text(n),
                n.text@,
            )->Ok_0,
        }
    }

    open spec fn error_of(n: Node) -> InputParseErrorView {
        if n.kind != Self::claimed_kind() {
            InputParseErrorView::UnexpectedRule(n.kind)
        } else if InputType::spec_from_name(input_name_text(n)) is None {
            InputParseErrorView::UnknownInput(input_name_text(n))
        } else {
            Selector::spec_from_parts(input_modifier_text(n), input_key_text(n), n.text@)->Err_0
        }
    }

    fn deserialize(input: &Node) -> (r: Result<Input, InputParseError>) {
        if input.kind != NodeKind::Input {
            return Err(InputParseError::UnexpectedRule(input.kind));
        }
        let mut inner = Pairs::new(&input.children);
        let modifier = inner.next_if_rule(NodeKind::InputModifier);
        let name_node = match inner.next() {
            Some(p) => p,
            None => vstd::pervasive::unreached(),
        };
        let sym = match InputType::from_name(name_node.text.as_str()) {
            Some(t) => t,
            None => {
                return Err(InputParseError::UnknownInput(name_node.text.clone()));
            },
        };
        let key_node = inner.next();
        let modifier_str: Option<&str> = match modifier {
            Some(m) => Some(m.text.as_str()),
            None => None,
        };
        let key_str: Option<&str> = match key_node {
            Some(k) => Some(k.text.as_str()),
            None => None,
        };
        match Selector::from_parts(modifier_str, key_str, input.text.as_str()) {
            Ok(selector) => Ok(Input { input: sym, selector }),
            Err(e) => Err(e),
        }
    }
}

/// The canonical text of one input reference: the selector's prefix, the
/// symbol's spelling, then `:` and the key when one is carried.
pub open spec fn input_rendered(v: InputView) -> Seq<char> {
    v.selector.prefix_text() + v.input.spec_name() + v.selector.key_suffix()
}

impl Serialize for Input {
    open spec fn rendered(v: InputView) -> Seq<char> {
        input_rendered(v)
    }

    fn serialize(&self) -> (out: String) {
        let mut out = String::new();
        match self.selector.prefix() {
            Some(p) => out.append(p),
            None => {},
        }
        out.append(self.input.name());
        match self.selector.arg() {
            Some(k) => {
                out.append(":");
                out.append(k);
            },
            None => {},
        }
        proof {
            assert(out@ =~= input_rendered(self.deep_view()));
        }
        out
    }
}

/// The error of the first child of an input-list node that does not
/// deserialize; meaningful only when one such child exists.
pub open spec fn first_input_error(cs: Seq<Node>) -> InputParseErrorView
    decreases cs.len(),
{
    if cs.len() == 0 {
        arbitrary()
    } else if !<Input as Deserialize>::good(cs[0]) {
        <Input as Deserialize>::error_of(cs[0])
    } else {
        first_input_error(cs.skip(1))
    }
}

proof fn lemma_first_input_error(cs: Seq<Node>, i: int)
    requires
        0 <= i < cs.len(),
        forall|j: int| 0 <= j < i ==> <Input as Deserialize>::good(#[trigger] cs[j]),
        !<Input as Deserialize>::good(cs[i]),
    ensures
        first_input_error(cs) == <Input as Deserialize>::error_of(cs[i]),
    decreases i,
{
    if i > 0 {
        assert(cs.skip(1)[i - 1] == cs[i]);
        assert(forall|j: int| 0 <= j < i - 1 ==> #[trigger] cs.skip(1)[j] == cs[j + 1]);
        lemma_first_input_error(cs.skip(1), i - 1);
    }
}

/// The models of the input references under an input-list node, in order;
/// meaningful when every one of them deserializes.
pub open spec fn input_values_of(cs: Seq<Node>) -> Seq<InputView> {
    Seq::new(cs.len(), |i: int| <Input as Deserialize>::value_of(cs[i]))
}

impl Deserialize for Vec<Input> {
    type Error = InputParseError;

    open spec fn claimed_kind() -> NodeKind {
        NodeKind::Inputs
    }

    /// The children of an input-list node are the input nodes, each shaped
    /// as the grammar guarantees.
    open spec fn shape_ok(n: Node) -> bool {
        n.kind == Self::claimed_kind() ==> forall|i: int|
            0 <= i < n.children@.len() ==> <Input as Deserialize>::shape_ok(#[trigger] n.children@[i])
    }

    open spec fn good(n: Node) -> bool {
        &&& n.kind == Self::claimed_kind()
        &&& forall|i: int|
            0 <= i < n.children@.len() ==> <Input as Deserialize>::good(#[trigger] n.children@[i])
    }

    open spec fn value_of(n: Node) -> Seq<InputView> {
        input_values_of(n.children@)
    }

    open spec fn error_of(n: Node) -> InputParseErrorView {
        if n.kind != Self::claimed_kind() {
            InputParseErrorView::UnexpectedRule(n.kind)
        } else {
            first_input_error(n.children@)
        }
    }

    fn deserialize(input: &Node) -> (r: Result<Vec<Input>, InputParseError>) {
        if input.kind != NodeKind::Inputs {
            return Err(InputParseError::UnexpectedRule(input.kind));
        }
        let mut items: Vec<Input> = Vec::new();
        let mut i: usize = 0;
        while i < input.children.len()
            invariant
                <Vec<Input> as Deserialize>::shape_ok(*input),
                input.kind == NodeKind::Inputs,
                i <= input.children@.len(),
                forall|j: int|
                    0 <= j < i ==> <Input as Deserialize>::good(#[trigger] input.children@[j]),
                items.deep_view() == input_values_of(input.children@.take(i as int)),
            decreases input.children@.len() - i,
        {
            match <Input as Deserialize>::deserialize(&input.children[i]) {
                Ok(v) => {
                    let ghost prev = items.deep_view();
                    let ghost vv = v.deep_view();
                    items.push(v);
                    proof {
                        assert(items.deep_view() =~= prev.push(vv));
                        assert(prev.push(vv) =~= input_values_of(
                            input.children@.take(i as int + 1),
                        ));
                    }
                },
                Err(e) => {
                    proof {
                        lemma_first_input_error(input.children@, i as int);
                    }
                    return Err(e);
                },
            }
            i = i + 1;
        }
        proof {
            assert(items.deep_view() =~= <Vec<Input> as Deserialize>::value_of(*input));
        }
        Ok(items)
    }
}

/// The canonical text of an input list: each element's rendering, joined by
/// a single `|`, with no separator before the first or after the last
/// element.
pub open spec fn inputs_rendered(vs: Seq<InputView>) -> Seq<char>
    decreases vs.len(),
{
    if vs.len() == 0 {
        Seq::empty()
    } else if vs.len() == 1 {
        input_rendered(vs[0])
    } else {
        input_rendered(vs[0]) + "|"@ + inputs_rendered(vs.skip(1))
    }
}

proof fn lemma_inputs_rendered_push(vs: Seq<InputView>, v: InputView)
    ensures
        inputs_rendered(vs.push(v)) == if vs.len() == 0 {
            input_rendered(v)
        } else {
            inputs_rendered(vs) + "|"@ + input_rendered(v)
        },
    decreases vs.len(),
{
    if vs.len() == 0 {
        assert(vs.push(v)[0] == v);
    } else {
        assert(vs.push(v).skip(1) =~= vs.skip(1).push(v));
        lemma_inputs_rendered_push(vs.skip(1), v);
        if vs.len() == 1 {
            assert(inputs_rendered(vs.push(v)) =~= inputs_rendered(vs) + "|"@ + input_rendered(v));
        } else {
            assert(inputs_rendered(vs.push(v)) =~= inputs_rendered(vs) + "|"@ + input_rendered(v));
        }
    }
}

impl Serialize for Vec<Input> {
    open spec fn rendered(vs: Seq<InputView>) -> Seq<char> {
        inputs_rendered(vs)
    }

    fn serialize(&self) -> (out: String) {
        let mut out = String::new();
        let mut i: usize = 0;
        while i < self.len()
            invariant
                i <= self@.len(),
                out@ == inputs_rendered(self.deep_view().take(i as int)),
            decreases self@.len() - i,
        {
            if i > 0 {
                out.append("|");
            }
            let piece = self[i].serialize();
            out.append(piece.as_str());
            proof {
                assert(self.deep_view().take(i as int).push(self@[i as int].deep_view()) =~= self
                    .deep_view()
                    .take(i as int + 1));
                lemma_inputs_rendered_push(
                    self.deep_view().take(i as int),
                    self@[i as int].deep_view(),
                );
            }
            i = i + 1;
        }
        proof {
            assert(self.deep_view().take(self@.len() as int) =~= self.deep_view());
        }
        out
    }
}

/// The modifier text the grammar hands back when it re-reads a selector's
/// canonical rendering: the modifier's spelling where one is visible in the
/// text, nothing otherwise (no selector at all, or the include modifier,
/// whose spelling is empty).
pub open spec fn canonical_modifier_text(v: SelectorView) -> Option<Seq<char>> {
    match v {
        SelectorView::Absent => None,
        SelectorView::Include(_) => None,
        SelectorView::Exclude(_) => Some("!"@),
        SelectorView::Count(_) => Some("&"@),
        SelectorView::CountAll => Some("&"@),
    }
}

/// Law (round trip, selector): re-resolving the parts of any selector's
/// canonical rendering gives back exactly that selector, whatever full text
/// is carried along for diagnostics.
pub proof fn lemma_selector_round_trip(v: SelectorView, full: Seq<char>)
    ensures
        Selector::spec_from_parts(canonical_modifier_text(v), v.key(), full) == Ok::<
            SelectorView,
            InputParseErrorView,
        >(v),
{
    reveal(SelectorType::spec_from_name);
    reveal_strlit("");
    reveal_strlit("!");
    reveal_strlit("&");
    assert(""@.len() == 0);
    assert("!"@[0] == '!');
    assert("&"@[0] == '&');
    assert("!"@ != ""@);
    assert("&"@ != ""@);
    assert("&"@ != "!"@);
}

/// A node shaped as the grammar shapes it when it re-reads the canonical
/// rendering of the input reference `v`: a modifier child exactly where the
/// rendering opens with a visible modifier spelling, then the name child
/// carrying the symbol's spelling, then a key child exactly where the
/// rendering carries a key.
pub open spec fn is_canonical_input_node(n: Node, v: InputView) -> bool {
    &&& n.kind == NodeKind::Input
    &&& input_modifier_text(n) == canonical_modifier_text(v.selector)
    &&& input_name_text(n) == v.input.spec_name()
    &&& input_key_text(n) == v.selector.key()
}

/// Law (round trip, input): every grammar-shaped node for the canonical
/// rendering of `v` deserializes back to exactly `v`. Together with the
/// `Serialize` contract, which pins the rendering itself, this is
/// serialize-then-reparse idempotence over the recognized grammar.
pub proof fn lemma_input_round_trip(n: Node, v: InputView)
    requires
        is_canonical_input_node(n, v),
    ensures
        <Input as Deserialize>::good(n),
        <Input as Deserialize>::value_of(n) == v,
{
    crate::vocab::lemma_input_type_inverse(v.input);
    lemma_selector_round_trip(v.selector, n.text@);
    assert(<Input as Deserialize>::value_of(n) =~= v);
}

/// Law (round trip, input list): a list node whose children are
/// grammar-shaped nodes for the canonical renderings of `vs`, one each and
/// in order, deserializes back to exactly `vs`: joining with the separator
/// and splitting again keeps the elements and their order.
pub proof fn lemma_inputs_round_trip(n: Node, vs: Seq<InputView>)
    requires
        n.kind == NodeKind::Inputs,
        n.children@.len() == vs.len(),
        forall|i: int| 0 <= i < vs.len() ==> is_canonical_input_node(#[trigger] n.children@[i], vs[i]),
    ensures
        <Vec<Input> as Deserialize>::good(n),
        <Vec<Input> as Deserialize>::value_of(n) == vs,
{
    assert forall|i: int| 0 <= i < n.children@.len() implies <Input as Deserialize>::good(
        #[trigger] n.children@[i],
    ) by {
        lemma_input_round_trip(n.children@[i], vs[i]);
    }
    assert forall|i: int| 0 <= i < n.children@.len() implies <Input as Deserialize>::value_of(
        #[trigger] n.children@[i],
    ) == vs[i] by {
        lemma_input_round_trip(n.children@[i], vs[i]);
    }
    assert(<Vec<Input> as Deserialize>::value_of(n) =~= vs);
}

} // verus!
