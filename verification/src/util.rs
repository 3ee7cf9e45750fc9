//! Helpers shared by the adapters: exact text comparison and an in-order
//! cursor over a node's children.

use vstd::prelude::*;
use vstd::string::StrSliceExecFns;

use crate::adapter::{Node, NodeKind};

verus! {

/// Exact, case-sensitive equality of two pieces of text, character by
/// character: true exactly when the two views are the same sequence.
pub fn str_eq(a: &str, b: &str) -> (r: bool)
    ensures
        r == (a@ == b@),
{
    let n = a.unicode_len();
    if n != b.unicode_len() {
        return false;
    }
    let mut i: usize = 0;
    while i < n
        invariant
            n == a@.len(),
            n == b@.len(),
            i <= n,
            forall|j: int| 0 <= j < i ==> a@[j] == b@[j],
        decreases n - i,
    {
        if a.get_char(i) != b.get_char(i) {
            return false;
        }
        i = i + 1;
    }
    proof {
        assert(a@ =~= b@);
    }
    true
}

/// The children of one parse-tree node, consumed front to back in grammar
/// order.
pub struct Pairs<'a> {
    nodes: &'a Vec<Node>,
    pos: usize,
}

impl<'a> Pairs<'a> {
    /// The children not yet consumed, in order.
    pub closed spec fn remaining(&self) -> Seq<Node> {
        self.nodes@.skip(self.pos as int)
    }

    /// The cursor never stands past the end of the child list.
    pub closed spec fn wf(&self) -> bool {
        self.pos <= self.nodes@.len()
    }

    pub fn new(nodes: &'a Vec<Node>) -> (r: Pairs<'a>)
        ensures
            r.wf(),
            r.remaining() == nodes@,
    {
        Pairs { nodes, pos: 0 }
    }

    /// The next child without consuming it.
    pub fn peek(&self) -> (r: Option<&'a Node>)
        requires
            self.wf(),
        ensures
            (match r {
                Some(n) => self.remaining().len() > 0 && *n == self.remaining()[0],
                None => self.remaining().len() == 0,
            }),
    {
        if self.pos < self.nodes.len() {
            Some(&self.nodes[self.pos])
        } else {
            None
        }
    }

    /// The next child, consumed.
    pub fn next(&mut self) -> (r: Option<&'a Node>)
        requires
            old(self).wf(),
        ensures
            final(self).wf(),
            (match r {
                Some(n) => old(self).remaining().len() > 0 && *n == old(self).remaining()[0]
                    && final(self).remaining() == old(self).remaining().skip(1),
                None => old(self).remaining().len() == 0
                    && final(self).remaining() == old(self).remaining(),
            }),
    {
        if self.pos < self.nodes.len() {
            let n = &self.nodes[self.pos];
            self.pos = self.pos + 1;
            proof {
                assert(final(self).remaining() =~= old(self).remaining().skip(1));
            }
            Some(n)
        } else {
            proof {
                assert(final(self).remaining() =~= old(self).remaining());
            }
            None
        }
    }
}

/// Peek-and-consume over a child cursor: take the next child only when its
/// kind is the expected one, as the grammar's optional constructs require.
pub trait PairsExt<'a> {
    spec fn ext_wf(&self) -> bool;

    spec fn ext_remaining(&self) -> Seq<Node>;

    fn next_if_rule(&mut self, rule: NodeKind) -> (r: Option<&'a Node>)
        requires
            old(self).ext_wf(),
        ensures
            final(self).ext_wf(),
            (match r {
                Some(n) => old(self).ext_remaining().len() > 0
                    && old(self).ext_remaining()[0].kind == rule
                    && *n == old(self).ext_remaining()[0]
                    && final(self).ext_remaining() == old(self).ext_remaining().skip(1),
                None => (old(self).ext_remaining().len() == 0
                    || old(self).ext_remaining()[0].kind != rule)
                    && final(self).ext_remaining() == old(self).ext_remaining(),
            }),
    ;
}

impl<'a> PairsExt<'a> for Pairs<'a> {
    open spec fn ext_wf(&self) -> bool {
        self.wf()
    }

    open spec fn ext_remaining(&self) -> Seq<Node> {
        self.remaining()
    }

    fn next_if_rule(&mut self, rule: NodeKind) -> (r: Option<&'a Node>) {
        proof {
            assert(old(self).ext_wf());
            assert(old(self).wf());
        }
        let take = match self.peek() {
            Some(n) => n.kind == rule,
            None => false,
        };
        if take {
            let r = self.next();
            proof {
                assert(self.ext_remaining() == self.remaining());
                assert(old(self).ext_remaining() == old(self).remaining());
            }
            r
        } else {
            proof {
                assert(self.ext_remaining() == self.remaining());
                assert(old(self).ext_remaining() == old(self).remaining());
            }
            None
        }
    }
}

} // verus!
