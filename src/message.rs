use vstd::prelude::*;

use crate::text::{blank_run, blanks};

verus! {

/// The message of a failure, in whichever shape its producer wrote it.
#[derive(Debug)]
pub enum MessagePart {
    /// A flat string.
    Text(String),
    /// An ordered list of parts, each possibly nested further.
    List(Vec<MessagePart>),
    /// Any other structured value, held as its compact JSON text.
    Other(String),
}

/// How deeply lists nest inside a part (a flat part has depth 0).
pub open spec fn depth(p: MessagePart) -> nat
    decreases p,
{
    match p {
        MessagePart::List(items) => 1 + depth_list(items@),
        _ => 0,
    }
}

/// The greatest depth among `items`.
pub open spec fn depth_list(items: Seq<MessagePart>) -> nat
    decreases items,
{
    if items.len() == 0 {
        0
    } else {
        let rest = depth_list(items.drop_last());
        let d = depth(items.last());
        if d > rest {
            d
        } else {
            rest
        }
    }
}

/// One line: `indent` blanks, the text, a line break.
pub open spec fn line(indent: nat, s: Seq<char>) -> Seq<char> {
    blanks(indent) + s + seq!['\n']
}

/// The flattened rendering of a part: each text on a line of its own,
/// indented by two more blanks for each level of list around it.
pub open spec fn rendered(p: MessagePart, indent: nat) -> Seq<char>
    decreases p,
{
    match p {
        MessagePart::Text(s) => line(indent, s@),
        MessagePart::List(items) => rendered_list(items@, indent + 2),
        MessagePart::Other(s) => line(indent, s@),
    }
}

/// The renderings of `items`, one after the other, at the same indent.
pub open spec fn rendered_list(items: Seq<MessagePart>, indent: nat) -> Seq<char>
    decreases items,
{
    if items.len() == 0 {
        Seq::empty()
    } else {
        rendered_list(items.drop_last(), indent) + rendered(items.last(), indent)
    }
}

proof fn lemma_depth_list_bound(items: Seq<MessagePart>, i: int)
    requires
        0 <= i < items.len(),
    ensures
        depth(items[i]) <= depth_list(items),
    decreases items.len(),
{
    if i < items.len() - 1 {
        lemma_depth_list_bound(items.drop_last(), i);
    }
}

proof fn lemma_depth_list_at_most(items: Seq<MessagePart>, k: nat)
    ensures
        depth_list(items) <= k <==> forall|i: int| 0 <= i < items.len() ==> depth(#[trigger] items[i]) <= k,
    decreases items.len(),
{
    if items.len() > 0 {
        lemma_depth_list_at_most(items.drop_last(), k);
        assert forall|i: int| 0 <= i < items.len() - 1 implies #[trigger] items.drop_last()[i] == items[i] by {}
        if forall|i: int| 0 <= i < items.len() ==> depth(#[trigger] items[i]) <= k {
            assert(depth(items[items.len() - 1]) <= k);
            assert forall|i: int| 0 <= i < items.drop_last().len() implies depth(#[trigger] items.drop_last()[i]) <= k by {
                assert(items.drop_last()[i] == items[i]);
            }
        }
        if depth_list(items) <= k {
            assert forall|i: int| 0 <= i < items.len() implies depth(#[trigger] items[i]) <= k by {
                if i < items.len() - 1 {
                    assert(items.drop_last()[i] == items[i]);
                }
            }
        }
    }
}

proof fn lemma_rendered_list_step(items: Seq<MessagePart>, i: int, indent: nat)
    requires
        0 <= i < items.len(),
    ensures
        rendered_list(items.subrange(0, i + 1), indent) == rendered_list(items.subrange(0, i), indent)
            + rendered(items[i], indent),
{
    let pre = items.subrange(0, i + 1);
    assert(pre.drop_last() =~= items.subrange(0, i));
}

impl MessagePart {
    /// Appends the rendering of this part at `indent` to `out`.
    pub fn render_into(&self, indent: usize, out: &mut String)
        requires
            indent + 2 * depth(*self) <= usize::MAX,
        ensures
            final(out)@ == old(out)@ + rendered(*self, indent as nat),
        decreases self,
    {
        match self {
            MessagePart::Text(s) => {
                let pad = blank_run(indent);
                out.append(pad.as_str());
                out.append(s.as_str());
                out.append("\n");
                proof {
                    reveal_strlit("\n");
                    assert(final(out)@ =~= old(out)@ + line(indent as nat, s@));
                }
            },
            MessagePart::Other(s) => {
                let pad = blank_run(indent);
                out.append(pad.as_str());
                out.append(s.as_str());
                out.append("\n");
                proof {
                    reveal_strlit("\n");
                    assert(final(out)@ =~= old(out)@ + line(indent as nat, s@));
                }
            },
            MessagePart::List(items) => {
                let inner = indent + 2;
                let ghost start = out@;
                let mut i: usize = 0;
                while i < items.len()
                    invariant
                        i <= items@.len(),
                        inner == indent + 2,
                        *self is List,
                        (*self)->List_0 == *items,
                        inner + 2 * depth_list(items@) <= usize::MAX,
                        out@ == start + rendered_list(items@.subrange(0, i as int), inner as nat),
                    decreases items@.len() - i,
                {
                    proof {
                        lemma_depth_list_bound(items@, i as int);
                        lemma_rendered_list_step(items@, i as int, inner as nat);
                        vstd::std_specs::vec::axiom_vec_index_decreases(*items, i as int);
                        assert(decreases_to!(*self => (*self)->List_0));
                    }
                    items[i].render_into(inner, out);
                    i = i + 1;
                }
                proof {
                    assert(items@.subrange(0, items@.len() as int) =~= items@);
                }
            },
        }
    }

    /// Whether lists nest at most `limit` deep in this part.
    pub fn depth_at_most(&self, limit: usize) -> (b: bool)
        ensures
            b == (depth(*self) <= limit),
        decreases self,
    {
        match self {
            MessagePart::List(items) => {
                if limit == 0 {
                    return false;
                }
                let mut i: usize = 0;
                while i < items.len()
                    invariant
                        i <= items@.len(),
                        limit > 0,
                        *self is List,
                        (*self)->List_0 == *items,
                        forall|j: int| 0 <= j < i ==> depth(#[trigger] items@[j]) <= limit - 1,
                    decreases items@.len() - i,
                {
                    proof {
                        vstd::std_specs::vec::axiom_vec_index_decreases(*items, i as int);
                        assert(decreases_to!(*self => (*self)->List_0));
                    }
                    if !items[i].depth_at_most(limit - 1) {
                        proof {
                            lemma_depth_list_at_most(items@, (limit - 1) as nat);
                        }
                        return false;
                    }
                    i = i + 1;
                }
                proof {
                    lemma_depth_list_at_most(items@, (limit - 1) as nat);
                }
                true
            },
            _ => true,
        }
    }

    /// The rendering of this part at `indent`, as a string.
    pub fn render(&self, indent: usize) -> (r: String)
        requires
            indent + 2 * depth(*self) <= usize::MAX,
        ensures
            r@ == rendered(*self, indent as nat),
    {
        let mut out = String::new();
        self.render_into(indent, &mut out);
        proof {
            assert(out@ =~= rendered(*self, indent as nat));
        }
        out
    }
}

} // verus!
