//! Key-value context: the list borrowed for one call, and the chain a logger owns.
use std::sync::Arc;
use vstd::prelude::*;
use vstd::string::*;

verus! {

/// What a key-value list holds: its pairs of key and value as characters, in the
/// order in which the list hands them out.
pub type Pairs = Seq<(Seq<char>, Seq<char>)>;

/// The pairs held by a sequence of owned strings, in the same order.
pub open spec fn owned_pairs(items: Seq<(String, String)>) -> Pairs {
    items.map_values(|p: (String, String)| (p.0@, p.1@))
}

/// The pairs held by a sequence of borrowed strings, in the same order.
pub open spec fn borrowed_pairs(items: Seq<(&str, &str)>) -> Pairs {
    items.map_values(|p: (&str, &str)| (p.0@, p.1@))
}

/// The keys of a list of pairs, in the same order.
pub open spec fn keys_of(pairs: Pairs) -> Seq<Seq<char>> {
    pairs.map_values(|p: (Seq<char>, Seq<char>)| p.0)
}

/// The given texts with `", "` between each two neighbours.
pub open spec fn comma_separated(items: Seq<Seq<char>>) -> Seq<char>
    decreases items.len(),
{
    if items.len() == 0 {
        Seq::empty()
    } else if items.len() == 1 {
        items[0]
    } else {
        comma_separated(items.drop_last()) + ", "@ + items.last()
    }
}

/// The text form of a list of pairs: its keys in parentheses, values left out.
pub open spec fn key_list_text(pairs: Pairs) -> Seq<char> {
    "("@ + comma_separated(keys_of(pairs)) + ")"@
}

/// Key-value pairs given at one call site. They are borrowed for that call only.
#[derive(Clone, Copy)]
pub struct BorrowedKV<'a>(pub &'a [(&'a str, &'a str)]);

impl<'a> View for BorrowedKV<'a> {
    type V = Pairs;

    open spec fn view(&self) -> Pairs {
        borrowed_pairs(self.0@)
    }
}

impl<'a> BorrowedKV<'a> {
    /// Owned copies of the pairs, in the same order.
    pub fn to_vec(&self) -> (items: Vec<(String, String)>)
        ensures
            owned_pairs(items@) == self@,
    {
        let mut items: Vec<(String, String)> = Vec::new();
        let mut i: usize = 0;
        while i < self.0.len()
            invariant
                i <= self.0.len(),
                owned_pairs(items@) == self@.take(i as int),
            decreases self.0.len() - i,
        {
            let ghost before = owned_pairs(items@);
            let key = String::from_str(self.0[i].0);
            let value = String::from_str(self.0[i].1);
            items.push((key, value));
            assert(owned_pairs(items@) == before.push(
                (self.0@[i as int].0@, self.0@[i as int].1@),
            ));
            assert(self@.take(i as int + 1) == self@.take(i as int).push(self@[i as int]));
            i += 1;
        }
        assert(self@.take(self.0.len() as int) == self@);
        items
    }
}

/// One node of a chain. A node is never changed once it is built.
enum Node {
    /// Pairs added in one step, in front of what the parent holds.
    Link { pairs: Vec<(String, String)>, parent: Option<Arc<Node>> },
    /// Two chains, one after the other.
    Join { front: Arc<Node>, back: Arc<Node> },
}

impl Node {
    /// The pairs of the whole chain below this node. Within one link the pair
    /// that was written last comes first; a link's pairs come before its parent's.
    spec fn flat(&self) -> Pairs
        decreases self,
    {
        match self {
            Node::Link { pairs, parent } => owned_pairs(pairs@).reverse() + (match parent {
                Some(p) => p.flat(),
                None => Seq::empty(),
            }),
            Node::Join { front, back } => front.flat() + back.flat(),
        }
    }

    /// Appends copies of this chain's pairs to `out`, in the order of `flat`.
    fn gather(&self, out: &mut Vec<(String, String)>)
        ensures
            owned_pairs(final(out)@) == owned_pairs(old(out)@) + self.flat(),
        decreases self,
    {
        match self {
            Node::Link { pairs, parent } => {
                let ghost before = owned_pairs(out@);
                let mut i: usize = pairs.len();
                while i > 0
                    invariant
                        i <= pairs.len(),
                        owned_pairs(out@) == before + owned_pairs(pairs@).reverse().take(
                            pairs.len() - i,
                        ),
                    decreases i,
                {
                    i -= 1;
                    let ghost prev = owned_pairs(out@);
                    let key = pairs[i].0.clone();
                    let value = pairs[i].1.clone();
                    out.push((key, value));
                    assert(owned_pairs(out@) == prev.push(
                        (pairs@[i as int].0@, pairs@[i as int].1@),
                    ));
                    assert(owned_pairs(pairs@).reverse().take(pairs.len() - i)
                        == owned_pairs(pairs@).reverse().take(pairs.len() - i - 1).push(
                        (pairs@[i as int].0@, pairs@[i as int].1@),
                    ));
                }
                assert(owned_pairs(pairs@).reverse().take(pairs.len() as int) == owned_pairs(
                    pairs@,
                ).reverse());
                match parent {
                    Some(p) => {
                        p.gather(out);
                    },
                    None => {},
                }
            },
            Node::Join { front, back } => {
                front.gather(out);
                back.gather(out);
            },
        }
    }
}

/// `Arc::clone`: a second handle to the value that `handle` points to.
#[verifier::external_body]
pub(crate) fn share<T>(handle: &Arc<T>) -> (other: Arc<T>)
    ensures
        other == *handle,
{
    Arc::clone(handle)
}

/// The key-value pairs that a logger owns and hands to its drain with every
/// record. The list is a chain of nodes shared between a logger and all the
/// loggers derived from it; adding pairs builds a new node in front of the
/// chain and leaves the existing nodes as they are.
pub struct OwnedKVList {
    node: Arc<Node>,
}

impl View for OwnedKVList {
    type V = Pairs;

    /// The pairs in the order of iteration: what was added last comes first.
    closed spec fn view(&self) -> Pairs {
        self.node.flat()
    }
}

impl OwnedKVList {
    /// A chain of one node. Of the given pairs the last one is handed out first.
    pub fn root(pairs: Vec<(String, String)>) -> (list: Self)
        ensures
            list@ == owned_pairs(pairs@).reverse(),
    {
        OwnedKVList { node: Arc::new(Node::Link { pairs, parent: None }) }
    }

    /// A chain with one new node in front of `parent`, which stays shared and
    /// unchanged. The new pairs come before all of the parent's, the last of
    /// them first.
    pub fn new(pairs: Vec<(String, String)>, parent: &OwnedKVList) -> (list: Self)
        ensures
            list@ == owned_pairs(pairs@).reverse() + parent@,
    {
        OwnedKVList { node: Arc::new(Node::Link { pairs, parent: Some(share(&parent.node)) }) }
    }

    /// The chain that hands out all of `front`, then all of `back`. Both stay
    /// shared and unchanged.
    pub fn join(front: &OwnedKVList, back: &OwnedKVList) -> (list: Self)
        ensures
            list@ == front@ + back@,
    {
        OwnedKVList {
            node: Arc::new(Node::Join { front: share(&front.node), back: share(&back.node) }),
        }
    }

    /// Copies of all pairs, in the order of iteration.
    pub fn to_vec(&self) -> (items: Vec<(String, String)>)
        ensures
            owned_pairs(items@) == self@,
    {
        let mut items: Vec<(String, String)> = Vec::new();
        self.node.gather(&mut items);
        items
    }

    /// The keys in the order of iteration, in parentheses and separated by
    /// `", "`; the values are left out.
    pub fn debug_string(&self) -> (text: String)
        ensures
            text@ == key_list_text(self@),
    {
        let items = self.to_vec();
        let ghost keys = keys_of(self@);
        let mut text = String::from_str("(");
        let mut i: usize = 0;
        while i < items.len()
            invariant
                i <= items.len(),
                owned_pairs(items@) == self@,
                keys == keys_of(self@),
                text@ == "("@ + comma_separated(keys.take(i as int)),
            decreases items.len() - i,
        {
            let ghost shown = keys.take(i as int);
            let ghost next = keys.take(i as int + 1);
            assert(next.drop_last() == shown);
            assert(next.last() == items@[i as int].0@);
            if i > 0 {
                text.append(", ");
            }
            text.append(items[i].0.as_str());
            i += 1;
        }
        assert(keys.take(items.len() as int) == keys);
        text.append(")");
        text
    }
}

} // verus!
