//! The list: a chain of boxed nodes, each owned by the one before it, and a
//! counter of the insertions made.

use crate::model::{front, shifted, unshifted};
use vstd::prelude::*;

verus! {

/// One link of the chain: a value, and the links behind it.
struct Node {
    next: Option<Box<Node>>,
    value: String,
}

impl Node {
    /// The values along a chain, the one in the first link first.
    spec fn values(link: Option<Box<Node>>) -> Seq<Seq<char>>
        decreases link,
    {
        match link {
            None => Seq::empty(),
            Some(node) => seq![node.value@] + Node::values(node.next),
        }
    }
}

/// A list of strings that takes and gives values at its front, and counts the
/// values it was given.
///
/// Its view is the sequence of the values it holds, the front one first.
pub struct List {
    length: u128,
    head: Option<Box<Node>>,
}

impl View for List {
    type V = Seq<Seq<char>>;

    closed spec fn view(&self) -> Seq<Seq<char>> {
        Node::values(self.head)
    }
}

impl List {
    /// The counter: how many values the list was given so far. A removal
    /// does not lower it, so it may exceed the number of values held.
    pub closed spec fn length(&self) -> nat {
        self.length as nat
    }

    /// The list never holds more values than it has counted.
    #[verifier::type_invariant]
    spec fn wf(&self) -> bool {
        Node::values(self.head).len() <= self.length
    }

    /// A list that holds nothing and has counted nothing.
    pub fn new() -> (list: Self)
        ensures
            list@ == Seq::<Seq<char>>::empty(),
            list.length() == 0,
    {
        List { length: 0, head: None }
    }

    /// Puts `value` in front of the values held, counts it, and hands out the
    /// counter as it then stands.
    ///
    /// The counter must have room for one more.
    pub fn unshift(&mut self, value: String) -> (count: &u128)
        requires
            old(self).length() < u128::MAX,
        ensures
            final(self)@ == unshifted(old(self)@, value@),
            final(self).length() == old(self).length() + 1,
            *count == final(self).length(),
            final(self)@.len() <= final(self).length(),
    {
        proof {
            use_type_invariant(&*self);
        }
        let mut next: Option<Box<Node>> = None;
        std::mem::swap(&mut next, &mut self.head);
        self.length += 1;
        self.head = Some(Box::new(Node { value, next }));
        &self.length
    }

    /// Takes the front value out of the list and hands it out; a list that
    /// holds nothing hands out `None` and stays as it is.
    ///
    /// The counter is left alone either way: it counts what was put in.
    pub fn shift(&mut self) -> (value: Option<String>)
        ensures
            value.deep_view() == front(old(self)@),
            final(self)@ == shifted(old(self)@),
            final(self).length() == old(self).length(),
            final(self)@.len() <= final(self).length(),
    {
        proof {
            use_type_invariant(&*self);
        }
        let mut head: Option<Box<Node>> = None;
        std::mem::swap(&mut head, &mut self.head);
        match head {
            None => None,
            Some(node) => {
                self.head = node.next;
                Some(node.value)
            },
        }
    }
}

} // verus!
