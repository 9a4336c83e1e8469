//! A singly linked list with push and pop at the front.
use vstd::prelude::*;

verus! {

/// One cell of a list.
pub struct Node<T> {
    value: T,
    next: Option<Box<Node<T>>>,
}

/// The values held from `link` onwards, first to last.
pub closed spec fn values<T>(link: Option<Box<Node<T>>>) -> Seq<T>
    decreases link,
{
    match link {
        None => Seq::empty(),
        Some(node) => seq![node.value] + values(node.next),
    }
}

impl<T> Node<T> {
    /// A cell holding `value`, followed by the cells of `next`.
    pub fn new(value: T, next: Option<Box<Node<T>>>) -> (r: Node<T>)
        ensures
            values(Some(Box::new(r))) == seq![value] + values(next),
    {
        Node { value: value, next: next }
    }
}

/// A list and the number of values it holds.
pub struct LinkedList<T> {
    head: Option<Box<Node<T>>>,
    size: usize,
}

impl<T> View for LinkedList<T> {
    type V = Seq<T>;

    closed spec fn view(&self) -> Seq<T> {
        values(self.head)
    }
}

impl<T> LinkedList<T> {
    /// The stored size is the number of values.
    pub closed spec fn wf(&self) -> bool {
        self.size == values(self.head).len()
    }

    /// An empty list.
    pub fn new() -> (r: LinkedList<T>)
        ensures
            r.wf(),
            r@ == Seq::<T>::empty(),
    {
        LinkedList { head: None, size: 0 }
    }

    /// The number of values.
    pub fn get_size(&self) -> (r: usize)
        requires
            self.wf(),
        ensures
            r == self@.len(),
    {
        self.size
    }

    /// Whether the list holds no value.
    pub fn is_empty(&self) -> (r: bool)
        requires
            self.wf(),
        ensures
            r == (self@.len() == 0),
    {
        self.get_size() == 0
    }

    /// Puts `value` in front of the others.
    pub fn push_front(&mut self, value: T)
        requires
            old(self).wf(),
            old(self)@.len() < usize::MAX,
        ensures
            final(self).wf(),
            final(self)@ == seq![value] + old(self)@,
    {
        let new_node: Box<Node<T>> = Box::new(Node::new(value, self.head.take()));
        self.head = Some(new_node);
        self.size += 1;
    }

    /// Removes and returns the first value, if there is one.
    pub fn pop_front(&mut self) -> (r: Option<T>)
        requires
            old(self).wf(),
        ensures
            final(self).wf(),
            old(self)@.len() == 0 ==> r is None && final(self)@ == old(self)@,
            old(self)@.len() > 0 ==> r == Some(old(self)@[0]) && final(self)@ == old(self)@.drop_first(),
    {
        match self.head.take() {
            None => None,
            Some(node) => {
                let node = *node;
                proof {
                    assert(values(Some(Box::new(node))).drop_first() =~= values(node.next));
                }
                self.head = node.next;
                self.size -= 1;
                Some(node.value)
            },
        }
    }

    /// Iterates over the values by reference, first to last.
    pub fn iter(&self) -> (r: Iter<'_, T>)
        ensures
            r@ == self@,
    {
        match &self.head {
            Some(node) => Iter(Some(&**node)),
            None => Iter(None),
        }
    }

    /// Iterates over the values by mutable reference, first to last. Once the
    /// iterator is done, the list holds the values its references end with,
    /// and is well formed when it holds as many values as before.
    pub fn iter_mut(&mut self) -> (r: IterMut<'_, T>)
        requires
            old(self).wf(),
        ensures
            r.current() == old(self)@,
            final(self)@ == match r.0 {
                None => Seq::empty(),
                Some(node) => values(Some(Box::new(*final(node)))),
            },
            final(self)@.len() == old(self)@.len() ==> final(self).wf(),
    {
        match &mut self.head {
            Some(node) => IterMut(Some(&mut **node)),
            None => IterMut(None),
        }
    }

    /// Consumes the list, yielding its values first to last.
    pub fn into_iter(self) -> (r: LinkedListIter<T>)
        ensures
            r@ == self@,
    {
        LinkedListIter { cur: self.head }
    }
}

/// Iterator over a list's values by reference.
pub struct Iter<'a, T: 'a>(Option<&'a Node<T>>);

impl<'a, T> View for Iter<'a, T> {
    type V = Seq<T>;

    /// The values still to come.
    closed spec fn view(&self) -> Seq<T> {
        match self.0 {
            None => Seq::empty(),
            Some(node) => values(Some(Box::new(*node))),
        }
    }
}

impl<'a, T> Iter<'a, T> {
    /// The next value, if any.
    pub fn next(&mut self) -> (r: Option<&'a T>)
        ensures
            old(self)@.len() == 0 ==> r is None && final(self)@ == old(self)@,
            old(self)@.len() > 0 ==> (r matches Some(v) && *v == old(self)@[0] && final(self)@
                == old(self)@.drop_first()),
    {
        match self.0 {
            None => None,
            Some(node) => {
                proof {
                    assert(values(Some(Box::new(*node))).drop_first() =~= values(node.next));
                }
                match &node.next {
                    Some(next) => {
                        self.0 = Some(&**next);
                    },
                    None => {
                        self.0 = None;
                    },
                }
                Some(&node.value)
            },
        }
    }
}

/// Iterator over a list's values by mutable reference.
pub struct IterMut<'a, T: 'a>(pub Option<&'a mut Node<T>>);

impl<'a, T> IterMut<'a, T> {
    /// The values still to come, as they are now.
    pub closed spec fn current(&self) -> Seq<T> {
        match self.0 {
            None => Seq::empty(),
            Some(node) => values(Some(Box::new(*node))),
        }
    }

    /// The next value, if any, by mutable reference.
    pub fn next(&mut self) -> (r: Option<&'a mut T>)
        ensures
            old(self).current().len() == 0 ==> r is None && final(self).current() == old(
                self,
            ).current(),
            // The final values from here on are the final value behind `r`
            // followed by those the iterator leaves behind.
            old(self).current().len() > 0 ==> (r matches Some(v) && *v == old(self).current()[0]
                && final(self).current() == old(self).current().drop_first() && (match (
                old(self).0,
                final(self).0,
            ) {
                (Some(n), None) => values(Some(Box::new(*final(n)))) == seq![*final(v)],
                (Some(n), Some(m)) => values(Some(Box::new(*final(n)))) == seq![*final(v)]
                    + values(Some(Box::new(*final(m)))),
                _ => false,
            })),
    {
        match self.0.take() {
            None => None,
            Some(node) => {
                let ghost fin = *final(node);
                let Node { value, next } = node;
                let ghost fin_value = *final(value);
                let ghost fin_next = *final(next);
                assert(fin == Node { value: fin_value, next: fin_next });
                assert(values(Some(Box::new(fin))) == seq![fin_value] + values(fin_next));
                match next {
                    Some(b) => {
                        let m = &mut **b;
                        let ghost fin_m = *final(m);
                        assert(fin_next == Some(Box::new(fin_m)));
                        self.0 = Some(m);
                    },
                    None => {
                        self.0 = None;
                    },
                }
                Some(value)
            },
        }
    }
}

/// Iterator that takes a list's values out of it.
pub struct LinkedListIter<T> {
    cur: Option<Box<Node<T>>>,
}

impl<T> View for LinkedListIter<T> {
    type V = Seq<T>;

    /// The values still to come.
    closed spec fn view(&self) -> Seq<T> {
        values(self.cur)
    }
}

impl<T> LinkedListIter<T> {
    /// The next value, if any.
    pub fn next(&mut self) -> (r: Option<T>)
        ensures
            old(self)@.len() == 0 ==> r is None && final(self)@ == old(self)@,
            old(self)@.len() > 0 ==> r == Some(old(self)@[0]) && final(self)@ == old(self)@.drop_first(),
    {
        match self.cur.take() {
            None => None,
            Some(node) => {
                let node = *node;
                proof {
                    assert(values(Some(Box::new(node))).drop_first() =~= values(node.next));
                }
                self.cur = node.next;
                Some(node.value)
            },
        }
    }
}

} // verus!
