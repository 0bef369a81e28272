//! The value stack: a sequence of values whose last element is the top.
use vstd::prelude::*;
use crate::error::StackErr;

verus! {

/// A LIFO stack of values.
pub struct Stack<V> {
    items: Vec<V>,
}

impl<V> View for Stack<V> {
    type V = Seq<V>;

    /// The values from the bottom to the top.
    closed spec fn view(&self) -> Seq<V> {
        self.items@
    }
}

/// The values of `s` from the top to the bottom.
pub open spec fn top_first<V>(s: Seq<V>) -> Seq<V> {
    Seq::new(s.len(), |i: int| s[s.len() - 1 - i])
}

impl<V: Copy> Stack<V> {
    /// An empty stack.
    pub fn new() -> (r: Stack<V>)
        ensures
            r@ == Seq::<V>::empty(),
    {
        Stack { items: Vec::new() }
    }

    /// The number of values on the stack.
    pub fn len(&self) -> (r: usize)
        ensures
            r == self@.len(),
    {
        self.items.len()
    }

    /// Puts `v` on top.
    pub fn push(&mut self, v: V)
        ensures
            final(self)@ == old(self)@.push(v),
    {
        self.items.push(v);
    }

    /// Removes and returns the top value.
    pub fn pop_one(&mut self) -> (r: Result<V, StackErr>)
        ensures
            old(self)@.len() >= 1 ==> r == Ok::<V, StackErr>(old(self)@.last())
                && final(self)@ == old(self)@.drop_last(),
            old(self)@.len() == 0 ==> r == Err::<V, StackErr>(StackErr::FewElements)
                && final(self)@ == old(self)@,
    {
        match self.items.pop() {
            Some(v) => Ok(v),
            None => Err(StackErr::FewElements),
        }
    }

    /// Removes the two topmost values and returns them as (second from the
    /// top, top). With fewer than two values the stack is left as it is.
    pub fn pop_two(&mut self) -> (r: Result<(V, V), StackErr>)
        ensures
            old(self)@.len() >= 2 ==> r == Ok::<(V, V), StackErr>(
                (old(self)@[old(self)@.len() - 2], old(self)@.last()),
            ) && final(self)@ == old(self)@.subrange(0, old(self)@.len() - 2),
            old(self)@.len() < 2 ==> r == Err::<(V, V), StackErr>(StackErr::FewElements)
                && final(self)@ == old(self)@,
    {
        let n = self.items.len();
        if n < 2 {
            return Err(StackErr::FewElements);
        }
        let a = self.items[n - 2];
        let b = self.items[n - 1];
        self.items.truncate(n - 2);
        Ok((a, b))
    }

    /// The top value, left in place.
    pub fn peek(&self) -> (r: Result<V, StackErr>)
        ensures
            self@.len() >= 1 ==> r == Ok::<V, StackErr>(self@.last()),
            self@.len() == 0 ==> r == Err::<V, StackErr>(StackErr::FewElements),
    {
        let n = self.items.len();
        if n == 0 {
            Err(StackErr::FewElements)
        } else {
            Ok(self.items[n - 1])
        }
    }

    /// The two topmost values as (second from the top, top), left in place.
    pub fn peek_two(&self) -> (r: Result<(V, V), StackErr>)
        ensures
            self@.len() >= 2 ==> r == Ok::<(V, V), StackErr>(
                (self@[self@.len() - 2], self@.last()),
            ),
            self@.len() < 2 ==> r == Err::<(V, V), StackErr>(StackErr::FewElements),
    {
        let n = self.items.len();
        if n < 2 {
            Err(StackErr::FewElements)
        } else {
            Ok((self.items[n - 2], self.items[n - 1]))
        }
    }

    /// Removes every value.
    pub fn clear(&mut self)
        ensures
            final(self)@ == Seq::<V>::empty(),
    {
        self.items.clear();
    }

    /// The values from the top to the bottom, as the full-stack print shows
    /// them.
    pub fn top_first(&self) -> (r: Vec<V>)
        ensures
            r@ == top_first(self@),
    {
        let n = self.items.len();
        let mut r: Vec<V> = Vec::new();
        let mut i: usize = 0;
        while i < n
            invariant
                n == self@.len(),
                i <= n,
                r@ =~= top_first(self@).subrange(0, i as int),
            decreases n - i,
        {
            r.push(self.items[n - 1 - i]);
            i = i + 1;
        }
        r
    }
}

} // verus!
