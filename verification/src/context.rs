//! The model context of a session: the ordered items the model is shown.
use crate::items::{clone_items, ResponseItem};
use vstd::prelude::*;

verus! {

/// The items that make up the model's context, in order.
#[derive(Debug)]
pub struct ContextManager {
    items: Vec<ResponseItem>,
}

impl View for ContextManager {
    type V = Seq<ResponseItem>;

    closed spec fn view(&self) -> Seq<ResponseItem> {
        self.items@
    }
}

impl ContextManager {
    /// An empty context.
    pub fn new() -> (context: Self)
        ensures
            context@ == Seq::<ResponseItem>::empty(),
    {
        ContextManager { items: Vec::new() }
    }

    /// Replaces the whole context by `items`.
    pub fn replace(&mut self, items: Vec<ResponseItem>)
        ensures
            final(self)@ == items@,
    {
        self.items = items;
    }

    /// The items of the context, in order.
    pub fn raw_items(&self) -> (items: &[ResponseItem])
        ensures
            items@ == self@,
    {
        self.items.as_slice()
    }

    /// The number of items in the context.
    pub fn len(&self) -> (n: usize)
        ensures
            n == self@.len(),
    {
        self.items.len()
    }

    /// A copy of the context, with the same items.
    pub fn duplicate(&self) -> (copy: Self)
        ensures
            copy@ == self@,
    {
        ContextManager { items: clone_items(self.items.as_slice()) }
    }
}

impl Clone for ContextManager {
    fn clone(&self) -> (copy: Self)
        ensures
            copy@ == self@,
    {
        self.duplicate()
    }
}

} // verus!
