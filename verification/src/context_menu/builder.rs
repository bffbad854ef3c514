//! A context menu builder: hands menu items over to an implementation through their raw records.

use super::item::{Item, ItemKind, ItemView, opt_item_view, lemma_item_raw_roundtrip};
use super::ContextMenuError;
use vstd::prelude::*;

verus! {

/// An implementation of a [`ContextMenuBuilder`], written by plugins and hosts.
pub trait ContextMenuBuilderImpl {
    /// Returns `true` if the given type of menu item is supported, `false` otherwise.
    fn supports(&mut self, item_type: ItemKind) -> bool;

    /// Adds the given item to the context menu.
    fn add_item(&mut self, item: Item) -> Result<(), ContextMenuError>;
}

/// Builds a context menu from a list of [`Item`]s, by handing each of them, through its raw kind
/// and data record, to the implementation it wraps.
pub struct ContextMenuBuilder<'a, I: ContextMenuBuilderImpl> {
    implementation: &'a mut I,
    added: Ghost<Seq<ItemView>>,
}

impl<'a, I: ContextMenuBuilderImpl> ContextMenuBuilder<'a, I> {
    /// The implementation this builder wraps.
    pub closed spec fn spec_implementation(&self) -> I {
        *self.implementation
    }

    /// The menu built so far: in order, each item this builder handed to the implementation, in
    /// the form it was handed over ([`handed_item`]), and reported added ([`add_item_outcome`]).
    pub closed spec fn spec_added(&self) -> Seq<ItemView> {
        self.added@
    }

    /// Creates a builder that wraps the given implementation.
    pub fn new(implementation: &'a mut I) -> (builder: Self)
        ensures
            builder.spec_implementation() == *old(implementation),
            builder.spec_added() == Seq::<ItemView>::empty(),
    {
        ContextMenuBuilder { implementation, added: Ghost(Seq::empty()) }
    }

    /// Returns the context the raw builder record carries: the wrapped implementation.
    pub fn as_raw_mut(&mut self) -> (raw: &mut I)
        ensures
            *raw == old(self).spec_implementation(),
    {
        self.implementation
    }

    /// Returns `true` if the given type of menu item is supported, `false` otherwise.
    ///
    /// The kind travels as its raw value; the implementation is asked about the kind it stands for.
    pub fn supports(&mut self, item_kind: ItemKind) -> (supported: bool)
        ensures
            final(self).spec_added() == old(self).spec_added(),
    {
        let raw = item_kind.to_raw();
        match ItemKind::from_raw(raw) {
            Some(kind) => {
                assert(kind == item_kind);
                self.implementation.supports(kind)
            },
            None => false,
        }
    }

    /// Adds the given item to the context menu.
    ///
    /// The implementation receives the item as [`handed_item`] gives it, which is the given one;
    /// its answer becomes the result as [`add_item_outcome`] says.
    pub fn add_item(&mut self, item: &Item) -> (r: Result<(), ContextMenuError>)
        requires
            item@.wf(),
        ensures
            r matches Err(e) ==> e == ContextMenuError::Builder,
            r is Ok ==> final(self).spec_added() == old(self).spec_added().push(item@),
            r is Err ==> final(self).spec_added() == old(self).spec_added(),
    {
        match handed_item(item) {
            Some(received) => {
                let ghost view = received@;
                let answer = self.implementation.add_item(received);
                let r = add_item_outcome(answer);
                if r.is_ok() {
                    self.added = Ghost(self.added@.push(view));
                }
                r
            },
            None => Err(ContextMenuError::Builder),
        }
    }
}

/// The item an implementation receives for a given item: the one that the item's raw kind and
/// data record stand for, which is the given item.
pub fn handed_item(item: &Item) -> (received: Option<Item>)
    requires
        item@.wf(),
    ensures
        opt_item_view(received) == Some(item@),
{
    let raw_item = item.raw_item();
    let item_kind = item.kind();
    let received = Item::from_raw(item_kind.to_raw(), raw_item.as_ref());
    proof {
        lemma_item_raw_roundtrip(item@);
    }
    received
}

/// What a builder reports for an implementation's answer to an added item: success where it
/// succeeded, else [`ContextMenuError::Builder`], whatever its error.
pub fn add_item_outcome(answer: Result<(), ContextMenuError>) -> (r: Result<(), ContextMenuError>)
    ensures
        r == (match answer {
            Ok(()) => Ok::<(), ContextMenuError>(()),
            Err(_) => Err(ContextMenuError::Builder),
        }),
{
    match answer {
        Ok(()) => Ok(()),
        Err(_) => Err(ContextMenuError::Builder),
    }
}

} // verus!
