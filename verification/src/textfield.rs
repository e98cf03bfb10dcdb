//! Pushing an app-owned value into a text field that owns what is typed in it.
//!
//! A field's element is rebuilt only when the app-side value changes to
//! something the user did not type: rebuilding it on a keystroke would lose the
//! caret.

use vstd::prelude::*;

use crate::text::same_text;

verus! {

/// What the field's element holds, and how often it has been rebuilt.
#[derive(Debug, Clone, PartialEq, Eq)]
pub struct PushBack {
    generation: u32,
    in_dom: String,
}

impl PushBack {
    pub closed spec fn builds(self) -> u32 {
        self.generation
    }

    pub closed spec fn shown(self) -> Seq<char> {
        self.in_dom@
    }

    /// A field first built with `current` in it.
    pub fn new(current: String) -> (r: PushBack)
        ensures
            r.builds() == 0,
            r.shown() == current@,
    {
        PushBack { generation: 0, in_dom: current }
    }

    /// The element's key: a new one rebuilds it.
    pub fn key(&self) -> (r: u32)
        ensures
            r == self.builds(),
    {
        self.generation
    }

    /// What the user typed is in the element already.
    pub fn typed(&mut self, v: &str)
        ensures
            final(self).builds() == old(self).builds(),
            final(self).shown() == v@,
    {
        self.in_dom = v.to_owned();
    }

    /// Take note of the app-side value: one the element does not hold rebuilds
    /// it.
    pub fn step(&mut self, current: &str)
        requires
            current@ == old(self).shown() || old(self).builds() < u32::MAX,
        ensures
            final(self).shown() == current@,
            final(self).builds() == (if current@ == old(self).shown() {
                old(self).builds()
            } else {
                (old(self).builds() + 1) as u32
            }),
    {
        if !same_text(current, self.in_dom.as_str()) {
            self.in_dom = current.to_owned();
            self.generation += 1;
        }
    }
}

/// A keystroke, with the app-side value it leads to, rebuilds nothing.
pub fn keystroke(field: &mut PushBack, v: &str)
    ensures
        final(field).builds() == old(field).builds(),
        final(field).shown() == v@,
{
    field.typed(v);
    field.step(v);
}

} // verus!
