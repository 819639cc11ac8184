//! Cells for values that are set once at startup and read afterwards.
use vstd::prelude::*;

verus! {

/// A cell that holds a value and is readable once it has been populated.
pub struct DynamicReadOnlyCell<T> {
    data: Option<T>,
    is_populated: bool,
}

impl<T> DynamicReadOnlyCell<T> {
    /// The value readable from the cell: `None` until it is populated.
    pub closed spec fn value(&self) -> Option<T> {
        if self.is_populated {
            self.data
        } else {
            None
        }
    }

    /// A cell holding `v` that is not yet readable.
    pub fn new(v: T) -> (r: Self)
        ensures
            r.value() is None,
    {
        DynamicReadOnlyCell { data: Some(v), is_populated: false }
    }

    /// A cell that is readable at once, holding `data`.
    pub fn from(data: T) -> (r: Self)
        ensures
            r.value() == Some(data),
    {
        DynamicReadOnlyCell { data: Some(data), is_populated: true }
    }

    /// Populates the cell with `data`.
    pub fn set(&mut self, data: T)
        ensures
            final(self).value() == Some(data),
    {
        self.data = Some(data);
        self.is_populated = true;
    }

    /// The value, or `None` when the cell is not populated.
    pub fn try_get_ref(&self) -> (r: Option<&T>)
        ensures
            r == match self.value() {
                Some(v) => Some(&v),
                None => None::<&T>,
            },
    {
        if !self.is_populated {
            None
        } else {
            match &self.data {
                Some(v) => Some(v),
                None => None,
            }
        }
    }

    /// The value of a populated cell.
    pub fn get_ref(&self) -> (r: &T)
        requires
            self.value() is Some,
        ensures
            Some(*r) == self.value(),
    {
        self.data.as_ref().unwrap()
    }
}

impl<T: Copy> DynamicReadOnlyCell<T> {
    /// A copy of the value of a populated cell.
    pub fn get(&self) -> (r: T)
        requires
            self.value() is Some,
        ensures
            Some(r) == self.value(),
    {
        *self.get_ref()
    }

    /// A copy of the value, or `None` when the cell is not populated.
    pub fn try_get(&self) -> (r: Option<T>)
        ensures
            r == self.value(),
    {
        match self.try_get_ref() {
            Some(v) => Some(*v),
            None => None,
        }
    }
}

/// A cell that starts empty and is set once at startup.
pub struct GlobalCell<T>(Option<T>);

impl<T> GlobalCell<T> {
    /// What the cell holds.
    pub closed spec fn value(&self) -> Option<T> {
        self.0
    }

    /// An empty cell.
    pub fn new() -> (r: Self)
        ensures
            r.value() is None,
    {
        GlobalCell(None)
    }

    /// Puts `v` in the cell, replacing what it held.
    pub fn set(&mut self, v: T)
        ensures
            final(self).value() == Some(v),
    {
        self.0 = Some(v);
    }

    /// The value of a cell that has been set, for update in place.
    pub fn get(&mut self) -> (r: &mut T)
        requires
            old(self).value() is Some,
        ensures
            *r == old(self).value()->Some_0,
            final(self).value() == Some(*final(r)),
    {
        self.0.as_mut().unwrap()
    }
}

} // verus!
