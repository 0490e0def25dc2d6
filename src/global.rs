use once_cell::sync::OnceCell;
use vstd::prelude::*;

verus! {

#[verifier::external_type_specification]
#[verifier::external_body]
#[verifier::reject_recursive_types(T)]
pub struct ExOnceCell<T>(OnceCell<T>);

/// What a flag cell holds: nothing until it is set, then the value it was set to.
pub uninterp spec fn cell_value(c: OnceCell<bool>) -> Option<bool>;

/// Relies on `OnceCell::new`: a new cell is empty.
#[verifier::external_body]
fn cell_new() -> (r: OnceCell<bool>)
    ensures
        cell_value(r) is None,
{
    OnceCell::new()
}

/// Relies on `OnceCell::get`: the value, once the cell is set.
#[verifier::external_body]
fn cell_get(c: &OnceCell<bool>) -> (r: Option<bool>)
    ensures
        r == cell_value(*c),
{
    c.get().copied()
}

/// Relies on `OnceCell::set`: an empty cell takes the value and `Ok` comes
/// back; a full cell keeps its value and hands the new one back.
#[verifier::external_body]
fn cell_set(c: &mut OnceCell<bool>, value: bool) -> (r: bool)
    ensures
        cell_value(*old(c)) is None ==> r && cell_value(*final(c)) == Some(value),
        cell_value(*old(c)) is Some ==> !r && cell_value(*final(c)) == cell_value(*old(c)),
{
    c.set(value).is_ok()
}

/// The test-mode flag of an invocation: set at most once, read any time after.
pub struct TestMode {
    cell: OnceCell<bool>,
}

impl TestMode {
    /// The flag: unset, or the value it was set to.
    pub closed spec fn spec_value(&self) -> Option<bool> {
        cell_value(self.cell)
    }

    /// A flag that is not set yet.
    pub fn new() -> (r: Self)
        ensures
            r.spec_value() is None,
    {
        TestMode { cell: cell_new() }
    }

    /// Sets the flag; it can be set only once.
    pub fn set_test_mode(&mut self, enabled: bool)
        requires
            old(self).spec_value() is None,
        ensures
            final(self).spec_value() == Some(enabled),
    {
        cell_set(&mut self.cell, enabled);
    }

    /// Whether test mode is on; an unset flag reads as off.
    pub fn is_test_mode(&self) -> (r: bool)
        ensures
            r == (self.spec_value() == Some(true)),
    {
        match cell_get(&self.cell) {
            Some(v) => v,
            None => false,
        }
    }
}

} // verus!
