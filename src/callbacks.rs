//! The callback cell registered with each option, and the dispatch that the
//! host's check, change and delete callbacks run on it.
use vstd::prelude::*;

use crate::option::RC_OK;

verus! {

/// A borrowed, typed view of a native option: nothing but the option's
/// handle and the plugin's handle, rebuilt on every callback.
pub trait BorrowedOption: Sized {
    /// Handle of the native option this view refers to.
    spec fn option_ptr(&self) -> usize;

    /// Handle of the plugin the option belongs to.
    spec fn weechat_ptr(&self) -> usize;

    /// Builds the view of the option at `option_ptr`.
    fn from_ptrs(option_ptr: usize, weechat_ptr: usize) -> (r: Self)
        ensures
            r.option_ptr() == option_ptr,
            r.weechat_ptr() == weechat_ptr,
    ;
}

/// View of a native boolean option.
pub struct BooleanOpt {
    pub ptr: usize,
    pub weechat_ptr: usize,
}

impl BorrowedOption for BooleanOpt {
    open spec fn option_ptr(&self) -> usize {
        self.ptr
    }

    open spec fn weechat_ptr(&self) -> usize {
        self.weechat_ptr
    }

    fn from_ptrs(option_ptr: usize, weechat_ptr: usize) -> (r: Self) {
        BooleanOpt { ptr: option_ptr, weechat_ptr }
    }
}

/// The callbacks of one option. The cell's address is the context the host
/// hands back on every callback for that option; `K` checks a proposed
/// value, `C` is told of a change, `D` of the deletion.
pub struct OptionCallbacks<K, C, D> {
    pub weechat_ptr: usize,
    pub check_cb: Option<K>,
    pub change_cb: Option<C>,
    pub delete_cb: Option<D>,
}

/// Which of the host's callback slots get a trampoline; an empty slot is
/// registered as a null function pointer and never called back.
#[derive(Clone, Copy, Debug, PartialEq, Eq, Structural)]
pub struct Trampolines {
    pub check: bool,
    pub change: bool,
    pub delete: bool,
}

impl<K, C, D> OptionCallbacks<K, C, D> {
    /// A cell for the given callbacks of an option of the plugin at
    /// `weechat_ptr`.
    pub fn new(weechat_ptr: usize, check_cb: Option<K>, change_cb: Option<C>, delete_cb: Option<D>) -> (r: Self)
        ensures
            r.weechat_ptr == weechat_ptr,
            r.check_cb == check_cb,
            r.change_cb == change_cb,
            r.delete_cb == delete_cb,
    {
        OptionCallbacks { weechat_ptr, check_cb, change_cb, delete_cb }
    }

    /// The trampolines to register: one for each callback present.
    pub fn trampolines(&self) -> (r: Trampolines)
        ensures
            r.check == self.check_cb.is_some(),
            r.change == self.change_cb.is_some(),
            r.delete == self.delete_cb.is_some(),
    {
        Trampolines {
            check: self.check_cb.is_some(),
            change: self.change_cb.is_some(),
            delete: self.delete_cb.is_some(),
        }
    }

    /// Runs the check callback, if any, on a fresh view of the option at
    /// `option_ptr` and the proposed `value`. The answer to the host is
    /// always `RC_OK`: a check callback reports a rejection by its own means.
    pub fn check<T: BorrowedOption>(&mut self, option_ptr: usize, value: &str) -> (r: i32) where
        K: FnMut(&T, &str),

        requires
            old(self).check_cb matches Some(cb) ==> forall|o: &T, v: &str|
                #[trigger] call_requires(cb, (o, v)),
        ensures
            r == RC_OK,
            final(self).weechat_ptr == old(self).weechat_ptr,
            final(self).check_cb.is_some() == old(self).check_cb.is_some(),
            final(self).change_cb == old(self).change_cb,
            final(self).delete_cb == old(self).delete_cb,
            old(self).check_cb matches Some(cb) ==> exists|o: T|
                #[trigger] call_ensures(cb, (&o, value), ()) && o.option_ptr() == option_ptr
                    && o.weechat_ptr() == old(self).weechat_ptr,
    {
        let option = T::from_ptrs(option_ptr, self.weechat_ptr);
        match &mut self.check_cb {
            Some(cb) => {
                cb(&option, value);
            },
            None => {},
        }
        RC_OK
    }
    /// Runs the change callback, if any, on a fresh view of the option at
    /// `option_ptr`; tells whether there was one.
    pub fn change<T: BorrowedOption>(&mut self, option_ptr: usize) -> (r: bool) where
        C: FnMut(&T),

        requires
            old(self).change_cb matches Some(cb) ==> forall|o: &T| #[trigger] call_requires(cb, (o,)),
        ensures
            r == old(self).change_cb.is_some(),
            final(self).weechat_ptr == old(self).weechat_ptr,
            final(self).check_cb == old(self).check_cb,
            final(self).change_cb.is_some() == old(self).change_cb.is_some(),
            final(self).delete_cb == old(self).delete_cb,
            old(self).change_cb matches Some(cb) ==> exists|o: T|
                #[trigger] call_ensures(cb, (&o,), ()) && o.option_ptr() == option_ptr
                    && o.weechat_ptr() == old(self).weechat_ptr,
    {
        let option = T::from_ptrs(option_ptr, self.weechat_ptr);
        match &mut self.change_cb {
            Some(cb) => {
                cb(&option);
                true
            },
            None => false,
        }
    }

    /// Runs the delete callback, if any, on a fresh view of the option at
    /// `option_ptr`; tells whether there was one.
    pub fn delete<T: BorrowedOption>(&mut self, option_ptr: usize) -> (r: bool) where
        D: FnMut(&T),

        requires
            old(self).delete_cb matches Some(cb) ==> forall|o: &T| #[trigger] call_requires(cb, (o,)),
        ensures
            r == old(self).delete_cb.is_some(),
            final(self).weechat_ptr == old(self).weechat_ptr,
            final(self).check_cb == old(self).check_cb,
            final(self).change_cb == old(self).change_cb,
            final(self).delete_cb.is_some() == old(self).delete_cb.is_some(),
            old(self).delete_cb matches Some(cb) ==> exists|o: T|
                #[trigger] call_ensures(cb, (&o,), ()) && o.option_ptr() == option_ptr
                    && o.weechat_ptr() == old(self).weechat_ptr,
    {
        let option = T::from_ptrs(option_ptr, self.weechat_ptr);
        match &mut self.delete_cb {
            Some(cb) => {
                cb(&option);
                true
            },
            None => false,
        }
    }
}

} // verus!
