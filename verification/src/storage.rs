//! A place for one value of a canister's state. The place starts empty; a
//! value enters it by name or as its type's default, and callers work on the
//! value through closures.

use vstd::prelude::*;

verus! {

/// The place of a value of type `T`.
pub struct Storage<T> {
    value: Option<T>,
}

/// `value` is what a place that held `before` offers to a caller that asks
/// for a value in any case: what it held or, if it held nothing, a default
/// of the type.
pub open spec fn offered<T: Default>(before: Option<T>, value: T) -> bool {
    match before {
        Some(held) => value == held,
        None => call_ensures(T::default, (), value),
    }
}

/// `value` is what a place that held `before` held.
pub open spec fn found<T>(before: Option<T>, value: T) -> bool {
    before == Some(value)
}

impl<T> Storage<T> {
    /// What the place holds.
    pub closed spec fn held(&self) -> Option<T> {
        self.value
    }

    /// An empty place.
    pub fn new() -> (storage: Storage<T>)
        ensures
            storage.held() is None,
    {
        Storage { value: None }
    }

    /// Empties the place. Returns whether it held a value.
    pub fn clear(&mut self) -> (removed: bool)
        ensures
            removed == old(self).held() is Some,
            final(self).held() is None,
    {
        self.value.take().is_some()
    }

    /// Whether the place holds a value.
    pub fn is_set(&self) -> (b: bool)
        ensures
            b == self.held() is Some,
    {
        self.value.is_some()
    }
}

impl<T: Default> Storage<T> {
    /// A mutable reference to the held value, which is first set to the
    /// type's default where the place is empty. What the caller writes
    /// through the reference is what the place holds afterwards.
    pub fn get_mut(&mut self) -> (value: &mut T)
        ensures
            offered(old(self).held(), *value),
            final(self).held() == Some(*final(value)),
    {
        if self.value.is_none() {
            self.value = Some(T::default());
        }
        self.value.as_mut().unwrap()
    }
}

/// Passes a reference to the held value to `callback` and returns what the
/// callback returns. An empty place is first filled with the type's default.
pub fn with<T: Default, U, F: FnOnce(&T) -> U>(storage: &mut Storage<T>, callback: F) -> (out: U)
    requires
        forall|value: T|
            offered(old(storage).held(), value) ==> #[trigger] call_requires(callback, (&value,)),
    ensures
        final(storage).held() matches Some(value) && offered(old(storage).held(), value)
            && call_ensures(callback, (&value,), out),
{
    if storage.value.is_none() {
        storage.value = Some(T::default());
    }
    callback(storage.value.as_ref().unwrap())
}

/// Like [`with`], but leaves an empty place empty and returns `None` for it.
pub fn maybe_with<T, U, F: FnOnce(&T) -> U>(storage: &Storage<T>, callback: F) -> (out: Option<U>)
    requires
        storage.held() matches Some(value) ==> call_requires(callback, (&value,)),
    ensures
        match out {
            Some(out) => storage.held() matches Some(value) && call_ensures(
                callback,
                (&value,),
                out,
            ),
            None => storage.held() is None,
        },
{
    match &storage.value {
        Some(value) => Some(callback(value)),
        None => None,
    }
}

/// Passes a mutable reference to the held value to `callback` and returns
/// what the callback returns; the place then holds the value as the callback
/// left it. An empty place is first filled with the type's default.
pub fn with_mut<T: Default, U, F: FnOnce(&mut T) -> U>(
    storage: &mut Storage<T>,
    callback: F,
) -> (out: U)
    requires
        forall|value: &mut T|
            offered(old(storage).held(), *value) ==> #[trigger] call_requires(callback, (value,)),
    ensures
        final(storage).held() is Some,
        exists|value: &mut T|
            offered(old(storage).held(), *value) && *final(value) == final(storage).held().unwrap()
                && #[trigger] call_ensures(callback, (value,), out),
{
    let mut value: T = match storage.value.take() {
        Some(value) => value,
        None => T::default(),
    };
    let out = callback(&mut value);
    storage.value = Some(value);
    out
}

/// Like [`with_mut`], but leaves an empty place empty and returns `None`
/// for it.
pub fn maybe_with_mut<T, U, F: FnOnce(&mut T) -> U>(
    storage: &mut Storage<T>,
    callback: F,
) -> (out: Option<U>)
    requires
        forall|value: &mut T|
            found(old(storage).held(), *value) ==> #[trigger] call_requires(callback, (value,)),
    ensures
        out is Some == old(storage).held() is Some,
        final(storage).held() is Some == old(storage).held() is Some,
        out is Some ==> exists|value: &mut T|
            found(old(storage).held(), *value) && *final(value) == final(storage).held().unwrap()
                && #[trigger] call_ensures(callback, (value,), out.unwrap()),
{
    let held = storage.value.take();
    if held.is_none() {
        return None;
    }
    let mut value: T = held.unwrap();
    let returned = callback(&mut value);
    storage.value = Some(value);
    let out = Some(returned);
    proof {
        let seen = choose|seen: &mut T|
            found(old(storage).held(), *seen) && *final(seen) == storage.held().unwrap()
                && #[trigger] call_ensures(callback, (seen,), returned);
        assert(call_ensures(callback, (seen,), out.unwrap()));
    }
    out
}

/// Removes the held value and returns it.
pub fn take<T>(storage: &mut Storage<T>) -> (out: Option<T>)
    ensures
        out == old(storage).held(),
        final(storage).held() is None,
{
    storage.value.take()
}

/// Puts `value` in the place and returns what the place held before.
pub fn swap<T>(storage: &mut Storage<T>, value: T) -> (out: Option<T>)
    ensures
        out == old(storage).held(),
        final(storage).held() == Some(value),
{
    let out = storage.value.take();
    storage.value = Some(value);
    out
}

} // verus!
