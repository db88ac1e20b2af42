//! Values that are made when they are first asked for.
use vstd::prelude::*;

verus! {

/// A value that is made by `init_function` the first time it is asked for and
/// kept from then on. The function runs at most once.
pub struct Lazy<T, F> {
    value: Option<T>,
    init_function: Option<F>,
}

impl<T, F: FnOnce() -> T> Lazy<T, F> {
    /// The value, once it has been made.
    pub closed spec fn spec_value(&self) -> Option<T> {
        self.value
    }

    /// The function that makes the value, until it has run.
    pub closed spec fn spec_init_function(&self) -> Option<F> {
        self.init_function
    }

    /// Either the value has been made or the function that makes it is still
    /// there and can be called.
    pub open spec fn wf(&self) -> bool {
        self.spec_value() is None ==> self.spec_init_function() is Some
            && self.spec_init_function()->Some_0.requires(())
    }

    pub fn new(init_function: F) -> (result: Lazy<T, F>)
        requires
            init_function.requires(()),
        ensures
            result.wf(),
            result.spec_value() is None,
            result.spec_init_function() == Some(init_function),
    {
        Lazy { value: None, init_function: Some(init_function) }
    }

    /// Whether the value has been made.
    pub fn is_initialized(&self) -> (result: bool)
        ensures
            result == self.spec_value() is Some,
    {
        self.value.is_some()
    }

    /// The value. The first call makes it with the function given to `new`;
    /// every later call gives the same value and runs nothing.
    pub fn get(&mut self) -> (result: &T)
        requires
            old(self).wf(),
        ensures
            final(self).wf(),
            final(self).spec_value() == Some(*result),
            old(self).spec_value() is Some ==> *final(self) == *old(self),
            old(self).spec_value() is None ==> old(self).spec_init_function()->Some_0.ensures(
                (),
                *result,
            ) && final(self).spec_init_function() is None,
    {
        if self.value.is_none() {
            let init_function = self.init_function.take();
            match init_function {
                Some(f) => {
                    self.value = Some(f());
                },
                None => {},
            }
        }
        self.value.as_ref().unwrap()
    }

    /// The value, as `get` gives it, for a `Lazy` that lives as long as the
    /// kernel runs.
    pub fn get_static_ref(&mut self) -> (result: &T)
        requires
            old(self).wf(),
        ensures
            final(self).wf(),
            final(self).spec_value() == Some(*result),
            old(self).spec_value() is Some ==> *final(self) == *old(self),
            old(self).spec_value() is None ==> old(self).spec_init_function()->Some_0.ensures(
                (),
                *result,
            ) && final(self).spec_init_function() is None,
    {
        self.get()
    }
}

/// The name under which the kernel first knew `Lazy`.
pub type LazyInitializer<T, F> = Lazy<T, F>;

} // verus!
