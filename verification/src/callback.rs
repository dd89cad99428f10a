//! Handlers: the functions that subscribers register to be told of messages.

use vstd::prelude::*;

verus! {

/// Something that can be told of a value of type `T`.
trait Handler<T>: Send + Sync {
    /// The handler can be called on every value.
    spec fn accepts_all(&self) -> bool;

    /// What the handler promises of a call on `arg`.
    spec fn promises(&self, arg: &T) -> bool;

    fn handle(&self, arg: &T)
        requires
            self.accepts_all(),
        ensures
            self.promises(arg),
    ;
}

struct FnHandler<F> {
    f: F,
}

impl<T, F: Fn(&T) -> () + Send + Sync> Handler<T> for FnHandler<F> {
    spec fn accepts_all(&self) -> bool {
        forall|arg: &T| call_requires(self.f, (arg,))
    }

    spec fn promises(&self, arg: &T) -> bool {
        call_ensures(self.f, (arg,), ())
    }

    fn handle(&self, arg: &T) {
        (self.f)(arg)
    }
}

struct FnHandler0<F> {
    f: F,
}

impl<F: Fn() -> () + Send + Sync> Handler<()> for FnHandler0<F> {
    spec fn accepts_all(&self) -> bool {
        call_requires(self.f, ())
    }

    spec fn promises(&self, arg: &()) -> bool {
        call_ensures(self.f, (), ())
    }

    fn handle(&self, arg: &()) {
        (self.f)()
    }
}

/// A struct wrapping a callback with one argument, create one with the `new` method
#[verifier::reject_recursive_types(T)]
pub struct Callback<T> {
    callback: Box<dyn Handler<T>>,
}

impl<T> Callback<T> {
    #[verifier::type_invariant]
    spec fn callable(self) -> bool {
        self.callback.accepts_all()
    }

    /// What the wrapped handler promises of a call on `arg`.
    pub closed spec fn promises(&self, arg: &T) -> bool {
        self.callback.promises(arg)
    }

    /// Wraps a handler that can be called on every value.
    pub fn new<F: 'static>(handler: F) -> (callback: Callback<T>) where
        F: Fn(&T) -> () + Send + Sync,

        requires
            forall|arg: &T| call_requires(handler, (arg,)),
        ensures
            forall|arg: &T| #[trigger] callback.promises(arg) == call_ensures(handler, (arg,), ()),
    {
        Callback { callback: Box::new(FnHandler { f: handler }) }
    }

    /// Calls the wrapped handler on `arg`.
    pub fn call(&self, arg: &T)
        ensures
            self.promises(arg),
    {
        proof {
            use_type_invariant(self);
        }
        self.callback.handle(arg)
    }
}

/// A struct wrapping a callback with no argument, create one with the `new` method
pub struct Callback0 {
    callback: Callback<()>,
}

impl Callback0 {
    /// What the wrapped handler promises of a call.
    pub closed spec fn promises(&self) -> bool {
        self.callback.promises(&())
    }

    /// The same handler, as one that is handed the empty message.
    pub closed spec fn on_unit(self) -> Callback<()> {
        self.callback
    }

    /// Wraps a handler that can be called.
    pub fn new<F: 'static>(handler: F) -> (callback: Callback0) where
        F: Fn() -> () + Send + Sync,

        requires
            call_requires(handler, ()),
        ensures
            callback.promises() == call_ensures(handler, (), ()),
    {
        Callback0 { callback: Callback { callback: Box::new(FnHandler0 { f: handler }) } }
    }

    /// Calls the wrapped handler.
    pub fn call(&self)
        ensures
            self.promises(),
    {
        self.callback.call(&())
    }

    /// The same handler, as one that is handed the empty message.
    pub fn into_unit(self) -> (callback: Callback<()>)
        ensures
            callback == self.on_unit(),
            callback.promises(&()) == self.promises(),
    {
        self.callback
    }
}

} // verus!
