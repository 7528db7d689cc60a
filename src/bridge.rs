use vstd::prelude::*;

verus! {

/// The three events the native layer reports to a stream.
#[derive(Clone, Copy, Debug, PartialEq, Eq, Structural)]
pub enum CallbackKind {
    /// The device asks for frames.
    Write,
    /// The device buffer ran empty.
    Underflow,
    /// The stream met an unrecoverable error.
    Error,
}

/// What the bridge does with an event.
#[derive(Clone, Copy, Debug, PartialEq, Eq, Structural)]
pub enum CallbackAction {
    /// Call the closure registered for the event.
    Invoke,
    /// No write closure is registered: log it and write no samples.
    MissingWrite,
    /// No underflow closure is registered: drop the event.
    Ignore,
    /// No error closure is registered: log the error and abort.
    DefaultError,
}

/// The closures registered on a stream, each optional: `write` for frames,
/// `underflow` for an emptied device buffer, `error` for a fatal error.
pub struct Callbacks<W, U, E> {
    pub write: Option<W>,
    pub underflow: Option<U>,
    pub error: Option<E>,
}

/// What the bridge does with an event of `kind`, given which closures are
/// registered.
pub open spec fn callback_action(
    has_write: bool,
    has_underflow: bool,
    has_error: bool,
    kind: CallbackKind,
) -> CallbackAction {
    match kind {
        CallbackKind::Write => if has_write {
            CallbackAction::Invoke
        } else {
            CallbackAction::MissingWrite
        },
        CallbackKind::Underflow => if has_underflow {
            CallbackAction::Invoke
        } else {
            CallbackAction::Ignore
        },
        CallbackKind::Error => if has_error {
            CallbackAction::Invoke
        } else {
            CallbackAction::DefaultError
        },
    }
}

impl<W, U, E> Callbacks<W, U, E> {
    /// No closure registered.
    pub fn new() -> (r: Self)
        ensures
            r.write is None,
            r.underflow is None,
            r.error is None,
    {
        Callbacks { write: None, underflow: None, error: None }
    }

    /// Registers `callback` as the write closure, replacing any earlier one.
    pub fn register_write_callback(&mut self, callback: W)
        ensures
            final(self).write == Some(callback),
            final(self).underflow == old(self).underflow,
            final(self).error == old(self).error,
    {
        self.write = Some(callback);
    }

    /// Registers `callback` as the underflow closure, replacing any earlier
    /// one.
    pub fn register_underflow_callback(&mut self, callback: U)
        ensures
            final(self).underflow == Some(callback),
            final(self).write == old(self).write,
            final(self).error == old(self).error,
    {
        self.underflow = Some(callback);
    }

    /// Registers `callback` as the error closure, replacing any earlier one.
    pub fn register_error_callback(&mut self, callback: E)
        ensures
            final(self).error == Some(callback),
            final(self).write == old(self).write,
            final(self).underflow == old(self).underflow,
    {
        self.error = Some(callback);
    }

    /// Returns what to do with an event of `kind`: call the registered
    /// closure, or, where none is registered, the degraded path for that
    /// event.
    pub fn action(&self, kind: CallbackKind) -> (r: CallbackAction)
        ensures
            r == callback_action(
                self.write is Some,
                self.underflow is Some,
                self.error is Some,
                kind,
            ),
    {
        match kind {
            CallbackKind::Write => if self.write.is_some() {
                CallbackAction::Invoke
            } else {
                CallbackAction::MissingWrite
            },
            CallbackKind::Underflow => if self.underflow.is_some() {
                CallbackAction::Invoke
            } else {
                CallbackAction::Ignore
            },
            CallbackKind::Error => if self.error.is_some() {
                CallbackAction::Invoke
            } else {
                CallbackAction::DefaultError
            },
        }
    }
}

} // verus!
