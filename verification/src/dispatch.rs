use vstd::prelude::*;

verus! {

/// Registry of one-way local signal handlers, keyed by method name. The
/// handlers are arbitrary caller-supplied closures, which Verus cannot hold
/// in a table it reads, so the table is kept opaque and only its key set is
/// modelled, by `signal_names`. A later registration under the same name
/// replaces the earlier one.
#[verifier::external_body]
pub struct SignalHandlers {
    entries: Vec<(String, Box<dyn Fn(Vec<u8>)>)>,
}

/// The set of names under which a signal handler is registered.
pub uninterp spec fn signal_names(m: SignalHandlers) -> Set<Seq<char>>;

impl SignalHandlers {
    /// A fresh, empty registry: no name is registered.
    #[verifier::external_body]
    pub fn new() -> (r: SignalHandlers)
        ensures
            signal_names(r) == Set::<Seq<char>>::empty(),
    {
        SignalHandlers { entries: Vec::new() }
    }

    /// Relies on std's Vec::retain and Vec::push: afterwards the name is
    /// registered, everything else is as before; an earlier handler under the
    /// same name is replaced.
    #[verifier::external_body]
    pub fn insert<F: Fn(&[u8]) + 'static>(&mut self, name: &str, handler: F)
        ensures
            signal_names(*final(self)) == signal_names(*old(self)).insert(name@),
    {
        self.entries.retain(|e| e.0 != name);
        self.entries.push((name.to_owned(), Box::new(move |v: Vec<u8>| handler(v.as_slice()))));
    }

    /// Relies on std's Iterator::find: looks the handler registered under
    /// the name up, and invokes it once with exactly `data`. Returns whether
    /// the name was registered. A panic inside the handler itself is the
    /// handler's own affair, outside this layer's contract.
    #[verifier::external_body]
    pub fn invoke(&self, name: &str, data: &[u8]) -> (r: bool)
        ensures
            r == signal_names(*self).contains(name@),
    {
        match self.entries.iter().find(|e| e.0 == name) {
            Some(entry) => {
                entry.1(data.to_vec());
                true
            },
            None => false,
        }
    }
}

/// Registry of request/response local method handlers, keyed by method name,
/// kept opaque for the same reason as `SignalHandlers`; only its key set is
/// modelled, by `method_names`.
#[verifier::external_body]
pub struct MethodHandlers {
    entries: Vec<(String, Box<dyn Fn(Vec<u8>) -> Vec<u8>>)>,
}

/// The set of names under which a method handler is registered.
pub uninterp spec fn method_names(m: MethodHandlers) -> Set<Seq<char>>;

impl MethodHandlers {
    /// A fresh, empty registry: no name is registered.
    #[verifier::external_body]
    pub fn new() -> (r: MethodHandlers)
        ensures
            method_names(r) == Set::<Seq<char>>::empty(),
    {
        MethodHandlers { entries: Vec::new() }
    }

    /// Relies on std's Vec::retain and Vec::push: afterwards the name is
    /// registered, everything else is as before; an earlier handler under the
    /// same name is replaced.
    #[verifier::external_body]
    pub fn insert<F: Fn(&[u8]) -> Vec<u8> + 'static>(&mut self, name: &str, handler: F)
        ensures
            method_names(*final(self)) == method_names(*old(self)).insert(name@),
    {
        self.entries.retain(|e| e.0 != name);
        self.entries.push((name.to_owned(), Box::new(move |v: Vec<u8>| handler(v.as_slice()))));
    }

    /// Relies on std's Iterator::find: looks the handler registered under
    /// the name up, invokes it once with exactly `data`, and hands its
    /// output back; `None` exactly when the name is not registered.
    #[verifier::external_body]
    pub fn invoke(&self, name: &str, data: &[u8]) -> (r: Option<Vec<u8>>)
        ensures
            r is Some == method_names(*self).contains(name@),
    {
        self.entries.iter().find(|e| e.0 == name).map(|entry| entry.1(data.to_vec()))
    }
}

} // verus!
