//! The event router: at most one active sketch, chosen by name, and the
//! events of the host handed to it.

use vstd::prelude::*;

verus! {

/// The sketches that can be loaded by name.
#[derive(Clone, Copy, Debug, PartialEq, Eq, Structural)]
pub enum SketchKind {
    Initial,
}

/// The sketch that `name` selects, if any.
pub open spec fn kind_of_name(name: Seq<char>) -> Option<SketchKind> {
    if name == "#initial"@ {
        Some(SketchKind::Initial)
    } else {
        None
    }
}

/// Whether two strings hold the same characters.
fn same_text(a: &str, b: &str) -> (same: bool)
    ensures
        same == (a@ == b@),
{
    let n = a.unicode_len();
    if n != b.unicode_len() {
        return false;
    }
    let mut i: usize = 0;
    while i < n
        invariant
            n == a@.len(),
            n == b@.len(),
            i <= n,
            forall|j: int| 0 <= j < i ==> a@[j] == b@[j],
        decreases n - i,
    {
        if a.get_char(i) != b.get_char(i) {
            return false;
        }
        i += 1;
    }
    proof {
        assert(a@ =~= b@);
    }
    true
}

/// The sketch that `name` selects: `#initial` selects the initial sketch,
/// and every other name selects none.
pub fn sketch_kind(name: &str) -> (kind: Option<SketchKind>)
    ensures
        kind == kind_of_name(name@),
{
    if same_text(name, "#initial") {
        Some(SketchKind::Initial)
    } else {
        None
    }
}

/// Something that takes the events of the host one at a time: a sketch.
pub trait EventTarget<E>: Sized {
    /// `after` is what this target may become by handling `event`.
    spec fn handled(&self, event: &E, after: Self) -> bool;

    /// Handles `event`.
    fn dispatch(&mut self, event: &E)
        ensures
            old(self).handled(event, *final(self)),
    ;
}

/// The slot for the one active sketch: empty at first, and after loading a
/// name that selects no sketch.
pub struct Sketchbook<S> {
    active: Option<S>,
}

impl<S> Sketchbook<S> {
    /// The active sketch, if any.
    pub closed spec fn active(&self) -> Option<S> {
        self.active
    }

    /// An empty router.
    pub fn new() -> (book: Self)
        ensures
            book.active() is None,
    {
        Sketchbook { active: None }
    }

    /// Whether a sketch is active.
    pub fn is_active(&self) -> (active: bool)
        ensures
            active == self.active() is Some,
    {
        self.active.is_some()
    }

    /// Discards the active sketch, if any, then makes active the sketch that
    /// `name` selects, built by `build`. Where `name` selects none the router
    /// is left empty and `Ok(None)` comes back; where the build fails (the
    /// sketch's surface cannot be used) the router is left empty and the
    /// build's error comes back; otherwise `Ok` of the kind that was loaded.
    pub fn load_sketch<X, F: FnOnce(SketchKind) -> Result<S, X>>(&mut self, name: &str, build: F) -> (loaded: Result<
        Option<SketchKind>,
        X,
    >)
        requires
            kind_of_name(name@) matches Some(k) ==> call_requires(build, (k,)),
        ensures
            match loaded {
                Ok(kind) => {
                    &&& kind == kind_of_name(name@)
                    &&& kind is None ==> final(self).active() is None
                    &&& kind matches Some(k) ==> (final(self).active() matches Some(s) && call_ensures(
                        build,
                        (k,),
                        Ok::<S, X>(s),
                    ))
                },
                Err(e) => {
                    &&& kind_of_name(name@) matches Some(k) && call_ensures(build, (k,), Err::<S, X>(e))
                    &&& final(self).active() is None
                },
            },
    {
        self.active = None;
        let kind = sketch_kind(name);
        match kind {
            Some(k) => match build(k) {
                Ok(sketch) => {
                    self.active = Some(sketch);
                    Ok(Some(k))
                },
                Err(e) => Err(e),
            },
            None => Ok(None),
        }
    }

    /// Hands `event`, unchanged, to the handler of the active sketch, which
    /// stays active as the handler leaves it. With none active nothing
    /// changes. Returns whether a sketch took the event.
    pub fn dispatch<E>(&mut self, event: &E) -> (delivered: bool)
        where S: EventTarget<E>,
        ensures
            delivered == old(self).active() is Some,
            final(self).active() is Some == old(self).active() is Some,
            old(self).active() is None ==> *final(self) == *old(self),
            old(self).active() matches Some(s) ==> (final(self).active() matches Some(t) && s.handled(event, t)),
    {
        match &mut self.active {
            Some(sketch) => {
                sketch.dispatch(event);
                true
            },
            None => false,
        }
    }
}

} // verus!
