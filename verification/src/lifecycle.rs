//! The ownership discipline of the native handles, as a verified model.
//!
//! Four native resource kinds form a strict hierarchy: a library context
//! owns renderers and tracks, and a renderer lends out at most one image
//! sequence per render call.  Each resource must be created once,
//! destroyed exactly once, never outlive its parent, and never lend two
//! image sequences at a time.  `HandleTable` is that protocol as a state
//! machine over plain identifiers: every transition states exactly when
//! it succeeds, a violating request is refused deterministically and
//! leaves the state unchanged, and the laws at the end of this module
//! prove that a destroyed handle can never be destroyed again, that a
//! parent is live as long as any of its children, and that a second
//! image sequence is refused while one is outstanding.

use vstd::prelude::*;
use crate::Error;

verus! {

/// No value occurs twice.
pub open spec fn distinct_ids(s: Seq<u64>) -> bool {
    forall|i: int, j: int| 0 <= i < j < s.len() ==> s[i] != s[j]
}

/// No child identifier occurs twice in a (child, parent) sequence.
pub open spec fn distinct_children(s: Seq<(u64, u64)>) -> bool {
    forall|i: int, j: int| 0 <= i < j < s.len() ==> s[i].0 != s[j].0
}

/// Whether a (child, parent) sequence holds the child `id`.
pub open spec fn child_live(s: Seq<(u64, u64)>, id: u64) -> bool {
    exists|j: int| 0 <= j < s.len() && s[j].0 == id
}

/// Whether a (child, parent) sequence holds any child of `parent`.
pub open spec fn any_child_of(s: Seq<(u64, u64)>, parent: u64) -> bool {
    exists|j: int| 0 <= j < s.len() && s[j].1 == parent
}

/// Removing position `i` from a duplicate-free identifier sequence
/// removes exactly that identifier.
proof fn lemma_remove_id(s: Seq<u64>, i: int)
    requires
        distinct_ids(s),
        0 <= i < s.len(),
    ensures
        distinct_ids(s.remove(i)),
        !s.remove(i).contains(s[i]),
        forall|y: u64| y != s[i] ==> s.remove(i).contains(y) == s.contains(y),
        forall|j: int| 0 <= j < s.remove(i).len() ==> s.contains(#[trigger] s.remove(i)[j]),
{
    let rem = s.remove(i);
    s.remove_ensures(i);
    assert forall|j: int| 0 <= j < rem.len() implies s.contains(#[trigger] rem[j]) by {
        if j < i {
            assert(rem[j] == s[j]);
        } else {
            assert(rem[j] == s[j + 1]);
        }
    }
    assert forall|j: int| 0 <= j < rem.len() implies rem[j] != s[i] by {
        if j < i {
            assert(rem[j] == s[j]);
        } else {
            assert(rem[j] == s[j + 1]);
        }
    }
    assert forall|y: u64| y != s[i] && s.contains(y) implies rem.contains(y) by {
        let k = choose|k: int| 0 <= k < s.len() && s[k] == y;
        if k < i {
            assert(rem[k] == y);
        } else {
            assert(rem[k - 1] == y);
        }
    }
}

/// Removing position `i` from a duplicate-free (child, parent) sequence
/// removes exactly that child, and every surviving pair stood in the
/// original sequence.
proof fn lemma_remove_child(s: Seq<(u64, u64)>, i: int)
    requires
        distinct_children(s),
        0 <= i < s.len(),
    ensures
        distinct_children(s.remove(i)),
        !child_live(s.remove(i), s[i].0),
        forall|y: u64| y != s[i].0 ==> child_live(s.remove(i), y) == child_live(s, y),
        forall|j: int| 0 <= j < s.remove(i).len() ==> s.contains(#[trigger] s.remove(i)[j]),
{
    let rem = s.remove(i);
    s.remove_ensures(i);
    assert forall|j: int| 0 <= j < rem.len() implies s.contains(#[trigger] rem[j]) by {
        if j < i {
            assert(rem[j] == s[j]);
        } else {
            assert(rem[j] == s[j + 1]);
        }
    }
    assert forall|j: int| 0 <= j < rem.len() implies rem[j].0 != s[i].0 by {
        if j < i {
            assert(rem[j] == s[j]);
        } else {
            assert(rem[j] == s[j + 1]);
        }
    }
    assert forall|y: u64| y != s[i].0 && child_live(s, y) implies child_live(rem, y) by {
        let k = choose|k: int| 0 <= k < s.len() && s[k].0 == y;
        if k < i {
            assert(rem[k].0 == y);
        } else {
            assert(rem[k - 1].0 == y);
        }
    }
}

/// Finds a value in an identifier list.
fn find_id(v: &Vec<u64>, x: u64) -> (r: Option<usize>)
    ensures
        r matches Some(i) ==> i < v@.len() && v@[i as int] == x,
        r is None ==> !v@.contains(x),
{
    let n: usize = v.len();
    let mut i: usize = 0;
    while i < n
        invariant
            n == v@.len(),
            i <= n,
            forall|j: int| 0 <= j < i ==> v@[j] != x,
        decreases n - i,
    {
        if v[i] == x {
            return Some(i);
        }
        i = i + 1;
    }
    None
}

/// Finds a child in a (child, parent) list.
fn find_child(v: &Vec<(u64, u64)>, id: u64) -> (r: Option<usize>)
    ensures
        r matches Some(i) ==> i < v@.len() && v@[i as int].0 == id,
        r is None ==> !child_live(v@, id),
{
    let n: usize = v.len();
    let mut i: usize = 0;
    while i < n
        invariant
            n == v@.len(),
            i <= n,
            forall|j: int| 0 <= j < i ==> v@[j].0 != id,
        decreases n - i,
    {
        if v[i].0 == id {
            return Some(i);
        }
        i = i + 1;
    }
    None
}

/// Whether a (child, parent) list holds any child of `parent`.
fn has_child_of(v: &Vec<(u64, u64)>, parent: u64) -> (r: bool)
    ensures
        r == any_child_of(v@, parent),
{
    let n: usize = v.len();
    let mut i: usize = 0;
    while i < n
        invariant
            n == v@.len(),
            i <= n,
            forall|j: int| 0 <= j < i ==> v@[j].1 != parent,
        decreases n - i,
    {
        if v[i].1 == parent {
            return true;
        }
        i = i + 1;
    }
    false
}

/// The live native resources, each a plain identifier: library contexts,
/// renderers and tracks with the context each belongs to, and the
/// renderers whose last render call's image sequence is still lent out.
pub struct HandleTable {
    next_id: u64,
    contexts: Vec<u64>,
    renderers: Vec<(u64, u64)>,
    tracks: Vec<(u64, u64)>,
    frames: Vec<u64>,
}

impl HandleTable {
    /// The table's invariant: identifiers are unique and below the
    /// allocation cursor, every renderer and track belongs to a live
    /// context, and every lent image sequence belongs to a live
    /// renderer.
    pub closed spec fn wf(self) -> bool {
        &&& distinct_ids(self.contexts@)
        &&& distinct_children(self.renderers@)
        &&& distinct_children(self.tracks@)
        &&& distinct_ids(self.frames@)
        &&& forall|j: int|
            0 <= j < self.renderers@.len() ==> self.contexts@.contains(
                #[trigger] self.renderers@[j].1,
            )
        &&& forall|j: int|
            0 <= j < self.tracks@.len() ==> self.contexts@.contains(#[trigger] self.tracks@[j].1)
        &&& forall|j: int|
            0 <= j < self.frames@.len() ==> child_live(self.renderers@, #[trigger] self.frames@[j])
        &&& forall|j: int| 0 <= j < self.contexts@.len() ==> #[trigger] self.contexts@[j] < self.next_id
        &&& forall|j: int|
            0 <= j < self.renderers@.len() ==> (#[trigger] self.renderers@[j].0) < self.next_id
        &&& forall|j: int|
            0 <= j < self.tracks@.len() ==> (#[trigger] self.tracks@[j].0) < self.next_id
    }

    /// Whether the context `id` is live.
    pub closed spec fn context_live(self, id: u64) -> bool {
        self.contexts@.contains(id)
    }

    /// Whether the renderer `id` is live.
    pub closed spec fn renderer_live(self, id: u64) -> bool {
        child_live(self.renderers@, id)
    }

    /// Whether the track `id` is live.
    pub closed spec fn track_live(self, id: u64) -> bool {
        child_live(self.tracks@, id)
    }

    /// Whether the renderer `id` is live and belongs to the context
    /// `ctx`.
    pub closed spec fn renderer_bound(self, id: u64, ctx: u64) -> bool {
        self.renderers@.contains((id, ctx))
    }

    /// Whether the track `id` is live and belongs to the context `ctx`.
    pub closed spec fn track_bound(self, id: u64, ctx: u64) -> bool {
        self.tracks@.contains((id, ctx))
    }

    /// Whether the image sequence of renderer `id`'s last render call is
    /// still lent out.
    pub closed spec fn frame_open(self, id: u64) -> bool {
        self.frames@.contains(id)
    }

    /// Whether the context `id` still owns a live renderer or track.
    pub closed spec fn context_has_children(self, id: u64) -> bool {
        any_child_of(self.renderers@, id) || any_child_of(self.tracks@, id)
    }

    /// Whether a fresh identifier can still be allocated.
    pub closed spec fn fresh_ids_left(self) -> bool {
        self.next_id < u64::MAX
    }

    /// When destroying the context `id` is accepted: it is live and owns
    /// nothing any more — a context must outlive its renderers and
    /// tracks.
    pub open spec fn can_destroy_context(self, id: u64) -> bool {
        self.context_live(id) && !self.context_has_children(id)
    }

    /// When destroying the renderer `id` is accepted: it is live and its
    /// last image sequence has been given back.
    pub open spec fn can_destroy_renderer(self, id: u64) -> bool {
        self.renderer_live(id) && !self.frame_open(id)
    }

    /// When destroying the track `id` is accepted: it is live.
    pub open spec fn can_destroy_track(self, id: u64) -> bool {
        self.track_live(id)
    }

    /// When a render call on renderer `id` may lend out an image
    /// sequence: the renderer is live and its previous sequence is no
    /// longer held — the engine reuses that storage on the next call.
    pub open spec fn can_begin_frame(self, id: u64) -> bool {
        self.renderer_live(id) && !self.frame_open(id)
    }

    /// An empty table: nothing is live.
    pub fn new() -> (t: HandleTable)
        ensures
            t.wf(),
            forall|y: u64| !t.context_live(y),
            forall|y: u64| !t.renderer_live(y),
            forall|y: u64| !t.track_live(y),
            forall|y: u64| !t.frame_open(y),
            t.fresh_ids_left(),
    {
        HandleTable {
            next_id: 0,
            contexts: Vec::new(),
            renderers: Vec::new(),
            tracks: Vec::new(),
            frames: Vec::new(),
        }
    }

    /// Creates a library context.  Succeeds exactly while identifiers
    /// are left; the new identifier was not live, of any kind, before.
    pub fn create_context(&mut self) -> (r: Result<u64, Error>)
        requires
            old(self).wf(),
        ensures
            final(self).wf(),
            r is Ok <==> old(self).fresh_ids_left(),
            r is Err ==> *final(self) == *old(self),
            r matches Ok(id) ==> {
                &&& !old(self).context_live(id)
                &&& !old(self).renderer_live(id)
                &&& !old(self).track_live(id)
                &&& final(self).context_live(id)
                &&& forall|y: u64|
                    y != id ==> final(self).context_live(y) == old(self).context_live(y)
                &&& forall|y: u64| final(self).renderer_live(y) == old(self).renderer_live(y)
                &&& forall|y: u64| final(self).track_live(y) == old(self).track_live(y)
                &&& forall|y: u64| final(self).frame_open(y) == old(self).frame_open(y)
                &&& forall|y: u64, c: u64|
                    final(self).renderer_bound(y, c) == old(self).renderer_bound(y, c)
                &&& forall|y: u64, c: u64|
                    final(self).track_bound(y, c) == old(self).track_bound(y, c)
            },
    {
        if self.next_id == u64::MAX {
            return Err(Error);
        }
        let id = self.next_id;
        self.next_id = self.next_id + 1;
        self.contexts.push(id);
        proof {
            assert forall|y: u64| y != id implies self.context_live(y) == old(
                self,
            ).context_live(y) by {
                if old(self).contexts@.contains(y) {
                    let k = choose|k: int|
                        0 <= k < old(self).contexts@.len() && old(self).contexts@[k] == y;
                    assert(self.contexts@[k] == y);
                }
                if self.contexts@.contains(y) {
                    let k = choose|k: int| 0 <= k < self.contexts@.len() && self.contexts@[k] == y;
                    assert(old(self).contexts@[k] == y);
                }
            }
            assert(self.contexts@[self.contexts@.len() - 1] == id);
            assert forall|a: int, b: int|
                0 <= a < b < self.contexts@.len() implies self.contexts@[a]
                != self.contexts@[b] by {
                if b + 1 == self.contexts@.len() {
                    assert(self.contexts@[a] == old(self).contexts@[a]);
                    assert(old(self).contexts@[a] < old(self).next_id);
                }
            }
            assert forall|j: int| 0 <= j < self.contexts@.len() implies #[trigger] self.contexts@[j]
                < self.next_id by {
                if j + 1 < self.contexts@.len() {
                    assert(old(self).contexts@[j] < old(self).next_id);
                }
            }
            assert forall|j: int| 0 <= j < self.renderers@.len() implies self.contexts@.contains(
                #[trigger] self.renderers@[j].1,
            ) by {
                let y = self.renderers@[j].1;
                assert(old(self).contexts@.contains(y));
                let k = choose|k: int|
                    0 <= k < old(self).contexts@.len() && old(self).contexts@[k] == y;
                assert(self.contexts@[k] == y);
            }
            assert forall|j: int| 0 <= j < self.tracks@.len() implies self.contexts@.contains(
                #[trigger] self.tracks@[j].1,
            ) by {
                let y = self.tracks@[j].1;
                assert(old(self).contexts@.contains(y));
                let k = choose|k: int|
                    0 <= k < old(self).contexts@.len() && old(self).contexts@[k] == y;
                assert(self.contexts@[k] == y);
            }
        }
        Ok(id)
    }

    /// Destroys the context `id`.  Succeeds exactly when the destroy is
    /// accepted; a refused destroy (the context is not live, or still
    /// owns a renderer or track) changes nothing.
    pub fn destroy_context(&mut self, id: u64) -> (r: Result<(), Error>)
        requires
            old(self).wf(),
        ensures
            final(self).wf(),
            r is Ok <==> old(self).can_destroy_context(id),
            r is Err ==> *final(self) == *old(self),
            r is Ok ==> {
                &&& !final(self).context_live(id)
                &&& forall|y: u64|
                    y != id ==> final(self).context_live(y) == old(self).context_live(y)
                &&& forall|y: u64| final(self).renderer_live(y) == old(self).renderer_live(y)
                &&& forall|y: u64| final(self).track_live(y) == old(self).track_live(y)
                &&& forall|y: u64| final(self).frame_open(y) == old(self).frame_open(y)
                &&& forall|y: u64, c: u64|
                    final(self).renderer_bound(y, c) == old(self).renderer_bound(y, c)
                &&& forall|y: u64, c: u64|
                    final(self).track_bound(y, c) == old(self).track_bound(y, c)
            },
    {
        let i = match find_id(&self.contexts, id) {
            Some(i) => i,
            None => {
                return Err(Error);
            },
        };
        if has_child_of(&self.renderers, id) {
            return Err(Error);
        }
        if has_child_of(&self.tracks, id) {
            return Err(Error);
        }
        self.contexts.remove(i);
        proof {
            lemma_remove_id(old(self).contexts@, i as int);
            assert forall|j: int| 0 <= j < self.renderers@.len() implies self.contexts@.contains(
                #[trigger] self.renderers@[j].1,
            ) by {
                assert(old(self).contexts@.contains(old(self).renderers@[j].1));
                assert(old(self).renderers@[j].1 != id);
            }
            assert forall|j: int| 0 <= j < self.tracks@.len() implies self.contexts@.contains(
                #[trigger] self.tracks@[j].1,
            ) by {
                assert(old(self).contexts@.contains(old(self).tracks@[j].1));
                assert(old(self).tracks@[j].1 != id);
            }
        }
        Ok(())
    }

    /// Creates a renderer under the context `ctx`.  Succeeds exactly
    /// when the context is live and identifiers are left; the new
    /// identifier was not live, of any kind, before.
    pub fn create_renderer(&mut self, ctx: u64) -> (r: Result<u64, Error>)
        requires
            old(self).wf(),
        ensures
            final(self).wf(),
            r is Ok <==> old(self).context_live(ctx) && old(self).fresh_ids_left(),
            r is Err ==> *final(self) == *old(self),
            r matches Ok(id) ==> {
                &&& !old(self).context_live(id)
                &&& !old(self).renderer_live(id)
                &&& !old(self).track_live(id)
                &&& final(self).renderer_live(id)
                &&& final(self).renderer_bound(id, ctx)
                &&& forall|y: u64|
                    y != id ==> final(self).renderer_live(y) == old(self).renderer_live(y)
                &&& forall|y: u64| final(self).context_live(y) == old(self).context_live(y)
                &&& forall|y: u64| final(self).track_live(y) == old(self).track_live(y)
                &&& forall|y: u64| final(self).frame_open(y) == old(self).frame_open(y)
            },
    {
        if find_id(&self.contexts, ctx).is_none() {
            return Err(Error);
        }
        if self.next_id == u64::MAX {
            return Err(Error);
        }
        let id = self.next_id;
        self.next_id = self.next_id + 1;
        self.renderers.push((id, ctx));
        proof {
            let n = old(self).renderers@.len() as int;
            assert(self.renderers@[n] == (id, ctx));
            assert forall|y: u64| y != id implies self.renderer_live(y) == old(
                self,
            ).renderer_live(y) by {
                if child_live(old(self).renderers@, y) {
                    let k = choose|k: int|
                        0 <= k < old(self).renderers@.len() && old(self).renderers@[k].0 == y;
                    assert(self.renderers@[k].0 == y);
                }
                if child_live(self.renderers@, y) {
                    let k = choose|k: int|
                        0 <= k < self.renderers@.len() && self.renderers@[k].0 == y;
                    assert(old(self).renderers@[k].0 == y);
                }
            }
            assert forall|j: int| 0 <= j < self.frames@.len() implies child_live(
                self.renderers@,
                #[trigger] self.frames@[j],
            ) by {
                let y = self.frames@[j];
                let k = choose|k: int|
                    0 <= k < old(self).renderers@.len() && old(self).renderers@[k].0 == y;
                assert(self.renderers@[k].0 == y);
            }
            assert forall|a: int, b: int|
                0 <= a < b < self.renderers@.len() implies self.renderers@[a].0
                != self.renderers@[b].0 by {
                if b + 1 == self.renderers@.len() {
                    assert(self.renderers@[a] == old(self).renderers@[a]);
                    assert(old(self).renderers@[a].0 < old(self).next_id);
                }
            }
            assert forall|j: int|
                0 <= j < self.renderers@.len() implies (#[trigger] self.renderers@[j].0)
                < self.next_id by {
                if j + 1 < self.renderers@.len() {
                    assert(old(self).renderers@[j].0 < old(self).next_id);
                }
            }
        }
        Ok(id)
    }

    /// Destroys the renderer `id`.  Succeeds exactly when the destroy is
    /// accepted; a refused destroy (the renderer is not live, or its
    /// image sequence is still lent out) changes nothing.
    pub fn destroy_renderer(&mut self, id: u64) -> (r: Result<(), Error>)
        requires
            old(self).wf(),
        ensures
            final(self).wf(),
            r is Ok <==> old(self).can_destroy_renderer(id),
            r is Err ==> *final(self) == *old(self),
            r is Ok ==> {
                &&& !final(self).renderer_live(id)
                &&& forall|y: u64|
                    y != id ==> final(self).renderer_live(y) == old(self).renderer_live(y)
                &&& forall|y: u64| final(self).context_live(y) == old(self).context_live(y)
                &&& forall|y: u64| final(self).track_live(y) == old(self).track_live(y)
                &&& forall|y: u64| final(self).frame_open(y) == old(self).frame_open(y)
            },
    {
        let i = match find_child(&self.renderers, id) {
            Some(i) => i,
            None => {
                return Err(Error);
            },
        };
        if find_id(&self.frames, id).is_some() {
            return Err(Error);
        }
        self.renderers.remove(i);
        proof {
            lemma_remove_child(old(self).renderers@, i as int);
            assert forall|j: int| 0 <= j < self.renderers@.len() implies self.contexts@.contains(
                #[trigger] self.renderers@[j].1,
            ) by {
                assert(old(self).renderers@.contains(self.renderers@[j]));
            }
            assert forall|j: int| 0 <= j < self.frames@.len() implies child_live(
                self.renderers@,
                #[trigger] self.frames@[j],
            ) by {
                assert(child_live(old(self).renderers@, self.frames@[j]));
                assert(self.frames@[j] != id);
            }
            assert forall|j: int| 0 <= j < self.renderers@.len() implies (
            #[trigger] self.renderers@[j].0) < self.next_id by {
                assert(old(self).renderers@.contains(self.renderers@[j]));
                let k = choose|k: int|
                    0 <= k < old(self).renderers@.len() && old(self).renderers@[k]
                        == self.renderers@[j];
                assert(old(self).renderers@[k].0 < old(self).next_id);
            }
        }
        Ok(())
    }

    /// Creates a track under the context `ctx`.  Succeeds exactly when
    /// the context is live and identifiers are left; the new identifier
    /// was not live, of any kind, before.
    pub fn create_track(&mut self, ctx: u64) -> (r: Result<u64, Error>)
        requires
            old(self).wf(),
        ensures
            final(self).wf(),
            r is Ok <==> old(self).context_live(ctx) && old(self).fresh_ids_left(),
            r is Err ==> *final(self) == *old(self),
            r matches Ok(id) ==> {
                &&& !old(self).context_live(id)
                &&& !old(self).renderer_live(id)
                &&& !old(self).track_live(id)
                &&& final(self).track_live(id)
                &&& final(self).track_bound(id, ctx)
                &&& forall|y: u64| y != id ==> final(self).track_live(y) == old(self).track_live(y)
                &&& forall|y: u64| final(self).context_live(y) == old(self).context_live(y)
                &&& forall|y: u64| final(self).renderer_live(y) == old(self).renderer_live(y)
                &&& forall|y: u64| final(self).frame_open(y) == old(self).frame_open(y)
            },
    {
        if find_id(&self.contexts, ctx).is_none() {
            return Err(Error);
        }
        if self.next_id == u64::MAX {
            return Err(Error);
        }
        let id = self.next_id;
        self.next_id = self.next_id + 1;
        self.tracks.push((id, ctx));
        proof {
            let n = old(self).tracks@.len() as int;
            assert(self.tracks@[n] == (id, ctx));
            assert forall|y: u64| y != id implies self.track_live(y) == old(self).track_live(y) by {
                if child_live(old(self).tracks@, y) {
                    let k = choose|k: int|
                        0 <= k < old(self).tracks@.len() && old(self).tracks@[k].0 == y;
                    assert(self.tracks@[k].0 == y);
                }
                if child_live(self.tracks@, y) {
                    let k = choose|k: int| 0 <= k < self.tracks@.len() && self.tracks@[k].0 == y;
                    assert(old(self).tracks@[k].0 == y);
                }
            }
            assert forall|a: int, b: int|
                0 <= a < b < self.tracks@.len() implies self.tracks@[a].0 != self.tracks@[b].0 by {
                if b + 1 == self.tracks@.len() {
                    assert(self.tracks@[a] == old(self).tracks@[a]);
                    assert(old(self).tracks@[a].0 < old(self).next_id);
                }
            }
            assert forall|j: int|
                0 <= j < self.tracks@.len() implies (#[trigger] self.tracks@[j].0)
                < self.next_id by {
                if j + 1 < self.tracks@.len() {
                    assert(old(self).tracks@[j].0 < old(self).next_id);
                }
            }
        }
        Ok(id)
    }

    /// Destroys the track `id`.  Succeeds exactly when the track is
    /// live; a refused destroy changes nothing.
    pub fn destroy_track(&mut self, id: u64) -> (r: Result<(), Error>)
        requires
            old(self).wf(),
        ensures
            final(self).wf(),
            r is Ok <==> old(self).can_destroy_track(id),
            r is Err ==> *final(self) == *old(self),
            r is Ok ==> {
                &&& !final(self).track_live(id)
                &&& forall|y: u64| y != id ==> final(self).track_live(y) == old(self).track_live(y)
                &&& forall|y: u64| final(self).context_live(y) == old(self).context_live(y)
                &&& forall|y: u64| final(self).renderer_live(y) == old(self).renderer_live(y)
                &&& forall|y: u64| final(self).frame_open(y) == old(self).frame_open(y)
            },
    {
        let i = match find_child(&self.tracks, id) {
            Some(i) => i,
            None => {
                return Err(Error);
            },
        };
        self.tracks.remove(i);
        proof {
            lemma_remove_child(old(self).tracks@, i as int);
            assert forall|j: int| 0 <= j < self.tracks@.len() implies self.contexts@.contains(
                #[trigger] self.tracks@[j].1,
            ) by {
                assert(old(self).tracks@.contains(self.tracks@[j]));
            }
            assert forall|j: int| 0 <= j < self.tracks@.len() implies (
            #[trigger] self.tracks@[j].0) < self.next_id by {
                assert(old(self).tracks@.contains(self.tracks@[j]));
                let k = choose|k: int|
                    0 <= k < old(self).tracks@.len() && old(self).tracks@[k] == self.tracks@[j];
                assert(old(self).tracks@[k].0 < old(self).next_id);
            }
        }
        Ok(())
    }

    /// Records that a render call on renderer `id` lends out its image
    /// sequence.  Succeeds exactly when the renderer is live and no
    /// sequence of its is outstanding; a refused call changes nothing.
    pub fn begin_frame(&mut self, id: u64) -> (r: Result<(), Error>)
        requires
            old(self).wf(),
        ensures
            final(self).wf(),
            r is Ok <==> old(self).can_begin_frame(id),
            r is Err ==> *final(self) == *old(self),
            r is Ok ==> {
                &&& final(self).frame_open(id)
                &&& forall|y: u64| y != id ==> final(self).frame_open(y) == old(self).frame_open(y)
                &&& forall|y: u64| final(self).context_live(y) == old(self).context_live(y)
                &&& forall|y: u64| final(self).renderer_live(y) == old(self).renderer_live(y)
                &&& forall|y: u64| final(self).track_live(y) == old(self).track_live(y)
            },
    {
        if find_child(&self.renderers, id).is_none() {
            return Err(Error);
        }
        if find_id(&self.frames, id).is_some() {
            return Err(Error);
        }
        self.frames.push(id);
        proof {
            let n = old(self).frames@.len() as int;
            assert(self.frames@[n] == id);
            assert forall|y: u64| y != id implies self.frame_open(y) == old(self).frame_open(y) by {
                if old(self).frames@.contains(y) {
                    let k = choose|k: int|
                        0 <= k < old(self).frames@.len() && old(self).frames@[k] == y;
                    assert(self.frames@[k] == y);
                }
                if self.frames@.contains(y) {
                    let k = choose|k: int| 0 <= k < self.frames@.len() && self.frames@[k] == y;
                    assert(old(self).frames@[k] == y);
                }
            }
        }
        Ok(())
    }

    /// Records that the image sequence of renderer `id` has been given
    /// back (fully consumed or dropped).  Succeeds exactly when one was
    /// outstanding; a refused call changes nothing.
    pub fn end_frame(&mut self, id: u64) -> (r: Result<(), Error>)
        requires
            old(self).wf(),
        ensures
            final(self).wf(),
            r is Ok <==> old(self).frame_open(id),
            r is Err ==> *final(self) == *old(self),
            r is Ok ==> {
                &&& !final(self).frame_open(id)
                &&& forall|y: u64| y != id ==> final(self).frame_open(y) == old(self).frame_open(y)
                &&& forall|y: u64| final(self).context_live(y) == old(self).context_live(y)
                &&& forall|y: u64| final(self).renderer_live(y) == old(self).renderer_live(y)
                &&& forall|y: u64| final(self).track_live(y) == old(self).track_live(y)
            },
    {
        let i = match find_id(&self.frames, id) {
            Some(i) => i,
            None => {
                return Err(Error);
            },
        };
        self.frames.remove(i);
        proof {
            lemma_remove_id(old(self).frames@, i as int);
            assert forall|j: int| 0 <= j < self.frames@.len() implies child_live(
                self.renderers@,
                #[trigger] self.frames@[j],
            ) by {
                assert(old(self).frames@.contains(self.frames@[j]));
            }
        }
        Ok(())
    }
}

/// Destroying a handle twice is impossible: a successful destroy leaves
/// the handle not live, and a destroy is accepted only on a live handle.
pub proof fn lemma_no_double_destroy_context(t: HandleTable, id: u64)
    requires
        !t.context_live(id),
    ensures
        !t.can_destroy_context(id),
{
}

/// Destroying a renderer twice is impossible, for the same reason.
pub proof fn lemma_no_double_destroy_renderer(t: HandleTable, id: u64)
    requires
        !t.renderer_live(id),
    ensures
        !t.can_destroy_renderer(id),
{
}

/// Destroying a track twice is impossible, for the same reason.
pub proof fn lemma_no_double_destroy_track(t: HandleTable, id: u64)
    requires
        !t.track_live(id),
    ensures
        !t.can_destroy_track(id),
{
}

/// A context outlives its children: while any renderer or track of it is
/// live, the context is live, and destroying it is refused.
pub proof fn lemma_context_outlives_renderer(t: HandleTable, id: u64, ctx: u64)
    requires
        t.wf(),
        t.renderer_bound(id, ctx),
    ensures
        t.context_live(ctx),
        !t.can_destroy_context(ctx),
{
    let k = choose|k: int| 0 <= k < t.renderers@.len() && t.renderers@[k] == (id, ctx);
    assert(t.renderers@[k].1 == ctx);
}

/// A context outlives its tracks, in the same sense.
pub proof fn lemma_context_outlives_track(t: HandleTable, id: u64, ctx: u64)
    requires
        t.wf(),
        t.track_bound(id, ctx),
    ensures
        t.context_live(ctx),
        !t.can_destroy_context(ctx),
{
    let k = choose|k: int| 0 <= k < t.tracks@.len() && t.tracks@[k] == (id, ctx);
    assert(t.tracks@[k].1 == ctx);
}

/// At most one image sequence at a time: while the sequence of a render
/// call is lent out, a second render call on the same renderer is
/// refused (the engine would reuse the sequence's storage), and so is
/// destroying the renderer.
pub proof fn lemma_one_image_sequence_at_a_time(t: HandleTable, id: u64)
    requires
        t.frame_open(id),
    ensures
        !t.can_begin_frame(id),
        !t.can_destroy_renderer(id),
{
}

} // verus!
