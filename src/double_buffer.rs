use vstd::prelude::*;

use std::sync::atomic::{AtomicUsize, Ordering};
use std::sync::Arc;

use crate::entity::Entity;
use crate::geometry::UVec2;
use crate::render_target::{normalize_spec, NormalizedRenderTarget, RenderTarget};

verus! {

/// Whether a flip flag value selects the second buffer: its low bit is set.
pub open spec fn selects_b(flag: usize) -> bool {
    flag % 2 == 1
}

/// Two render targets drawn into in turn, frame by frame. The flip flag is shared by
/// every copy of the value, so a swap made through one copy is seen by all of them;
/// with a single target there is no flag.
#[derive(Debug)]
pub struct RenderTargetDoubleBuffered {
    pub a: RenderTarget,
    pub b: RenderTarget,
    pub main_texture: Option<Arc<AtomicUsize>>,
}

impl RenderTargetDoubleBuffered {
    /// The target that is current while the flag holds `flag`.
    pub open spec fn current_for(self, flag: usize) -> RenderTarget {
        if selects_b(flag) {
            self.b
        } else {
            self.a
        }
    }

    /// The target that is not current while the flag holds `flag`.
    pub open spec fn other_for(self, flag: usize) -> RenderTarget {
        if selects_b(flag) {
            self.a
        } else {
            self.b
        }
    }

    pub open spec fn normalize_spec(self, primary_window: Option<Entity>) -> Option<
        NormalizedRenderTargetDoubleBuffered,
    > {
        match (normalize_spec(self.a, primary_window), normalize_spec(self.b, primary_window)) {
            (Some(a), Some(b)) => Some(
                NormalizedRenderTargetDoubleBuffered { a, b, main_texture: self.main_texture },
            ),
            _ => None,
        }
    }

    /// Double-buffered over `a` and `b` with a fresh flag on `a`; single-buffered over `a`
    /// when there is no `b`.
    pub fn new(a: RenderTarget, b: Option<RenderTarget>) -> (r: Self)
        ensures
            r.a == a,
            r.main_texture is Some <==> b is Some,
            b matches Some(t) ==> r.b == t,
            b is None ==> r.b == (RenderTarget::Empty { size: UVec2 { x: 0, y: 0 } }),
    {
        match b {
            Some(b) => RenderTargetDoubleBuffered {
                a,
                b,
                main_texture: Some(Arc::new(AtomicUsize::new(0))),
            },
            None => RenderTargetDoubleBuffered {
                a,
                b: RenderTarget::Empty { size: UVec2 { x: 0, y: 0 } },
                main_texture: None,
            },
        }
    }

    /// The target that is current for the flag value `flag`.
    pub fn current_for_flag(&self, flag: usize) -> (r: &RenderTarget)
        ensures
            *r == self.current_for(flag),
    {
        if flag % 2 == 1 {
            &self.b
        } else {
            &self.a
        }
    }

    /// The target that is not current for the flag value `flag`.
    pub fn other_for_flag(&self, flag: usize) -> (r: &RenderTarget)
        ensures
            *r == self.other_for(flag),
    {
        if flag % 2 == 1 {
            &self.a
        } else {
            &self.b
        }
    }

    /// The target drawn into now: `b` when the flag's low bit is set, else `a`; always `a`
    /// when single-buffered.
    pub fn current_target(&self) -> (r: &RenderTarget)
        ensures
            self.main_texture is None ==> *r == self.a,
            self.main_texture is Some ==> exists|flag: usize| *r == self.current_for(flag),
    {
        match &self.main_texture {
            Some(flag) => {
                let v = flag.load(Ordering::SeqCst);
                self.current_for_flag(v)
            },
            None => &self.a,
        }
    }

    /// The target not drawn into now; none when single-buffered.
    pub fn other_target(&self) -> (r: Option<&RenderTarget>)
        ensures
            r is Some <==> self.main_texture is Some,
            r matches Some(t) ==> exists|flag: usize| *t == self.other_for(flag),
    {
        match &self.main_texture {
            Some(flag) => {
                let v = flag.load(Ordering::SeqCst);
                Some(self.other_for_flag(v))
            },
            None => None,
        }
    }

    /// Flips the low bit of the flag and returns the value it held before; none when
    /// single-buffered. The flag's value lives in a shared atomic cell that other holders
    /// may flip at any time, so the contract says nothing of it: the flip and the value
    /// returned are not modelled.
    pub fn swap(&mut self) -> (r: Option<usize>)
        ensures
            final(self).a == old(self).a,
            final(self).b == old(self).b,
            final(self).main_texture == old(self).main_texture,
            r is Some <==> old(self).main_texture is Some,
    {
        match &self.main_texture {
            Some(flag) => Some(flag.fetch_xor(1, Ordering::SeqCst)),
            None => None,
        }
    }

    /// Normalizes `a` and `b`; fails when either fails. The result holds this value's flag
    /// itself, not a copy of it.
    pub fn normalize(&self, primary_window: Option<Entity>) -> (r: Option<
        NormalizedRenderTargetDoubleBuffered,
    >)
        ensures
            r == self.normalize_spec(primary_window),
    {
        let a = match self.a.normalize(primary_window) {
            Some(a) => a,
            None => return None,
        };
        let b = match self.b.normalize(primary_window) {
            Some(b) => b,
            None => return None,
        };
        let main_texture = match &self.main_texture {
            Some(flag) => Some(Arc::clone(flag)),
            None => None,
        };
        Some(NormalizedRenderTargetDoubleBuffered { a, b, main_texture })
    }
}

/// A double-buffered target with both targets normalized.
#[derive(Debug)]
pub struct NormalizedRenderTargetDoubleBuffered {
    pub a: NormalizedRenderTarget,
    pub b: NormalizedRenderTarget,
    pub main_texture: Option<Arc<AtomicUsize>>,
}

impl NormalizedRenderTargetDoubleBuffered {
    pub open spec fn current_for(self, flag: usize) -> NormalizedRenderTarget {
        if selects_b(flag) {
            self.b
        } else {
            self.a
        }
    }

    pub open spec fn other_for(self, flag: usize) -> NormalizedRenderTarget {
        if selects_b(flag) {
            self.a
        } else {
            self.b
        }
    }

    /// The target that is current for the flag value `flag`.
    pub fn current_for_flag(&self, flag: usize) -> (r: &NormalizedRenderTarget)
        ensures
            *r == self.current_for(flag),
    {
        if flag % 2 == 1 {
            &self.b
        } else {
            &self.a
        }
    }

    /// The target that is not current for the flag value `flag`.
    pub fn other_for_flag(&self, flag: usize) -> (r: &NormalizedRenderTarget)
        ensures
            *r == self.other_for(flag),
    {
        if flag % 2 == 1 {
            &self.a
        } else {
            &self.b
        }
    }

    /// The target drawn into now: `b` when the flag's low bit is set, else `a`; always `a`
    /// when single-buffered.
    pub fn current_target(&self) -> (r: &NormalizedRenderTarget)
        ensures
            self.main_texture is None ==> *r == self.a,
            self.main_texture is Some ==> exists|flag: usize| *r == self.current_for(flag),
    {
        match &self.main_texture {
            Some(flag) => {
                let v = flag.load(Ordering::SeqCst);
                self.current_for_flag(v)
            },
            None => &self.a,
        }
    }

    /// The target not drawn into now; none when single-buffered.
    pub fn other_target(&self) -> (r: Option<&NormalizedRenderTarget>)
        ensures
            r is Some <==> self.main_texture is Some,
            r matches Some(t) ==> exists|flag: usize| *t == self.other_for(flag),
    {
        match &self.main_texture {
            Some(flag) => {
                let v = flag.load(Ordering::SeqCst);
                Some(self.other_for_flag(v))
            },
            None => None,
        }
    }
}

impl From<NormalizedRenderTarget> for NormalizedRenderTargetDoubleBuffered {
    /// A single-buffered target over `value`.
    fn from(value: NormalizedRenderTarget) -> (r: Self)
        ensures
            r.a == value,
            r.b == (NormalizedRenderTarget::Empty { width: 0, height: 0 }),
            r.main_texture is None,
    {
        NormalizedRenderTargetDoubleBuffered {
            a: value,
            b: NormalizedRenderTarget::Empty { width: 0, height: 0 },
            main_texture: None,
        }
    }
}

impl vstd::std_specs::convert::FromSpecImpl<NormalizedRenderTarget> for
    NormalizedRenderTargetDoubleBuffered {
    open spec fn obeys_from_spec() -> bool {
        true
    }

    open spec fn from_spec(v: NormalizedRenderTarget) -> Self {
        NormalizedRenderTargetDoubleBuffered {
            a: v,
            b: NormalizedRenderTarget::Empty { width: 0, height: 0 },
            main_texture: None,
        }
    }
}

/// Flipping the low bit of the flag exchanges the current and the other target: for every
/// flag value, current and other are `a` and `b` in some order, and after the flip each
/// one is what the other was before.
pub proof fn lemma_swap_exchanges_targets(t: RenderTargetDoubleBuffered, flag: usize)
    ensures
        (t.current_for(flag) == t.a && t.other_for(flag) == t.b) || (t.current_for(flag) == t.b
            && t.other_for(flag) == t.a),
        t.current_for(flag ^ 1) == t.other_for(flag),
        t.other_for(flag ^ 1) == t.current_for(flag),
        selects_b(flag ^ 1) != selects_b(flag),
{
    assert((flag ^ 1) % 2 == 1 <==> flag % 2 == 0) by (bit_vector);
}

/// The same for a normalized double-buffered target.
pub proof fn lemma_normalized_swap_exchanges_targets(
    t: NormalizedRenderTargetDoubleBuffered,
    flag: usize,
)
    ensures
        (t.current_for(flag) == t.a && t.other_for(flag) == t.b) || (t.current_for(flag) == t.b
            && t.other_for(flag) == t.a),
        t.current_for(flag ^ 1) == t.other_for(flag),
        t.other_for(flag ^ 1) == t.current_for(flag),
{
    assert((flag ^ 1) % 2 == 1 <==> flag % 2 == 0) by (bit_vector);
}

/// Normalizing is a function of the target and the primary window, and each result holds
/// the source's own flag: two normalizations of an unchanged target agree, flag included.
pub proof fn lemma_normalize_shares_flag(
    t: RenderTargetDoubleBuffered,
    primary_window: Option<Entity>,
    r1: Option<NormalizedRenderTargetDoubleBuffered>,
    r2: Option<NormalizedRenderTargetDoubleBuffered>,
)
    requires
        r1 == t.normalize_spec(primary_window),
        r2 == t.normalize_spec(primary_window),
    ensures
        r1 == r2,
        r1 matches Some(n) ==> n.main_texture == t.main_texture,
{
}

} // verus!
