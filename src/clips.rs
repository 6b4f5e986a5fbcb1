use vstd::prelude::*;

verus! {

/// Why a configuration cannot be used.
#[derive(Debug, Clone, Copy, PartialEq, Eq, Structural)]
pub enum ConfigError {
    /// The clip registry holds no clip, so there is nothing to play.
    EmptyRegistry,
}

/// Index of the clip that follows `i` in a registry of `len` clips, wrapping
/// round to the first after the last.
pub open spec fn next_clip_index(i: nat, len: nat) -> nat
    recommends
        len >= 1,
{
    ((i + 1) as int % (len as int)) as nat
}

/// The clip index reached from `i` after `k` "next clip" steps.
pub open spec fn clip_after(i: nat, k: nat, len: nat) -> nat
    decreases k,
{
    if k == 0 {
        i
    } else {
        next_clip_index(clip_after(i, (k - 1) as nat, len), len)
    }
}

/// The ordered, non-empty list of clip handles that can be played.
pub struct ClipRegistry<H> {
    clips: Vec<H>,
}

impl<H> ClipRegistry<H> {
    /// The handles, in order.
    pub closed spec fn handles(&self) -> Seq<H> {
        self.clips@
    }

    /// A usable registry holds at least one clip.
    pub open spec fn wf(&self) -> bool {
        self.handles().len() >= 1
    }

    /// Builds a registry from the handles in order; fails on an empty list.
    pub fn new(clips: Vec<H>) -> (r: Result<Self, ConfigError>)
        ensures
            clips@.len() == 0 <==> r is Err,
            r is Err ==> r == Err::<Self, ConfigError>(ConfigError::EmptyRegistry),
            r matches Ok(reg) ==> reg.wf() && reg.handles() == clips@,
    {
        if clips.len() == 0 {
            Err(ConfigError::EmptyRegistry)
        } else {
            Ok(ClipRegistry { clips })
        }
    }

    /// Number of clips.
    pub fn len(&self) -> (r: usize)
        ensures
            r == self.handles().len(),
    {
        self.clips.len()
    }

    /// The handle at index `i`.
    pub fn get(&self, i: usize) -> (r: &H)
        requires
            i < self.handles().len(),
        ensures
            *r == self.handles()[i as int],
    {
        &self.clips[i]
    }

    /// Index of the clip after `i`, wrapping round to the first.
    pub fn next_index(&self, i: usize) -> (r: usize)
        requires
            self.wf(),
            i < self.handles().len(),
        ensures
            r == next_clip_index(i as nat, self.handles().len()),
            r < self.handles().len(),
    {
        let n = self.clips.len();
        (i + 1) % n
    }
}

/// Stepping through the clips is cyclic: after `k` steps from `i` the index
/// is `(i + k) mod len`, and after exactly `len` steps it is `i` again.
pub proof fn lemma_clip_cycle(i: nat, k: nat, len: nat)
    requires
        len >= 1,
        i < len,
    ensures
        clip_after(i, k, len) == (i + k) as int % (len as int),
        clip_after(i, len, len) == i,
{
    lemma_clip_after(i, k, len);
    lemma_clip_after(i, len, len);
    vstd::arithmetic::div_mod::lemma_mod_add_multiples_vanish(i as int, len as int);
    vstd::arithmetic::div_mod::lemma_small_mod(i, len);
}

proof fn lemma_clip_after(i: nat, k: nat, len: nat)
    requires
        len >= 1,
        i < len,
    ensures
        clip_after(i, k, len) == (i + k) as int % (len as int),
    decreases k,
{
    if k == 0 {
        vstd::arithmetic::div_mod::lemma_small_mod(i, len);
    } else {
        lemma_clip_after(i, (k - 1) as nat, len);
        vstd::arithmetic::div_mod::lemma_add_mod_noop_right(1, i + k - 1, len as int);
    }
}

} // verus!
