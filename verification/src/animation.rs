//! Sprite animation: which clip a character shows, which way it faces, and how the frames
//! of a sprite sheet advance.
use crate::movement::{FacingDirection, MovementState};
use crate::timer::{fresh_view, tick_view, GameTimer, TimerMode};
use vstd::prelude::*;

verus! {

/// How long one frame of a character animation is shown: 0.1 s, as bevy's
/// `Duration::from_secs_f32(0.1)` gives it (the nearest `f32` to 0.1 is a little larger).
pub const FRAME_TIME_NS: u64 = 100_000_001;

/// The animation clip a character shows.
#[derive(Clone, Copy, Debug, PartialEq, Eq, Structural)]
pub enum AnimationKey {
    Idle,
    Walking,
    Jumping,
    Attacking,
    Repulsion,
}

impl Default for AnimationKey {
    fn default() -> (k: AnimationKey)
        ensures
            k == AnimationKey::Idle,
    {
        AnimationKey::Idle
    }
}

/// The animation clips of a character, by key. No key occurs twice.
pub struct AnimationSet<C> {
    animation_map: Vec<(AnimationKey, C)>,
}

/// No key occurs twice in the entries.
pub open spec fn keys_distinct<C>(s: Seq<(AnimationKey, C)>) -> bool {
    forall|i: int, j: int| 0 <= i < j < s.len() ==> s[i].0 != s[j].0
}

/// The map from each key of the entries to its clip.
pub open spec fn seq_to_map<C>(s: Seq<(AnimationKey, C)>) -> Map<
    AnimationKey,
    C,
> {
    Map::new(
        |k: AnimationKey| exists|i: int| 0 <= i < s.len() && s[i].0 == k,
        |k: AnimationKey| s[choose|i: int| 0 <= i < s.len() && s[i].0 == k].1,
    )
}

impl<C> View for AnimationSet<C> {
    type V = Map<AnimationKey, C>;

    closed spec fn view(&self) -> Map<AnimationKey, C> {
        seq_to_map(self.animation_map@)
    }
}

/// With distinct keys, the map gives each entry's key that entry's clip.
proof fn lemma_lookup<C>(s: Seq<(AnimationKey, C)>, i: int)
    requires
        keys_distinct(s),
        0 <= i < s.len(),
    ensures
        seq_to_map(s).dom().contains(s[i].0),
        seq_to_map(s)[s[i].0] == s[i].1,
{
    let k = s[i].0;
    assert(exists|j: int| 0 <= j < s.len() && s[j].0 == k);
    let j = choose|j: int| 0 <= j < s.len() && s[j].0 == k;
    assert(j == i);
}

impl<C> AnimationSet<C> {
    #[verifier::type_invariant]
    closed spec fn inv(self) -> bool {
        keys_distinct(self.animation_map@)
    }

    /// A set without clips.
    pub fn new() -> (s: AnimationSet<C>)
        ensures
            s@ == Map::<AnimationKey, C>::empty(),
    {
        let s = AnimationSet { animation_map: Vec::new() };
        assert(s@ =~= Map::<AnimationKey, C>::empty());
        s
    }

    /// Sets the clip of `key`, replacing the one it had.
    pub fn insert(&mut self, key: AnimationKey, clip: C)
        ensures
            final(self)@ == old(self)@.insert(key, clip),
    {
        proof {
            use_type_invariant(&*self);
        }
        let ghost old_entries = self.animation_map@;
        let mut i: usize = 0;
        while i < self.animation_map.len() && self.animation_map[i].0 != key
            invariant
                0 <= i <= self.animation_map@.len(),
                self.animation_map@ == old_entries,
                keys_distinct(old_entries),
                forall|j: int| 0 <= j < i ==> self.animation_map@[j].0 != key,
            decreases self.animation_map@.len() - i,
        {
            i = i + 1;
        }
        let mut entries: Vec<(AnimationKey, C)> = Vec::new();
        std::mem::swap(&mut entries, &mut self.animation_map);
        if i < entries.len() {
            entries.set(i, (key, clip));
        } else {
            entries.push((key, clip));
        }
        proof {
            let s = entries@;
            assert(keys_distinct(s));
            assert forall|k: AnimationKey|
                #[trigger] seq_to_map(s).dom().contains(k) == old(self)@.insert(key, clip).dom().contains(k) by {
                if k != key && old(self)@.dom().contains(k) {
                    let j = choose|j: int| 0 <= j < old_entries.len() && old_entries[j].0 == k;
                    assert(s[j].0 == k);
                }
                if k != key && seq_to_map(s).dom().contains(k) {
                    let j = choose|j: int| 0 <= j < s.len() && s[j].0 == k;
                    assert(old_entries[j].0 == k);
                }
                if k == key {
                    if i < old_entries.len() {
                        assert(s[i as int].0 == key);
                    } else {
                        assert(s[s.len() - 1].0 == key);
                    }
                }
            }
            assert forall|k: AnimationKey| #[trigger] seq_to_map(s).dom().contains(k) implies seq_to_map(s)[k]
                == old(self)@.insert(key, clip)[k] by {
                let j = choose|j: int| 0 <= j < s.len() && s[j].0 == k;
                lemma_lookup(s, j);
                if k != key {
                    lemma_lookup(old_entries, j);
                }
            }
            assert(seq_to_map(s) =~= old(self)@.insert(key, clip));
        }
        self.animation_map = entries;
    }

    /// The clip of `key`, if the set has one.
    pub fn clip_for_key(&self, key: &AnimationKey) -> (c: Option<&C>)
        ensures
            c == (if self@.dom().contains(*key) {
                Some(&self@[*key])
            } else {
                None
            }),
    {
        proof {
            use_type_invariant(self);
        }
        let mut i: usize = 0;
        while i < self.animation_map.len()
            invariant
                0 <= i <= self.animation_map@.len(),
                keys_distinct(self.animation_map@),
                forall|j: int| 0 <= j < i ==> self.animation_map@[j].0 != *key,
            decreases self.animation_map@.len() - i,
        {
            if self.animation_map[i].0 == *key {
                proof {
                    lemma_lookup(self.animation_map@, i as int);
                }
                return Some(&self.animation_map[i].1);
            }
            i = i + 1;
        }
        None
    }
}

impl<C: Clone> Clone for AnimationSet<C> {
    /// A set with the same keys, each with a clone of its clip.
    fn clone(&self) -> (r: AnimationSet<C>)
        ensures
            r@.dom() == self@.dom(),
            forall|k: AnimationKey| #[trigger] r@.dom().contains(k) ==> cloned(self@[k], r@[k]),
    {
        proof {
            use_type_invariant(self);
        }
        let mut entries: Vec<(AnimationKey, C)> = Vec::new();
        let n = self.animation_map.len();
        for i in 0..n
            invariant
                n == self.animation_map@.len(),
                entries@.len() == i,
                forall|j: int| 0 <= j < i ==> #[trigger] entries@[j].0 == self.animation_map@[j].0,
                forall|j: int| 0 <= j < i ==> cloned(self.animation_map@[j].1, #[trigger] entries@[j].1),
        {
            let key = self.animation_map[i].0;
            let clip = self.animation_map[i].1.clone();
            entries.push((key, clip));
        }
        proof {
            let s = entries@;
            let t = self.animation_map@;
            assert forall|i: int, j: int| 0 <= i < j < s.len() implies s[i].0 != s[j].0 by {
                assert(s[i].0 == t[i].0);
                assert(s[j].0 == t[j].0);
            }
            assert forall|k: AnimationKey| #[trigger] seq_to_map(s).dom().contains(k) == seq_to_map(t).dom().contains(k) by {
                if seq_to_map(s).dom().contains(k) {
                    let j = choose|j: int| 0 <= j < s.len() && s[j].0 == k;
                    assert(t[j].0 == k);
                }
                if seq_to_map(t).dom().contains(k) {
                    let j = choose|j: int| 0 <= j < t.len() && t[j].0 == k;
                    assert(s[j].0 == k);
                }
            }
            assert(seq_to_map(s).dom() =~= seq_to_map(t).dom());
            assert forall|k: AnimationKey| #[trigger] seq_to_map(s).dom().contains(k) implies cloned(
                seq_to_map(t)[k],
                seq_to_map(s)[k],
            ) by {
                let j = choose|j: int| 0 <= j < s.len() && s[j].0 == k;
                lemma_lookup(s, j);
                lemma_lookup(t, j);
            }
        }
        AnimationSet { animation_map: entries }
    }
}

/// The clip a character shows: its attack while attacking, otherwise the clip of its
/// movement state.
pub open spec fn animation_key_spec(is_attacking: bool, state: MovementState) -> AnimationKey {
    if is_attacking {
        AnimationKey::Attacking
    } else {
        match state {
            MovementState::Jumping => AnimationKey::Jumping,
            MovementState::Walking => AnimationKey::Walking,
            MovementState::Idle => AnimationKey::Idle,
        }
    }
}

/// The new animation key to write, or `None` when the current one is already right.
pub fn animation_key_update(current: AnimationKey, state: MovementState, is_attacking: bool) -> (r:
    Option<AnimationKey>)
    ensures
        r == (if current == animation_key_spec(is_attacking, state) {
            None
        } else {
            Some(animation_key_spec(is_attacking, state))
        }),
        is_attacking ==> r == (if current == AnimationKey::Attacking {
            None
        } else {
            Some(AnimationKey::Attacking)
        }),
        !is_attacking && state == MovementState::Jumping ==> r == (if current == AnimationKey::Jumping {
            None
        } else {
            Some(AnimationKey::Jumping)
        }),
        !is_attacking && state == MovementState::Walking ==> r == (if current == AnimationKey::Walking {
            None
        } else {
            Some(AnimationKey::Walking)
        }),
        !is_attacking && state == MovementState::Idle ==> r == (if current == AnimationKey::Idle {
            None
        } else {
            Some(AnimationKey::Idle)
        }),
{
    let next_key = match (is_attacking, state) {
        (true, _) => AnimationKey::Attacking,
        (false, MovementState::Jumping) => AnimationKey::Jumping,
        (false, MovementState::Walking) => AnimationKey::Walking,
        (false, MovementState::Idle) => AnimationKey::Idle,
    };
    if current != next_key {
        Some(next_key)
    } else {
        None
    }
}

/// Which way a character should face: unchanged while it is knocked back or hardly moves,
/// otherwise the way it moves.
pub open spec fn facing_spec(
    current: FacingDirection,
    has_knockback: bool,
    is_walking: bool,
    moving_right: bool,
) -> FacingDirection {
    if has_knockback || !is_walking {
        current
    } else if moving_right {
        FacingDirection::Right
    } else {
        FacingDirection::Left
    }
}

/// The new facing to write, or `None` when it stays as it is.
pub fn facing_update(
    current: FacingDirection,
    has_knockback: bool,
    is_walking: bool,
    moving_right: bool,
) -> (r: Option<FacingDirection>)
    ensures
        r == (if current == facing_spec(current, has_knockback, is_walking, moving_right) {
            None
        } else {
            Some(facing_spec(current, has_knockback, is_walking, moving_right))
        }),
        has_knockback || !is_walking ==> r is None,
        !has_knockback && is_walking && moving_right ==> r == (if current == FacingDirection::Right {
            None
        } else {
            Some(FacingDirection::Right)
        }),
        !has_knockback && is_walking && !moving_right ==> r == (if current == FacingDirection::Left {
            None
        } else {
            Some(FacingDirection::Left)
        }),
{
    if has_knockback {
        return None;
    }
    if !is_walking {
        return None;
    }
    let next_facing = if moving_right {
        FacingDirection::Right
    } else {
        FacingDirection::Left
    };
    if current != next_facing {
        Some(next_facing)
    } else {
        None
    }
}

/// Whether the sprite is mirrored: it is when the character faces left.
pub fn flip_x(facing: FacingDirection) -> (b: bool)
    ensures
        b == (facing == FacingDirection::Left),
{
    facing == FacingDirection::Left
}

/// The frame that follows `index`: the frame that the animation progress points at (but
/// never past the last frame), or else the next frame, wrapping around at the end.
pub open spec fn next_frame_spec(index: nat, frames: nat, progress_frame: Option<nat>) -> nat {
    match progress_frame {
        Some(p) => if p < (if frames == 0 { 0 } else { frames - 1 }) {
            p
        } else {
            (if frames == 0 { 0nat } else { (frames - 1) as nat })
        },
        None => (index + 1) % (if frames == 0 { 1 } else { frames }),
    }
}

/// A sprite-sheet animation: how many frames it has and the timer that shows them in turn.
pub struct SpriteAnimation {
    pub frames: usize,
    pub timer: GameTimer,
}

impl SpriteAnimation {
    /// An animation of `frames` frames, each shown for `frame_time_ns` nanoseconds.
    pub fn new(frames: usize, frame_time_ns: u64) -> (a: SpriteAnimation)
        ensures
            a.frames == frames,
            a.timer@ == fresh_view(frame_time_ns as nat, true),
    {
        SpriteAnimation { frames, timer: GameTimer::new(frame_time_ns, TimerMode::Repeating) }
    }

    /// One frame of the animation: the timer advances by `delta_ns`, and when it has just
    /// run out the sprite moves to the next frame. `atlas_index` is the frame shown (`None`
    /// when the sprite has no atlas), `progress_frame` the frame that the animation's
    /// progress points at, when it has one. The result is the frame to show, or `None`
    /// when the frame stays.
    pub fn advance(&mut self, delta_ns: u64, atlas_index: Option<usize>, progress_frame: Option<
        usize,
    >) -> (r: Option<usize>)
        requires
            progress_frame is None && atlas_index is Some ==> atlas_index->0 < usize::MAX,
        ensures
            final(self).frames == old(self).frames,
            final(self).timer@ == tick_view(old(self).timer@, delta_ns as nat),
            r == (if final(self).timer@.times_finished > 0 && atlas_index is Some {
                Some(
                    next_frame_spec(
                        atlas_index->0 as nat,
                        old(self).frames as nat,
                        match progress_frame {
                            Some(p) => Some(p as nat),
                            None => None,
                        },
                    ) as usize,
                )
            } else {
                None
            }),
            r is Some ==> final(self).timer@.times_finished > 0 && atlas_index is Some,
            r is Some && progress_frame is None && atlas_index->0 + 1 < old(self).frames
                ==> r->0 == atlas_index->0 + 1,
            r is Some && progress_frame is None && (atlas_index->0 + 1 == old(self).frames
                || old(self).frames <= 1) ==> r->0 == 0,
            r is Some && progress_frame is Some && progress_frame->0 < old(self).frames
                ==> r->0 == progress_frame->0,
            r is Some && progress_frame is Some && progress_frame->0 >= old(self).frames
                && old(self).frames > 0 ==> r->0 == old(self).frames - 1,
            r is Some ==> r->0 < (if old(self).frames == 0 { 1 } else { old(self).frames }),
    {
        self.timer.tick(delta_ns);
        if self.timer.just_finished() {
            if let Some(index) = atlas_index {
                let last = self.frames.saturating_sub(1);
                let next = match progress_frame {
                    Some(p) => if p < last {
                        p
                    } else {
                        last
                    },
                    None => (index + 1) % if self.frames > 1 {
                        self.frames
                    } else {
                        1
                    },
                };
                proof {
                    let m: int = if self.frames > 1 { self.frames as int } else { 1 };
                    vstd::arithmetic::div_mod::lemma_mod_bound(index + 1, m);
                    if index + 1 < m {
                        vstd::arithmetic::div_mod::lemma_small_mod((index + 1) as nat, m as nat);
                    }
                    if index + 1 == m {
                        vstd::arithmetic::div_mod::lemma_mod_self_0(m);
                    }
                }
                return Some(next);
            }
        }
        None
    }

    /// Switches to a clip of `frames` frames and starts its timer over.
    pub fn switch_clip(&mut self, frames: usize)
        ensures
            final(self).frames == frames,
            final(self).timer@ == fresh_view(old(self).timer@.duration, old(self).timer@.repeating),
    {
        self.frames = frames;
        self.timer.reset();
    }
}

} // verus!
