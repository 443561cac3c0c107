//! Cursors over a digit stream and the two-sided stream with
//! snapshotting.
//!
//! A [`Cursor`] wraps one digit source (a configuration) together with a
//! monotonic position.  Digits can only be produced forward, never at an
//! arbitrary index without replaying from the start; a cursor caches the
//! prefix it has generated so far, and a digit once produced at a
//! position never changes.
//!
//! A [`DualStream`] owns two cursors with independent positions, offers
//! paired (zip) advancement, an atomic exchange of the two sides
//! (`twist`), and out-of-band snapshots of absolute digit ranges into a
//! named store (`snip`) that never touches the live cursors.

use vstd::prelude::*;

use crate::digits::{digit_model, modeled, Constant, MAX_DIGITS};

verus! {

/// Errors raised by stream construction and snapshotting.
#[derive(Clone, Copy, Debug, PartialEq, Eq, Structural)]
pub enum StreamError {
    /// A base outside 2..=36 was requested.
    InvalidBase,
    /// A snippet range with `from > to` was requested.
    InvalidRange,
}

/// A constant identifier plus a base in 2..=36: everything needed to
/// instantiate a fresh digit source deterministically.
#[derive(Clone, Copy, Debug, PartialEq, Eq, Structural)]
pub struct SpigotConfig {
    pub constant: Constant,
    pub base: u8,
}

impl SpigotConfig {
    /// A valid configuration has a base in 2..=36.
    pub open spec fn wf(self) -> bool {
        2 <= self.base <= 36
    }

    /// Build a configuration; the base must be in 2..=36.
    pub fn new(constant: Constant, base: u8) -> (r: SpigotConfig)
        requires
            2 <= base <= 36,
        ensures
            r == (SpigotConfig { constant, base }),
            r.wf(),
    {
        SpigotConfig { constant, base }
    }

    /// Build a configuration, rejecting an out-of-range base.
    pub fn try_new(constant: Constant, base: u8) -> (r: Result<SpigotConfig, StreamError>)
        ensures
            2 <= base <= 36 ==> r == Ok::<SpigotConfig, StreamError>(
                SpigotConfig { constant, base },
            ),
            !(2 <= base <= 36) ==> r == Err::<SpigotConfig, StreamError>(
                StreamError::InvalidBase,
            ),
    {
        if 2 <= base && base <= 36 {
            Ok(SpigotConfig { constant, base })
        } else {
            Err(StreamError::InvalidBase)
        }
    }
}

/// How many digits a read of `n` digits starting at `pos` can return:
/// `n`, unless the source's replay bound `MAX_DIGITS` cuts it short.
pub open spec fn take_len(pos: nat, n: nat) -> nat {
    if pos >= MAX_DIGITS {
        0
    } else if pos + n <= MAX_DIGITS {
        n
    } else {
        (MAX_DIGITS - pos) as nat
    }
}

/// `a` is a prefix of `b`: a digit once generated at a position never
/// changes.
pub open spec fn is_prefix(a: Seq<u8>, b: Seq<u8>) -> bool {
    a.len() <= b.len() && b.subrange(0, a.len() as int) == a
}

/// One digit source plus a monotonic position counter.
pub struct Cursor {
    cfg: SpigotConfig,
    pos: usize,
    cache: Vec<u8>,
}

impl Cursor {
    /// The configuration this cursor was built from.
    pub closed spec fn cfg_spec(self) -> SpigotConfig {
        self.cfg
    }

    /// The number of digits this cursor has emitted.
    pub closed spec fn pos_spec(self) -> nat {
        self.pos as nat
    }

    /// The prefix of the digit sequence generated so far.
    pub closed spec fn digits_spec(self) -> Seq<u8> {
        self.cache@
    }

    /// Internal consistency: a valid configuration, cached digits below
    /// the base, and — for the exactly modelled constants — cached
    /// digits equal to the model.
    pub closed spec fn wf(self) -> bool {
        &&& self.cfg.wf()
        &&& self.cache@.len() <= MAX_DIGITS
        &&& forall|i: int| 0 <= i < self.cache@.len() ==> self.cache@[i] < self.cfg.base
        &&& modeled(self.cfg.constant) ==> forall|i: int|
            0 <= i < self.cache@.len() ==> (#[trigger] self.cache@[i]) == digit_model(
                self.cfg.constant,
                self.cfg.base,
                i as nat,
            )
    }

    /// A fresh cursor at position 0.
    pub fn new(cfg: SpigotConfig) -> (r: Cursor)
        requires
            cfg.wf(),
        ensures
            r.wf(),
            r.cfg_spec() == cfg,
            r.pos_spec() == 0,
    {
        Cursor { cfg, pos: 0, cache: Vec::new() }
    }

    /// The configuration, for callers.
    pub fn config(&self) -> (r: SpigotConfig)
        ensures
            r == self.cfg_spec(),
    {
        self.cfg
    }

    /// The current position.
    pub fn pos(&self) -> (r: usize)
        ensures
            r == self.pos_spec(),
    {
        self.pos
    }

    /// Make sure at least `need` digits are cached, keeping every digit
    /// already generated.
    fn ensure_cached(&mut self, need: usize)
        requires
            old(self).wf(),
            need <= MAX_DIGITS,
        ensures
            final(self).wf(),
            final(self).cfg_spec() == old(self).cfg_spec(),
            final(self).pos_spec() == old(self).pos_spec(),
            final(self).digits_spec().len() >= need,
            final(self).digits_spec().len() >= old(self).digits_spec().len(),
            final(self).digits_spec().subrange(0, old(self).digits_spec().len() as int) == old(self).digits_spec(),
    {
        if self.cache.len() >= need {
            proof {
                assert(self.digits_spec().subrange(0, self.cache@.len() as int) =~= self.cache@);
            }
            return ;
        }
        // Grow geometrically so that repeated single steps do not replay
        // the source from the start each time.
        let have = self.cache.len();
        let mut target = if have >= MAX_DIGITS / 2 {
            MAX_DIGITS
        } else if have * 2 > 16 {
            have * 2
        } else {
            16
        };
        if target < need {
            target = need;
        }
        if target > MAX_DIGITS {
            target = MAX_DIGITS;
        }
        let fresh = self.cfg.constant.digits_in_base(self.cfg.base, target);
        let ghost pre = self.cache@;
        let mut i = self.cache.len();
        while i < target
            invariant
                have <= i <= target,
                self.cache@.len() == i,
                target <= MAX_DIGITS,
                fresh@.len() == target,
                self.cfg == old(self).cfg,
                self.pos == old(self).pos,
                pre == old(self).digits_spec(),
                self.cache@.subrange(0, pre.len() as int) == pre,
                pre.len() == have,
                forall|j: int| 0 <= j < i ==> self.cache@[j] < self.cfg.base,
                forall|j: int| have <= j < i ==> self.cache@[j] == fresh@[j],
                self.cfg.wf(),
                modeled(self.cfg.constant) ==> forall|j: int|
                    0 <= j < i ==> self.cache@[j] == #[trigger] digit_model(
                        self.cfg.constant,
                        self.cfg.base,
                        j as nat,
                    ),
                modeled(self.cfg.constant) ==> forall|j: int|
                    0 <= j < target ==> fresh@[j] == #[trigger] digit_model(
                        self.cfg.constant,
                        self.cfg.base,
                        j as nat,
                    ),
                forall|j: int| 0 <= j < target ==> fresh@[j] < self.cfg.base,
            decreases target - i,
        {
            let d = fresh[i];
            self.cache.push(d);
            i += 1;
            proof {
                assert(self.cache@.subrange(0, pre.len() as int) =~= pre);
            }
        }
    }

    /// Produce the next digit and advance by one.  Returns `Some` at
    /// every position below the replay bound `MAX_DIGITS`, and `None`
    /// beyond it, leaving the cursor unchanged.
    pub fn next(&mut self) -> (r: Option<u8>)
        requires
            old(self).wf(),
        ensures
            final(self).wf(),
            final(self).cfg_spec() == old(self).cfg_spec(),
            old(self).pos_spec() < MAX_DIGITS ==> {
                &&& r is Some
                &&& final(self).pos_spec() == old(self).pos_spec() + 1
                &&& r.unwrap() < old(self).cfg_spec().base
                &&& final(self).digits_spec().len() > old(self).pos_spec()
                &&& r.unwrap() == final(self).digits_spec()[old(self).pos_spec() as int]
                &&& is_prefix(old(self).digits_spec(), final(self).digits_spec())
                &&& modeled(old(self).cfg_spec().constant) ==> r.unwrap() == digit_model(
                    old(self).cfg_spec().constant,
                    old(self).cfg_spec().base,
                    old(self).pos_spec(),
                )
            },
            old(self).pos_spec() >= MAX_DIGITS ==> r is None && *final(self) == *old(self),
    {
        if self.pos >= MAX_DIGITS {
            return None;
        }
        let need = self.pos + 1;
        self.ensure_cached(need);
        proof {
            assert(is_prefix(old(self).digits_spec(), self.digits_spec()));
        }
        let d = self.cache[self.pos];
        proof {
            if modeled(self.cfg.constant) {
                assert(self.cache@[self.pos as int] == digit_model(
                    self.cfg.constant,
                    self.cfg.base,
                    (self.pos as int) as nat,
                ));
            }
        }
        self.pos = self.pos + 1;
        Some(d)
    }

    /// Advance the position by `n` without retaining digits, saturating
    /// at the largest representable position.
    pub fn drop(&mut self, n: usize)
        requires
            old(self).wf(),
        ensures
            final(self).wf(),
            final(self).cfg_spec() == old(self).cfg_spec(),
            final(self).digits_spec() == old(self).digits_spec(),
            old(self).pos_spec() + n <= usize::MAX ==> final(self).pos_spec() == old(self).pos_spec() + n,
            old(self).pos_spec() + n > usize::MAX ==> final(self).pos_spec() == usize::MAX,
    {
        if self.pos > usize::MAX - n {
            self.pos = usize::MAX;
        } else {
            self.pos = self.pos + n;
        }
    }

    /// Collect the next `n` digits in order, advancing past them.  The
    /// result is `n` digits long unless the replay bound cuts it short.
    pub fn take(&mut self, n: usize) -> (r: Vec<u8>)
        requires
            old(self).wf(),
        ensures
            final(self).wf(),
            final(self).cfg_spec() == old(self).cfg_spec(),
            r@.len() == take_len(old(self).pos_spec(), n as nat),
            final(self).pos_spec() == old(self).pos_spec() + r@.len(),
            is_prefix(old(self).digits_spec(), final(self).digits_spec()),
            forall|i: int| 0 <= i < r@.len() ==> r@[i] < old(self).cfg_spec().base,
            forall|i: int|
                0 <= i < r@.len() ==> (#[trigger] r@[i]) == final(self).digits_spec()[old(
                    self,
                ).pos_spec() + i],
            modeled(old(self).cfg_spec().constant) ==> forall|i: int|
                0 <= i < r@.len() ==> (#[trigger] r@[i]) == digit_model(
                    old(self).cfg_spec().constant,
                    old(self).cfg_spec().base,
                    old(self).pos_spec() + i as nat,
                ),
    {
        proof {
            assert(old(self).digits_spec().subrange(
                0,
                old(self).digits_spec().len() as int,
            ) =~= old(self).digits_spec());
        }
        let mut out: Vec<u8> = Vec::new();
        let mut i: usize = 0;
        while i < n
            invariant
                i <= n,
                out@.len() == i,
                self.wf(),
                self.cfg_spec() == old(self).cfg_spec(),
                self.pos_spec() == old(self).pos_spec() + i,
                i > 0 ==> old(self).pos_spec() + i <= MAX_DIGITS,
                is_prefix(old(self).digits_spec(), self.digits_spec()),
                i > 0 ==> old(self).pos_spec() + i <= self.digits_spec().len(),
                forall|j: int| 0 <= j < i ==> out@[j] < old(self).cfg_spec().base,
                forall|j: int|
                    0 <= j < i ==> (#[trigger] out@[j]) == self.digits_spec()[old(
                        self,
                    ).pos_spec() + j],
                modeled(old(self).cfg_spec().constant) ==> forall|j: int|
                    0 <= j < i ==> (#[trigger] out@[j]) == digit_model(
                        old(self).cfg_spec().constant,
                        old(self).cfg_spec().base,
                        old(self).pos_spec() + j as nat,
                    ),
            decreases n - i,
        {
            let ghost mid = *self;
            match self.next() {
                Some(d) => {
                    proof {
                        assert(self.digits_spec().subrange(
                            0,
                            old(self).digits_spec().len() as int,
                        ) =~= old(self).digits_spec());
                        assert forall|j: int|
                            0 <= j < i implies (#[trigger] out@[j]) == self.digits_spec()[old(
                            self,
                        ).pos_spec() + j] by {
                            assert(out@[j] == mid.digits_spec()[old(self).pos_spec() + j]);
                            assert(self.digits_spec()[old(self).pos_spec() + j]
                                == mid.digits_spec().subrange(
                                0,
                                mid.digits_spec().len() as int,
                            )[old(self).pos_spec() + j]);
                        }
                    }
                    out.push(d);
                    i += 1;
                },
                None => {
                    return out;
                },
            }
        }
        out
    }
}

/// One stored snapshot: a name, the captured digit pairs, and the
/// absolute range `[from, to)` they were taken from.
pub struct SnippetEntry {
    pub name: String,
    pub pairs: Vec<(u8, u8)>,
    pub from: usize,
    pub to: usize,
}

/// The pair sequence that a zip over the modelled digit sequences
/// yields: element `i` pairs the left digit at `lpos + i` with the
/// right digit at `rpos + i`.
pub open spec fn zip_model(
    lcfg: SpigotConfig,
    rcfg: SpigotConfig,
    lpos: nat,
    rpos: nat,
    n: nat,
) -> Seq<(u8, u8)> {
    Seq::new(
        n,
        |i: int|
            (
                digit_model(lcfg.constant, lcfg.base, (lpos + i) as nat),
                digit_model(rcfg.constant, rcfg.base, (rpos + i) as nat),
            ),
    )
}

/// The accumulator chain of a left fold over digit pairs: `accs` is one
/// longer than `pairs`, and each application of `combine` takes the
/// accumulator at `i` and the pair at `i` to the accumulator at `i + 1`.
pub open spec fn fold_chain_ok<T, F: Fn(T, (u8, u8)) -> T>(
    combine: F,
    pairs: Seq<(u8, u8)>,
    accs: Seq<T>,
) -> bool {
    &&& accs.len() == pairs.len() + 1
    &&& forall|i: int|
        0 <= i < pairs.len() ==> combine.ensures((accs[i], #[trigger] pairs[i]), accs[i + 1])
}

/// Two cursors with independent positions plus the snippet store.
pub struct DualStream {
    left: Cursor,
    right: Cursor,
    snippets: Vec<SnippetEntry>,
}

impl DualStream {
    /// The left cursor.
    pub closed spec fn left_spec(self) -> Cursor {
        self.left
    }

    /// The right cursor.
    pub closed spec fn right_spec(self) -> Cursor {
        self.right
    }

    /// The stored snapshots, in insertion order.
    pub closed spec fn snippets_spec(self) -> Seq<SnippetEntry> {
        self.snippets@
    }

    /// The index of the entry stored under `name`, if any.
    pub closed spec fn find_spec(self, name: Seq<char>) -> Option<int> {
        if exists|i: int| 0 <= i < self.snippets@.len() && (#[trigger] self.snippets@[i]).name@ == name {
            Some(choose|i: int| 0 <= i < self.snippets@.len() && (#[trigger] self.snippets@[i]).name@ == name)
        } else {
            None
        }
    }

    /// Both cursors valid and snippet names unique.
    pub closed spec fn wf(self) -> bool {
        &&& self.left.wf()
        &&& self.right.wf()
        &&& forall|i: int, j: int|
            0 <= i < j < self.snippets@.len() ==> (#[trigger] self.snippets@[i]).name@ != (
            #[trigger] self.snippets@[j]).name@
    }

    /// The same stream with the two sides exchanged whole.
    pub closed spec fn twisted(self) -> DualStream {
        DualStream { left: self.right, right: self.left, snippets: self.snippets }
    }

    /// Build a stream from one configuration per side.
    pub fn from_configs(left_cfg: SpigotConfig, right_cfg: SpigotConfig) -> (r: DualStream)
        requires
            left_cfg.wf(),
            right_cfg.wf(),
        ensures
            r.wf(),
            r.left_spec().cfg_spec() == left_cfg,
            r.right_spec().cfg_spec() == right_cfg,
            r.left_spec().pos_spec() == 0,
            r.right_spec().pos_spec() == 0,
            r.snippets_spec().len() == 0,
    {
        DualStream { left: Cursor::new(left_cfg), right: Cursor::new(right_cfg), snippets: Vec::new() }
    }

    /// Build a stream over two constants, both in base 10.
    pub fn new(left: Constant, right: Constant) -> (r: DualStream)
        ensures
            r.wf(),
            r.left_spec().cfg_spec() == (SpigotConfig { constant: left, base: 10 }),
            r.right_spec().cfg_spec() == (SpigotConfig { constant: right, base: 10 }),
            r.left_spec().pos_spec() == 0,
            r.right_spec().pos_spec() == 0,
            r.snippets_spec().len() == 0,
    {
        DualStream::from_configs(
            SpigotConfig { constant: left, base: 10 },
            SpigotConfig { constant: right, base: 10 },
        )
    }

    /// Mutable access to the left cursor.
    pub fn left(&mut self) -> (r: &mut Cursor)
        ensures
            *r == old(self).left_spec(),
            final(self).left_spec() == *final(r),
            final(self).right_spec() == old(self).right_spec(),
            final(self).snippets_spec() == old(self).snippets_spec(),
    {
        &mut self.left
    }

    /// Mutable access to the right cursor.
    pub fn right(&mut self) -> (r: &mut Cursor)
        ensures
            *r == old(self).right_spec(),
            final(self).right_spec() == *final(r),
            final(self).left_spec() == old(self).left_spec(),
            final(self).snippets_spec() == old(self).snippets_spec(),
    {
        &mut self.right
    }

    /// The left cursor's position.
    pub fn left_pos(&self) -> (r: usize)
        ensures
            r == self.left_spec().pos_spec(),
    {
        self.left.pos()
    }

    /// The right cursor's position.
    pub fn right_pos(&self) -> (r: usize)
        ensures
            r == self.right_spec().pos_spec(),
    {
        self.right.pos()
    }

    /// The left cursor's base.
    pub fn left_base(&self) -> (r: u8)
        ensures
            r == self.left_spec().cfg_spec().base,
    {
        self.left.config().base
    }

    /// The right cursor's base.
    pub fn right_base(&self) -> (r: u8)
        ensures
            r == self.right_spec().cfg_spec().base,
    {
        self.right.config().base
    }

    /// The left cursor's constant.
    pub fn left_constant(&self) -> (r: Constant)
        ensures
            r == self.left_spec().cfg_spec().constant,
    {
        self.left.config().constant
    }

    /// The right cursor's constant.
    pub fn right_constant(&self) -> (r: Constant)
        ensures
            r == self.right_spec().cfg_spec().constant,
    {
        self.right.config().constant
    }

    /// Exchange the two sides as whole units: configuration, position
    /// and generation state all move together.  The snippet store is
    /// untouched.
    pub fn twist(&mut self)
        requires
            old(self).wf(),
        ensures
            final(self).wf(),
            *final(self) == old(self).twisted(),
            final(self).left_spec() == old(self).right_spec(),
            final(self).right_spec() == old(self).left_spec(),
            final(self).snippets_spec() == old(self).snippets_spec(),
    {
        core::mem::swap(&mut self.left, &mut self.right);
    }

    /// Advance both sides by one and return the digit pair, or `None`
    /// and leave both sides alone when either side is exhausted.
    pub fn zip_next(&mut self) -> (r: Option<(u8, u8)>)
        requires
            old(self).wf(),
        ensures
            final(self).wf(),
            final(self).snippets_spec() == old(self).snippets_spec(),
            final(self).left_spec().cfg_spec() == old(self).left_spec().cfg_spec(),
            final(self).right_spec().cfg_spec() == old(self).right_spec().cfg_spec(),
            old(self).left_spec().pos_spec() < MAX_DIGITS && old(self).right_spec().pos_spec()
                < MAX_DIGITS ==> {
                &&& r is Some
                &&& final(self).left_spec().pos_spec() == old(self).left_spec().pos_spec() + 1
                &&& final(self).right_spec().pos_spec() == old(self).right_spec().pos_spec() + 1
                &&& r.unwrap().0 < old(self).left_spec().cfg_spec().base
                &&& r.unwrap().1 < old(self).right_spec().cfg_spec().base
                &&& final(self).left_spec().digits_spec().len() > old(self).left_spec().pos_spec()
                &&& final(self).right_spec().digits_spec().len() > old(
                    self,
                ).right_spec().pos_spec()
                &&& r.unwrap().0 == final(self).left_spec().digits_spec()[old(
                    self,
                ).left_spec().pos_spec() as int]
                &&& r.unwrap().1 == final(self).right_spec().digits_spec()[old(
                    self,
                ).right_spec().pos_spec() as int]
                &&& is_prefix(
                    old(self).left_spec().digits_spec(),
                    final(self).left_spec().digits_spec(),
                )
                &&& is_prefix(
                    old(self).right_spec().digits_spec(),
                    final(self).right_spec().digits_spec(),
                )
                &&& modeled(old(self).left_spec().cfg_spec().constant) ==> r.unwrap().0
                    == digit_model(
                    old(self).left_spec().cfg_spec().constant,
                    old(self).left_spec().cfg_spec().base,
                    old(self).left_spec().pos_spec(),
                )
                &&& modeled(old(self).right_spec().cfg_spec().constant) ==> r.unwrap().1
                    == digit_model(
                    old(self).right_spec().cfg_spec().constant,
                    old(self).right_spec().cfg_spec().base,
                    old(self).right_spec().pos_spec(),
                )
                &&& modeled(old(self).left_spec().cfg_spec().constant) && modeled(
                    old(self).right_spec().cfg_spec().constant,
                ) ==> r.unwrap() == zip_model(
                    old(self).left_spec().cfg_spec(),
                    old(self).right_spec().cfg_spec(),
                    old(self).left_spec().pos_spec(),
                    old(self).right_spec().pos_spec(),
                    1,
                )[0]
            },
            !(old(self).left_spec().pos_spec() < MAX_DIGITS && old(self).right_spec().pos_spec()
                < MAX_DIGITS) ==> r is None && final(self).left_spec() == old(self).left_spec()
                && final(self).right_spec() == old(self).right_spec(),
    {
        if self.left.pos() >= MAX_DIGITS || self.right.pos() >= MAX_DIGITS {
            return None;
        }
        let l = self.left.next();
        let r = self.right.next();
        match (l, r) {
            (Some(a), Some(b)) => Some((a, b)),
            _ => None,
        }
    }

    /// Advance both sides by `n` in lock step and return the pairs, in
    /// order.  The result is `n` pairs long unless the replay bound cuts
    /// it short.
    pub fn zip_take(&mut self, n: usize) -> (r: Vec<(u8, u8)>)
        requires
            old(self).wf(),
        ensures
            final(self).wf(),
            final(self).snippets_spec() == old(self).snippets_spec(),
            final(self).left_spec().cfg_spec() == old(self).left_spec().cfg_spec(),
            final(self).right_spec().cfg_spec() == old(self).right_spec().cfg_spec(),
            final(self).left_spec().pos_spec() == old(self).left_spec().pos_spec() + r@.len(),
            final(self).right_spec().pos_spec() == old(self).right_spec().pos_spec() + r@.len(),
            r@.len() <= n,
            r@.len() <= MAX_DIGITS,
            old(self).left_spec().pos_spec() + n <= MAX_DIGITS && old(self).right_spec().pos_spec() + n <= MAX_DIGITS ==> r@.len() == n,
            forall|i: int|
                0 <= i < r@.len() ==> (#[trigger] r@[i]).0 < old(self).left_spec().cfg_spec().base
                    && r@[i].1 < old(self).right_spec().cfg_spec().base,
            forall|i: int|
                0 <= i < r@.len() ==> (#[trigger] r@[i]) == (
                    final(self).left_spec().digits_spec()[old(self).left_spec().pos_spec() + i],
                    final(self).right_spec().digits_spec()[old(self).right_spec().pos_spec() + i],
                ),
            modeled(old(self).left_spec().cfg_spec().constant) && modeled(
                old(self).right_spec().cfg_spec().constant,
            ) ==> r@ == zip_model(
                old(self).left_spec().cfg_spec(),
                old(self).right_spec().cfg_spec(),
                old(self).left_spec().pos_spec(),
                old(self).right_spec().pos_spec(),
                r@.len() as nat,
            ),
    {
        proof {
            assert(old(self).left_spec().digits_spec().subrange(
                0,
                old(self).left_spec().digits_spec().len() as int,
            ) =~= old(self).left_spec().digits_spec());
            assert(old(self).right_spec().digits_spec().subrange(
                0,
                old(self).right_spec().digits_spec().len() as int,
            ) =~= old(self).right_spec().digits_spec());
        }
        let mut out: Vec<(u8, u8)> = Vec::new();
        let mut i: usize = 0;
        while i < n
            invariant
                i <= n,
                out@.len() == i,
                self.wf(),
                self.snippets_spec() == old(self).snippets_spec(),
                self.left_spec().cfg_spec() == old(self).left_spec().cfg_spec(),
                self.right_spec().cfg_spec() == old(self).right_spec().cfg_spec(),
                self.left_spec().pos_spec() == old(self).left_spec().pos_spec() + i,
                self.right_spec().pos_spec() == old(self).right_spec().pos_spec() + i,
                i > 0 ==> old(self).left_spec().pos_spec() + i <= MAX_DIGITS,
                i > 0 ==> old(self).right_spec().pos_spec() + i <= MAX_DIGITS,
                is_prefix(old(self).left_spec().digits_spec(), self.left_spec().digits_spec()),
                is_prefix(old(self).right_spec().digits_spec(), self.right_spec().digits_spec()),
                i > 0 ==> old(self).left_spec().pos_spec() + i <= self.left_spec(
                ).digits_spec().len(),
                i > 0 ==> old(self).right_spec().pos_spec() + i <= self.right_spec(
                ).digits_spec().len(),
                forall|j: int|
                    0 <= j < i ==> (#[trigger] out@[j]).0 < old(self).left_spec().cfg_spec().base && out@[j].1 < old(self).right_spec().cfg_spec().base,
                forall|j: int|
                    0 <= j < i ==> (#[trigger] out@[j]) == (
                        self.left_spec().digits_spec()[old(self).left_spec().pos_spec() + j],
                        self.right_spec().digits_spec()[old(self).right_spec().pos_spec() + j],
                    ),
                modeled(old(self).left_spec().cfg_spec().constant) && modeled(
                    old(self).right_spec().cfg_spec().constant,
                ) ==> out@ == zip_model(
                    old(self).left_spec().cfg_spec(),
                    old(self).right_spec().cfg_spec(),
                    old(self).left_spec().pos_spec(),
                    old(self).right_spec().pos_spec(),
                    i as nat,
                ),
            decreases n - i,
        {
            let ghost mid = *self;
            match self.zip_next() {
                Some(p) => {
                    proof {
                        assert(self.left_spec().digits_spec().subrange(
                            0,
                            old(self).left_spec().digits_spec().len() as int,
                        ) =~= old(self).left_spec().digits_spec());
                        assert(self.right_spec().digits_spec().subrange(
                            0,
                            old(self).right_spec().digits_spec().len() as int,
                        ) =~= old(self).right_spec().digits_spec());
                        assert forall|j: int| 0 <= j < i implies (#[trigger] out@[j]) == (
                            self.left_spec().digits_spec()[old(self).left_spec().pos_spec() + j],
                            self.right_spec().digits_spec()[old(self).right_spec().pos_spec() + j],
                        ) by {
                            assert(out@[j].0 == mid.left_spec().digits_spec()[old(
                                self,
                            ).left_spec().pos_spec() + j]);
                            assert(self.left_spec().digits_spec()[old(
                                self,
                            ).left_spec().pos_spec() + j] == mid.left_spec().digits_spec(
                            ).subrange(0, mid.left_spec().digits_spec().len() as int)[old(
                                self,
                            ).left_spec().pos_spec() + j]);
                            assert(out@[j].1 == mid.right_spec().digits_spec()[old(
                                self,
                            ).right_spec().pos_spec() + j]);
                            assert(self.right_spec().digits_spec()[old(
                                self,
                            ).right_spec().pos_spec() + j] == mid.right_spec().digits_spec(
                            ).subrange(0, mid.right_spec().digits_spec().len() as int)[old(
                                self,
                            ).right_spec().pos_spec() + j]);
                        }
                    }
                    out.push(p);
                    i += 1;
                    proof {
                        if modeled(old(self).left_spec().cfg_spec().constant) && modeled(
                            old(self).right_spec().cfg_spec().constant,
                        ) {
                            assert(out@ =~= zip_model(
                                old(self).left_spec().cfg_spec(),
                                old(self).right_spec().cfg_spec(),
                                old(self).left_spec().pos_spec(),
                                old(self).right_spec().pos_spec(),
                                i as nat,
                            ));
                        }
                    }
                },
                None => {
                    return out;
                },
            }
        }
        out
    }

    /// Fold `combine` over the next `n` digit pairs in lock step,
    /// starting from `seed`: the pairs are consumed in order, both
    /// positions advancing together, exactly as [`DualStream::zip_take`]
    /// would produce them, and the result is the left fold of `combine`
    /// over those pairs.
    pub fn zip_fold_n<T, F: Fn(T, (u8, u8)) -> T>(&mut self, n: usize, seed: T, combine: F) -> (r:
        T)
        requires
            old(self).wf(),
            forall|acc: T, p: (u8, u8)| #[trigger] combine.requires((acc, p)),
        ensures
            final(self).wf(),
            final(self).snippets_spec() == old(self).snippets_spec(),
            final(self).left_spec().cfg_spec() == old(self).left_spec().cfg_spec(),
            final(self).right_spec().cfg_spec() == old(self).right_spec().cfg_spec(),
            final(self).left_spec().pos_spec() - old(self).left_spec().pos_spec() == final(self).right_spec().pos_spec() - old(self).right_spec().pos_spec(),
            old(self).left_spec().pos_spec() + n <= MAX_DIGITS && old(self).right_spec().pos_spec()
                + n <= MAX_DIGITS ==> final(self).left_spec().pos_spec() == old(self).left_spec().pos_spec() + n,
            exists|pairs: Seq<(u8, u8)>, accs: Seq<T>|
                #![trigger fold_chain_ok(combine, pairs, accs)]
                {
                    &&& fold_chain_ok(combine, pairs, accs)
                    &&& accs[0] == seed
                    &&& r == accs.last()
                    &&& pairs.len() <= n
                    &&& final(self).left_spec().pos_spec() == old(self).left_spec().pos_spec()
                        + pairs.len()
                    &&& final(self).right_spec().pos_spec() == old(self).right_spec().pos_spec()
                        + pairs.len()
                    &&& old(self).left_spec().pos_spec() + n <= MAX_DIGITS && old(
                        self,
                    ).right_spec().pos_spec() + n <= MAX_DIGITS ==> pairs.len() == n
                    &&& forall|i: int|
                        0 <= i < pairs.len() ==> (#[trigger] pairs[i]).0 < old(
                            self,
                        ).left_spec().cfg_spec().base && pairs[i].1 < old(
                            self,
                        ).right_spec().cfg_spec().base
                    &&& modeled(old(self).left_spec().cfg_spec().constant) && modeled(
                        old(self).right_spec().cfg_spec().constant,
                    ) ==> pairs == zip_model(
                        old(self).left_spec().cfg_spec(),
                        old(self).right_spec().cfg_spec(),
                        old(self).left_spec().pos_spec(),
                        old(self).right_spec().pos_spec(),
                        pairs.len() as nat,
                    )
                },
    {
        let pairs = self.zip_take(n);
        let m = pairs.len();
        let ghost gpairs = pairs@;
        let ghost seed0 = seed;
        let ghost mut chain = Seq::<T>::empty().push(seed);
        let mut acc = seed;
        let mut i: usize = 0;
        while i < m
            invariant
                i <= m,
                m == pairs@.len(),
                gpairs == pairs@,
                chain.len() == i + 1,
                chain[0] == seed0,
                chain.last() == acc,
                forall|j: int|
                    0 <= j < i ==> combine.ensures((chain[j], #[trigger] gpairs[j]), chain[j + 1]),
                forall|a: T, p: (u8, u8)| #[trigger] combine.requires((a, p)),
            decreases m - i,
        {
            let ghost prev = acc;
            acc = combine(acc, pairs[i]);
            i += 1;
            proof {
                chain = chain.push(acc);
            }
        }
        proof {
            assert(fold_chain_ok(combine, gpairs, chain));
        }
        acc
    }

    /// Snapshot the absolute digit range `[from, to)` of both sides into
    /// the store under `name`, without reading or moving the live
    /// cursors.  Each side is replayed on a fresh cursor built from that
    /// side's configuration.  A range with `from > to` is rejected and
    /// nothing is stored.
    pub fn snip(&mut self, name: &str, from: usize, to: usize) -> (r: Result<(), StreamError>)
        requires
            old(self).wf(),
        ensures
            final(self).wf(),
            final(self).left_spec() == old(self).left_spec(),
            final(self).right_spec() == old(self).right_spec(),
            from > to ==> r == Err::<(), StreamError>(StreamError::InvalidRange) && final(self).snippets_spec() == old(self).snippets_spec(),
            from <= to ==> {
                &&& r == Ok::<(), StreamError>(())
                &&& store_has(final(self).snippets_spec(), name@)
                &&& forall|j: int|
                    0 <= j < final(self).snippets_spec().len() && (#[trigger] final(self).snippets_spec()[j]).name@ == name@ ==> snip_entry_ok(
                        final(self).snippets_spec()[j],
                        old(self).left_spec().cfg_spec(),
                        old(self).right_spec().cfg_spec(),
                        name@,
                        from as nat,
                        to as nat,
                    )
                &&& !store_has(old(self).snippets_spec(), name@) ==> final(self).snippets_spec().len() == old(self).snippets_spec().len() + 1
                &&& store_has(old(self).snippets_spec(), name@) ==> final(self).snippets_spec().len() == old(self).snippets_spec().len()
                &&& forall|j: int|
                    0 <= j < old(self).snippets_spec().len() && (#[trigger] old(self).snippets_spec()[j]).name@ != name@ ==> final(self).snippets_spec()[j] == old(self).snippets_spec()[j]
            },
    {
        if from > to {
            return Err(StreamError::InvalidRange);
        }
        let count = to - from;
        let mut lc = Cursor::new(self.left.config());
        lc.drop(from);
        let ld = lc.take(count);
        let mut rc = Cursor::new(self.right.config());
        rc.drop(from);
        let rd = rc.take(count);
        let mut pairs: Vec<(u8, u8)> = Vec::new();
        let k = ld.len();
        let mut i: usize = 0;
        while i < k
            invariant
                i <= k,
                pairs@.len() == i,
                ld@.len() == k,
                rd@.len() == k,
                forall|j: int| 0 <= j < i ==> (#[trigger] pairs@[j]) == (ld@[j], rd@[j]),
            decreases k - i,
        {
            pairs.push((ld[i], rd[i]));
            i += 1;
        }
        let entry = SnippetEntry { name: name.to_owned(), pairs, from, to };
        proof {
            assert(snip_entry_ok(
                entry,
                old(self).left_spec().cfg_spec(),
                old(self).right_spec().cfg_spec(),
                name@,
                from as nat,
                to as nat,
            )) by {
                if modeled(old(self).left_spec().cfg_spec().constant) && modeled(
                    old(self).right_spec().cfg_spec().constant,
                ) {
                    assert(entry.pairs@ =~= zip_model(
                        old(self).left_spec().cfg_spec(),
                        old(self).right_spec().cfg_spec(),
                        from as nat,
                        from as nat,
                        entry.pairs@.len() as nat,
                    ));
                }
            }
        }
        self.store(entry);
        Ok(())
    }

    /// Insert an entry, replacing any entry already stored under the
    /// same name.
    fn store(&mut self, entry: SnippetEntry)
        requires
            old(self).wf(),
        ensures
            final(self).wf(),
            final(self).left_spec() == old(self).left_spec(),
            final(self).right_spec() == old(self).right_spec(),
            store_has(final(self).snippets_spec(), entry.name@),
            forall|j: int|
                0 <= j < final(self).snippets_spec().len() && (#[trigger] final(self).snippets_spec()[j]).name@ == entry.name@ ==> final(self).snippets_spec()[j]
                == entry,
            !store_has(old(self).snippets_spec(), entry.name@) ==> final(self).snippets_spec().len() == old(self).snippets_spec().len() + 1,
            store_has(old(self).snippets_spec(), entry.name@) ==> final(self).snippets_spec().len() == old(self).snippets_spec().len(),
            forall|j: int|
                0 <= j < old(self).snippets_spec().len() && (#[trigger] old(self).snippets_spec()[j]).name@ != entry.name@ ==> final(self).snippets_spec()[j]
                == old(self).snippets_spec()[j],
    {
        let ghost pre = self.snippets@;
        let n = self.snippets.len();
        let mut j: usize = 0;
        while j < n
            invariant
                j <= n,
                n == self.snippets@.len(),
                self == old(self),
                old(self).wf(),
                pre == self.snippets@,
                forall|k: int|
                    0 <= k < j ==> (#[trigger] self.snippets@[k]).name@ != entry.name@,
            decreases n - j,
        {
            if string_eq(&self.snippets[j].name, &entry.name) {
                proof {
                    assert(pre[j as int].name@ == entry.name@);
                }
                self.snippets[j] = entry;
                proof {
                    let w: int = j as int;
                    assert(self.snippets_spec()[w] == entry);
                    assert(0 <= w < self.snippets_spec().len() && (self.snippets_spec()[w]).name@
                        == entry.name@);
                    assert(store_has(self.snippets_spec(), entry.name@));
                    assert forall|a: int, b: int| 0 <= a < b < self.snippets_spec().len() implies (
                    #[trigger] self.snippets_spec()[a]).name@ != (
                    #[trigger] self.snippets_spec()[b]).name@ by {
                        assert((old(self).snippets_spec()[a]).name@ != (old(self).snippets_spec()[b]).name@);
                        if a != w {
                            assert(self.snippets_spec()[a] == old(self).snippets_spec()[a]);
                        }
                        if b != w {
                            assert(self.snippets_spec()[b] == old(self).snippets_spec()[b]);
                        }
                    }
                }
                return ;
            }
            j += 1;
        }
        self.snippets.push(entry);
        proof {
            let w: int = pre.len() as int;
            assert(self.snippets_spec()[w] == entry);
            assert(0 <= w < self.snippets_spec().len() && (self.snippets_spec()[w]).name@
                == entry.name@);
            assert(store_has(self.snippets_spec(), entry.name@));
            assert forall|a: int, b: int| 0 <= a < b < self.snippets_spec().len() implies (
            #[trigger] self.snippets_spec()[a]).name@ != (
            #[trigger] self.snippets_spec()[b]).name@ by {
                if b < w {
                    assert((old(self).snippets_spec()[a]).name@ != (old(self).snippets_spec()[b]).name@);
                    assert(self.snippets_spec()[a] == old(self).snippets_spec()[a]);
                    assert(self.snippets_spec()[b] == old(self).snippets_spec()[b]);
                } else {
                    assert(self.snippets_spec()[b] == entry);
                    assert(self.snippets_spec()[a] == old(self).snippets_spec()[a]);
                }
            }
        }
    }

    /// The stored pairs under `name`, or `None` when no snapshot of
    /// that name exists.
    pub fn get_snippet(&self, name: &str) -> (r: Option<Vec<(u8, u8)>>)
        ensures
            r is Some <==> store_has(self.snippets_spec(), name@),
            r is Some ==> exists|j: int|
                0 <= j < self.snippets_spec().len() && (#[trigger] self.snippets_spec()[j]).name@
                    == name@ && r.unwrap()@ == self.snippets_spec()[j].pairs@,
    {
        let owned = name.to_owned();
        let n = self.snippets.len();
        let mut j: usize = 0;
        while j < n
            invariant
                j <= n,
                n == self.snippets@.len(),
                owned@ == name@,
                forall|k: int| 0 <= k < j ==> (#[trigger] self.snippets@[k]).name@ != name@,
            decreases n - j,
        {
            if string_eq(&self.snippets[j].name, &owned) {
                let src = &self.snippets[j].pairs;
                let m = src.len();
                let mut out: Vec<(u8, u8)> = Vec::new();
                let mut t: usize = 0;
                while t < m
                    invariant
                        t <= m,
                        out@.len() == t,
                        m == src@.len(),
                        forall|q: int| 0 <= q < t ==> out@[q] == src@[q],
                    decreases m - t,
                {
                    out.push(src[t]);
                    t += 1;
                }
                proof {
                    let w: int = j as int;
                    assert(out@ =~= self.snippets_spec()[w].pairs@);
                    assert(0 <= w < self.snippets_spec().len() && (self.snippets_spec()[w]).name@
                        == name@ && out@ == self.snippets_spec()[w].pairs@);
                    assert(store_has(self.snippets_spec(), name@));
                }
                return Some(out);
            }
            j += 1;
        }
        None
    }

    /// Every stored snapshot name, in insertion order.
    pub fn snippet_keys(&self) -> (r: Vec<String>)
        ensures
            r@.len() == self.snippets_spec().len(),
            forall|j: int|
                0 <= j < r@.len() ==> (#[trigger] r@[j])@ == self.snippets_spec()[j].name@,
    {
        let n = self.snippets.len();
        let mut out: Vec<String> = Vec::new();
        let mut j: usize = 0;
        while j < n
            invariant
                j <= n,
                n == self.snippets@.len(),
                out@.len() == j,
                forall|k: int| 0 <= k < j ==> (#[trigger] out@[k])@ == self.snippets@[k].name@,
            decreases n - j,
        {
            out.push(self.snippets[j].name.clone());
            j += 1;
        }
        out
    }
}

/// Compare two stored strings for equality.
fn string_eq(a: &String, b: &String) -> (r: bool)
    ensures
        r == (a@ == b@),
{
    a.eq(b)
}

/// True when an entry named `nm` is in the store.
pub open spec fn store_has(entries: Seq<SnippetEntry>, nm: Seq<char>) -> bool {
    exists|i: int| 0 <= i < entries.len() && (#[trigger] entries[i]).name@ == nm
}

/// What a stored snapshot of `[from, to)` over the given configurations
/// holds: the right name and range, digit pairs below the bases, as
/// many pairs as the replay bound allows, and — for the modelled
/// constants — exactly the modelled digit pairs.
pub open spec fn snip_entry_ok(
    e: SnippetEntry,
    lcfg: SpigotConfig,
    rcfg: SpigotConfig,
    nm: Seq<char>,
    from: nat,
    to: nat,
) -> bool {
    &&& e.name@ == nm
    &&& e.from == from
    &&& e.to == to
    &&& e.pairs@.len() == take_len(from, (to - from) as nat)
    &&& forall|i: int|
        0 <= i < e.pairs@.len() ==> (#[trigger] e.pairs@[i]).0 < lcfg.base && e.pairs@[i].1
            < rcfg.base
    &&& modeled(lcfg.constant) && modeled(rcfg.constant) ==> e.pairs@ == zip_model(
        lcfg,
        rcfg,
        from,
        from,
        e.pairs@.len() as nat,
    )
}

/// A valid stream has two valid cursors.
pub proof fn lemma_wf_sides(s: DualStream)
    requires
        s.wf(),
    ensures
        s.left_spec().wf(),
        s.right_spec().wf(),
{
}

/// A stream whose cursors are valid and whose store is that of a valid
/// stream is valid.
pub proof fn lemma_wf_rebuild(a: DualStream, b: DualStream)
    requires
        a.wf(),
        b.left_spec().wf(),
        b.right_spec().wf(),
        b.snippets_spec() == a.snippets_spec(),
    ensures
        b.wf(),
{
}

// ───────────────────────────────────────────────────────────────────────
// Laws
// ───────────────────────────────────────────────────────────────────────

/// Twisting is its own inverse: exchanging the two sides twice restores
/// the stream — configurations, positions, generation state and the
/// snippet store — exactly.
pub proof fn lemma_twist_involution(s: DualStream)
    ensures
        s.twisted().twisted() == s,
{
}

/// Taking `n` pairs in lock step equals one paired step followed by
/// taking `n - 1` pairs: the zip sequence unfolds one pair at a time,
/// with both positions advancing together.
pub proof fn lemma_zip_model_step(l: SpigotConfig, r: SpigotConfig, lp: nat, rp: nat, n: nat)
    requires
        n >= 1,
    ensures
        zip_model(l, r, lp, rp, n) == seq![zip_model(l, r, lp, rp, 1)[0]] + zip_model(
            l,
            r,
            lp + 1,
            rp + 1,
            (n - 1) as nat,
        ),
{
    assert(zip_model(l, r, lp, rp, n) =~= seq![zip_model(l, r, lp, rp, 1)[0]] + zip_model(
        l,
        r,
        lp + 1,
        rp + 1,
        (n - 1) as nat,
    ));
}

/// Snapshots are idempotent: two snips of the same range over the same
/// configuration pair store identical pair sequences (stated over the
/// modelled digit sequences), whatever the live cursors did in between.
pub proof fn lemma_snip_idempotent(
    e1: SnippetEntry,
    e2: SnippetEntry,
    lcfg: SpigotConfig,
    rcfg: SpigotConfig,
    nm: Seq<char>,
    from: nat,
    to: nat,
)
    requires
        modeled(lcfg.constant),
        modeled(rcfg.constant),
        snip_entry_ok(e1, lcfg, rcfg, nm, from, to),
        snip_entry_ok(e2, lcfg, rcfg, nm, from, to),
    ensures
        e1.pairs@ == e2.pairs@,
        e1.from == e2.from,
        e1.to == e2.to,
{
}

/// Advancing both sides by `k` and then taking `n` pairs yields
/// exactly the tail of taking `k + n` pairs from the original
/// positions: the zip consumes pairs in lock step, one pair per step,
/// so composing after an equal drop on both sides reproduces a suffix.
pub proof fn lemma_zip_model_shift(
    l: SpigotConfig,
    r: SpigotConfig,
    lp: nat,
    rp: nat,
    k: nat,
    n: nat,
)
    ensures
        zip_model(l, r, (lp + k) as nat, (rp + k) as nat, n) == zip_model(
            l,
            r,
            lp,
            rp,
            (k + n) as nat,
        ).subrange(k as int, (k + n) as int),
{
    assert(zip_model(l, r, (lp + k) as nat, (rp + k) as nat, n) =~= zip_model(
        l,
        r,
        lp,
        rp,
        (k + n) as nat,
    ).subrange(k as int, (k + n) as int));
}

/// Determinism: the zip sequence of a stream depends only on the two
/// configurations and the two positions, so two independently
/// constructed streams over the same configuration pair yield identical
/// pair sequences at equal positions.
pub proof fn lemma_zip_deterministic(s1: DualStream, s2: DualStream, n: nat)
    requires
        s1.left_spec().cfg_spec() == s2.left_spec().cfg_spec(),
        s1.right_spec().cfg_spec() == s2.right_spec().cfg_spec(),
        s1.left_spec().pos_spec() == s2.left_spec().pos_spec(),
        s1.right_spec().pos_spec() == s2.right_spec().pos_spec(),
    ensures
        zip_model(
            s1.left_spec().cfg_spec(),
            s1.right_spec().cfg_spec(),
            s1.left_spec().pos_spec(),
            s1.right_spec().pos_spec(),
            n,
        ) == zip_model(
            s2.left_spec().cfg_spec(),
            s2.right_spec().cfg_spec(),
            s2.left_spec().pos_spec(),
            s2.right_spec().pos_spec(),
            n,
        ),
{
}

} // verus!
