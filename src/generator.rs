use vstd::prelude::*;
use rand::rngs::StdRng;
use crate::charset::{
    build_pool, in_charset, lemma_charsets_disjoint, lemma_pool_members, pool_of, Charset,
};
use crate::random::{
    entropy_seed, push_char, range_high, range_low, sample_index, seeded_rng, uniform_range,
    IndexRange,
};

verus! {

/// The shortest password length a driver may set.
pub const MIN_LENGTH: usize = 8;

/// The longest password length a driver may set.
pub const MAX_LENGTH: usize = 64;

/// Why a configuration change was refused.
#[derive(Clone, Copy, Debug, PartialEq, Eq, Structural)]
pub enum ConfigError {
    /// The requested length lies outside `MIN_LENGTH..=MAX_LENGTH`.
    LengthOutOfRange,
    /// The change would leave no charset enabled.
    NoCharsetEnabled,
}

/// The selection `f` with charset `c` switched.
pub open spec fn flip(f: (bool, bool, bool, bool), c: Charset) -> (bool, bool, bool, bool) {
    match c {
        Charset::Upper => (!f.0, f.1, f.2, f.3),
        Charset::Lower => (f.0, !f.1, f.2, f.3),
        Charset::Digits => (f.0, f.1, !f.2, f.3),
        Charset::Symbols => (f.0, f.1, f.2, !f.3),
    }
}

/// The selection `f` enables at least one charset.
pub open spec fn some_enabled(f: (bool, bool, bool, bool)) -> bool {
    f.0 || f.1 || f.2 || f.3
}

/// A password generator: its configuration, a cryptographically seeded
/// random source, and the character pool derived from the configuration.
pub struct Generator {
    /// The length of the passwords to generate.
    pub length: u8,
    /// Uppercase letters are enabled.
    pub upper: bool,
    /// Lowercase letters are enabled.
    pub lower: bool,
    /// Digits are enabled.
    pub num: bool,
    /// Symbols are enabled.
    pub sym: bool,
    /// The configuration changed since the pool was last built.
    pub updated: bool,
    /// The random source and the pool it draws from.
    pub sampler: Sampler,
}

/// The random source of a `Generator`, with the pool derived from its
/// configuration and the distribution of indices into that pool.
pub struct Sampler {
    /// The pool, rebuilt by `make` when `updated` is set.
    chars: Vec<char>,
    /// The random source, seeded once at construction.
    rng: StdRng,
    /// The distribution of indices into `chars`.
    range: IndexRange,
}

impl Sampler {
    /// The sampler draws uniformly from exactly `pool`.
    pub closed spec fn serves(&self, pool: Seq<char>) -> bool {
        &&& self.chars@ == pool
        &&& range_low(self.range) == 0
        &&& range_high(self.range) == self.chars@.len()
    }
}

impl Generator {
    /// Whether charset `c` is enabled.
    pub open spec fn enabled(&self, c: Charset) -> bool {
        match c {
            Charset::Upper => self.upper,
            Charset::Lower => self.lower,
            Charset::Digits => self.num,
            Charset::Symbols => self.sym,
        }
    }

    /// The selection as `(upper, lower, num, sym)`.
    pub open spec fn flags(&self) -> (bool, bool, bool, bool) {
        (self.upper, self.lower, self.num, self.sym)
    }

    /// At least one charset is enabled.
    pub open spec fn any_enabled(&self) -> bool {
        some_enabled(self.flags())
    }

    /// The pool that the current charset selection calls for.
    pub open spec fn pool(&self) -> Seq<char> {
        pool_of(self.upper, self.lower, self.num, self.sym)
    }

    /// The cached pool and index distribution match the current selection.
    pub open spec fn cache_fresh(&self) -> bool {
        self.sampler.serves(self.pool())
    }

    /// Well-formed: some charset is enabled, and unless a rebuild is pending
    /// the cache matches the configuration.
    pub open spec fn wf(&self) -> bool {
        &&& self.any_enabled()
        &&& !self.updated ==> self.cache_fresh()
    }

    /// `self` and `o` have the same length and charset selection.
    pub open spec fn same_config(&self, o: &Generator) -> bool {
        &&& self.length == o.length
        &&& self.upper == o.upper
        &&& self.lower == o.lower
        &&& self.num == o.num
        &&& self.sym == o.sym
    }

    /// A generator with length 8, letters and digits enabled, symbols
    /// disabled, and a random source seeded from the operating system.
    pub fn new() -> (g: Generator)
        ensures
            g.wf(),
            g.length == 8,
            g.upper && g.lower && g.num && !g.sym,
            g.updated,
    {
        let seed = entropy_seed();
        Generator {
            length: 8,
            upper: true,
            lower: true,
            num: true,
            sym: false,
            updated: true,
            sampler: Sampler {
                chars: Vec::with_capacity(77),
                rng: seeded_rng(seed),
                range: uniform_range(0, 1),
            },
        }
    }

    /// Rebuilds the pool and the index distribution from the configuration.
    fn update(&mut self)
        requires
            old(self).any_enabled(),
        ensures
            final(self).same_config(old(self)),
            !final(self).updated,
            final(self).cache_fresh(),
    {
        self.sampler.chars = build_pool(self.upper, self.lower, self.num, self.sym);
        self.updated = false;
        self.sampler.range = uniform_range(0, self.sampler.chars.len());
    }

    /// Generates a password of `length` characters, each drawn independently
    /// and uniformly from the pool of the enabled charsets. Rebuilds the pool
    /// first when the configuration changed.
    pub fn make(&mut self) -> (pass: String)
        requires
            old(self).wf(),
        ensures
            final(self).wf(),
            final(self).same_config(old(self)),
            !final(self).updated,
            pass@.len() == old(self).length,
            forall|i: int| 0 <= i < pass@.len() ==> old(self).pool().contains(#[trigger] pass@[i]),
    {
        if self.updated {
            self.update();
        }
        let mut pass = String::new();
        let mut n: u8 = 0;
        while n < self.length
            invariant
                self.wf(),
                !self.updated,
                self.same_config(old(self)),
                n <= self.length,
                pass@.len() == n,
                forall|i: int| 0 <= i < pass@.len() ==> self.pool().contains(#[trigger] pass@[i]),
            decreases self.length - n,
        {
            let k = sample_index(&mut self.sampler.rng, &self.sampler.range);
            let c = self.sampler.chars[k];
            push_char(&mut pass, c);
            proof {
                assert(pass@[n as int] == self.pool()[k as int]);
            }
            n = n + 1;
        }
        pass
    }

    /// Sets the password length when it lies in `MIN_LENGTH..=MAX_LENGTH`
    /// and marks the pool for a rebuild; otherwise changes nothing.
    pub fn set_length(&mut self, n: usize) -> (r: Result<(), ConfigError>)
        ensures
            r is Ok <==> MIN_LENGTH <= n <= MAX_LENGTH,
            r is Ok ==> {
                &&& final(self).length == n
                &&& final(self).updated
                &&& final(self).flags() == old(self).flags()
            },
            r is Err ==> r == Err::<(), ConfigError>(ConfigError::LengthOutOfRange),
            r is Err ==> *final(self) == *old(self),
            old(self).wf() ==> final(self).wf(),
    {
        if n < MIN_LENGTH || n > MAX_LENGTH {
            return Err(ConfigError::LengthOutOfRange);
        }
        self.length = n as u8;
        self.updated = true;
        Ok(())
    }

    /// Switches charset `c` on or off and marks the pool for a rebuild,
    /// unless that would leave no charset enabled: then nothing changes.
    pub fn toggle(&mut self, c: Charset) -> (r: Result<(), ConfigError>)
        ensures
            r is Ok <==> some_enabled(flip(old(self).flags(), c)),
            r is Ok ==> {
                &&& final(self).flags() == flip(old(self).flags(), c)
                &&& final(self).length == old(self).length
                &&& final(self).updated
            },
            r is Err ==> r == Err::<(), ConfigError>(ConfigError::NoCharsetEnabled),
            r is Err ==> *final(self) == *old(self),
            old(self).wf() ==> final(self).wf(),
    {
        let others = match c {
            Charset::Upper => self.lower || self.num || self.sym,
            Charset::Lower => self.upper || self.num || self.sym,
            Charset::Digits => self.upper || self.lower || self.sym,
            Charset::Symbols => self.upper || self.lower || self.num,
        };
        let on = match c {
            Charset::Upper => self.upper,
            Charset::Lower => self.lower,
            Charset::Digits => self.num,
            Charset::Symbols => self.sym,
        };
        if on && !others {
            return Err(ConfigError::NoCharsetEnabled);
        }
        match c {
            Charset::Upper => self.upper = !on,
            Charset::Lower => self.lower = !on,
            Charset::Digits => self.num = !on,
            Charset::Symbols => self.sym = !on,
        }
        self.updated = true;
        Ok(())
    }
}

/// The password that `make` returns right after a successful `toggle` is
/// drawn from the new charset selection, whatever pool was cached before:
/// each of its characters belongs to a charset that is now enabled, so a
/// charset that was just disabled contributes none.
pub proof fn lemma_toggle_then_make(
    before: Generator,
    c: Charset,
    toggled: Generator,
    pass: Seq<char>,
)
    requires
        before.wf(),
        toggled.flags() == flip(before.flags(), c),
        pass.len() == toggled.length,
        forall|i: int| 0 <= i < pass.len() ==> toggled.pool().contains(#[trigger] pass[i]),
    ensures
        forall|i: int, d: Charset|
            0 <= i < pass.len() && #[trigger] in_charset(pass[i], d) ==> toggled.enabled(d),
        before.enabled(c) ==> forall|i: int| 0 <= i < pass.len() ==> !in_charset(#[trigger] pass[i], c),
{
    assert forall|i: int, d: Charset|
        0 <= i < pass.len() && #[trigger] in_charset(pass[i], d) implies toggled.enabled(d) by {
        lemma_pool_members(toggled.upper, toggled.lower, toggled.num, toggled.sym, pass[i]);
        if in_charset(pass[i], Charset::Upper) && toggled.upper {
            lemma_charsets_disjoint(pass[i], d, Charset::Upper);
        } else if in_charset(pass[i], Charset::Lower) && toggled.lower {
            lemma_charsets_disjoint(pass[i], d, Charset::Lower);
        } else if in_charset(pass[i], Charset::Digits) && toggled.num {
            lemma_charsets_disjoint(pass[i], d, Charset::Digits);
        } else {
            lemma_charsets_disjoint(pass[i], d, Charset::Symbols);
        }
    }
}

} // verus!
