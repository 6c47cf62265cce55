//! Texture combiner (texture environment) stages.
//!
//! The hardware provides a fixed number of combiner stages. A stage is named
//! by a [`Stage`] identifier whose index is range-checked once, at
//! construction; the per-context stage cache is then indexed without any
//! further validation. A [`TexEnv`] holds one stage's combiner configuration
//! and is created lazily, in a known-neutral configuration, on first access.

use vstd::prelude::*;

verus! {

/// Number of texture combiner stages the hardware provides.
pub const TEXENV_COUNT: usize = 6;

/// Identifier for one texture combiner stage, always within
/// `[0, TEXENV_COUNT)`.
///
/// The range check happens exactly once, in [`Stage::new`]; holders of a
/// `Stage` may index the stage cache without re-validating.
#[derive(Clone, Copy, Debug, PartialEq, Eq, Structural)]
pub struct Stage {
    index: usize,
}

impl Stage {
    /// The stage index this identifier denotes.
    pub closed spec fn spec_index(self) -> usize {
        self.index
    }

    #[verifier::type_invariant]
    pub closed spec fn inv(self) -> bool {
        self.index < TEXENV_COUNT
    }

    /// Build a stage identifier, rejecting every index outside
    /// `[0, TEXENV_COUNT)` before any cache access can happen.
    pub fn new(index: usize) -> (r: Option<Stage>)
        ensures
            r is Some <==> index < TEXENV_COUNT,
            r matches Some(s) ==> s.spec_index() == index,
    {
        if index < TEXENV_COUNT {
            Some(Stage { index })
        } else {
            None
        }
    }

    /// The raw stage index; in range by construction.
    pub fn index(&self) -> (r: usize)
        ensures
            r == self.spec_index(),
            r < TEXENV_COUNT,
    {
        proof {
            use_type_invariant(self);
        }
        self.index
    }
}

/// A combiner input source.
#[derive(Clone, Copy, Debug, PartialEq, Eq, Structural)]
pub enum Source {
    PrimaryColor,
    FragmentPrimaryColor,
    FragmentSecondaryColor,
    Texture0,
    Texture1,
    Texture2,
    Texture3,
    PreviousBuffer,
    Constant,
    Previous,
}

/// A combiner function applied to the selected sources.
#[derive(Clone, Copy, Debug, PartialEq, Eq, Structural)]
pub enum CombineFunc {
    Replace,
    Modulate,
    Add,
    AddSigned,
    Interpolate,
    Subtract,
}

/// Which color channels an update applies to.
#[derive(Clone, Copy, Debug, PartialEq, Eq, Structural)]
pub enum Mode {
    Rgb,
    Alpha,
    Both,
}

/// Three combiner input source selections, as one combiner operand list.
#[derive(Clone, Copy, Debug, PartialEq, Eq, Structural)]
pub struct Sources {
    /// The first operand.
    pub s0: Source,
    /// The second operand.
    pub s1: Source,
    /// The third operand.
    pub s2: Source,
}

impl Sources {
    /// All three operands drawn from the primary color.
    pub open spec fn primary() -> Sources {
        Sources { s0: Source::PrimaryColor, s1: Source::PrimaryColor, s2: Source::PrimaryColor }
    }
}

/// One stage's combiner configuration: source selections and combiner
/// functions for the RGB and alpha channels.
///
/// A `TexEnv` is created by the context on the first access to its stage and
/// then mutated in place; it is never re-created for the same stage within
/// one context lifetime.
#[derive(Clone, Copy, Debug, PartialEq, Eq, Structural)]
pub struct TexEnv {
    /// The stage this configuration belongs to.
    pub stage: Stage,
    /// Combiner input sources for the RGB channel.
    pub rgb_sources: Sources,
    /// Combiner input sources for the alpha channel.
    pub alpha_sources: Sources,
    /// Combiner function for the RGB channel.
    pub rgb_func: CombineFunc,
    /// Combiner function for the alpha channel.
    pub alpha_func: CombineFunc,
}

impl TexEnv {
    /// The neutral configuration a stage starts out in: all sources are the
    /// primary color and both combiner functions replace.
    pub open spec fn neutral(stage: Stage) -> TexEnv {
        TexEnv {
            stage,
            rgb_sources: Sources::primary(),
            alpha_sources: Sources::primary(),
            rgb_func: CombineFunc::Replace,
            alpha_func: CombineFunc::Replace,
        }
    }

    /// Create the configuration for `stage`, initialized to the neutral
    /// combiner setup.
    pub fn new(stage: Stage) -> (r: TexEnv)
        ensures
            r == TexEnv::neutral(stage),
    {
        TexEnv {
            stage,
            rgb_sources: Sources { s0: Source::PrimaryColor, s1: Source::PrimaryColor, s2: Source::PrimaryColor },
            alpha_sources: Sources { s0: Source::PrimaryColor, s1: Source::PrimaryColor, s2: Source::PrimaryColor },
            rgb_func: CombineFunc::Replace,
            alpha_func: CombineFunc::Replace,
        }
    }

    /// Select the three combiner input sources for the channels named by
    /// `mode`. The stage and the untouched channel keep their configuration.
    pub fn src(&mut self, mode: Mode, s0: Source, s1: Source, s2: Source)
        ensures
            final(self).stage == old(self).stage,
            final(self).rgb_func == old(self).rgb_func,
            final(self).alpha_func == old(self).alpha_func,
            final(self).rgb_sources == (if mode is Alpha {
                old(self).rgb_sources
            } else {
                Sources { s0, s1, s2 }
            }),
            final(self).alpha_sources == (if mode is Rgb {
                old(self).alpha_sources
            } else {
                Sources { s0, s1, s2 }
            }),
    {
        match mode {
            Mode::Rgb => {
                self.rgb_sources = Sources { s0, s1, s2 };
            },
            Mode::Alpha => {
                self.alpha_sources = Sources { s0, s1, s2 };
            },
            Mode::Both => {
                self.rgb_sources = Sources { s0, s1, s2 };
                self.alpha_sources = Sources { s0, s1, s2 };
            },
        }
    }

    /// Select the combiner function for the channels named by `mode`. The
    /// stage and the untouched channel keep their configuration.
    pub fn func(&mut self, mode: Mode, f: CombineFunc)
        ensures
            final(self).stage == old(self).stage,
            final(self).rgb_sources == old(self).rgb_sources,
            final(self).alpha_sources == old(self).alpha_sources,
            final(self).rgb_func == (if mode is Alpha {
                old(self).rgb_func
            } else {
                f
            }),
            final(self).alpha_func == (if mode is Rgb {
                old(self).alpha_func
            } else {
                f
            }),
    {
        match mode {
            Mode::Rgb => {
                self.rgb_func = f;
            },
            Mode::Alpha => {
                self.alpha_func = f;
            },
            Mode::Both => {
                self.rgb_func = f;
                self.alpha_func = f;
            },
        }
    }
}

} // verus!
