//! The `AnimationConfig` struct used to create custom specifications for the
//! chmove animation.

use vstd::prelude::*;

verus! {

/// A config struct containing all the needed context for the movement
/// animation.
///
/// The moving glyph travels from the start boundary to the end boundary in
/// `distance` steps, so a full run shows `distance + 1` positions.
pub struct AnimationConfig {
    /// The glyph depicted as traveling between the boundaries.
    pub character: char,
    /// The two glyphs marking the start and the end of the travel path.
    pub begin_and_end: (char, char),
    /// The glyph filling the untraveled positions on either side.
    pub spacer: char,
    /// The number of discrete steps between the two boundaries.
    pub distance: usize,
}

/// The configuration that `AnimationConfig::new` starts from.
pub open spec fn default_config() -> AnimationConfig {
    AnimationConfig { character: '*', begin_and_end: ('|', '|'), spacer: ' ', distance: 5 }
}

impl Default for AnimationConfig {
    fn default() -> (r: Self)
        ensures
            r == default_config(),
    {
        Self { character: '*', begin_and_end: ('|', '|'), spacer: ' ', distance: 5 }
    }
}

impl AnimationConfig {
    /// Create a new instance of `AnimationConfig`.
    pub fn new() -> (r: Self)
        ensures
            r == default_config(),
    {
        Self::default()
    }

    /// Specify a unique character for the config.
    pub fn with_char(self, ch: char) -> (r: Self)
        ensures
            r == (AnimationConfig { character: ch, ..self }),
    {
        let mut c = self;
        c.character = ch;
        c
    }

    /// Specify a traveling distance for the animation.
    pub fn until(self, distance: usize) -> (r: Self)
        ensures
            r == (AnimationConfig { distance, ..self }),
    {
        let mut c = self;
        c.distance = distance;
        c
    }

    /// Specify a beginning character.
    pub fn start_at(self, start: char) -> (r: Self)
        ensures
            r == (AnimationConfig { begin_and_end: (start, self.begin_and_end.1), ..self }),
    {
        let mut c = self;
        c.begin_and_end.0 = start;
        c
    }

    /// Specify an end/goal character.
    pub fn end_at(self, end: char) -> (r: Self)
        ensures
            r == (AnimationConfig { begin_and_end: (self.begin_and_end.0, end), ..self }),
    {
        let mut c = self;
        c.begin_and_end.1 = end;
        c
    }

    /// Specify a beginning and end character using a tuple.
    pub fn with_bounds(self, begin_and_end: (char, char)) -> (r: Self)
        ensures
            r == (AnimationConfig { begin_and_end, ..self }),
    {
        self.start_at(begin_and_end.0).end_at(begin_and_end.1)
    }

    /// Specify a spacer character used to show the traveled and untraveled
    /// parts.
    pub fn spaced_with(self, spacer: char) -> (r: Self)
        ensures
            r == (AnimationConfig { spacer, ..self }),
    {
        let mut c = self;
        c.spacer = spacer;
        c
    }
}

} // verus!
