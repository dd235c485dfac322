//! Frame computation for the chmove animation: which line of text depicts the
//! moving glyph at each position of its travel.

use vstd::prelude::*;
use crate::config::AnimationConfig;

verus! {

/// The sequence made of `n` copies of the glyph `c`.
pub open spec fn repeated(c: char, n: nat) -> Seq<char> {
    Seq::new(n, |i: int| c)
}

/// The frame depicting the moving glyph after `p` steps of travel: the start
/// boundary, `p` spacers, the moving glyph, `distance - p` spacers, and the
/// end boundary.
pub open spec fn spec_frame(cfg: AnimationConfig, p: int) -> Seq<char>
    recommends
        0 <= p <= cfg.distance,
{
    seq![cfg.begin_and_end.0] + repeated(cfg.spacer, p as nat) + seq![cfg.character] + repeated(
        cfg.spacer,
        (cfg.distance - p) as nat,
    ) + seq![cfg.begin_and_end.1]
}

/// Appending one more copy to a run of repeated glyphs extends the run.
proof fn lemma_repeated_snoc(c: char, n: nat)
    ensures
        repeated(c, n) + seq![c] == repeated(c, n + 1),
{
    assert(repeated(c, n) + seq![c] =~= repeated(c, n + 1));
}

/// Relies on `String::push`: appends the given character to the end of the
/// string.
#[verifier::external_body]
fn push_char(s: &mut String, c: char)
    ensures
        final(s)@ == old(s)@ + seq![c],
{
    s.push(c);
}

impl AnimationConfig {
    /// Render the single frame in which the moving glyph has traveled
    /// `traveled` of the `distance` steps.
    pub fn frame_at(&self, traveled: usize) -> (r: String)
        requires
            traveled <= self.distance,
        ensures
            r@ == spec_frame(*self, traveled as int),
    {
        let mut s = String::new();
        push_char(&mut s, self.begin_and_end.0);
        let mut i: usize = 0;
        while i < traveled
            invariant
                i <= traveled,
                s@ == seq![self.begin_and_end.0] + repeated(self.spacer, i as nat),
            decreases traveled - i,
        {
            push_char(&mut s, self.spacer);
            proof {
                lemma_repeated_snoc(self.spacer, i as nat);
                assert(seq![self.begin_and_end.0] + repeated(self.spacer, i as nat) + seq![
                    self.spacer,
                ] =~= seq![self.begin_and_end.0] + repeated(self.spacer, (i + 1) as nat));
            }
            i = i + 1;
        }
        push_char(&mut s, self.character);
        let rest = self.distance - traveled;
        let mut j: usize = 0;
        while j < rest
            invariant
                j <= rest,
                s@ == seq![self.begin_and_end.0] + repeated(self.spacer, traveled as nat) + seq![
                    self.character,
                ] + repeated(self.spacer, j as nat),
            decreases rest - j,
        {
            push_char(&mut s, self.spacer);
            proof {
                lemma_repeated_snoc(self.spacer, j as nat);
                assert(seq![self.begin_and_end.0] + repeated(self.spacer, traveled as nat) + seq![
                    self.character,
                ] + repeated(self.spacer, j as nat) + seq![self.spacer] =~= seq![
                    self.begin_and_end.0,
                ] + repeated(self.spacer, traveled as nat) + seq![self.character] + repeated(
                    self.spacer,
                    (j + 1) as nat,
                ));
            }
            j = j + 1;
        }
        push_char(&mut s, self.begin_and_end.1);
        s
    }

    /// Render the whole animation: one frame for each position of the moving
    /// glyph, from the start boundary to the end boundary. A run of distance
    /// `d` always produces exactly `d + 1` frames.
    pub fn frames(&self) -> (r: Vec<String>)
        requires
            self.distance < usize::MAX,
        ensures
            r@.len() == self.distance + 1,
            forall|p: int| 0 <= p <= self.distance ==> #[trigger] r@[p]@ == spec_frame(*self, p),
    {
        let mut v: Vec<String> = Vec::new();
        let mut p: usize = 0;
        while p <= self.distance
            invariant
                self.distance < usize::MAX,
                p <= self.distance + 1,
                v@.len() == p,
                forall|q: int| 0 <= q < p ==> #[trigger] v@[q]@ == spec_frame(*self, q),
            decreases self.distance + 1 - p,
        {
            let f = self.frame_at(p);
            v.push(f);
            p = p + 1;
        }
        v
    }
}

/// Every frame keeps the same shape: the start glyph first and the end glyph
/// last, the moving glyph just after the `p` spacers that mark the traveled
/// part, and `distance - p` spacers for the untraveled part.
pub proof fn lemma_frame_shape(cfg: AnimationConfig, p: int)
    requires
        0 <= p <= cfg.distance,
    ensures
        spec_frame(cfg, p).len() == cfg.distance + 3,
        spec_frame(cfg, p)[0] == cfg.begin_and_end.0,
        spec_frame(cfg, p)[p + 1] == cfg.character,
        spec_frame(cfg, p)[cfg.distance + 2] == cfg.begin_and_end.1,
        forall|i: int| 1 <= i <= p ==> spec_frame(cfg, p)[i] == cfg.spacer,
        forall|i: int| p + 2 <= i <= cfg.distance + 1 ==> spec_frame(cfg, p)[i] == cfg.spacer,
{
}

/// The first frame shows the moving glyph right beside the start boundary,
/// with the whole distance still ahead; the last frame shows it right beside
/// the end boundary, with the whole distance behind.
pub proof fn lemma_first_and_last_frame(cfg: AnimationConfig)
    ensures
        spec_frame(cfg, 0) == seq![cfg.begin_and_end.0, cfg.character] + repeated(
            cfg.spacer,
            cfg.distance as nat,
        ) + seq![cfg.begin_and_end.1],
        spec_frame(cfg, cfg.distance as int) == seq![cfg.begin_and_end.0] + repeated(
            cfg.spacer,
            cfg.distance as nat,
        ) + seq![cfg.character, cfg.begin_and_end.1],
{
    assert(spec_frame(cfg, 0) =~= seq![cfg.begin_and_end.0, cfg.character] + repeated(
        cfg.spacer,
        cfg.distance as nat,
    ) + seq![cfg.begin_and_end.1]);
    assert(spec_frame(cfg, cfg.distance as int) =~= seq![cfg.begin_and_end.0] + repeated(
        cfg.spacer,
        cfg.distance as nat,
    ) + seq![cfg.character, cfg.begin_and_end.1]);
}

} // verus!
