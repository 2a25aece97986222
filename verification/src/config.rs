//! Configuration values of the indicator.

use vstd::prelude::*;

verus! {

/// Size of the overlay and of its text.
#[derive(Clone, Copy, Debug, PartialEq, Eq, Structural)]
pub struct OverlayConfig {
    pub width: u32,
    pub height: u32,
    /// Font size in thousandths of a point.
    pub font_size_milli: u32,
}

/// Timing of one display cycle.
#[derive(Clone, Copy, Debug, PartialEq, Eq, Structural)]
pub struct AnimationConfig {
    pub display_duration_ms: u64,
    pub fade_duration_ms: u64,
    pub fade_frames: u32,
}

/// One input method with the text shown for it.
#[derive(Debug)]
pub struct InputMethodName {
    pub input_method: String,
    pub display_text: String,
}

/// The whole configuration.
#[derive(Debug)]
pub struct Config {
    pub input_method_names: Vec<InputMethodName>,
    pub overlay: OverlayConfig,
    pub animation: AnimationConfig,
}

/// The text of the first entry of `names` for `input_method`, or the input
/// method's own name where no entry has it.
pub open spec fn display_text_in(names: Seq<InputMethodName>, input_method: Seq<char>) -> Seq<char>
    decreases names.len(),
{
    if names.len() == 0 {
        input_method
    } else if names[0].input_method@ == input_method {
        names[0].display_text@
    } else {
        display_text_in(names.skip(1), input_method)
    }
}

impl Config {
    /// The text to show for `input_method`: the configured one, or the input
    /// method's own name where none is configured.
    pub fn get_display_text(&self, input_method: &str) -> (r: String)
        ensures
            r@ == display_text_in(self.input_method_names@, input_method@),
    {
        let key: String = input_method.to_owned();
        let n: usize = self.input_method_names.len();
        let mut i: usize = 0;
        assert(self.input_method_names@.skip(0) =~= self.input_method_names@);
        while i < n
            invariant
                n == self.input_method_names@.len(),
                i <= n,
                key@ == input_method@,
                display_text_in(self.input_method_names@, input_method@) == display_text_in(
                    self.input_method_names@.skip(i as int),
                    input_method@,
                ),
            decreases n - i,
        {
            let ghost rest = self.input_method_names@.skip(i as int);
            assert(rest[0] == self.input_method_names@[i as int]);
            assert(rest.skip(1) =~= self.input_method_names@.skip(i + 1));
            if self.input_method_names[i].input_method == key {
                return self.input_method_names[i].display_text.clone();
            }
            i += 1;
        }
        key
    }
}

} // verus!
