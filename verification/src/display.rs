//! From the active input method to the text that is shown for it.

use vstd::prelude::*;

verus! {

/// The text shown for an input method: kana for `mozc`, `en` for any other.
pub open spec fn display_text_of(input_method: Seq<char>) -> Seq<char> {
    if input_method == "mozc"@ {
        "かな"@
    } else {
        "en"@
    }
}

/// The text to show for `input_method`.
pub fn get_display_text(input_method: &str) -> (r: String)
    ensures
        r@ == display_text_of(input_method@),
{
    let name: String = input_method.to_owned();
    let mozc: String = "mozc".to_owned();
    if name == mozc {
        "かな".to_owned()
    } else {
        "en".to_owned()
    }
}

/// Remembers the input method that was seen last, so that a display is
/// requested only when it changes.
#[derive(Debug)]
pub struct InputMethodTracker {
    last: String,
}

impl View for InputMethodTracker {
    type V = Seq<char>;

    closed spec fn view(&self) -> Seq<char> {
        self.last@
    }
}

impl InputMethodTracker {
    /// A tracker that has seen nothing yet: its last input method is empty.
    pub fn new() -> (r: InputMethodTracker)
        ensures
            r@ == Seq::<char>::empty(),
    {
        InputMethodTracker { last: String::new() }
    }

    /// The input method that was seen last.
    pub fn last(&self) -> (r: &String)
        ensures
            r@ == self@,
    {
        &self.last
    }

    /// Takes note of the current input method. Where it differs from the last
    /// one, returns the text to display; where it is the same, `None`.
    pub fn observe(&mut self, current: &str) -> (r: Option<String>)
        ensures
            final(self)@ == current@,
            r is Some <==> old(self)@ != current@,
            r is Some ==> r->0@ == display_text_of(current@),
    {
        let now: String = current.to_owned();
        if self.last == now {
            None
        } else {
            self.last = now;
            Some(get_display_text(current))
        }
    }
}

} // verus!
