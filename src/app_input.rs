use vstd::prelude::*;

verus! {

#[verifier::external_type_specification]
#[verifier::external_body]
pub struct ExInput(tui_input::Input);

/// The text that a `tui_input::Input` buffer holds.
pub uninterp spec fn buffer_text(i: tui_input::Input) -> Seq<char>;

/// Relies on `tui_input::Input::default`: a buffer with no text.
#[verifier::external_body]
fn empty_input() -> (r: tui_input::Input)
    ensures
        buffer_text(r) == Seq::<char>::empty(),
{
    tui_input::Input::default()
}

/// Relies on `tui_input::Input::value_and_reset`: it hands back the text and
/// resets the buffer to an empty one.
#[verifier::external_body]
fn take_value(i: &mut tui_input::Input) -> (r: String)
    ensures
        r@ == buffer_text(*old(i)),
        buffer_text(*final(i)) == Seq::<char>::empty(),
{
    i.value_and_reset()
}

/// The text field of the creation form. Editing keys go to `input`
/// directly; the form reads it only by draining it.
pub struct AppInput {
    pub input: tui_input::Input,
}

impl AppInput {
    pub open spec fn text(self) -> Seq<char> {
        buffer_text(self.input)
    }

    pub fn new() -> (r: AppInput)
        ensures
            r.text() == Seq::<char>::empty(),
    {
        AppInput { input: empty_input() }
    }

    /// Hands over the current text and leaves the field empty.
    pub fn push_message(&mut self) -> (r: String)
        ensures
            r@ == old(self).text(),
            final(self).text() == Seq::<char>::empty(),
    {
        take_value(&mut self.input)
    }
}

impl Default for AppInput {
    fn default() -> (r: AppInput)
        ensures
            r.text() == Seq::<char>::empty(),
    {
        AppInput::new()
    }
}

} // verus!
