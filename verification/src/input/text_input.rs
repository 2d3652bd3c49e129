use vstd::prelude::*;

verus! {

/// Text that the input method asks the application to insert.
#[derive(Debug)]
pub struct TextInputEventData {
    pub text: String,
}

impl View for TextInputEventData {
    type V = Seq<char>;

    open spec fn view(&self) -> Seq<char> {
        self.text@
    }
}

impl Clone for TextInputEventData {
    fn clone(&self) -> (r: TextInputEventData)
        ensures
            r@ == self@,
    {
        TextInputEventData { text: self.text.clone() }
    }
}

} // verus!
