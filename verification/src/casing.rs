use vstd::prelude::*;

verus! {

/// The text that `str::to_uppercase` returns for a text: its Unicode upper
/// case form.
pub uninterp spec fn uppercase_of(s: Seq<char>) -> Seq<char>;

/// The text that `str::to_lowercase` returns for a text: its Unicode lower
/// case form.
pub uninterp spec fn lowercase_of(s: Seq<char>) -> Seq<char>;

/// `str::to_uppercase` depends on the characters of the text alone.
pub assume_specification[ str::to_uppercase ](s: &str) -> (r: String)
    ensures
        r@ == uppercase_of(s@),
;

/// `str::to_lowercase` depends on the characters of the text alone.
pub assume_specification[ str::to_lowercase ](s: &str) -> (r: String)
    ensures
        r@ == lowercase_of(s@),
;

} // verus!
