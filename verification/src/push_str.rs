//! A growable string that always ends with a NUL character, so that it can be
//! handed to C code without copying.
use vstd::prelude::*;
use crate::strings::{string_clear, string_pop, string_push, string_push_str};

verus! {

/// A string holding a single NUL character.
fn nul_string() -> (s: String)
    ensures
        s@ == seq!['\0'],
{
    let mut s = String::new();
    string_push(&mut s, '\0');
    assert(s@ =~= seq!['\0']);
    s
}

/// A mutable string that is guaranteed to always end with a null character.
pub struct PushString {
    inner: String,
}

impl PushString {
    #[verifier::type_invariant]
    spec fn ends_with_nul(self) -> bool {
        self.inner@.len() >= 1 && self.inner@.last() == '\0'
    }
}

impl View for PushString {
    type V = Seq<char>;

    /// The text, without the terminating NUL.
    closed spec fn view(&self) -> Seq<char> {
        self.inner@.drop_last()
    }
}

impl PushString {
    /// The characters as C code sees them: the text followed by one NUL.
    pub closed spec fn c_chars(self) -> Seq<char> {
        self.inner@
    }

    /// An empty string (just the terminator).
    pub fn new() -> (s: Self)
        ensures
            s@ == Seq::<char>::empty(),
            s.c_chars() == seq!['\0'],
    {
        PushString { inner: nul_string() }
    }

    /// Removes all text, keeping the terminator.
    pub fn clear(&mut self)
        ensures
            final(self)@ == Seq::<char>::empty(),
            final(self).c_chars() == seq!['\0'],
    {
        let mut inner = nul_string();
        std::mem::swap(&mut inner, &mut self.inner);
        string_clear(&mut inner);
        string_push(&mut inner, '\0');
        assert(inner@ =~= seq!['\0']);
        self.inner = inner;
    }

    /// Appends `s` before the terminator.
    pub fn push_str(&mut self, s: &str)
        ensures
            final(self)@ == old(self)@ + s@,
            final(self).c_chars() == old(self)@ + s@ + seq!['\0'],
    {
        proof {
            use_type_invariant(&*self);
        }
        let ghost text = self@;
        let mut inner = nul_string();
        std::mem::swap(&mut inner, &mut self.inner);
        string_pop(&mut inner);
        assert(inner@ =~= text);
        string_push_str(&mut inner, s);
        string_push(&mut inner, '\0');
        assert(inner@.drop_last() =~= text + s@);
        self.inner = inner;
    }

    /// Removes the last character of the text; an empty text stays empty.
    pub fn pop(&mut self)
        ensures
            old(self)@.len() == 0 ==> final(self)@ == old(self)@,
            old(self)@.len() > 0 ==> final(self)@ == old(self)@.drop_last(),
            final(self).c_chars() == final(self)@.push('\0'),
    {
        proof {
            use_type_invariant(&*self);
        }
        let ghost text = self@;
        let mut inner = nul_string();
        std::mem::swap(&mut inner, &mut self.inner);
        string_pop(&mut inner);
        string_pop(&mut inner);
        string_push(&mut inner, '\0');
        assert(inner@.drop_last() =~= if text.len() == 0 { text } else { text.drop_last() });
        assert(inner@ =~= inner@.drop_last().push('\0'));
        self.inner = inner;
    }

    /// The text without the terminator.
    pub fn as_str(&self) -> (r: &str)
        ensures
            r@ == self@,
    {
        proof {
            use_type_invariant(self);
        }
        let n = self.inner.as_str().unicode_len();
        self.inner.as_str().substring_char(0, n - 1)
    }

    /// The text as an owned string.
    pub fn to_string(&self) -> (r: String)
        ensures
            r@ == self@,
    {
        self.as_str().to_owned()
    }
}

impl Default for PushString {
    fn default() -> (s: Self)
        ensures
            s@ == Seq::<char>::empty(),
    {
        Self::new()
    }
}

} // verus!
