//! Strings that cross the boundary to the managed side.
//!
//! A native string owns a nul-terminated buffer in the platform's encoding, or
//! is null. The buffer is a `PdCString`, so it is released exactly once, when
//! its owner goes away or when the string is freed, whichever comes first.

use crate::Bool32;
use netcorehost::pdcstring::{ContainsNul, PdCString};
use std::str::FromStr;
use vstd::prelude::*;
use vstd::std_specs::cmp::PartialEqSpecImpl;
use vstd::string::*;

verus! {

/// `PdCString` of netcorehost: an owned, nul-terminated string in the
/// encoding of the platform. Nothing is claimed of what is inside but through
/// `pd_text`, `pd_units` and `pd_broken`.
#[verifier::external_type_specification]
#[verifier::external_body]
pub struct ExPdCString(PdCString);

/// `ContainsNul` of netcorehost: the error of a text that cannot be made
/// into a `PdCString`. It is only told apart from success.
#[verifier::external_type_specification]
#[verifier::external_body]
pub struct ExContainsNul(ContainsNul);

/// The text that a platform string decodes to, every invalid sequence in it
/// replaced by U+FFFD.
pub uninterp spec fn pd_text(string: PdCString) -> Seq<char>;

/// The code units that a platform string holds, without the terminator.
pub uninterp spec fn pd_units(string: PdCString) -> Seq<int>;

/// The places of the code units of a platform string that belong to no valid
/// sequence of the platform's encoding: where its text has U+FFFD in place of
/// what could not be decoded. A string that has no such place holds exactly
/// the encoding of its text.
pub uninterp spec fn pd_broken(string: PdCString) -> Seq<int>;

/// `PdCString::from_str` of netcorehost. It encodes the text for the platform
/// and refuses it exactly when it holds a nul character; the string it makes
/// holds the encoding of the text it was made from, with nothing broken in
/// it, and decodes to that text.
#[verifier::external_body]
pub(crate) fn pd_from_str(text: &str) -> (made: Result<PdCString, ContainsNul>)
    ensures
        made is Ok <==> !text@.contains('\0'),
        made matches Ok(string) ==> pd_text(string) == text@ && pd_broken(string).len() == 0,
{
    PdCString::from_str(text)
}

/// `PdCStr::to_string_lossy` of netcorehost: the text of the string.
#[verifier::external_body]
fn pd_to_string_lossy(string: &PdCString) -> (text: String)
    ensures
        text@ == pd_text(*string),
{
    string.to_string_lossy()
}

/// `==` on `PdCString`, which netcorehost derives: two strings are equal when
/// they hold the same code units, and then they decode to the same text. Two
/// strings with nothing broken in them hold the encodings of their texts, so
/// they are equal exactly when their texts are.
#[verifier::external_body]
fn pd_eq(left: &PdCString, right: &PdCString) -> (same: bool)
    ensures
        same == (pd_units(*left) == pd_units(*right)),
        same ==> pd_text(*left) == pd_text(*right),
        pd_broken(*left).len() == 0 && pd_broken(*right).len() == 0 ==> same == (pd_text(*left)
            == pd_text(*right)),
{
    left == right
}

/// `clone` on `PdCString`, which netcorehost derives: a second buffer with the
/// same code units, and so the same text and the same broken places.
#[verifier::external_body]
pub(crate) fn pd_clone(string: &PdCString) -> (copy: PdCString)
    ensures
        pd_units(copy) == pd_units(*string),
        pd_text(copy) == pd_text(*string),
        pd_broken(copy) == pd_broken(*string),
{
    string.clone()
}

/// Whether `at` is where `text` ends for a nul-terminated reader: the place of
/// its first nul character, or its length if it has none.
pub open spec fn is_nul_position(text: Seq<char>, at: int) -> bool {
    &&& 0 <= at <= text.len()
    &&& forall|j: int| 0 <= j < at ==> text[j] != '\0'
    &&& at < text.len() ==> text[at] == '\0'
}

/// The place of the first nul character of `text`, or its length if it has
/// none.
pub open spec fn nul_position(text: Seq<char>) -> int {
    choose|at: int| is_nul_position(text, at)
}

/// The part of `text` before its first nul character: all of it, if it has
/// none.
pub open spec fn before_nul(text: Seq<char>) -> Seq<char> {
    text.take(nul_position(text))
}

/// A text has one nul position only.
pub proof fn lemma_nul_position_unique(text: Seq<char>, at: int)
    requires
        is_nul_position(text, at),
    ensures
        nul_position(text) == at,
{
    let chosen = nul_position(text);
    assert(is_nul_position(text, chosen));
    if chosen < at {
        assert(text[chosen] != '\0');
    }
    if at < chosen {
        assert(text[at] != '\0');
    }
}

/// A text without a nul character is kept whole; no other text is. What is
/// kept holds no nul character.
pub proof fn lemma_before_nul_keeps_clean_text(text: Seq<char>)
    ensures
        !text.contains('\0') <==> before_nul(text) == text,
        !before_nul(text).contains('\0'),
{
    if text.contains('\0') {
        let k = choose|k: int| 0 <= k < text.len() && text[k] == '\0';
        let first = first_nul_from(text, k);
        lemma_nul_position_unique(text, first);
        assert(before_nul(text).len() < text.len());
    } else {
        assert forall|j: int| 0 <= j < text.len() implies text[j] != '\0' by {
            if text[j] == '\0' {
                assert(text.contains('\0'));
            }
        }
        lemma_nul_position_unique(text, text.len() as int);
        assert(text.take(text.len() as int) =~= text);
    }
    let at = nul_position(text);
    assert(is_nul_position(text, at));
    if before_nul(text).contains('\0') {
        let k = choose|k: int| 0 <= k < before_nul(text).len() && before_nul(text)[k] == '\0';
        assert(text[k] != '\0');
    }
}

/// The least place at or before `k` that holds a nul character, given that
/// `k` holds one.
pub proof fn first_nul_from(text: Seq<char>, k: int) -> (first: int)
    requires
        0 <= k < text.len(),
        text[k] == '\0',
    ensures
        is_nul_position(text, first),
        first <= k,
    decreases k,
{
    if exists|j: int| 0 <= j < k && text[j] == '\0' {
        let j = choose|j: int| 0 <= j < k && text[j] == '\0';
        first_nul_from(text, j)
    } else {
        k
    }
}

/// A string handed to the managed side, or received from it.
pub struct CSharpNativeString {
    string: Option<PdCString>,
    _is_disposed: Bool32,
}

impl View for CSharpNativeString {
    type V = Option<Seq<char>>;

    /// The text of the string; `None` for a null string.
    closed spec fn view(&self) -> Option<Seq<char>> {
        match self.string {
            Some(string) => Some(pd_text(string)),
            None => None,
        }
    }
}

impl CSharpNativeString {
    /// The code units in the buffer, without the terminator; `None` for a
    /// null string.
    pub closed spec fn units(&self) -> Option<Seq<int>> {
        match self.string {
            Some(string) => Some(pd_units(string)),
            None => None,
        }
    }

    /// Whether the buffer holds exactly the encoding of the text: nothing in
    /// it is broken. A null string does so, and every string that is made
    /// from text; one that the managed side handed over may not.
    pub closed spec fn is_text(&self) -> bool {
        match self.string {
            Some(string) => pd_broken(string).len() == 0,
            None => true,
        }
    }

    /// A native string with a fresh buffer that holds `str` up to its first
    /// nul character.
    pub fn new(str: &str) -> (made: Self)
        ensures
            made@ == Some(before_nul(str@)),
            made.is_text(),
    {
        let mut res = Self { string: None, _is_disposed: Bool32(0) };
        res.assign(str);
        res
    }

    /// The null string.
    pub fn null() -> (made: Self)
        ensures
            made@ is None,
            made.is_text(),
    {
        Self { string: None, _is_disposed: Bool32(0) }
    }

    /// Takes over a buffer, as one received from the managed side.
    pub fn from_pd(string: PdCString) -> (made: Self)
        ensures
            made@ == Some(pd_text(string)),
            made.units() == Some(pd_units(string)),
            made.is_text() == (pd_broken(string).len() == 0),
    {
        Self { string: Some(string), _is_disposed: Bool32(0) }
    }

    /// The buffer, for the call that hands it to the managed side.
    pub fn as_pd(&self) -> (string: Option<&PdCString>)
        ensures
            string is Some <==> self@ is Some,
            string matches Some(s) ==> self@ == Some(pd_text(*s)) && self.units() == Some(
                pd_units(*s),
            ),
    {
        self.string.as_ref()
    }

    /// Releases the buffer, if there is one, and gives the string a fresh one
    /// that holds `str` up to its first nul character.
    pub fn assign(&mut self, str: &str)
        ensures
            final(self)@ == Some(before_nul(str@)),
            final(self).is_text(),
    {
        let len = str.unicode_len();
        let mut at: usize = 0;
        while at < len && str.get_char(at) != '\0'
            invariant
                len == str@.len(),
                at <= len,
                forall|j: int| 0 <= j < at ==> str@[j] != '\0',
            decreases len - at,
        {
            at += 1;
        }
        let kept = str.substring_char(0, at);
        proof {
            lemma_nul_position_unique(str@, at as int);
            assert(kept@ == before_nul(str@));
            if kept@.contains('\0') {
                let k = choose|k: int| 0 <= k < kept@.len() && kept@[k] == '\0';
                assert(str@[k] == '\0');
            }
        }
        match pd_from_str(kept) {
            Ok(string) => {
                self.string = Some(string);
            },
            Err(_) => {
                unreached()
            },
        }
    }

    /// Releases the buffer and leaves the string null. Freeing a null string
    /// does nothing, so a second `free` is harmless.
    pub fn free(string: &mut Self)
        ensures
            final(string)@ is None,
            final(string).units() is None,
            final(string).is_text(),
            old(string)@ is None ==> *final(string) == *old(string),
    {
        if string.string.is_none() {
            return ;
        }
        string.string = None;
    }

    /// Whether the string is null.
    pub fn is_null(&self) -> (null: bool)
        ensures
            null == (self@ is None),
    {
        self.string.is_none()
    }

    /// The text of the string. A null string has none, so it is left out.
    pub fn to_string(&self) -> (text: String)
        requires
            self@ is Some,
        ensures
            Some(text@) == self@,
    {
        match &self.string {
            Some(string) => pd_to_string_lossy(string),
            None => unreached(),
        }
    }

    /// The text of the string, or `None` for a null string.
    pub fn to_text(&self) -> (text: Option<String>)
        ensures
            text is Some <==> self@ is Some,
            text matches Some(t) ==> Some(t@) == self@,
    {
        match &self.string {
            Some(string) => Some(pd_to_string_lossy(string)),
            None => None,
        }
    }
}

impl Clone for CSharpNativeString {
    /// A second string with a buffer of its own that holds the same units.
    fn clone(&self) -> (copy: Self)
        ensures
            copy@ == self@,
            copy.units() == self.units(),
            copy.is_text() == self.is_text(),
    {
        match &self.string {
            Some(string) => Self { string: Some(pd_clone(string)), _is_disposed: self._is_disposed },
            None => Self { string: None, _is_disposed: self._is_disposed },
        }
    }
}

impl PartialEqSpecImpl for CSharpNativeString {
    open spec fn obeys_eq_spec() -> bool {
        true
    }

    open spec fn eq_spec(&self, other: &Self) -> bool {
        self.units() == other.units()
    }
}

impl PartialEq for CSharpNativeString {
    /// Two null strings are equal, a null string equals no other, and two
    /// others are equal when their buffers hold the same code units. For
    /// strings that were made from text that is to say: when they have the
    /// same text.
    fn eq(&self, other: &Self) -> (same: bool)
        ensures
            same ==> self@ == other@,
            self.is_text() && other.is_text() ==> same == (self@ == other@),
    {
        match (&self.string, &other.string) {
            (None, None) => true,
            (Some(left), Some(right)) => pd_eq(left, right),
            _ => false,
        }
    }
}

impl Eq for CSharpNativeString {

}

/// A native string that is released when its scope ends.
pub struct ScopedCSharpNativeString {
    string: CSharpNativeString,
}

impl View for ScopedCSharpNativeString {
    type V = Option<Seq<char>>;

    closed spec fn view(&self) -> Option<Seq<char>> {
        self.string@
    }
}

impl ScopedCSharpNativeString {
    /// The code units of the string inside.
    pub closed spec fn units(&self) -> Option<Seq<int>> {
        self.string.units()
    }

    /// Whether the string inside holds exactly the encoding of its text.
    pub closed spec fn is_text(&self) -> bool {
        self.string.is_text()
    }

    /// Takes a native string into the scope.
    pub fn new(string: CSharpNativeString) -> (scoped: Self)
        ensures
            scoped@ == string@,
            scoped.units() == string.units(),
            scoped.is_text() == string.is_text(),
    {
        Self { string }
    }

    /// A scoped native string that holds `str` up to its first nul character.
    pub fn from_str(str: &str) -> (scoped: Self)
        ensures
            scoped@ == Some(before_nul(str@)),
            scoped.is_text(),
    {
        Self { string: CSharpNativeString::new(str) }
    }

    /// A copy of the string inside, with a buffer of its own.
    pub fn inner(&self) -> (string: CSharpNativeString)
        ensures
            string@ == self@,
            string.units() == self.units(),
            string.is_text() == self.is_text(),
    {
        self.string.clone()
    }
}

impl PartialEqSpecImpl for ScopedCSharpNativeString {
    open spec fn obeys_eq_spec() -> bool {
        true
    }

    open spec fn eq_spec(&self, other: &Self) -> bool {
        self.units() == other.units()
    }
}

impl PartialEq for ScopedCSharpNativeString {
    fn eq(&self, other: &Self) -> (same: bool)
        ensures
            same ==> self@ == other@,
            self.is_text() && other.is_text() ==> same == (self@ == other@),
    {
        self.string == other.string
    }
}

impl Eq for ScopedCSharpNativeString {

}

/// Text without a nul character comes back unchanged from a native string.
pub proof fn lemma_native_string_round_trip(text: Seq<char>, string: CSharpNativeString)
    requires
        !text.contains('\0'),
        string@ == Some(before_nul(text)),
    ensures
        string@ == Some(text),
{
    lemma_before_nul_keeps_clean_text(text);
}

} // verus!
