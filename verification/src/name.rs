//! Interface names: what a name must look like before anything privileged
//! is done with it.

use crate::text::{char_is_ascii_letter, char_is_decimal_digit, chars_of, is_ascii_letter, is_decimal_digit, push_char};
use vstd::prelude::*;
use vstd::string::{StringExecFns, StringSliceAdditionalSpecFns};

verus! {

/// The longest name that is accepted, in bytes.
pub const MAX_NAME_LEN: usize = 14;

/// A character that may occur in an interface name.
pub open spec fn is_name_char(c: char) -> bool {
    is_ascii_letter(c) || is_decimal_digit(c) || c == '-' || c == '_'
}

/// One to fourteen characters, the first an ASCII letter, the others ASCII
/// letters, digits, hyphens or underscores.
pub open spec fn valid_interface_name(s: Seq<char>) -> bool {
    &&& 1 <= s.len() <= MAX_NAME_LEN
    &&& is_ascii_letter(s[0])
    &&& forall|i: int| 0 <= i < s.len() ==> is_name_char(#[trigger] s[i])
}

/// Why a name was refused.
#[derive(Clone, Copy, Debug, PartialEq, Eq, Structural)]
pub enum NameError {
    /// The name has no characters.
    Empty,
    /// The name takes more than [`MAX_NAME_LEN`] bytes.
    TooLong,
    /// The first character is not an ASCII letter.
    BadStart,
    /// A character that no interface name may hold.
    BadCharacter { found: char },
}

/// The index of the first character of `s` at or after `from` that no name
/// may hold; the length where there is none.
pub open spec fn first_bad_char(s: Seq<char>, from: int) -> int
    decreases s.len() - from,
{
    if from < 0 || from >= s.len() {
        s.len() as int
    } else if !is_name_char(s[from]) {
        from
    } else {
        first_bad_char(s, from + 1)
    }
}

/// The verdict on a name of the given characters that takes `bytes` bytes:
/// the first of the four faults that applies, in the order of
/// [`NameError`]'s variants.
pub open spec fn name_verdict(s: Seq<char>, bytes: nat) -> Result<(), NameError> {
    if s.len() == 0 {
        Err(NameError::Empty)
    } else if bytes > MAX_NAME_LEN {
        Err(NameError::TooLong)
    } else if !is_ascii_letter(s[0]) {
        Err(NameError::BadStart)
    } else if first_bad_char(s, 0) < s.len() {
        Err(NameError::BadCharacter { found: s[first_bad_char(s, 0)] })
    } else {
        Ok(())
    }
}

/// Before the first character that no name may hold, every character is
/// one that a name may hold.
pub proof fn lemma_first_bad_char(s: Seq<char>, from: int)
    requires
        0 <= from <= s.len(),
    ensures
        from <= first_bad_char(s, from) <= s.len(),
        forall|i: int| from <= i < first_bad_char(s, from) ==> is_name_char(#[trigger] s[i]),
        first_bad_char(s, from) < s.len() ==> !is_name_char(s[first_bad_char(s, from)]),
    decreases s.len() - from,
{
    if from < s.len() && is_name_char(s[from]) {
        lemma_first_bad_char(s, from + 1);
    }
}

/// A name is accepted exactly when it is valid: when it has one to
/// fourteen characters, starts with an ASCII letter and holds only ASCII
/// letters, digits, hyphens and underscores. Every other text is refused:
/// the empty one, one of fifteen bytes or more, one that starts with
/// anything but a letter, one with any other character.
pub proof fn lemma_verdict_is_validity(s: Seq<char>)
    ensures
        name_verdict(s, vstd::utf8::encode_utf8(s).len()) is Ok <==> valid_interface_name(s),
{
    let bytes = vstd::utf8::encode_utf8(s).len();
    lemma_first_bad_char(s, 0);
    if s.len() > 0 && (forall|i: int| 0 <= i < s.len() ==> is_name_char(#[trigger] s[i])) {
        assert(vstd::utf8::is_ascii_chars(s)) by {
            assert forall|i: int| 0 <= i < s.len() implies '\0' <= #[trigger] s[i] <= '\u{7f}' by {
                assert(is_name_char(s[i]));
            }
        }
        vstd::utf8::is_ascii_chars_encode_utf8(s);
        assert(bytes == s.len());
    }
    if name_verdict(s, bytes) is Ok {
        assert(first_bad_char(s, 0) == s.len());
    }
}

/// Executable form of [`is_name_char`].
pub fn char_is_name_char(c: char) -> (b: bool)
    ensures
        b == is_name_char(c),
{
    char_is_ascii_letter(c) || char_is_decimal_digit(c) || c == '-' || c == '_'
}

/// Checks a device or bridge name before it is used.
///
/// Refuses the empty name, a name of fifteen bytes or more, a name that
/// does not start with an ASCII letter, and a name with a character other
/// than ASCII letters, digits, `-` and `_`.
#[verifier::loop_isolation(false)]
pub fn validate_interface_name(name: &str) -> (r: Result<(), NameError>)
    ensures
        r == name_verdict(name@, name.spec_bytes().len()),
        r is Ok <==> valid_interface_name(name@),
        name.spec_bytes().len() > MAX_NAME_LEN ==> r is Err,
{
    proof {
        lemma_verdict_is_validity(name@);
    }
    if name.is_empty() {
        return Err(NameError::Empty);
    }
    if name.as_bytes().len() > MAX_NAME_LEN {
        return Err(NameError::TooLong);
    }
    let chars = chars_of(name);
    if !char_is_ascii_letter(chars[0]) {
        return Err(NameError::BadStart);
    }
    let mut i: usize = 0;
    while i < chars.len()
        invariant
            i <= chars.len(),
            first_bad_char(chars@, 0) == first_bad_char(chars@, i as int),
        decreases chars.len() - i,
    {
        if !char_is_name_char(chars[i]) {
            assert(first_bad_char(chars@, i as int) == i);
            return Err(NameError::BadCharacter { found: chars[i] });
        }
        i = i + 1;
    }
    Ok(())
}

impl NameError {
    /// The message for this fault, as a sequence of characters.
    pub open spec fn text(self) -> Seq<char> {
        match self {
            NameError::Empty => "Interface name cannot be empty"@,
            NameError::TooLong => "Interface name too long (max 14 chars)"@,
            NameError::BadStart => "Interface name must start with a letter"@,
            NameError::BadCharacter { found } => "Invalid character in interface name: '"@.push(
                found,
            ) + "'"@,
        }
    }

    /// The message for this fault.
    pub fn message(&self) -> (out: String)
        ensures
            out@ == self.text(),
    {
        match self {
            NameError::Empty => "Interface name cannot be empty".to_owned(),
            NameError::TooLong => "Interface name too long (max 14 chars)".to_owned(),
            NameError::BadStart => "Interface name must start with a letter".to_owned(),
            NameError::BadCharacter { found } => {
                let mut out = "Invalid character in interface name: '".to_owned();
                push_char(&mut out, *found);
                out.append("'");
                out
            },
        }
    }
}

/// A name that passed [`validate_interface_name`]. Only such a name is
/// ever handed to the kernel.
#[derive(Debug)]
pub struct InterfaceName {
    text: String,
}

impl View for InterfaceName {
    type V = Seq<char>;

    closed spec fn view(&self) -> Seq<char> {
        self.text@
    }
}

impl InterfaceName {
    #[verifier::type_invariant]
    spec fn well_formed(self) -> bool {
        valid_interface_name(self.text@)
    }

    /// Validates `name` and keeps it.
    pub fn parse(name: &str) -> (r: Result<InterfaceName, NameError>)
        ensures
            match r {
                Ok(n) => n@ == name@ && valid_interface_name(name@) && name_verdict(
                    name@,
                    name.spec_bytes().len(),
                ) is Ok,
                Err(e) => Err::<(), NameError>(e) == name_verdict(name@, name.spec_bytes().len()),
            },
            r is Ok <==> valid_interface_name(name@),
    {
        match validate_interface_name(name) {
            Ok(()) => Ok(InterfaceName { text: name.to_owned() }),
            Err(e) => Err(e),
        }
    }

    /// The name as text.
    pub fn as_str(&self) -> (s: &str)
        ensures
            s@ == self@,
            valid_interface_name(s@),
    {
        proof {
            use_type_invariant(self);
        }
        self.text.as_str()
    }

    /// A second copy of the name.
    pub fn duplicate(&self) -> (n: InterfaceName)
        ensures
            n == *self,
    {
        proof {
            use_type_invariant(self);
        }
        InterfaceName { text: self.text.clone() }
    }
}

} // verus!
