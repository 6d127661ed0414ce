//! The toolkit's menu: which demonstration a line of input selects.
use vstd::prelude::*;
use vstd::string::is_ascii_spec_bytes;
use vstd::string::StringSliceAdditionalSpecFns;

verus! {

/// The entries of the toolkit's menu.
#[derive(Debug, Clone, Copy, PartialEq, Eq, Structural)]
pub enum MenuChoice {
    Authentication,
    Hybrid,
    Schnorr,
    Threshold,
    Exit,
}

/// The entry that an already trimmed input selects: the digits one to five,
/// in menu order; anything else selects nothing.
pub open spec fn choice_of(t: Seq<char>) -> Option<MenuChoice> {
    if t == seq!['1'] {
        Some(MenuChoice::Authentication)
    } else if t == seq!['2'] {
        Some(MenuChoice::Hybrid)
    } else if t == seq!['3'] {
        Some(MenuChoice::Schnorr)
    } else if t == seq!['4'] {
        Some(MenuChoice::Threshold)
    } else if t == seq!['5'] {
        Some(MenuChoice::Exit)
    } else {
        None
    }
}

/// A string with leading and trailing white space removed.
pub uninterp spec fn trim_of(s: Seq<char>) -> Seq<char>;

/// Relies on str::trim: the string without its leading and trailing white
/// space, which depends on the string alone.
#[verifier::external_body]
fn trimmed(s: &str) -> (r: &str)
    ensures
        r@ == trim_of(s@),
{
    s.trim()
}

/// The entry that an already trimmed input selects.
pub fn choice_from_trimmed(t: &str) -> (r: Option<MenuChoice>)
    ensures
        r == choice_of(t@),
{
    if !t.is_ascii() {
        assert(choice_of(t@) is None) by {
            if t@.len() == 1 {
                assert(!('\0' <= t@[0] <= '\u{7f}'));
            }
        }
        return None;
    }
    let b = t.as_bytes();
    proof {
        is_ascii_spec_bytes(t);
    }
    assert(b@.len() == t@.len());
    if b.len() != 1 {
        return None;
    }
    let c = b[0];
    assert(c == t@[0] as u8);
    assert('\0' <= t@[0] <= '\u{7f}');
    if c == 49u8 {
        assert(t@ == seq!['1']);
        Some(MenuChoice::Authentication)
    } else if c == 50u8 {
        assert(t@ == seq!['2']);
        Some(MenuChoice::Hybrid)
    } else if c == 51u8 {
        assert(t@ == seq!['3']);
        Some(MenuChoice::Schnorr)
    } else if c == 52u8 {
        assert(t@ == seq!['4']);
        Some(MenuChoice::Threshold)
    } else if c == 53u8 {
        assert(t@ == seq!['5']);
        Some(MenuChoice::Exit)
    } else {
        assert(t@ != seq!['1'] && t@ != seq!['2'] && t@ != seq!['3'] && t@ != seq!['4'] && t@
            != seq!['5']);
        None
    }
}

/// The entry that a line of input selects, once white space around it is
/// removed.
pub fn menu_choice(line: &str) -> (r: Option<MenuChoice>)
    ensures
        r == choice_of(trim_of(line@)),
{
    choice_from_trimmed(trimmed(line))
}

} // verus!
