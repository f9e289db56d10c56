//! C-style text: a byte string with no NUL byte inside, as PAM hands it
//! over and takes it back.

use vstd::prelude::*;
use vstd::std_specs::cmp::PartialEqSpecImpl;
use vstd::string::StringSliceAdditionalSpecFns;

verus! {

/// No byte of `s` is NUL.
pub open spec fn no_nul(s: Seq<u8>) -> bool {
    forall|i: int| 0 <= i < s.len() ==> s[i] != 0u8
}

/// A byte string is C text exactly when no byte of it is NUL: any other
/// byte may stand in it, and one NUL byte anywhere rules it out.
pub proof fn lemma_no_nul_is_no_zero_byte(s: Seq<u8>, i: int)
    ensures
        no_nul(s) <==> !s.contains(0u8),
        0 <= i < s.len() && s[i] == 0u8 ==> !no_nul(s),
        no_nul(s) && 0 <= i < s.len() ==> s[i] != 0u8,
        no_nul(Seq::<u8>::empty()),
        no_nul(s) && 1 <= i <= 255 ==> no_nul(s.push(i as u8)),
{
    if no_nul(s) && 1 <= i <= 255 {
        let t = s.push(i as u8);
        assert forall|j: int| 0 <= j < t.len() implies #[trigger] t[j] != 0u8 by {
            if j < s.len() {
                assert(t[j] == s[j]);
            }
        }
    }
    if !s.contains(0u8) {
        assert forall|j: int| 0 <= j < s.len() implies s[j] != 0u8 by {
            if s[j] == 0u8 {
                assert(s.contains(0u8));
            }
        }
    }
}

/// The bytes of a C string, its terminating NUL left out.
///
/// This is the library's value for what C code passes as a `char *` and what
/// Rust passes as a `&CStr`.
#[derive(Debug)]
pub struct CText {
    bytes: Vec<u8>,
}

impl View for CText {
    type V = Seq<u8>;

    closed spec fn view(&self) -> Seq<u8> {
        self.bytes@
    }
}

impl CText {
    /// A text holds no NUL byte.
    #[verifier::type_invariant]
    pub open spec fn inv(self) -> bool {
        no_nul(self@)
    }

    /// The text of `bytes`; `None` where a NUL byte stands among them.
    pub fn new(bytes: Vec<u8>) -> (r: Option<CText>)
        ensures
            r is Some <==> no_nul(bytes@),
            r matches Some(t) ==> t@ == bytes@,
    {
        let n = bytes.len();
        let mut i: usize = 0;
        while i < n
            invariant
                n == bytes@.len(),
                i <= n,
                forall|j: int| 0 <= j < i ==> bytes@[j] != 0u8,
            decreases n - i,
        {
            if bytes[i] == 0u8 {
                return None;
            }
            i = i + 1;
        }
        Some(CText { bytes })
    }

    /// The text of the UTF-8 bytes of `s`; `None` where `s` holds a NUL.
    pub fn from_str(s: &str) -> (r: Option<CText>)
        ensures
            r is Some <==> no_nul(s.spec_bytes()),
            r matches Some(t) ==> t@ == s.spec_bytes(),
    {
        let v = vstd::slice::slice_to_vec(s.as_bytes());
        CText::new(v)
    }

    /// The text's bytes, without a terminating NUL.
    pub fn as_bytes(&self) -> (r: &[u8])
        ensures
            r@ == self@,
            no_nul(r@),
    {
        proof {
            use_type_invariant(self);
        }
        self.bytes.as_slice()
    }

    /// Whether the text has no byte.
    pub fn is_empty(&self) -> (r: bool)
        ensures
            r == (self@.len() == 0),
    {
        self.bytes.len() == 0
    }
}

impl Clone for CText {
    /// A copy of the text.
    fn clone(&self) -> (r: CText)
        ensures
            r@ == self@,
    {
        proof {
            use_type_invariant(self);
        }
        CText { bytes: vstd::slice::slice_to_vec(self.bytes.as_slice()) }
    }
}

impl PartialEq for CText {
    /// Two texts are equal where they hold the same bytes.
    fn eq(&self, other: &CText) -> (r: bool) {
        let n = self.bytes.len();
        if n != other.bytes.len() {
            return false;
        }
        let mut i: usize = 0;
        while i < n
            invariant
                n == self.bytes@.len(),
                n == other.bytes@.len(),
                i <= n,
                forall|j: int| 0 <= j < i ==> self.bytes@[j] == other.bytes@[j],
            decreases n - i,
        {
            if self.bytes[i] != other.bytes[i] {
                return false;
            }
            i = i + 1;
        }
        proof {
            assert(self.bytes@ =~= other.bytes@);
        }
        true
    }
}

impl PartialEqSpecImpl for CText {
    open spec fn obeys_eq_spec() -> bool {
        true
    }

    open spec fn eq_spec(&self, other: &CText) -> bool {
        self@ == other@
    }
}

impl Eq for CText {
}

} // verus!
