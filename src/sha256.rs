use vstd::prelude::*;
use vstd::string::*;

use crate::error::Error;

verus! {

/// Whether `c` has Unicode's White_Space property.
pub open spec fn is_white_space(c: char) -> bool {
    let u = c as u32;
    ||| 0x9 <= u <= 0xd
    ||| u == 0x20
    ||| u == 0x85
    ||| u == 0xa0
    ||| u == 0x1680
    ||| 0x2000 <= u <= 0x200a
    ||| u == 0x2028
    ||| u == 0x2029
    ||| u == 0x202f
    ||| u == 0x205f
    ||| u == 0x3000
}

/// `s` without its leading white space.
pub open spec fn trim_start_ws(s: Seq<char>) -> Seq<char>
    decreases s.len(),
{
    if s.len() > 0 && is_white_space(s[0]) {
        trim_start_ws(s.drop_first())
    } else {
        s
    }
}

/// `s` without its trailing white space.
pub open spec fn trim_end_ws(s: Seq<char>) -> Seq<char>
    decreases s.len(),
{
    if s.len() > 0 && is_white_space(s.last()) {
        trim_end_ws(s.drop_last())
    } else {
        s
    }
}

/// `s` without leading and trailing white space.
pub open spec fn trim_ws(s: Seq<char>) -> Seq<char> {
    trim_end_ws(trim_start_ws(s))
}

pub open spec fn is_ascii_upper(c: char) -> bool {
    'A' as u32 <= c as u32 <= 'Z' as u32
}

/// Whether `b` is `a` with each ASCII upper-case letter made lower-case and
/// every other character kept.
pub open spec fn is_ascii_lowercase_of(a: Seq<char>, b: Seq<char>) -> bool {
    &&& a.len() == b.len()
    &&& forall|i: int|
        0 <= i < a.len() ==> if is_ascii_upper(#[trigger] a[i]) {
            b[i] as u32 == a[i] as u32 + 32
        } else {
            b[i] == a[i]
        }
}

pub open spec fn is_hex_digit(c: char) -> bool {
    let u = c as u32;
    ||| '0' as u32 <= u <= '9' as u32
    ||| 'a' as u32 <= u <= 'f' as u32
    ||| 'A' as u32 <= u <= 'F' as u32
}

/// Whether `s` is the text of a sha256: 64 hexadecimal digits, in either case.
pub open spec fn is_sha256_text(s: Seq<char>) -> bool {
    s.len() == 64 && forall|i: int| 0 <= i < s.len() ==> is_hex_digit(#[trigger] s[i])
}

/// Whether `s` is the text that a `Sha256` holds: 64 hexadecimal digits,
/// none of them upper-case.
pub open spec fn is_lower_sha256_text(s: Seq<char>) -> bool {
    is_sha256_text(s) && forall|i: int| 0 <= i < s.len() ==> !is_ascii_upper(#[trigger] s[i])
}

/// Relies on str::trim: leading and trailing White_Space characters removed.
#[verifier::external_body]
fn trim_text(s: &str) -> (r: &str)
    ensures
        r@ == trim_ws(s@),
{
    s.trim()
}

/// Relies on str::to_ascii_lowercase: 'A' to 'Z' become 'a' to 'z', every
/// other character is kept.
#[verifier::external_body]
fn ascii_lowercase(s: &str) -> (r: String)
    ensures
        is_ascii_lowercase_of(s@, r@),
{
    s.to_ascii_lowercase()
}

fn is_hex_char(c: char) -> (r: bool)
    ensures
        r == is_hex_digit(c),
{
    ('0' <= c && c <= '9') || ('a' <= c && c <= 'f') || ('A' <= c && c <= 'F')
}

proof fn lemma_lowercase_keeps_sha256_text(a: Seq<char>, b: Seq<char>)
    requires
        is_ascii_lowercase_of(a, b),
    ensures
        is_sha256_text(a) <==> is_sha256_text(b),
{
    assert forall|i: int| 0 <= i < a.len() implies is_hex_digit(#[trigger] a[i]) == is_hex_digit(
        b[i],
    ) by {
        if is_ascii_upper(a[i]) {
            assert(b[i] as u32 == a[i] as u32 + 32);
        }
    }
    if is_sha256_text(b) {
        assert forall|i: int| 0 <= i < a.len() implies is_hex_digit(#[trigger] a[i]) by {
            assert(is_hex_digit(b[i]));
        }
    }
    if is_sha256_text(a) {
        assert forall|i: int| 0 <= i < b.len() implies is_hex_digit(#[trigger] b[i]) by {
            assert(is_hex_digit(a[i]));
        }
    }
}

/// sha256 hash of a file, held as 64 lower-case hexadecimal digits.
pub struct Sha256 {
    hex: String,
}

impl View for Sha256 {
    type V = Seq<char>;

    closed spec fn view(&self) -> Seq<char> {
        self.hex@
    }
}

impl Sha256 {
    #[verifier::type_invariant]
    closed spec fn well_formed(&self) -> bool {
        is_lower_sha256_text(self.hex@)
    }

    /// Read a sha256 from text: surrounding white space is ignored, and
    /// digits may be of either case. Anything but 64 hexadecimal digits is
    /// refused with `InvalidSha256`.
    pub fn parse(s: &str) -> (r: Result<Sha256, Error>)
        ensures
            r is Ok <==> is_sha256_text(trim_ws(s@)),
            r matches Ok(h) ==> is_ascii_lowercase_of(trim_ws(s@), h@),
            r matches Err(e) ==> e is InvalidSha256,
            r matches Ok(h) ==> is_lower_sha256_text(h@),
    {
        let t = trim_text(s);
        let hex = ascii_lowercase(t);
        proof {
            lemma_lowercase_keeps_sha256_text(t@, hex@);
        }
        let n = hex.as_str().unicode_len();
        if n != 64 {
            return Err(Error::InvalidSha256);
        }
        let mut i: usize = 0;
        while i < 64
            invariant
                i <= 64,
                hex@.len() == 64,
                t@ == trim_ws(s@),
                is_sha256_text(t@) <==> is_sha256_text(hex@),
                is_ascii_lowercase_of(t@, hex@),
                forall|j: int| 0 <= j < i ==> is_hex_digit(#[trigger] hex@[j]),
            decreases 64 - i,
        {
            let c = hex.as_str().get_char(i);
            if !is_hex_char(c) {
                assert(!is_hex_digit(hex@[i as int]));
                return Err(Error::InvalidSha256);
            }
            i = i + 1;
        }
        assert forall|j: int| 0 <= j < hex@.len() implies !is_ascii_upper(#[trigger] hex@[j]) by {
            if is_ascii_upper(t@[j]) {
                assert(hex@[j] as u32 == t@[j] as u32 + 32);
            } else {
                assert(hex@[j] == t@[j]);
            }
        }
        Ok(Sha256 { hex })
    }

    /// The 64 lower-case hexadecimal digits.
    pub fn as_str(&self) -> (r: &str)
        ensures
            r@ == self@,
            is_lower_sha256_text(r@),
    {
        proof {
            use_type_invariant(self);
        }
        self.hex.as_str()
    }

    /// The 64 lower-case hexadecimal digits, as an owned string.
    pub fn to_string(&self) -> (r: String)
        ensures
            r@ == self@,
            is_lower_sha256_text(r@),
    {
        proof {
            use_type_invariant(self);
        }
        self.hex.clone()
    }
}

impl std::str::FromStr for Sha256 {
    type Err = Error;

    fn from_str(s: &str) -> (r: Result<Self, Self::Err>)
        ensures
            r is Ok <==> is_sha256_text(trim_ws(s@)),
            r matches Ok(h) ==> is_ascii_lowercase_of(trim_ws(s@), h@),
            r matches Ok(h) ==> is_lower_sha256_text(h@),
            r matches Err(e) ==> e is InvalidSha256,
    {
        Sha256::parse(s)
    }
}

impl std::ops::Deref for Sha256 {
    type Target = str;

    fn deref(&self) -> (r: &str)
        ensures
            r@ == self@,
            is_lower_sha256_text(r@),
    {
        self.as_str()
    }
}

} // verus!
