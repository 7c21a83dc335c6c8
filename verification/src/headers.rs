//! The response headers that the library reads, and what it reads from them.

use vstd::prelude::*;
use crate::text::{
    byte_chars, chars_of_bytes, decimal, is_digit, law_parse_decimal, parse_unsigned,
    parse_unsigned_chars, range_equals, str_equals, string_from_chars, trim, trim_bounds,
};

verus! {

/// One header line: its name and its raw value. Names are compared as they are
/// written, so a caller looks them up in the case in which they were stored (the
/// `http` crate hands them out in lower case).
pub struct HeaderField {
    pub name: String,
    pub value: Vec<u8>,
}

/// The headers of a response, in the order in which they came.
pub struct Headers {
    pub fields: Vec<HeaderField>,
}

impl View for Headers {
    type V = Seq<(Seq<char>, Seq<u8>)>;

    open spec fn view(&self) -> Seq<(Seq<char>, Seq<u8>)> {
        self.fields@.map_values(|f: HeaderField| (f.name@, f.value@))
    }
}

/// The value of the first header called `name`, if any.
pub open spec fn header_lookup(h: Seq<(Seq<char>, Seq<u8>)>, name: Seq<char>) -> Option<Seq<u8>>
    decreases h.len(),
{
    if h.len() == 0 {
        None
    } else if h[0].0 == name {
        Some(h[0].1)
    } else {
        header_lookup(h.drop_first(), name)
    }
}

/// A lookup gives the value of the first header of that name: `Some(v)` exactly when
/// some header `i` is `(name, v)` and none before it has that name, and `None` exactly
/// when no header has that name.
pub proof fn law_header_lookup(h: Seq<(Seq<char>, Seq<u8>)>, name: Seq<char>)
    ensures
        forall|v: Seq<u8>| header_lookup(h, name) == Some(v) <==> exists|i: int|
            0 <= i < h.len() && #[trigger] h[i] == (name, v) && forall|k: int| 0 <= k < i ==> (#[trigger] h[k]).0 != name,
        header_lookup(h, name) is None <==> forall|k: int| 0 <= k < h.len() ==> (#[trigger] h[k]).0 != name,
    decreases h.len(),
{
    if h.len() > 0 {
        let t = h.drop_first();
        law_header_lookup(t, name);
        assert forall|v: Seq<u8>| header_lookup(h, name) == Some(v) <==> exists|i: int|
            0 <= i < h.len() && #[trigger] h[i] == (name, v) && forall|k: int| 0 <= k < i ==> (#[trigger] h[k]).0 != name by {
            if h[0].0 == name {
                if header_lookup(h, name) == Some(v) {
                    assert(h[0] == (name, v));
                }
                if exists|i: int| 0 <= i < h.len() && #[trigger] h[i] == (name, v) && forall|k: int| 0 <= k < i ==> (#[trigger] h[k]).0 != name {
                    let i = choose|i: int| 0 <= i < h.len() && #[trigger] h[i] == (name, v) && forall|k: int| 0 <= k < i ==> (#[trigger] h[k]).0 != name;
                    if i > 0 {
                        assert(h[0].0 != name);
                    }
                }
            } else {
                if header_lookup(h, name) == Some(v) {
                    let i = choose|i: int| 0 <= i < t.len() && #[trigger] t[i] == (name, v) && forall|k: int| 0 <= k < i ==> (#[trigger] t[k]).0 != name;
                    assert(h[i + 1] == (name, v));
                    assert forall|k: int| 0 <= k < i + 1 implies (#[trigger] h[k]).0 != name by {
                        if k > 0 {
                            assert(h[k] == t[k - 1]);
                        }
                    }
                }
                if exists|i: int| 0 <= i < h.len() && #[trigger] h[i] == (name, v) && forall|k: int| 0 <= k < i ==> (#[trigger] h[k]).0 != name {
                    let i = choose|i: int| 0 <= i < h.len() && #[trigger] h[i] == (name, v) && forall|k: int| 0 <= k < i ==> (#[trigger] h[k]).0 != name;
                    assert(i > 0);
                    assert(t[i - 1] == (name, v));
                    assert forall|k: int| 0 <= k < i - 1 implies (#[trigger] t[k]).0 != name by {
                        assert(t[k] == h[k + 1]);
                    }
                }
            }
        }
        assert forall|k: int| 0 <= k < t.len() implies #[trigger] t[k] == h[k + 1] by {}
        if header_lookup(h, name) is None {
            assert forall|k: int| 0 <= k < h.len() implies (#[trigger] h[k]).0 != name by {
                if k > 0 {
                    assert(h[k] == t[k - 1]);
                }
            }
        }
        if forall|k: int| 0 <= k < h.len() ==> (#[trigger] h[k]).0 != name {
            assert forall|k: int| 0 <= k < t.len() implies (#[trigger] t[k]).0 != name by {
                assert(t[k] == h[k + 1]);
            }
        }
    }
}

/// Whether a header value is text: only visible ASCII characters and tabs.
pub open spec fn is_visible_ascii(v: Seq<u8>) -> bool {
    forall|i: int| 0 <= i < v.len() ==> (32 <= #[trigger] v[i] < 127 || v[i] == 9)
}

/// A header value read as text, or the empty text when it is not text.
pub open spec fn value_text(v: Seq<u8>) -> Seq<char> {
    if is_visible_ascii(v) {
        byte_chars(v)
    } else {
        Seq::empty()
    }
}

/// The length that a `content-length` header announces, if it has a readable one.
pub open spec fn spec_content_length(h: Seq<(Seq<char>, Seq<u8>)>) -> Option<nat> {
    match header_lookup(h, "content-length"@) {
        None => None,
        Some(v) => if is_visible_ascii(v) {
            match parse_unsigned(byte_chars(v), usize::MAX as nat) {
                Ok(n) => Some(n),
                Err(_) => None,
            }
        } else {
            None
        },
    }
}

/// Whether an `accept-ranges` header is present, and if so whether it announces `bytes`.
pub open spec fn spec_accept_ranges(h: Seq<(Seq<char>, Seq<u8>)>) -> Option<bool> {
    match header_lookup(h, "accept-ranges"@) {
        None => None,
        Some(v) => Some(trim(value_text(v)) == "bytes"@),
    }
}

/// A `content-length` header whose value is the decimal text of any length that fits in
/// `usize` announces exactly that length, as `str::parse::<usize>` reads it.
pub proof fn law_content_length_decimal(h: Seq<(Seq<char>, Seq<u8>)>, v: Seq<u8>, n: nat)
    requires
        header_lookup(h, "content-length"@) == Some(v),
        byte_chars(v) == decimal(n),
        n <= usize::MAX,
    ensures
        spec_content_length(h) == Some(n),
{
    law_parse_decimal(n, usize::MAX as nat);
    assert forall|i: int| 0 <= i < v.len() implies (32 <= #[trigger] v[i] < 127 || v[i] == 9) by {
        assert(byte_chars(v)[i] == v[i] as char);
        assert(is_digit(decimal(n)[i]));
        assert((v[i] as char) as u32 == v[i] as u32);
    }
}

/// The file name that a `content-disposition` header gives, if any.
pub open spec fn spec_content_dispo(h: Seq<(Seq<char>, Seq<u8>)>) -> Option<Seq<char>> {
    match header_lookup(h, "content-disposition"@) {
        None => None,
        Some(v) => disposition_filename(value_text(v)),
    }
}

/// The `filename` parameter that `content_disposition` finds in a header value.
pub uninterp spec fn disposition_filename(header: Seq<char>) -> Option<Seq<char>>;

/// Parses a `Content-Disposition` value with `content_disposition::parse_content_disposition`
/// and takes its `filename` parameter (`ParsedContentDisposition::filename_full`).
/// Trusted: the result is the crate's reading of `header`, named `disposition_filename`.
#[verifier::external_body]
fn content_disposition_filename(header: &str) -> (r: Option<String>)
    ensures
        r.deep_view() == disposition_filename(header@),
{
    content_disposition::parse_content_disposition(header).filename_full()
}

/// What a response's headers tell about the file behind it.
pub trait ParseHeaders {
    /// The announced length of the body.
    fn content_length(&self) -> Option<usize>;

    /// Whether the server accepts byte ranges, if it says so.
    fn accept_ranges(&self) -> Option<bool>;

    /// The file name that the server proposes.
    fn content_dispo(&self) -> Option<String>;
}

impl Headers {
    /// The value of the first header called `name`.
    pub fn get(&self, name: &str) -> (r: Option<&Vec<u8>>)
        ensures
            match r {
                Some(v) => header_lookup(self@, name@) == Some(v@),
                None => header_lookup(self@, name@) is None,
            },
    {
        let n = self.fields.len();
        let mut i: usize = 0;
        assert(self@.subrange(0, n as int) =~= self@);
        while i < n
            invariant
                n == self.fields@.len(),
                n == self@.len(),
                i <= n,
                header_lookup(self@, name@) == header_lookup(self@.subrange(i as int, n as int), name@),
            decreases n - i,
        {
            let f = &self.fields[i];
            proof {
                let rest = self@.subrange(i as int, n as int);
                assert(rest[0] == (f.name@, f.value@));
                assert(rest.drop_first() =~= self@.subrange(i + 1, n as int));
            }
            if str_equals(f.name.as_str(), name) {
                return Some(&f.value);
            }
            i = i + 1;
        }
        None
    }
}

/// Whether every byte of `v` is visible ASCII or a tab.
pub fn bytes_are_visible_ascii(v: &Vec<u8>) -> (r: bool)
    ensures
        r == is_visible_ascii(v@),
{
    let n = v.len();
    let mut i: usize = 0;
    while i < n
        invariant
            n == v@.len(),
            i <= n,
            forall|k: int| 0 <= k < i ==> (32 <= #[trigger] v@[k] < 127 || v@[k] == 9),
        decreases n - i,
    {
        let b = v[i];
        if !((32 <= b && b < 127) || b == 9) {
            return false;
        }
        i = i + 1;
    }
    true
}

/// The characters of a header value read as text (none when it is not text).
pub fn value_chars(v: &Vec<u8>) -> (r: Vec<char>)
    ensures
        r@ == value_text(v@),
{
    if bytes_are_visible_ascii(v) {
        chars_of_bytes(v)
    } else {
        Vec::new()
    }
}

impl ParseHeaders for Headers {
    fn content_length(&self) -> (r: Option<usize>)
        ensures
            r matches Some(n) ==> spec_content_length(self@) == Some(n as nat),
            r is None ==> spec_content_length(self@) is None,
    {
        match self.get("content-length") {
            None => None,
            Some(v) => {
                if bytes_are_visible_ascii(v) {
                    let cs = chars_of_bytes(v);
                    match parse_unsigned_chars(&cs, usize::MAX as u64) {
                        Ok(n) => Some(n as usize),
                        Err(_) => None,
                    }
                } else {
                    None
                }
            },
        }
    }

    fn accept_ranges(&self) -> (r: Option<bool>)
        ensures
            r == spec_accept_ranges(self@),
    {
        match self.get("accept-ranges") {
            None => None,
            Some(v) => {
                let cs = value_chars(v);
                let (a, b) = trim_bounds(&cs);
                Some(range_equals(&cs, a, b, "bytes"))
            },
        }
    }

    fn content_dispo(&self) -> (r: Option<String>)
        ensures
            r.deep_view() == spec_content_dispo(self@),
    {
        match self.get("content-disposition") {
            None => None,
            Some(v) => {
                let cs = value_chars(v);
                let text = string_from_chars(&cs);
                content_disposition_filename(text.as_str())
            },
        }
    }
}

} // verus!
