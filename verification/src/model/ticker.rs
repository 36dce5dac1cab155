//! Parsing of stock tickers.

use vstd::array::{spec_array_fill_for_copy_type, spec_array_update};
use vstd::prelude::*;
use vstd::slice::slice_subrange;
use vstd::std_specs::cmp::PartialEqSpecImpl;
use vstd::std_specs::convert::TryFromSpecImpl;
use vstd::string::StringSliceAdditionalSpecFns;
use vstd::utf8::{
    decode_utf8, encode_utf8, encode_utf8_decode_utf8, encode_utf8_valid_utf8, is_ascii_chars,
    is_ascii_chars_encode_utf8, valid_utf8,
};

verus! {

/// Why a byte string is no ticker.
#[derive(Debug, Clone, Copy, PartialEq, Eq, Structural)]
pub enum ParseError {
    /// Some byte is not an ASCII letter.
    InvalidChars,
    /// The input is shorter than three or longer than five bytes.
    InvalidLen,
}

/// Whether `b` is an ASCII letter of either case.
pub open spec fn is_letter(b: u8) -> bool {
    (0x41 <= b <= 0x5a) || (0x61 <= b <= 0x7a)
}

/// Whether `b` is an upper-case ASCII letter.
pub open spec fn is_upper_letter(b: u8) -> bool {
    0x41 <= b <= 0x5a
}

/// The upper-case form of `b`: a lower-case ASCII letter moves to its capital, every other
/// byte stays.
pub open spec fn upper(b: u8) -> u8 {
    if 0x61 <= b <= 0x7a {
        (b - 0x20) as u8
    } else {
        b
    }
}

/// Whether every byte of `v` is an ASCII letter.
pub open spec fn all_letters(v: Seq<u8>) -> bool {
    forall|i: int| 0 <= i < v.len() ==> is_letter(#[trigger] v[i])
}

/// `v` with every byte in upper case.
pub open spec fn uppercase(v: Seq<u8>) -> Seq<u8> {
    Seq::new(v.len(), |i: int| upper(v[i]))
}

/// What parsing `v` gives: the normalised symbol, or the reason why there is none.
/// The length is judged before the characters.
pub open spec fn parse(v: Seq<u8>) -> Result<Seq<u8>, ParseError> {
    if !(3 <= v.len() <= 5) {
        Err(ParseError::InvalidLen)
    } else if !all_letters(v) {
        Err(ParseError::InvalidChars)
    } else {
        Ok(uppercase(v))
    }
}

/// The characters that the ASCII bytes `v` spell.
pub open spec fn ascii_text(v: Seq<u8>) -> Seq<char> {
    Seq::new(v.len(), |i: int| v[i] as char)
}

/// Whether the symbol `a` comes before the symbol `b` in the order of a dictionary: at the
/// first place where they differ `a` has the smaller letter, or `a` ends there and `b` goes
/// on.
pub open spec fn symbol_before(a: Seq<u8>, b: Seq<u8>) -> bool
    decreases a.len(),
{
    if b.len() == 0 {
        false
    } else if a.len() == 0 {
        true
    } else if a[0] != b[0] {
        a[0] < b[0]
    } else {
        symbol_before(a.drop_first(), b.drop_first())
    }
}

/// A stock symbol of three to five upper-case ASCII letters.
///
/// The letters sit at the front of a fixed buffer, the rest of which is zero, so that two
/// tickers with the same symbol are the same value.
#[derive(Debug, Clone, Copy, Eq, Hash)]
pub struct Ticker([u8; 5], u8);

impl View for Ticker {
    type V = Seq<u8>;

    /// The symbol: the letters in use, without the padding.
    closed spec fn view(&self) -> Seq<u8> {
        self.0@.subrange(0, self.1 as int)
    }
}

impl Ticker {
    /// Whether the value is a ticker: three to five upper-case letters followed by zeros.
    pub closed spec fn wf(&self) -> bool {
        &&& 3 <= self.1 <= 5
        &&& forall|i: int| 0 <= i < self.1 ==> is_upper_letter(#[trigger] self.0[i])
        &&& forall|i: int| self.1 <= i < 5 ==> #[trigger] self.0[i] == 0
    }

    #[verifier::type_invariant]
    spec fn inv(self) -> bool {
        self.wf()
    }

    /// The symbol as text.
    pub open spec fn text(&self) -> Seq<char> {
        ascii_text(self@)
    }

    /// The buffer that holds `symbol` at its front and zeros behind it.
    spec fn padded(symbol: Seq<u8>, upto: nat) -> [u8; 5]
        decreases upto,
    {
        if upto == 0 {
            spec_array_fill_for_copy_type::<u8, 5>(0u8)
        } else {
            spec_array_update(Self::padded(symbol, (upto - 1) as nat), upto - 1, symbol[upto - 1])
        }
    }

    /// The ticker whose symbol is `symbol`, where that is three to five upper-case letters.
    pub closed spec fn of_symbol(symbol: Seq<u8>) -> Ticker {
        Ticker(Self::padded(symbol, symbol.len()), symbol.len() as u8)
    }

    proof fn lemma_padded(symbol: Seq<u8>, upto: nat)
        requires
            upto <= symbol.len() <= 5,
        ensures
            forall|i: int| 0 <= i < upto ==> #[trigger] Self::padded(symbol, upto)[i] == symbol[i],
            forall|i: int| upto <= i < 5 ==> #[trigger] Self::padded(symbol, upto)[i] == 0,
        decreases upto,
    {
        broadcast use vstd::array::group_array_axioms;

        if upto > 0 {
            let before = Self::padded(symbol, (upto - 1) as nat);
            Self::lemma_padded(symbol, (upto - 1) as nat);
            assert(Self::padded(symbol, upto)@ == before@.update(upto - 1, symbol[upto - 1]));
            assert forall|i: int| 0 <= i < 5 implies before@[i] == #[trigger] before[i] by {}
        }
    }

    /// A symbol of three to five upper-case letters has its ticker, which spells it.
    pub proof fn lemma_symbol_has_ticker(symbol: Seq<u8>)
        requires
            3 <= symbol.len() <= 5,
            forall|i: int| 0 <= i < symbol.len() ==> is_upper_letter(#[trigger] symbol[i]),
        ensures
            Ticker::of_symbol(symbol).wf(),
            Ticker::of_symbol(symbol)@ == symbol,
    {
        Self::lemma_padded(symbol, symbol.len());
        let t = Ticker::of_symbol(symbol);
        assert(t@ =~= symbol);
    }

    /// What [`Ticker::new`] returns for the bytes `v`.
    pub open spec fn spec_new(v: Seq<u8>) -> Result<Ticker, ParseError> {
        match parse(v) {
            Ok(symbol) => Ok(Ticker::of_symbol(symbol)),
            Err(e) => Err(e),
        }
    }

    /// A ticker is determined by its symbol: two tickers that spell the same are the same
    /// value, padding included.
    pub proof fn lemma_symbol_determines(s: Ticker, t: Ticker)
        requires
            s.wf(),
            t.wf(),
            s@ == t@,
        ensures
            s == t,
    {
        assert(s.1 == t.1) by {
            assert(s@.len() == s.1);
            assert(t@.len() == t.1);
        }
        assert forall|i: int| 0 <= i < 5 implies s.0[i] == t.0[i] by {
            if i < s.1 {
                assert(s.0[i] == s@[i]);
                assert(t.0[i] == t@[i]);
            }
        }
        assert(s.0 =~= t.0);
    }

    /// Every ticker is the ticker of its own symbol.
    pub proof fn lemma_of_symbol(self)
        requires
            self.wf(),
        ensures
            self == Ticker::of_symbol(self@),
    {
        self.lemma_symbol_shape();
        Self::lemma_symbol_has_ticker(self@);
        Self::lemma_symbol_determines(Ticker::of_symbol(self@), self);
    }

    /// Three to five bytes, all of them ASCII letters, parse to the ticker that spells them
    /// in upper case.
    pub proof fn lemma_letters_parse(v: Seq<u8>)
        requires
            3 <= v.len() <= 5,
            all_letters(v),
        ensures
            Ticker::spec_new(v) matches Ok(t) && t.wf() && t@ == uppercase(v) && t.text()
                == ascii_text(uppercase(v)),
    {
        assert forall|i: int| 0 <= i < v.len() implies is_upper_letter(
            #[trigger] uppercase(v)[i],
        ) by {
            assert(is_letter(v[i]));
        }
        Self::lemma_symbol_has_ticker(uppercase(v));
    }

    /// Anything else does not parse: a wrong length fails as such, a byte that is no letter
    /// fails as such where the length is right.
    pub proof fn lemma_others_fail(v: Seq<u8>)
        requires
            !(3 <= v.len() <= 5) || !all_letters(v),
        ensures
            Ticker::spec_new(v) is Err,
            !(3 <= v.len() <= 5) ==> Ticker::spec_new(v) == Err::<Ticker, ParseError>(
                ParseError::InvalidLen,
            ),
            3 <= v.len() <= 5 ==> Ticker::spec_new(v) == Err::<Ticker, ParseError>(
                ParseError::InvalidChars,
            ),
    {
    }

    /// Case does not matter: inputs that agree once their letters are capitalised parse alike,
    /// to the same ticker or to the same error.
    pub proof fn lemma_case_blind(a: Seq<u8>, b: Seq<u8>)
        requires
            uppercase(a) == uppercase(b),
        ensures
            Ticker::spec_new(a) == Ticker::spec_new(b),
    {
        assert(a.len() == uppercase(a).len());
        assert(b.len() == uppercase(b).len());
        assert forall|i: int| 0 <= i < a.len() implies is_letter(a[i]) == is_letter(b[i]) by {
            assert(uppercase(a)[i] == upper(a[i]));
            assert(uppercase(b)[i] == upper(b[i]));
        }
    }

    /// What holds of every ticker's symbol: three to five upper-case letters.
    pub proof fn lemma_symbol_shape(self)
        requires
            self.wf(),
        ensures
            3 <= self@.len() <= 5,
            forall|i: int| 0 <= i < self@.len() ==> is_upper_letter(#[trigger] self@[i]),
            parse(self@) == Ok::<Seq<u8>, ParseError>(self@),
    {
        assert forall|i: int| 0 <= i < self@.len() implies is_upper_letter(
            #[trigger] self@[i],
        ) by {
            assert(self@[i] == self.0[i]);
        }
        assert(uppercase(self@) =~= self@);
    }

    /// Parses a ticker from bytes.
    ///
    /// Fails with [`ParseError::InvalidLen`] unless there are three to five bytes, and with
    /// [`ParseError::InvalidChars`] if one of them is no ASCII letter. Otherwise the ticker
    /// holds the bytes in upper case.
    pub fn new(v: &[u8]) -> (r: Result<Self, ParseError>)
        ensures
            r == Ticker::spec_new(v@),
            match r {
                Ok(t) => parse(v@) == Ok::<Seq<u8>, ParseError>(t@) && t.wf(),
                Err(e) => parse(v@) == Err::<Seq<u8>, ParseError>(e),
            },
    {
        let len = v.len();
        if len < 3 || len > 5 {
            return Err(ParseError::InvalidLen);
        }
        let mut res = [0u8; 5];
        let mut i: usize = 0;
        while i < len
            invariant
                3 <= len <= 5,
                len == v@.len(),
                i <= len,
                forall|j: int| 0 <= j < i ==> is_letter(#[trigger] v@[j]),
                forall|j: int| 0 <= j < i ==> #[trigger] res@[j] == upper(v@[j]),
                forall|j: int| i <= j < 5 ==> #[trigger] res@[j] == 0,
            decreases len - i,
        {
            let b = v[i];
            if b >= 0x41 && b <= 0x5a {
                res[i] = b;
            } else if b >= 0x61 && b <= 0x7a {
                res[i] = b - 0x20;
            } else {
                assert(!is_letter(v@[i as int]));
                return Err(ParseError::InvalidChars);
            }
            i += 1;
        }
        let t = Ticker(res, len as u8);
        proof {
            assert(t@ =~= uppercase(v@));
            t.lemma_of_symbol();
        }
        Ok(t)
    }

    /// The symbol as a string slice.
    #[must_use]
    pub fn as_str(&self) -> (s: &str)
        ensures
            s@ == self.text(),
            3 <= s@.len() <= 5,
    {
        proof {
            use_type_invariant(self);
            self.lemma_symbol_shape();
            lemma_ascii_bytes_spell(self@);
        }
        let bytes = slice_subrange(self.0.as_slice(), 0, self.1 as usize);
        assert(bytes@ =~= self@);
        match utf8_text(bytes) {
            Some(s) => {
                proof {
                    encode_utf8_decode_utf8(s@);
                }
                s
            },
            None => "",
        }
    }
}

impl Ticker {
    /// The symbol as an owned string.
    #[must_use]
    pub fn to_string(&self) -> (s: String)
        ensures
            s@ == self.text(),
    {
        self.as_str().to_owned()
    }
}

/// Bytes below 128 are valid UTF-8, and they encode the characters with the same numbers.
pub proof fn lemma_ascii_bytes_spell(v: Seq<u8>)
    requires
        forall|i: int| 0 <= i < v.len() ==> #[trigger] v[i] < 128,
    ensures
        valid_utf8(v),
        decode_utf8(v) == ascii_text(v),
        encode_utf8(ascii_text(v)) == v,
{
    let chars = ascii_text(v);
    assert(is_ascii_chars(chars)) by {
        assert forall|i: int| 0 <= i < chars.len() implies '\0' <= #[trigger] chars[i]
            <= '\u{7f}' by {
            assert(v[i] < 128);
        }
    }
    is_ascii_chars_encode_utf8(chars);
    assert(encode_utf8(chars) =~= v) by {
        assert forall|i: int| 0 <= i < v.len() implies encode_utf8(chars)[i] == v[i] by {
            assert(chars[i] as u8 == v[i]);
        }
    }
    encode_utf8_valid_utf8(chars);
    encode_utf8_decode_utf8(chars);
}

/// `std::str::from_utf8`, with its error dropped: there is a string exactly when the bytes
/// are valid UTF-8, and it is made of those bytes.
#[verifier::external_body]
fn utf8_text(bytes: &[u8]) -> (r: Option<&str>)
    ensures
        r is Some <==> valid_utf8(bytes@),
        r matches Some(s) ==> s.spec_bytes() == bytes@,
{
    std::str::from_utf8(bytes).ok()
}

impl PartialEq for Ticker {
    /// Two tickers are equal when they spell the same symbol.
    fn eq(&self, other: &Self) -> (r: bool) {
        proof {
            use_type_invariant(self);
            use_type_invariant(other);
        }
        if self.1 != other.1 {
            assert(self@.len() != other@.len());
            return false;
        }
        let n = self.1;
        let mut i: u8 = 0;
        while i < n
            invariant
                n == self.1,
                n == other.1,
                n <= 5,
                i <= n,
                forall|j: int| 0 <= j < i ==> self.0[j] == other.0[j],
            decreases n - i,
        {
            if self.0[i as usize] != other.0[i as usize] {
                assert(self@[i as int] != other@[i as int]);
                return false;
            }
            i += 1;
        }
        assert(self@ =~= other@);
        true
    }
}

impl PartialEqSpecImpl for Ticker {
    open spec fn obeys_eq_spec() -> bool {
        true
    }

    open spec fn eq_spec(&self, other: &Ticker) -> bool {
        self@ == other@
    }
}

impl<'a> TryFrom<&'a str> for Ticker {
    type Error = ParseError;

    /// Parses a ticker from the UTF-8 bytes of `value`.
    fn try_from(value: &'a str) -> (r: Result<Self, ParseError>) {
        Self::new(value.as_bytes())
    }
}

impl<'a> TryFromSpecImpl<&'a str> for Ticker {
    open spec fn obeys_try_from_spec() -> bool {
        true
    }

    open spec fn try_from_spec(value: &'a str) -> Result<Self, ParseError> {
        Ticker::spec_new(value.spec_bytes())
    }
}

impl<'a> TryFrom<&'a [u8]> for Ticker {
    type Error = ParseError;

    /// Parses a ticker from bytes, as [`Ticker::new`] does.
    fn try_from(value: &'a [u8]) -> (r: Result<Self, ParseError>) {
        Self::new(value)
    }
}

impl<'a> TryFromSpecImpl<&'a [u8]> for Ticker {
    open spec fn obeys_try_from_spec() -> bool {
        true
    }

    open spec fn try_from_spec(value: &'a [u8]) -> Result<Self, ParseError> {
        Ticker::spec_new(value@)
    }
}

} // verus!
