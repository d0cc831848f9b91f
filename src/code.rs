use vstd::prelude::*;
use vstd::string::StringExecFns;
use barcoders::error::Error as SymbolError;
use barcoders::sym::code128::Code128;
use barcoders::sym::ean13::EAN13;
use barcoders::sym::ean8::EAN8;

verus! {

/// A barcode, tagged with its symbology.
///
/// The symbology is chosen by the length of the raw text: 8 characters make
/// an EAN-8 code, 13 an EAN-13 code and 22 a Code 128 code.
#[derive(Debug, Clone)]
pub enum Code {
    EAN8(String),
    EAN13(String),
    CODE128(String),
}

/// Why a raw code string could not be classified.
#[derive(Debug, Clone)]
pub enum ClassificationError {
    /// The code has a length no supported symbology uses: the code and its length.
    UnsupportedLength(String, usize),
}

pub open spec fn supported_len(n: int) -> bool {
    n == 8 || n == 13 || n == 22
}

pub open spec fn is_digit(c: char) -> bool {
    '0' <= c && c <= '9'
}

pub open spec fn all_digits(s: Seq<char>) -> bool {
    forall|i: int| 0 <= i < s.len() ==> is_digit(#[trigger] s[i])
}

impl Code {
    /// The raw text the code was built from.
    pub open spec fn text(&self) -> Seq<char> {
        match self {
            Code::EAN8(s) => s@,
            Code::EAN13(s) => s@,
            Code::CODE128(s) => s@,
        }
    }

    /// The tag and the length of the text agree.
    pub open spec fn wf(&self) -> bool {
        match self {
            Code::EAN8(s) => s@.len() == 8,
            Code::EAN13(s) => s@.len() == 13,
            Code::CODE128(s) => s@.len() == 22,
        }
    }

    /// The name of the symbology, as it starts the display text.
    pub open spec fn tag_text(&self) -> Seq<char> {
        match self {
            Code::EAN8(_) => seq!['E', 'A', 'N', '8', '_'],
            Code::EAN13(_) => seq!['E', 'A', 'N', '1', '3', '_'],
            Code::CODE128(_) => seq!['C', 'O', 'D', 'E', '1', '2', '8', '_'],
        }
    }

    /// The display text: `<SYMBOLOGY>_<raw text>`.
    pub open spec fn display_text(&self) -> Seq<char> {
        self.tag_text() + self.text()
    }

    /// Returns the display text of the code, such as `EAN8_00045933`.
    pub fn display(&self) -> (r: String)
        ensures
            r@ == self.display_text(),
    {
        let (tag, raw) = match self {
            Code::EAN8(s) => ("EAN8_", s),
            Code::EAN13(s) => ("EAN13_", s),
            Code::CODE128(s) => ("CODE128_", s),
        };
        proof {
            reveal_strlit("EAN8_");
            reveal_strlit("EAN13_");
            reveal_strlit("CODE128_");
        }
        let mut r = String::from_str(tag);
        r.append(raw.as_str());
        assert(r@ =~= self.display_text());
        r
    }
}

/// `c` is what classifying the raw text `s` yields.
pub open spec fn classifies_as(s: Seq<char>, c: Code) -> bool {
    &&& c.text() == s
    &&& (s.len() == 8 <==> c is EAN8)
    &&& (s.len() == 13 <==> c is EAN13)
    &&& (s.len() == 22 <==> c is CODE128)
}

/// The code that classifying `s` yields, where its length is supported.
pub open spec fn code_of(s: String) -> Code {
    if s@.len() == 8 {
        Code::EAN8(s)
    } else if s@.len() == 13 {
        Code::EAN13(s)
    } else {
        Code::CODE128(s)
    }
}

/// Chooses the symbology of a raw code string by its length in characters.
pub fn classify(code: String) -> (r: Result<Code, ClassificationError>)
    ensures
        supported_len(code@.len() as int) <==> r is Ok,
        r matches Ok(c) ==> classifies_as(code@, c) && c.wf() && c == code_of(code),
        r matches Err(ClassificationError::UnsupportedLength(s, n)) ==> s@ == code@ && n == code@.len(),
{
    let n = code.as_str().unicode_len();
    if n == 8 {
        Ok(Code::EAN8(code))
    } else if n == 13 {
        Ok(Code::EAN13(code))
    } else if n == 22 {
        Ok(Code::CODE128(code))
    } else {
        Err(ClassificationError::UnsupportedLength(code, n))
    }
}

/// Classifying a code and displaying the result gives the symbology's name,
/// an underscore and the raw text unchanged.
pub proof fn lemma_display_of_classified(s: Seq<char>, c: Code)
    requires
        classifies_as(s, c),
    ensures
        s.len() == 8 ==> c.display_text() == seq!['E', 'A', 'N', '8', '_'] + s,
        s.len() == 13 ==> c.display_text() == seq!['E', 'A', 'N', '1', '3', '_'] + s,
        s.len() == 22 ==> c.display_text() == seq!['C', 'O', 'D', 'E', '1', '2', '8', '_'] + s,
{
}

#[verifier::external_type_specification]
#[verifier::external_body]
pub struct ExSymbolError(barcoders::error::Error);

/// The module pattern (one entry per bar module, 1 for a bar, 0 for a space)
/// that barcoders gives for an EAN-8 payload of seven digits; the encoder
/// computes the check digit itself.
pub uninterp spec fn ean8_pattern(payload: Seq<char>) -> Seq<u8>;

/// The module pattern that barcoders gives for an EAN-13 payload of twelve digits.
pub uninterp spec fn ean13_pattern(payload: Seq<char>) -> Seq<u8>;

/// What barcoders makes of a Code 128 payload: its module pattern, or `None`
/// where the payload is not valid Code 128 data.
pub uninterp spec fn code128_encoding(payload: Seq<char>) -> Option<Seq<u8>>;

/// Relies on barcoders' `EAN8::new` and `EAN8::encode`: on seven characters
/// `new` accepts exactly the all-digit strings; `encode` then gives the module
/// pattern, guards included, 67 modules long.
#[verifier::external_body]
fn ean8_symbol(payload: &str) -> (r: Result<Vec<u8>, SymbolError>)
    requires
        payload@.len() == 7,
    ensures
        r is Ok <==> all_digits(payload@),
        r matches Ok(v) ==> v@ == ean8_pattern(payload@) && v@.len() == 67,
{
    EAN8::new(payload).map(|b| b.encode())
}

/// Relies on barcoders' `EAN13::new` and `EAN13::encode`: on twelve
/// characters `new` accepts exactly the all-digit strings; `encode` then gives
/// the module pattern, guards included, 95 modules long.
#[verifier::external_body]
fn ean13_symbol(payload: &str) -> (r: Result<Vec<u8>, SymbolError>)
    requires
        payload@.len() == 12,
    ensures
        r is Ok <==> all_digits(payload@),
        r matches Ok(v) ==> v@ == ean13_pattern(payload@) && v@.len() == 95,
{
    EAN13::new(payload).map(|b| b.encode())
}

/// Relies on barcoders' `Code128::new` and `Code128::encode`: the payload is
/// parsed into character-set units (it must open with a start character), and
/// the units are encoded with their checksum. The checksum is summed in an
/// `i32`, which bounds the payload's length.
#[verifier::external_body]
fn code128_symbol(payload: &str) -> (r: Result<Vec<u8>, SymbolError>)
    requires
        payload@.len() <= 4096,
    ensures
        r is Ok <==> code128_encoding(payload@) is Some,
        r matches Ok(v) ==> code128_encoding(payload@) == Some(v@),
{
    Code128::new(payload).map(|b| b.encode())
}

/// The start character that selects Code 128 character set A.
pub open spec fn code128_start() -> char {
    '\u{00C0}'
}

impl Code {
    /// The data handed to the symbol encoder: the first 7 digits of an EAN-8
    /// code, the first 12 of an EAN-13 code (the encoder adds the check
    /// digit), and the text after the set-A start character for Code 128.
    pub open spec fn payload(&self) -> Seq<char> {
        match self {
            Code::EAN8(s) => s@.take(7),
            Code::EAN13(s) => s@.take(12),
            Code::CODE128(s) => seq![code128_start()] + s@,
        }
    }

    /// The module pattern of the code, or `None` where the encoder rejects it.
    pub open spec fn pattern(&self) -> Option<Seq<u8>> {
        match self {
            Code::EAN8(_) => if all_digits(self.payload()) {
                Some(ean8_pattern(self.payload()))
            } else {
                None
            },
            Code::EAN13(_) => if all_digits(self.payload()) {
                Some(ean13_pattern(self.payload()))
            } else {
                None
            },
            Code::CODE128(_) => code128_encoding(self.payload()),
        }
    }

    /// Encodes the code into its module pattern.
    pub fn encode(&self) -> (r: Result<Vec<u8>, SymbolError>)
        requires
            self.wf(),
        ensures
            r is Ok <==> self.pattern() is Some,
            r matches Ok(v) ==> self.pattern() == Some(v@),
            r matches Ok(v) ==> (self is EAN8 ==> v@.len() == 67) && (self is EAN13 ==> v@.len()
                == 95),
    {
        match self {
            Code::EAN8(b) => {
                let payload = b.as_str().substring_char(0, 7);
                ean8_symbol(payload)
            },
            Code::EAN13(b) => {
                let payload = b.as_str().substring_char(0, 12);
                ean13_symbol(payload)
            },
            Code::CODE128(b) => {
                proof {
                    reveal_strlit("\u{00C0}");
                }
                let mut payload = String::from_str("\u{00C0}");
                payload.append(b.as_str());
                assert(payload@ =~= self.payload());
                code128_symbol(payload.as_str())
            },
        }
    }
}

} // verus!
