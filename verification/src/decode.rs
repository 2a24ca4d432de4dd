//! Reading a file's bytes as text when they are not valid UTF-8: a short
//! list of encodings is tried in a fixed order.

use vstd::prelude::*;
use vstd::string::*;
use crate::text::optional_text;

verus! {

/// The encodings that are tried, in this order.
#[derive(Clone, Copy, Debug, PartialEq, Eq, Structural)]
pub enum TextEncoding {
    Utf8,
    Windows1254,
    Windows1252,
    Iso8859_2,
}

/// What the decoder makes of `bytes` read as `encoding`, or as the encoding
/// of their byte order mark where they start with one: the text, with the
/// replacement character in place of each malformed sequence, and whether
/// there was any malformed sequence.
pub uninterp spec fn decoded(encoding: TextEncoding, bytes: Seq<u8>) -> (Seq<char>, bool);

/// The longest input that the decoder is handed: its working buffers, of up
/// to three bytes for each byte of input and that rounded up to a power of
/// two, must stay within what a buffer can hold.
pub open spec fn decodable_len() -> int {
    (usize::MAX / 16) as int
}

/// One attempt to decode.
#[derive(Debug)]
pub struct Decoding {
    pub text: String,
    pub had_errors: bool,
}

impl View for Decoding {
    type V = (Seq<char>, bool);

    open spec fn view(&self) -> (Seq<char>, bool) {
        (self.text@, self.had_errors)
    }
}

/// The views of a sequence of attempts.
pub open spec fn attempt_views(attempts: Seq<Decoding>) -> Seq<(Seq<char>, bool)> {
    Seq::new(attempts.len(), |i: int| attempts[i]@)
}

/// The text of the first attempt without a malformed sequence, if there is
/// one.
pub open spec fn first_clean(attempts: Seq<(Seq<char>, bool)>) -> Option<Seq<char>>
    decreases attempts.len(),
{
    if attempts.len() == 0 {
        None
    } else if !attempts[0].1 {
        Some(attempts[0].0)
    } else {
        first_clean(attempts.drop_first())
    }
}

/// The text to go with: that of the first attempt without a malformed
/// sequence; where every attempt had one, that of the first attempt, with
/// its replacement characters; nothing where there was no attempt.
pub open spec fn chosen(attempts: Seq<(Seq<char>, bool)>) -> Option<Seq<char>> {
    match first_clean(attempts) {
        Some(text) => Some(text),
        None => if attempts.len() == 0 {
            None
        } else {
            Some(attempts[0].0)
        },
    }
}

/// The four attempts on `bytes`, in the order in which they count.
pub open spec fn attempts_on(bytes: Seq<u8>) -> Seq<(Seq<char>, bool)> {
    seq![
        decoded(TextEncoding::Utf8, bytes),
        decoded(TextEncoding::Windows1254, bytes),
        decoded(TextEncoding::Windows1252, bytes),
        decoded(TextEncoding::Iso8859_2, bytes),
    ]
}

/// `encoding_rs::Encoding::decode` on one of the statics `UTF_8`,
/// `WINDOWS_1254`, `WINDOWS_1252` and `ISO_8859_2`. The call decodes the
/// whole input, replaces malformed sequences and reports whether there were
/// any; a byte order mark at the front is dropped and decides the encoding
/// in place of the one asked for. The contract gives the pair of text and
/// flag the name [`decoded`]: it depends on the encoding and the bytes
/// alone. The bound on the length keeps the sizes of the decoder's buffers
/// from overflowing, where the call would panic.
#[verifier::external_body]
fn decode_with(encoding: TextEncoding, bytes: &[u8]) -> (r: Decoding)
    requires
        bytes@.len() <= decodable_len(),
    ensures
        r@ == decoded(encoding, bytes@),
{
    let encoding = match encoding {
        TextEncoding::Utf8 => encoding_rs::UTF_8,
        TextEncoding::Windows1254 => encoding_rs::WINDOWS_1254,
        TextEncoding::Windows1252 => encoding_rs::WINDOWS_1252,
        TextEncoding::Iso8859_2 => encoding_rs::ISO_8859_2,
    };
    let (text, _, had_errors) = encoding.decode(bytes);
    Decoding { text: text.into_owned(), had_errors }
}

proof fn lemma_first_clean_skips(attempts: Seq<(Seq<char>, bool)>, i: int)
    requires
        0 <= i <= attempts.len(),
        forall|j: int| 0 <= j < i ==> (#[trigger] attempts[j]).1,
    ensures
        first_clean(attempts) == first_clean(attempts.skip(i)),
    decreases i,
{
    if i == 0 {
        assert(attempts.skip(0) =~= attempts);
    } else {
        lemma_first_clean_skips(attempts, i - 1);
        let rest = attempts.skip(i - 1);
        assert(rest[0] == attempts[i - 1]);
        assert(rest.drop_first() =~= attempts.skip(i));
    }
}

/// Picks among attempts that were made in order: the text of the first one
/// without a malformed sequence, or else the text of the first one.
pub fn choose_decoding(attempts: Vec<Decoding>) -> (r: Option<String>)
    ensures
        optional_text(r) == chosen(attempt_views(attempts@)),
{
    let ghost all = attempt_views(attempts@);
    let mut i: usize = 0;
    while i < attempts.len()
        invariant
            i <= attempts.len(),
            all == attempt_views(attempts@),
            forall|j: int| 0 <= j < i ==> (#[trigger] all[j]).1,
        decreases attempts.len() - i,
    {
        if !attempts[i].had_errors {
            proof {
                lemma_first_clean_skips(all, i as int);
                assert(all.skip(i as int)[0] == all[i as int]);
            }
            return Some(attempts[i].text.clone());
        }
        i = i + 1;
    }
    proof {
        lemma_first_clean_skips(all, all.len() as int);
        assert(all.skip(all.len() as int) =~= Seq::empty());
    }
    if attempts.len() == 0 {
        None
    } else {
        Some(attempts[0].text.clone())
    }
}

/// Reads `bytes` as text: as UTF-8, as Windows-1254, as Windows-1252 and as
/// ISO-8859-2, and goes with the first reading that has no malformed
/// sequence; where all four have one, with the UTF-8 reading and its
/// replacement characters.
pub fn decode_text(bytes: &[u8]) -> (r: String)
    requires
        bytes@.len() <= decodable_len(),
    ensures
        Some(r@) == chosen(attempts_on(bytes@)),
{
    let mut attempts: Vec<Decoding> = Vec::new();
    attempts.push(decode_with(TextEncoding::Utf8, bytes));
    attempts.push(decode_with(TextEncoding::Windows1254, bytes));
    attempts.push(decode_with(TextEncoding::Windows1252, bytes));
    attempts.push(decode_with(TextEncoding::Iso8859_2, bytes));
    proof {
        assert(attempt_views(attempts@) =~= attempts_on(bytes@));
    }
    match choose_decoding(attempts) {
        Some(text) => text,
        None => String::new(),
    }
}

/// As [`decode_text`], for bytes of any length: nothing where there are more
/// bytes than the decoder can be handed.
pub fn try_decode_text(bytes: &[u8]) -> (r: Option<String>)
    ensures
        optional_text(r) == if bytes@.len() <= decodable_len() {
            chosen(attempts_on(bytes@))
        } else {
            None
        },
{
    if bytes.len() <= usize::MAX / 16 {
        Some(decode_text(bytes))
    } else {
        None
    }
}

} // verus!
