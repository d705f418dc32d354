//! Output file names derived from the prompt.

use vstd::prelude::*;
use vstd::string::*;

verus! {

/// The MD5 digest of the UTF-8 encoding of `text`.
pub uninterp spec fn md5_of(text: Seq<char>) -> Seq<u8>;

/// Relies on `md5::compute`: the 16-byte digest of the text's UTF-8 bytes,
/// which depends on the text alone.
#[verifier::external_body]
fn md5_digest(text: &str) -> (r: Vec<u8>)
    ensures
        r@ == md5_of(text@),
        r@.len() == 16,
{
    md5::compute(text).0.to_vec()
}

/// The sixteen lower-case hexadecimal digits.
pub open spec fn hex_digits() -> Seq<char> {
    seq!['0', '1', '2', '3', '4', '5', '6', '7', '8', '9', 'a', 'b', 'c', 'd', 'e', 'f']
}

/// Each byte as two lower-case hexadecimal digits, high nibble first.
pub open spec fn hex_of(bytes: Seq<u8>) -> Seq<char>
    decreases bytes.len(),
{
    if bytes.len() == 0 {
        Seq::empty()
    } else {
        let b = bytes.last();
        hex_of(bytes.drop_last()) + seq![hex_digits()[(b / 16) as int], hex_digits()[(b % 16) as int]]
    }
}

/// The image file name for a digest: its hexadecimal form with `.png`.
pub open spec fn filename_of_digest(digest: Seq<u8>) -> Seq<char> {
    hex_of(digest) + ".png"@
}

/// The image file name chosen for a prompt when the user names none.
pub open spec fn filename_for(prompt: Seq<char>) -> Seq<char> {
    filename_of_digest(md5_of(prompt))
}

/// The hex form has two digits per byte.
pub proof fn lemma_hex_len(bytes: Seq<u8>)
    ensures
        hex_of(bytes).len() == 2 * bytes.len(),
    decreases bytes.len(),
{
    if bytes.len() > 0 {
        lemma_hex_len(bytes.drop_last());
    }
}

/// A prompt always gets the same file name: the name depends on the
/// prompt's text alone, and is the digest's hex form with `.png`, two
/// characters per digest byte and four more.
pub proof fn lemma_filename_deterministic(p: Seq<char>, q: Seq<char>)
    requires
        p == q,
    ensures
        filename_for(p) == filename_for(q),
        filename_for(p) == hex_of(md5_of(p)) + ".png"@,
        filename_for(p).len() == 2 * md5_of(p).len() + 4,
{
    lemma_hex_len(md5_of(p));
    reveal_strlit(".png");
}

/// Renders `digest` as a file name: lower-case hex, then `.png`.
pub fn filename_from_digest(digest: &Vec<u8>) -> (r: String)
    ensures
        r@ == filename_of_digest(digest@),
{
    let digits = "0123456789abcdef";
    proof {
        reveal_strlit("0123456789abcdef");
        assert(digits@ =~= hex_digits());
    }
    let mut out = String::new();
    let mut i: usize = 0;
    while i < digest.len()
        invariant
            digits@ == hex_digits(),
            i <= digest@.len(),
            out@ == hex_of(digest@.subrange(0, i as int)),
        decreases digest@.len() - i,
    {
        let b = digest[i];
        let hi = (b / 16) as usize;
        let lo = (b % 16) as usize;
        out.append(digits.substring_char(hi, hi + 1));
        out.append(digits.substring_char(lo, lo + 1));
        proof {
            let pre = digest@.subrange(0, i + 1);
            assert(pre.drop_last() =~= digest@.subrange(0, i as int));
            assert(pre.last() == b);
            assert(digits@.subrange(hi as int, hi + 1) =~= seq![hex_digits()[(b / 16) as int]]);
            assert(digits@.subrange(lo as int, lo + 1) =~= seq![hex_digits()[(b % 16) as int]]);
            assert(out@ =~= hex_of(pre));
        }
        i = i + 1;
    }
    proof {
        assert(digest@.subrange(0, digest@.len() as int) =~= digest@);
    }
    out.append(".png");
    out
}

/// The file name for an image generated from `prompt`: the MD5 digest of
/// the prompt in lower-case hex, with `.png`.
pub fn generate_filename(prompt: &str) -> (r: String)
    ensures
        r@ == filename_for(prompt@),
{
    let digest = md5_digest(prompt);
    filename_from_digest(&digest)
}

} // verus!
