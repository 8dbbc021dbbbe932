//! Bounty numbers and the short public ids that stand for them.

use vstd::prelude::*;
use crate::text::chars_eq;
use crate::text::chars_of;

verus! {

#[verifier::external_type_specification]
#[verifier::external_body]
pub struct ExSqidsError(sqids::Error);

/// Minimum length of a public bounty id.
pub const SQIDS_MIN_LENGTH: u8 = 5;

/// The id that sqids' `Sqids::encode` produces for `numbers` with the default
/// alphabet and minimum length `min_length`, with sqids' default blocklist
/// (`default_blocklist` true) or with an empty one; `None` where it fails.
pub uninterp spec fn sqids_encoding(default_blocklist: bool, min_length: u8, numbers: Seq<u64>) -> Option<Seq<char>>;

/// The numbers that sqids' `Sqids::decode` reads from `id` with the default
/// alphabet and minimum length `min_length`.
pub uninterp spec fn sqids_decoding(min_length: u8, id: Seq<char>) -> Seq<u64>;

/// sqids' `Sqids::encode` on a coder built by `SqidsBuilder` with the default
/// alphabet, `min_length` and the default blocklist. The result is named
/// `sqids_encoding`; for a single number, decoding the id gives the number back
/// (the decoder uses the same shuffled alphabet and ignores the blocklist), and
/// an id for one or more numbers is padded to at least `min_length` characters.
/// When the id is refused (`BlocklistMaxAttempts`) nothing more is stated.
#[verifier::external_body]
fn sqids_encode(min_length: u8, numbers: &[u64]) -> (r: Result<String, sqids::Error>)
    ensures
        r is Ok <==> sqids_encoding(true, min_length, numbers@) is Some,
        r matches Ok(id) ==> sqids_encoding(true, min_length, numbers@) == Some(id@),
        r matches Ok(id) ==> (numbers@.len() == 1 ==> sqids_decoding(min_length, id@) == numbers@),
        r matches Ok(id) ==> (numbers@.len() > 0 ==> id@.len() >= min_length),
{
    sqids::SqidsBuilder::new().min_length(min_length).build()?.encode(numbers)
}

/// sqids' `Sqids::encode` on a coder built by `SqidsBuilder` with the default
/// alphabet, `min_length` and an empty blocklist. With nothing blocked the
/// encoder never fails; the result is named `sqids_encoding`, and for a single
/// number decoding the id gives the number back; an id for one or more
/// numbers has at least `min_length` characters.
#[verifier::external_body]
fn sqids_encode_unblocked(min_length: u8, numbers: &[u64]) -> (r: Result<String, sqids::Error>)
    ensures
        r is Ok,
        r matches Ok(id) ==> sqids_encoding(false, min_length, numbers@) == Some(id@),
        r matches Ok(id) ==> (numbers@.len() == 1 ==> sqids_decoding(min_length, id@) == numbers@),
        r matches Ok(id) ==> (numbers@.len() > 0 ==> id@.len() >= min_length),
{
    sqids::SqidsBuilder::new()
        .blocklist(std::collections::HashSet::new())
        .min_length(min_length)
        .build()?
        .encode(numbers)
}

/// sqids' `Sqids::decode` on a coder built by `SqidsBuilder` with the default
/// alphabet and `min_length` (building it cannot fail with the default alphabet).
/// The result is named `sqids_decoding`; the empty text decodes to no numbers.
#[verifier::external_body]
fn sqids_decode(min_length: u8, id: &str) -> (r: Vec<u64>)
    ensures
        r@ == sqids_decoding(min_length, id@),
        id@.len() == 0 ==> r@.len() == 0,
{
    match sqids::SqidsBuilder::new().min_length(min_length).build() {
        Ok(sqids) => sqids.decode(id),
        Err(_) => Vec::new(),
    }
}

/// A bounty's number within its community.
#[derive(Copy, Clone, Debug, PartialEq, Eq, Structural)]
pub struct BountyNum(pub i64);

/// The public id of bounty number `n`: its sqids encoding with the blocklist,
/// or, where every candidate is blocked, the encoding without a blocklist.
pub open spec fn bounty_id_text(n: i64) -> Seq<char> {
    match sqids_encoding(true, SQIDS_MIN_LENGTH, seq![n as u64]) {
        Some(s) => s,
        None => sqids_encoding(false, SQIDS_MIN_LENGTH, seq![n as u64]).unwrap(),
    }
}

/// The bounty number a public id stands for: the first number it decodes to,
/// provided that number's own public id is exactly this text.
pub open spec fn parse_bounty_id(s: Seq<char>) -> Option<i64> {
    let ns = sqids_decoding(SQIDS_MIN_LENGTH, s);
    if ns.len() == 0 {
        None
    } else if bounty_id_text(ns[0] as i64) == s {
        Some(ns[0] as i64)
    } else {
        None
    }
}

proof fn lemma_cast_roundtrip(n: i64)
    ensures
        (n as u64) as i64 == n,
{
    assert((n as u64) as i64 == n) by (bit_vector);
}

impl BountyNum {
    /// The sqids encoding of this number (as unsigned) with or without the
    /// blocklist; only the encoding with the blocklist can fail.
    pub fn try_encode(&self, use_blocklist: bool) -> (r: Result<String, ()>)
        ensures
            use_blocklist ==> match sqids_encoding(true, SQIDS_MIN_LENGTH, seq![self.0 as u64]) {
                Some(s) => (r matches Ok(t) && t@ == s),
                None => r is Err,
            },
            !use_blocklist ==> (r matches Ok(t) && sqids_encoding(false, SQIDS_MIN_LENGTH, seq![self.0 as u64]) == Some(t@)),
            r matches Ok(t) ==> sqids_decoding(SQIDS_MIN_LENGTH, t@) == seq![self.0 as u64],
            r matches Ok(t) ==> t@.len() >= SQIDS_MIN_LENGTH,
    {
        let n: u64 = self.0 as u64;
        let nums: [u64; 1] = [n];
        assert(nums@ == seq![n]);
        let r = if use_blocklist {
            sqids_encode(SQIDS_MIN_LENGTH, nums.as_slice())
        } else {
            sqids_encode_unblocked(SQIDS_MIN_LENGTH, nums.as_slice())
        };
        match r {
            Ok(s) => Ok(s),
            Err(_) => Err(()),
        }
    }

    /// The public id of this bounty (what users see and type).
    /// Reading the id back gives this number.
    pub fn to_string(&self) -> (r: String)
        ensures
            r@ == bounty_id_text(self.0),
            parse_bounty_id(r@) == Some(self.0),
            r@.len() >= SQIDS_MIN_LENGTH,
    {
        let r = match self.try_encode(true) {
            Ok(encoded) => encoded,
            Err(_) => match self.try_encode(false) {
                Ok(encoded) => encoded,
                Err(_) => String::new(),
            },
        };
        proof {
            lemma_cast_roundtrip(self.0);
            assert(seq![self.0 as u64][0] as i64 == self.0);
        }
        r
    }

    /// Reads a public bounty id. Only the canonical id of a number is accepted:
    /// the text must be exactly what `to_string` gives for the number it decodes to.
    pub fn from_str(s: &str) -> (r: Result<BountyNum, ()>)
        ensures
            r == match parse_bounty_id(s@) {
                Some(n) => Ok::<BountyNum, ()>(BountyNum(n)),
                None => Err::<BountyNum, ()>(()),
            },
            r matches Ok(b) ==> bounty_id_text(b.0) == s@,
            s@.len() == 0 ==> r == Err::<BountyNum, ()>(()),
    {
        let ids = sqids_decode(SQIDS_MIN_LENGTH, s);
        if ids.len() == 0 {
            return Err(());
        }
        let result = BountyNum(ids[0] as i64);
        let text = result.to_string();
        if chars_eq(&chars_of(text.as_str()), &chars_of(s)) {
            Ok(result)
        } else {
            Err(())
        }
    }
}

} // verus!
