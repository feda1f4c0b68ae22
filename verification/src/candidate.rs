//! Candidate generation: an unbounded, stateless sequence of probe targets.
//! Each candidate is a fixed base address, a freshly drawn random token of
//! `TOKEN_LEN` alphanumeric characters, and a fixed extension.

use vstd::prelude::*;
use vstd::string::StringExecFns;

verus! {

/// Number of random characters in a candidate's token segment.
pub const TOKEN_LEN: usize = 7;

/// The alphabet a token is drawn from: ASCII letters and digits.
pub open spec fn is_token_char(c: char) -> bool {
    ('0' <= c && c <= '9') || ('a' <= c && c <= 'z') || ('A' <= c && c <= 'Z')
}

/// A well-formed token: exactly `TOKEN_LEN` characters, all from the alphabet.
pub open spec fn is_token(s: Seq<char>) -> bool {
    &&& s.len() == TOKEN_LEN
    &&& forall|i: int| 0 <= i < s.len() ==> is_token_char(s[i])
}

/// Relies on rand's `Alphanumeric` distribution: every sampled byte is an
/// ASCII letter or digit. Nothing is assumed about which one comes back.
#[verifier::external_body]
fn sample_token_char() -> (c: char)
    ensures
        is_token_char(c),
{
    let b: u8 = rand::RngExt::sample(&mut rand::rng(), rand::distr::Alphanumeric);
    b as char
}

/// One probe target: the full locator, together with the token segment it
/// was built from.
pub struct Candidate {
    /// The absolute locator: base address, then token, then extension.
    pub locator: String,
    /// The random token segment of the locator.
    pub token: String,
}

impl Candidate {
    /// A candidate is well formed for a generator when its token comes from
    /// the alphabet at the fixed length and its locator is exactly
    /// base + token + extension.
    pub open spec fn wf(self, base: Seq<char>, extension: Seq<char>) -> bool {
        &&& is_token(self.token@)
        &&& self.locator@ == base + self.token@ + extension
    }
}

/// A factory for candidates: a fixed base address and extension. Calls are
/// independent; the generator keeps no cursor and cannot be rewound.
pub struct UriGenerator {
    /// The fixed prefix of every candidate locator.
    pub base_url: String,
    /// The fixed suffix of every candidate locator.
    pub extension: String,
}

impl UriGenerator {
    /// Builds a generator over the given base address and extension.
    pub fn new(base_url: String, extension: String) -> (g: Self)
        ensures
            g.base_url@ == base_url@,
            g.extension@ == extension@,
    {
        Self { base_url, extension }
    }

    /// Draws a fresh candidate: a random token of `TOKEN_LEN` alphabet
    /// characters between the base address and the extension.
    pub fn next(&self) -> (c: Candidate)
        ensures
            c.wf(self.base_url@, self.extension@),
    {
        let mut token = String::new();
        let mut i: usize = 0;
        while i < TOKEN_LEN
            invariant
                i <= TOKEN_LEN,
                token@.len() == i,
                forall|j: int| 0 <= j < token@.len() ==> is_token_char(token@[j]),
            decreases TOKEN_LEN - i,
        {
            let ch = sample_token_char();
            token.push(ch);
            i = i + 1;
        }
        let mut locator = String::from_str(self.base_url.as_str());
        locator.append(token.as_str());
        locator.append(self.extension.as_str());
        let c = Candidate { locator, token };
        proof {
            assert(c.locator@ =~= self.base_url@ + c.token@ + self.extension@);
        }
        c
    }
}

} // verus!
