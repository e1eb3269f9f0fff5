//! Transaction ids: the opaque tokens that tie a reply to its request.

use vstd::prelude::*;

verus! {

/// A source of fresh transaction ids. Implementations are free in what they
/// hand out; the client stamps every request with exactly what it got.
pub trait GenerateTransaction {
    /// Which ids this generator may hand out. A generator that says nothing
    /// about itself may hand out any text.
    open spec fn yields(&self, id: Seq<char>) -> bool {
        true
    }

    /// Produces the id for the next request: one of those the generator
    /// may hand out.
    fn generate_transaction(&self) -> (r: String)
        ensures
            self.yields(r@),
    ;
}

/// Whether a character is an ASCII letter or digit.
pub open spec fn is_alphanumeric(c: char) -> bool {
    ('A' <= c <= 'Z') || ('a' <= c <= 'z') || ('0' <= c <= '9')
}

/// Whether a text holds ASCII letters and digits only.
pub open spec fn all_alphanumeric(s: Seq<char>) -> bool {
    forall|i: int| 0 <= i < s.len() ==> is_alphanumeric(#[trigger] s[i])
}

/// Draws one character with `Rng::sample` from `rand::thread_rng()` under
/// the distribution `rand::distributions::Alphanumeric`, which yields ASCII
/// letters and digits. Which one comes is left open.
#[verifier::external_body]
fn sample_alphanumeric() -> (c: char)
    ensures
        is_alphanumeric(c),
{
    char::from(rand::Rng::sample(&mut rand::thread_rng(), rand::distributions::Alphanumeric))
}

/// The length of the ids of the default generator.
pub const DEFAULT_TRANSACTION_LENGTH: usize = 12;

/// The default generator: random ids of ASCII letters and digits.
#[derive(Debug, Clone, Copy)]
pub struct RandomTransactionGenerator {
    length: usize,
}

impl RandomTransactionGenerator {
    /// The length of the ids this generator hands out.
    pub closed spec fn spec_length(&self) -> nat {
        self.length as nat
    }

    /// A generator of ids of the default length.
    pub fn new() -> (r: Self)
        ensures
            r.spec_length() == DEFAULT_TRANSACTION_LENGTH,
    {
        RandomTransactionGenerator { length: DEFAULT_TRANSACTION_LENGTH }
    }

    /// A generator of ids of the given length.
    pub fn with_length(length: usize) -> (r: Self)
        ensures
            r.spec_length() == length,
    {
        RandomTransactionGenerator { length }
    }

    /// The length of the ids this generator hands out.
    pub fn length(&self) -> (r: usize)
        ensures
            r == self.spec_length(),
    {
        self.length
    }

    /// A fresh id: as long as configured, letters and digits only.
    pub fn generate(&self) -> (r: String)
        ensures
            r@.len() == self.spec_length(),
            all_alphanumeric(r@),
    {
        let mut token = String::new();
        let mut i: usize = 0;
        while i < self.length
            invariant
                i <= self.length,
                token@.len() == i,
                all_alphanumeric(token@),
            decreases self.length - i,
        {
            let c = sample_alphanumeric();
            token.push(c);
            i += 1;
        }
        token
    }
}

impl Default for RandomTransactionGenerator {
    fn default() -> (r: Self)
        ensures
            r.spec_length() == DEFAULT_TRANSACTION_LENGTH,
    {
        RandomTransactionGenerator::new()
    }
}

impl GenerateTransaction for RandomTransactionGenerator {
    /// The ids of the configured length that hold letters and digits only.
    open spec fn yields(&self, id: Seq<char>) -> bool {
        id.len() == self.spec_length() && all_alphanumeric(id)
    }

    fn generate_transaction(&self) -> (r: String) {
        self.generate()
    }
}

/// The generator a transport holds.
pub struct TransactionGenerator<G: GenerateTransaction> {
    generator: G,
}

impl<G: GenerateTransaction> TransactionGenerator<G> {
    /// The generator inside.
    pub closed spec fn generator(&self) -> G {
        self.generator
    }

    /// Wraps a generator.
    pub fn new(generator: G) -> (r: Self)
        ensures
            r.generator() == generator,
    {
        TransactionGenerator { generator }
    }

    /// Produces the id for the next request: what the generator inside
    /// hands out, which is one of the ids it may hand out.
    pub fn generate_transaction(&self) -> (r: String)
        ensures
            self.generator().yields(r@),
    {
        self.generator.generate_transaction()
    }
}

} // verus!
