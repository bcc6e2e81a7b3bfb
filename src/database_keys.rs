use vstd::prelude::*;
use vstd::string::StrSliceExecFns;
use rand::Rng;

verus! {

/// Length of a generated read key.
pub const READ_KEY_LENGTH: usize = 10;

/// Length of a generated write key.
pub const WRITE_KEY_LENGTH: usize = 10;

/// Length of a generated admin key: the most sensitive tier gets the longest key.
pub const ADMIN_KEY_LENGTH: usize = 20;

/// How many times a key that must differ from another is drawn afresh
/// before its last character is changed instead.
pub const MAX_KEY_DRAWS: usize = 8;

/// The alphabet of generated keys: ASCII letters of both cases and digits.
pub open spec fn is_alphanumeric(c: char) -> bool {
    ('A' <= c && c <= 'Z') || ('a' <= c && c <= 'z') || ('0' <= c && c <= '9')
}

/// `k` is a key of exactly `n` characters over the alphanumeric alphabet.
pub open spec fn is_key_of_length(k: Seq<char>, n: nat) -> bool {
    &&& k.len() == n
    &&& forall|i: int| 0 <= i < k.len() ==> is_alphanumeric(#[trigger] k[i])
}

/// One secret access key of a game.
#[derive(Debug)]
pub struct StringKey {
    key: String,
}

impl View for StringKey {
    type V = Seq<char>;

    closed spec fn view(&self) -> Seq<char> {
        self.key@
    }
}

impl Clone for StringKey {
    fn clone(&self) -> (r: Self)
        ensures
            r == *self,
    {
        StringKey { key: self.key.clone() }
    }
}

impl StringKey {
    /// Wraps a key that was issued earlier.
    pub fn new(key: String) -> (r: Self)
        ensures
            r@ == key@,
    {
        StringKey { key }
    }

    /// Exact comparison with a presented key.
    pub fn matches(&self, presented: &str) -> (r: bool)
        ensures
            r == (self@ == presented@),
    {
        let presented = presented.to_owned();
        presented == self.key
    }

    pub fn inner(&self) -> (r: &str)
        ensures
            r@ == self@,
    {
        self.key.as_str()
    }

    /// A fresh key of `length` characters, each drawn at random from the
    /// alphanumeric alphabet.
    pub fn generate(length: usize) -> (r: Self)
        ensures
            is_key_of_length(r@, length as nat),
    {
        let mut rng = rand::thread_rng();
        let mut key = String::new();
        let mut i: usize = 0;
        while i < length
            invariant
                i <= length,
                is_key_of_length(key@, i as nat),
            decreases length - i,
        {
            let c = sample_alphanumeric(&mut rng);
            push_char(&mut key, c);
            i = i + 1;
        }
        StringKey { key }
    }

    /// A fresh key of `length` characters that differs from `other`. Draws
    /// again while the draw equals `other`; after `MAX_KEY_DRAWS` equal draws
    /// the last character is set to one that `other` does not end with.
    pub fn generate_distinct(length: usize, other: &StringKey) -> (r: Self)
        requires
            length > 0,
        ensures
            is_key_of_length(r@, length as nat),
            r@ != other@,
    {
        let mut draws: usize = 0;
        while draws < MAX_KEY_DRAWS
            invariant
                draws <= MAX_KEY_DRAWS,
            decreases MAX_KEY_DRAWS - draws,
        {
            let candidate = StringKey::generate(length);
            if !candidate.matches(other.inner()) {
                return candidate;
            }
            draws = draws + 1;
        }
        let mut key = StringKey::generate(length - 1).key;
        let other_key = other.inner();
        let last = if other_key.unicode_len() == length && other_key.get_char(length - 1) == 'a' {
            'b'
        } else {
            'a'
        };
        push_char(&mut key, last);
        assert(key@[length - 1] == last);
        StringKey { key }
    }
}

/// The three access keys of a game, one per tier.
#[derive(Debug)]
pub struct GameKeys {
    pub read_key: StringKey,
    pub write_key: StringKey,
    pub admin_key: StringKey,
}

impl Clone for GameKeys {
    fn clone(&self) -> (r: Self)
        ensures
            r == *self,
    {
        GameKeys {
            read_key: self.read_key.clone(),
            write_key: self.write_key.clone(),
            admin_key: self.admin_key.clone(),
        }
    }
}

/// Keys as `GameKeys::generate` issues them: each of its tier's length, all
/// alphanumeric, and pairwise distinct.
pub open spec fn are_issued_keys(keys: GameKeys) -> bool {
    &&& keys.read_key@ != keys.write_key@
    &&& keys.read_key@ != keys.admin_key@
    &&& keys.write_key@ != keys.admin_key@
    &&& is_key_of_length(keys.read_key@, READ_KEY_LENGTH as nat)
    &&& is_key_of_length(keys.write_key@, WRITE_KEY_LENGTH as nat)
    &&& is_key_of_length(keys.admin_key@, ADMIN_KEY_LENGTH as nat)
}

impl GameKeys {
    /// A fresh key for each tier, the write key drawn until it differs from
    /// the read key; the admin key differs from both by its length.
    pub fn generate() -> (r: Self)
        ensures
            are_issued_keys(r),
    {
        let read_key = StringKey::generate(READ_KEY_LENGTH);
        let write_key = StringKey::generate_distinct(WRITE_KEY_LENGTH, &read_key);
        let admin_key = StringKey::generate(ADMIN_KEY_LENGTH);
        GameKeys { read_key, write_key, admin_key }
    }
}

/// A key as a caller presented it with a request.
pub struct ApiKey<'r>(pub &'r str);

impl<'r> View for ApiKey<'r> {
    type V = Seq<char>;

    open spec fn view(&self) -> Seq<char> {
        self.0@
    }
}

/// Why a request carries no usable key.
#[derive(Debug, PartialEq, Eq, Structural)]
pub enum ApiKeyError {
    Missing,
    Invalid,
}

impl<'r> ApiKey<'r> {
    /// Reads the key out of the request's key header, if there is one.
    /// Every present value is accepted as a key.
    pub fn from_header(header: Option<&'r str>) -> (r: Result<ApiKey<'r>, ApiKeyError>)
        ensures
            header is None ==> r == Err::<ApiKey<'r>, ApiKeyError>(ApiKeyError::Missing),
            header is Some ==> (r matches Ok(k) && k.0 == header->0),
    {
        match header {
            None => Err(ApiKeyError::Missing),
            Some(key) => Ok(ApiKey(key)),
        }
    }
}

impl ApiKeyError {
    pub fn message(&self) -> (r: &'static str)
        ensures
            *self == ApiKeyError::Missing ==> r@ == "the key is missing"@,
            *self == ApiKeyError::Invalid ==> r@ == "the key is invalid"@,
    {
        match self {
            ApiKeyError::Missing => "the key is missing",
            ApiKeyError::Invalid => "the key is invalid",
        }
    }
}

#[verifier::external_type_specification]
#[verifier::external_body]
pub struct ExThreadRng(rand::rngs::ThreadRng);

/// Relies on rand::thread_rng: a handle to the thread-local generator, seeded by the system.
pub assume_specification[ rand::thread_rng ]() -> rand::rngs::ThreadRng;

/// Relies on rand's `Alphanumeric` distribution (through `Rng::sample`): every
/// sample is one byte of `A-Z`, `a-z` or `0-9`.
#[verifier::external_body]
fn sample_alphanumeric(rng: &mut rand::rngs::ThreadRng) -> (c: char)
    ensures
        is_alphanumeric(c),
{
    char::from(rng.sample(rand::distributions::Alphanumeric))
}

/// Relies on String::push: appends one character at the end.
#[verifier::external_body]
fn push_char(s: &mut String, c: char)
    ensures
        final(s)@ == old(s)@.push(c),
{
    s.push(c)
}

} // verus!
