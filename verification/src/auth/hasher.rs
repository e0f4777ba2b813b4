//! Password hashing with Argon2id, through the `argon2` crate.

use argon2::password_hash::rand_core::{OsRng, RngCore};
use argon2::password_hash::{PasswordHash, SaltString};
use argon2::{Algorithm, Argon2, Params, PasswordHasher as _, PasswordVerifier, Version};
use vstd::prelude::*;
use vstd::utf8::encode_utf8;

use super::error::AuthError;
use crate::text::{decimal_text, has_prefix, lemma_decimal_text_len, str_eq};

verus! {

/// Memory cost in KiB (OWASP recommends 19 MiB).
pub const ARGON2_M_COST: u32 = 19_456;

/// Number of passes.
pub const ARGON2_T_COST: u32 = 2;

/// Degree of parallelism.
pub const ARGON2_P_COST: u32 = 1;

/// How many random bytes a salt holds (`password_hash::Salt::RECOMMENDED_LENGTH`).
pub const SALT_LEN: usize = 16;

/// What `password_hash::PasswordHash::new` reads of a text as a PHC string:
/// its parameters, as name and value pairs in the order they stand; `None`
/// where it refuses the text.
pub uninterp spec fn phc_params(phc: Seq<char>) -> Option<Seq<(Seq<char>, Seq<char>)>>;

/// Whether `PasswordVerifier::verify_password` of an `argon2::Argon2` built
/// without a secret key accepts the password against the parsed PHC string.
pub uninterp spec fn argon2_accepts(password: Seq<u8>, phc: Seq<char>) -> bool;

/// Parameters that `argon2::Params::new` accepts: a memory cost of at
/// least 8 and at least 8 times the parallelism, a time cost of at least 1,
/// and a parallelism within `1..=0xFF_FFFF`.
pub open spec fn valid_argon2_params(m_cost: u32, t_cost: u32, p_cost: u32) -> bool {
    &&& 8 <= m_cost
    &&& 8 * p_cost <= m_cost
    &&& 1 <= t_cost
    &&& 1 <= p_cost <= 0xFF_FFFF
}

/// How a PHC string of Argon2id, version 0x13 (written 19), with these
/// costs begins, up to its salt.
pub open spec fn argon2id_phc_prefix(m_cost: u32, t_cost: u32, p_cost: u32) -> Seq<char> {
    "$argon2id$v=19$m="@ + decimal_text(m_cost as nat) + ",t="@ + decimal_text(t_cost as nat)
        + ",p="@ + decimal_text(p_cost as nat) + "$"@
}

/// Fresh random bytes for a salt, drawn with `RngCore::fill_bytes` from the
/// operating system's generator `OsRng` (what `SaltString::generate` draws).
/// Trusted: there are `SALT_LEN` of them; nothing else is stated, they are
/// random.
#[verifier::external_body]
fn random_salt() -> (r: Vec<u8>)
    ensures
        r@.len() == SALT_LEN,
{
    let mut bytes = [0u8; SALT_LEN];
    OsRng.fill_bytes(&mut bytes);
    bytes.to_vec()
}

/// Hashes the password with `PasswordHasher::hash_password` of an Argon2id
/// (version 0x13) context without secret key, built from the costs by
/// `argon2::Params::new` and `argon2::Argon2::new`, under the salt that
/// `SaltString::encode_b64` makes of the bytes, and renders the PHC string;
/// the error's text where a step fails. Trusted: a password of at most
/// `0xFFFF_FFFF` bytes is hashed (with costs that `Params::new` accepts and a
/// salt of 8 to 48 bytes, whose B64 text fits the 64 characters of a
/// `SaltString`, `hash_password` refuses only a longer password); a hash
/// that comes back begins with the algorithm, version and costs (as
/// `PasswordHash`'s `Display` writes them), parses, and `verify_password`
/// accepts the same password against it (the verifier recomputes the hash
/// with the parameters and salt that the string records); its parameters
/// read back as `m`, `t` and `p` with the costs in decimal (`ParamsString`
/// of `Params` writes those three, and no key id or data when none was
/// given).
#[verifier::external_body]
fn argon2id_hash(
    m_cost: u32,
    t_cost: u32,
    p_cost: u32,
    password: &[u8],
    salt: &[u8],
) -> (r: Result<String, String>)
    requires
        valid_argon2_params(m_cost, t_cost, p_cost),
        8 <= salt@.len() <= 48,
    ensures
        password@.len() <= 0xFFFF_FFFF ==> r is Ok,
        r matches Ok(h) ==> has_prefix(h@, argon2id_phc_prefix(m_cost, t_cost, p_cost))
            && phc_params(h@) == Some(argon2_phc_params(m_cost, t_cost, p_cost))
            && argon2_accepts(password@, h@),
{
    let params = Params::new(m_cost, t_cost, p_cost, None).map_err(|e| e.to_string())?;
    let salt = SaltString::encode_b64(salt).map_err(|e| e.to_string())?;
    let argon2 = Argon2::new(Algorithm::Argon2id, Version::V0x13, params);
    argon2.hash_password(password, &salt).map(|h| h.to_string()).map_err(|e| e.to_string())
}

/// The parameters of an Argon2 PHC string with these costs.
pub open spec fn argon2_phc_params(m_cost: u32, t_cost: u32, p_cost: u32) -> Seq<(Seq<char>, Seq<char>)> {
    seq![
        ("m"@, decimal_text(m_cost as nat)),
        ("t"@, decimal_text(t_cost as nat)),
        ("p"@, decimal_text(p_cost as nat)),
    ]
}

/// The texts of parameter pairs.
pub open spec fn pairs_view(pairs: Seq<(String, String)>) -> Seq<(Seq<char>, Seq<char>)> {
    pairs.map_values(|p: (String, String)| (p.0@, p.1@))
}

/// Parses the text with `PasswordHash::new` and hands out its parameters
/// (`ParamsString::iter`), each name and value as text. Trusted: the result
/// is the one named `phc_params`.
#[verifier::external_body]
fn phc_param_pairs(phc: &str) -> (r: Option<Vec<(String, String)>>)
    ensures
        phc_params(phc@) == match r {
            Some(v) => Some(pairs_view(v@)),
            None => None,
        },
{
    let parsed = PasswordHash::new(phc).ok()?;
    Some(parsed.params.iter().map(|(n, v)| (n.as_str().to_owned(), v.as_str().to_owned())).collect())
}

/// The value of the last parameter named `p`, the one that `argon2::Params`
/// takes from a PHC string as the parallelism.
pub open spec fn last_p_value(pairs: Seq<(Seq<char>, Seq<char>)>) -> Option<Seq<char>>
    decreases pairs.len(),
{
    if pairs.len() == 0 {
        None
    } else if pairs.last().0 == "p"@ {
        Some(pairs.last().1)
    } else {
        last_p_value(pairs.drop_last())
    }
}

/// Whether the parallelism that the parameters name, if any, has at most 8
/// characters. `argon2::Params::new` computes `8 * p_cost` in `u32` before
/// it refuses a parallelism over `0xFF_FFFF`, which overflows from `2^29`
/// on; a decimal of at most 8 characters stays below `10^8 < 2^29`, and a
/// longer value is never an accepted parallelism (a decimal has no leading
/// zero, so it would be at least `10^8`).
pub open spec fn parallelism_checkable(pairs: Seq<(Seq<char>, Seq<char>)>) -> bool {
    match last_p_value(pairs) {
        None => true,
        Some(v) => v.len() <= 8,
    }
}

/// Decides `parallelism_checkable` on the pairs that `phc_param_pairs` gave.
fn has_checkable_parallelism(pairs: &Vec<(String, String)>) -> (b: bool)
    ensures
        b == parallelism_checkable(pairs_view(pairs@)),
{
    let ghost view = pairs_view(pairs@);
    let mut i: usize = pairs.len();
    assert(view.take(i as int) =~= view);
    while i > 0
        invariant
            i <= pairs@.len(),
            view == pairs_view(pairs@),
            last_p_value(view.take(i as int)) == last_p_value(view),
        decreases i,
    {
        let ghost prefix = view.take(i as int);
        assert(prefix.drop_last() =~= view.take(i - 1));
        assert(prefix.last() == view[i - 1]);
        if str_eq(pairs[i - 1].0.as_str(), "p") {
            return pairs[i - 1].1.as_str().unicode_len() <= 8;
        }
        i = i - 1;
    }
    assert(view.take(0) =~= Seq::<(Seq<char>, Seq<char>)>::empty());
    true
}

/// Parses the PHC string with `PasswordHash::new` and checks the password
/// against it with `PasswordVerifier::verify_password` of `Argon2::default()`
/// (no secret key; the check takes algorithm, version, costs and salt from
/// the string); any failure of the check counts as a mismatch. `requires`
/// leaves out a string whose parallelism is too long to check: building its
/// parameters overflows `u32` (a panic where overflow is checked). Trusted:
/// the parse fails exactly where `phc_params` has none, and the check gives
/// `argon2_accepts`. Not stated: a memory cost too large to allocate stops
/// the process inside the check.
#[verifier::external_body]
fn argon2_verify(password: &[u8], phc: &str) -> (r: Result<bool, String>)
    requires
        phc_params(phc@) matches Some(pairs) ==> parallelism_checkable(pairs),
    ensures
        r is Ok <==> phc_params(phc@) is Some,
        r matches Ok(b) ==> b == argon2_accepts(password@, phc@),
{
    let parsed = PasswordHash::new(phc).map_err(|e| e.to_string())?;
    Ok(Argon2::default().verify_password(password, &parsed).is_ok())
}

/// The stored hash `stored` records the password: it parses, names a
/// parallelism that can be checked, and the password verifies against it.
pub open spec fn records_password(password: Seq<char>, stored: Seq<char>) -> bool {
    &&& phc_params(stored) matches Some(pairs) && parallelism_checkable(pairs)
    &&& argon2_accepts(encode_utf8(password), stored)
}

/// What checking `password` against the stored hash gives: `None` where the
/// hash does not parse; a mismatch where it names a parallelism too long to
/// be one that Argon2 accepts.
pub open spec fn verify_outcome(password: Seq<char>, stored: Seq<char>) -> Option<bool> {
    match phc_params(stored) {
        None => None,
        Some(pairs) => if parallelism_checkable(pairs) {
            Some(argon2_accepts(encode_utf8(password), stored))
        } else {
            Some(false)
        },
    }
}

/// The text whose hash stands in for a missing user's hash.
pub open spec fn dummy_password() -> Seq<char> {
    "dummy-password-for-timing"@
}

/// Hashes passwords and checks passwords against stored hashes.
pub trait PasswordHasher: Send + Sync {
    fn hash(&self, password: &str) -> Result<String, AuthError>;

    fn verify(&self, password: &str, hash: &str) -> Result<bool, AuthError>;
}

/// Argon2id with the OWASP-recommended parameters.
pub struct Argon2Hasher {
    m_cost: u32,
    t_cost: u32,
    p_cost: u32,
}

impl Argon2Hasher {
    /// The memory cost, time cost and parallelism that the hasher uses.
    pub closed spec fn costs(&self) -> (u32, u32, u32) {
        (self.m_cost, self.t_cost, self.p_cost)
    }

    #[verifier::type_invariant]
    spec fn costs_are_valid(&self) -> bool {
        valid_argon2_params(self.m_cost, self.t_cost, self.p_cost)
    }

    /// An Argon2id hasher with m = 19 MiB, t = 2, p = 1.
    pub fn new() -> (h: Self)
        ensures
            h.costs() == (ARGON2_M_COST, ARGON2_T_COST, ARGON2_P_COST),
    {
        Argon2Hasher { m_cost: ARGON2_M_COST, t_cost: ARGON2_T_COST, p_cost: ARGON2_P_COST }
    }

    /// A hash of a fixed text, against which a password is checked when no
    /// user has the email, so that a missing user costs as much time as a
    /// wrong password.
    pub fn dummy_hash(&self) -> (r: Result<String, AuthError>)
        ensures
            r is Ok,
            r matches Ok(h) ==> stored_by(*self, dummy_password(), h@),
    {
        let text = "dummy-password-for-timing";
        proof {
            reveal_strlit("dummy-password-for-timing");
            vstd::utf8::is_ascii_chars_encode_utf8(text@);
        }
        self.hash(text)
    }
}

/// The stored hash `stored` is what the hasher makes of the password: it
/// names Argon2id with the hasher's costs, and it records the password.
pub open spec fn stored_by(hasher: Argon2Hasher, password: Seq<char>, stored: Seq<char>) -> bool {
    &&& has_prefix(stored, argon2id_phc_prefix(hasher.costs().0, hasher.costs().1, hasher.costs().2))
    &&& records_password(password, stored)
}

impl PasswordHasher for Argon2Hasher {
    /// Hashes the password under a fresh random salt into a PHC string.
    fn hash(&self, password: &str) -> (r: Result<String, AuthError>)
        ensures
            encode_utf8(password@).len() <= 0xFFFF_FFFF ==> r is Ok,
            r matches Ok(h) ==> stored_by(*self, password@, h@),
            r matches Err(e) ==> e is Internal,
    {
        proof {
            use_type_invariant(self);
            lemma_decimal_text_len(self.p_cost as nat);
            let pairs = argon2_phc_params(self.m_cost, self.t_cost, self.p_cost);
            assert(pairs.drop_last().last().0 == "t"@);
            assert(last_p_value(pairs) == Some(decimal_text(self.p_cost as nat)));
        }
        let salt = random_salt();
        match argon2id_hash(
            self.m_cost,
            self.t_cost,
            self.p_cost,
            password.as_bytes(),
            salt.as_slice(),
        ) {
            Ok(h) => Ok(h),
            Err(e) => Err(AuthError::Internal(e)),
        }
    }

    /// Checks the password against a stored PHC string; a string that does
    /// not parse fails with `Internal`.
    fn verify(&self, password: &str, hash: &str) -> (r: Result<bool, AuthError>)
        ensures
            verify_outcome(password@, hash@) matches Some(b) ==> r == Ok::<bool, AuthError>(b),
            verify_outcome(password@, hash@) is None ==> (r matches Err(e) && e is Internal),
    {
        if let Some(pairs) = phc_param_pairs(hash) {
            if !has_checkable_parallelism(&pairs) {
                return Ok(false);
            }
        }
        match argon2_verify(password.as_bytes(), hash) {
            Ok(b) => Ok(b),
            Err(e) => Err(AuthError::Internal(e)),
        }
    }
}

/// A password checks against the hash that hashing it gave.
pub proof fn lemma_verify_accepts_hashed_password(password: Seq<char>, stored: Seq<char>)
    requires
        records_password(password, stored),
    ensures
        verify_outcome(password, stored) == Some(true),
{
}

/// The hasher's costs are the OWASP recommendation for Argon2id: 19 MiB of
/// memory, 2 passes, parallelism 1; every hash it makes names them.
pub proof fn lemma_owasp_costs(hasher: Argon2Hasher, password: Seq<char>, stored: Seq<char>)
    requires
        hasher.costs() == (ARGON2_M_COST, ARGON2_T_COST, ARGON2_P_COST),
        stored_by(hasher, password, stored),
    ensures
        hasher.costs() == (19_456u32, 2u32, 1u32),
        has_prefix(stored, argon2id_phc_prefix(19_456, 2, 1)),
{
}

} // verus!
