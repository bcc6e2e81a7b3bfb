use vstd::prelude::*;
use crate::database_keys::{ApiKey, GameKeys};
use crate::request_error::{RequestError, RequestResult, ErrorView, result_view};

verus! {

/// How much a presented key allows on a game, ordered
/// `Unauthorized < Read < Write < Admin`.
#[derive(Clone, Copy, Debug, PartialEq, Eq, Structural)]
pub enum AuthorityLevel {
    Unauthorized,
    Read,
    Write,
    Admin,
}

impl AuthorityLevel {
    /// The position of the level in the order of tiers.
    pub open spec fn spec_rank(self) -> u8 {
        match self {
            AuthorityLevel::Unauthorized => 0,
            AuthorityLevel::Read => 1,
            AuthorityLevel::Write => 2,
            AuthorityLevel::Admin => 3,
        }
    }

    #[verifier::when_used_as_spec(spec_rank)]
    pub fn rank(self) -> (r: u8)
        ensures
            r == self.spec_rank(),
    {
        match self {
            AuthorityLevel::Unauthorized => 0,
            AuthorityLevel::Read => 1,
            AuthorityLevel::Write => 2,
            AuthorityLevel::Admin => 3,
        }
    }

    /// Succeeds when `self` is at least `required`. A caller without a valid
    /// key gets `Unauthorized`; one whose tier is too low gets `Forbidden`.
    pub fn check_authority(self, required: Self) -> (r: RequestResult<()>)
        ensures
            result_view(r) == check_authority_spec(self, required),
    {
        if let AuthorityLevel::Unauthorized = self {
            return Err(RequestError::Unauthorized);
        }
        if self.rank() < required.rank() {
            return Err(RequestError::Forbidden);
        }
        Ok(())
    }
}

pub open spec fn check_authority_spec(current: AuthorityLevel, required: AuthorityLevel) -> Result<
    (),
    ErrorView,
> {
    if current == AuthorityLevel::Unauthorized {
        Err(ErrorView::Unauthorized)
    } else if current.spec_rank() < required.spec_rank() {
        Err(ErrorView::Forbidden)
    } else {
        Ok(())
    }
}

pub open spec fn spec_level_cmp(a: AuthorityLevel, b: AuthorityLevel) -> core::cmp::Ordering {
    if a.spec_rank() < b.spec_rank() {
        core::cmp::Ordering::Less
    } else if a.spec_rank() == b.spec_rank() {
        core::cmp::Ordering::Equal
    } else {
        core::cmp::Ordering::Greater
    }
}

impl PartialOrd for AuthorityLevel {
    fn partial_cmp(&self, other: &AuthorityLevel) -> (r: Option<core::cmp::Ordering>)
        ensures
            r == Some(spec_level_cmp(*self, *other)),
    {
        let a = self.rank();
        let b = other.rank();
        if a < b {
            Some(core::cmp::Ordering::Less)
        } else if a == b {
            Some(core::cmp::Ordering::Equal)
        } else {
            Some(core::cmp::Ordering::Greater)
        }
    }
}

impl vstd::std_specs::cmp::PartialOrdSpecImpl for AuthorityLevel {
    open spec fn obeys_partial_cmp_spec() -> bool {
        true
    }

    open spec fn partial_cmp_spec(&self, other: &AuthorityLevel) -> Option<core::cmp::Ordering> {
        Some(spec_level_cmp(*self, *other))
    }
}

/// The key a request carries, if any, as a sequence of characters.
pub open spec fn presented_key(api_key: Option<ApiKey>) -> Option<Seq<char>> {
    match api_key {
        Some(k) => Some(k@),
        None => None,
    }
}

/// The tier that `presented` grants on a game with `keys`: the highest tier
/// whose key equals it exactly, `Unauthorized` for no key or any other string.
pub open spec fn resolve_authority_spec(keys: GameKeys, presented: Option<Seq<char>>) -> AuthorityLevel {
    match presented {
        None => AuthorityLevel::Unauthorized,
        Some(k) => if k == keys.admin_key@ {
            AuthorityLevel::Admin
        } else if k == keys.write_key@ {
            AuthorityLevel::Write
        } else if k == keys.read_key@ {
            AuthorityLevel::Read
        } else {
            AuthorityLevel::Unauthorized
        },
    }
}

/// Compares the presented key with each of the game's keys.
pub fn resolve_authority(keys: &GameKeys, api_key: &Option<ApiKey>) -> (r: AuthorityLevel)
    ensures
        r == resolve_authority_spec(*keys, presented_key(*api_key)),
{
    match api_key {
        None => AuthorityLevel::Unauthorized,
        Some(key) => {
            if keys.admin_key.matches(key.0) {
                AuthorityLevel::Admin
            } else if keys.write_key.matches(key.0) {
                AuthorityLevel::Write
            } else if keys.read_key.matches(key.0) {
                AuthorityLevel::Read
            } else {
                AuthorityLevel::Unauthorized
            }
        },
    }
}

} // verus!
