use vstd::prelude::*;

use crate::address::{zero_key, Address};
use crate::error::ErrorCode;
use crate::pool::{Pool, MAX_FUNDERS};

verus! {

/// Some slot of the allowlist holds `key`.
pub open spec fn is_listed(funders: [Address; 5], key: Seq<u8>) -> bool {
    exists|i: int| 0 <= i < 5 && #[trigger] funders@[i]@ == key
}

/// Slot `i` is the first that holds `key`.
pub open spec fn first_slot(funders: [Address; 5], key: Seq<u8>, i: int) -> bool {
    0 <= i < 5 && funders@[i]@ == key && forall|j: int| 0 <= j < i ==> #[trigger] funders@[j]@ != key
}

/// The pool's funders are `f` and every other field is as in `p`.
pub open spec fn with_funders(p: Pool, f: [Address; 5]) -> Pool {
    Pool { funders: f, ..p }
}

/// `signer` may fund the pool: it is the authority or an allowlisted funder.
pub open spec fn may_fund(p: Pool, signer: Address) -> bool {
    signer@ == p.authority@ || is_listed(p.funders, signer@)
}

/// The first slot that holds `key`, if any.
pub fn find_slot(funders: &[Address; 5], key: &Address) -> (r: Option<usize>)
    ensures
        r is Some ==> first_slot(*funders, key@, r->Some_0 as int),
        r is None ==> !is_listed(*funders, key@),
{
    let mut i: usize = 0;
    while i < MAX_FUNDERS
        invariant
            0 <= i <= 5,
            forall|j: int| 0 <= j < i ==> #[trigger] funders@[j]@ != key@,
        decreases 5 - i,
    {
        if funders[i] == *key {
            return Some(i);
        }
        i = i + 1;
    }
    None
}

/// Whether `signer` may fund the pool.
pub fn is_authorized_funder(pool: &Pool, signer: &Address) -> (r: bool)
    ensures
        r == may_fund(*pool, *signer),
{
    if *signer == pool.authority {
        return true;
    }
    find_slot(&pool.funders, signer).is_some()
}

/// The error `authorize_funder` rejects with, if any.
pub open spec fn authorize_error(p: Pool, signer: Address, funder: Address) -> Option<ErrorCode> {
    if signer@ != p.authority@ {
        Some(ErrorCode::NotPoolAuthority)
    } else if funder@ == p.authority@ || is_listed(p.funders, funder@) {
        Some(ErrorCode::FunderAlreadyAuthorized)
    } else if !is_listed(p.funders, zero_key()) {
        Some(ErrorCode::MaxFunders)
    } else {
        None
    }
}

/// Adds `funder_to_add` to the first free slot of the allowlist. Only the
/// authority may do so; the authority itself, a listed funder, or a full list
/// is rejected.
pub fn authorize_funder(pool: &mut Pool, signer: Address, funder_to_add: Address) -> (r: Result<
    (),
    ErrorCode,
>)
    ensures
        match authorize_error(*old(pool), signer, funder_to_add) {
            Some(e) => r == Err::<(), ErrorCode>(e) && *final(pool) == *old(pool),
            None => r is Ok && *final(pool) == with_funders(*old(pool), final(pool).funders)
                && exists|i: int|
                first_slot(old(pool).funders, zero_key(), i) && final(pool).funders@ == old(
                    pool,
                ).funders@.update(i, funder_to_add),
        },
{
    if signer != pool.authority {
        return Err(ErrorCode::NotPoolAuthority);
    }
    if funder_to_add == pool.authority {
        return Err(ErrorCode::FunderAlreadyAuthorized);
    }
    if find_slot(&pool.funders, &funder_to_add).is_some() {
        return Err(ErrorCode::FunderAlreadyAuthorized);
    }
    let empty = Address::zero();
    match find_slot(&pool.funders, &empty) {
        Some(idx) => {
            pool.funders[idx] = funder_to_add;
            assert(final(pool).funders@ =~= old(pool).funders@.update(idx as int, funder_to_add));
            Ok(())
        },
        None => Err(ErrorCode::MaxFunders),
    }
}

/// The error `deauthorize_funder` rejects with, if any.
pub open spec fn deauthorize_error(p: Pool, signer: Address, funder: Address) -> Option<ErrorCode> {
    if signer@ != p.authority@ {
        Some(ErrorCode::NotPoolAuthority)
    } else if funder@ == p.authority@ {
        Some(ErrorCode::CannotDeauthorizePoolAuthority)
    } else if !is_listed(p.funders, funder@) {
        Some(ErrorCode::CannotDeauthorizeMissingAuthority)
    } else {
        None
    }
}

/// Frees the first slot that holds `funder_to_remove`. Only the authority may
/// do so; removing the authority or an unlisted address is rejected.
pub fn deauthorize_funder(pool: &mut Pool, signer: Address, funder_to_remove: Address) -> (r:
    Result<(), ErrorCode>)
    ensures
        match deauthorize_error(*old(pool), signer, funder_to_remove) {
            Some(e) => r == Err::<(), ErrorCode>(e) && *final(pool) == *old(pool),
            None => r is Ok && *final(pool) == with_funders(*old(pool), final(pool).funders)
                && exists|i: int|
                first_slot(old(pool).funders, funder_to_remove@, i) && final(pool).funders@[i]@
                    == zero_key() && forall|j: int|
                    0 <= j < 5 && j != i ==> #[trigger] final(pool).funders@[j] == old(
                        pool,
                    ).funders@[j],
        },
{
    if signer != pool.authority {
        return Err(ErrorCode::NotPoolAuthority);
    }
    if funder_to_remove == pool.authority {
        return Err(ErrorCode::CannotDeauthorizePoolAuthority);
    }
    match find_slot(&pool.funders, &funder_to_remove) {
        Some(idx) => {
            pool.funders[idx] = Address::zero();
            Ok(())
        },
        None => Err(ErrorCode::CannotDeauthorizeMissingAuthority),
    }
}

} // verus!
