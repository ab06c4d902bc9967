use vstd::prelude::*;
use crate::types::{accrued, shifted, weight, RATE_SCALE};

verus! {

/// Whether every intermediate value of the accrual computation fits in `u128`.
pub open spec fn accrual_fits(principal: int, offset: int, rate: int, el: int) -> bool {
    let w = weight(principal, offset, el);
    let pos = if w > 0 {
        w
    } else {
        0
    };
    &&& principal * el <= u128::MAX
    &&& pos <= u128::MAX
    &&& rate * pos <= u128::MAX
    &&& accrued(principal, offset, rate, el) <= u128::MAX
}

/// Moves an offset by `amount * el`, upwards when `add` holds.
pub fn shift_offset(offset: i128, amount: u128, el: u64, add: bool) -> (r: Option<i128>)
    ensures
        r matches Some(n) ==> shifted(offset as int, amount as int, el as int, add) == Some(n as int),
        r is None ==> shifted(offset as int, amount as int, el as int, add) is None,
{
    let d = match amount.checked_mul(el as u128) {
        Some(d) => d,
        None => return None,
    };
    if d > i128::MAX as u128 {
        return None;
    }
    let d = d as i128;
    if add {
        offset.checked_add(d)
    } else {
        offset.checked_sub(d)
    }
}

/// Principal plus simple interest, or `None` where a step leaves `u128`.
pub fn accrue(principal: u128, offset: i128, rate: u128, el: u64) -> (r: Option<u128>)
    ensures
        r == if accrual_fits(principal as int, offset as int, rate as int, el as int) {
            Some(accrued(principal as int, offset as int, rate as int, el as int) as u128)
        } else {
            None::<u128>
        },
{
    let ghost w = weight(principal as int, offset as int, el as int);
    let pe = match principal.checked_mul(el as u128) {
        Some(pe) => pe,
        None => return None,
    };
    let pos: u128 = if offset >= 0 {
        if pe >= offset as u128 {
            pe - offset as u128
        } else {
            0
        }
    } else {
        let neg: u128 = (-(offset + 1)) as u128 + 1;
        match pe.checked_add(neg) {
            Some(p) => p,
            None => return None,
        }
    };
    assert(pos as int == if w > 0 { w } else { 0 });
    let scaled = match rate.checked_mul(pos) {
        Some(s) => s,
        None => return None,
    };
    let interest = scaled / RATE_SCALE;
    principal.checked_add(interest)
}

} // verus!
