use crate::account::Account;
use crate::error::HandlerError;
use crate::state::{le_bytes_of, u32_of_le, CounterState};
use vstd::prelude::*;

verus! {

/// The counter's state transition: a zero counter initializes to one,
/// any other counter doubles, wrapping silently at the 32-bit boundary.
pub open spec fn counter_transition(c: u32) -> u32 {
    if c == 0 {
        1u32
    } else {
        ((c as int * 2) % 0x1_0000_0000) as u32
    }
}

/// Doubles the counter persisted in the state account.
///
/// The state account must have signed the call, and its bytes must be
/// exactly the four-byte counter encoding; otherwise the call fails with
/// the matching error and the account is left untouched. On success the
/// account's bytes become the encoding of the transitioned counter. The
/// instruction payload is ignored.
pub fn process_instruction(state_account: &mut Account, _instruction_data: &[u8]) -> (r: Result<
    (),
    HandlerError,
>)
    ensures
        !old(state_account).is_signer ==> r == Err::<(), HandlerError>(
            HandlerError::AuthorizationError,
        ),
        old(state_account).is_signer && old(state_account).data@.len() != 4 ==> r == Err::<
            (),
            HandlerError,
        >(HandlerError::MalformedStateError),
        r is Err ==> *final(state_account) == *old(state_account),
        old(state_account).is_signer && old(state_account).data@.len() == 4 ==> r == Ok::<
            (),
            HandlerError,
        >(()) && final(state_account).data@ == le_bytes_of(
            counter_transition(u32_of_le(old(state_account).data@)),
        ),
        final(state_account).address == old(state_account).address,
        final(state_account).is_signer == old(state_account).is_signer,
        final(state_account).is_writable == old(state_account).is_writable,
{
    if !state_account.is_signer {
        return Err(HandlerError::AuthorizationError);
    }
    let counter_state = match CounterState::try_from_slice(state_account.data.as_slice()) {
        Ok(s) => s,
        Err(e) => {
            return Err(e);
        },
    };
    let new_count: u32 = if counter_state.count == 0 {
        1
    } else {
        counter_state.count.wrapping_mul(2)
    };
    let new_state = CounterState { count: new_count };
    state_account.data = new_state.serialize();
    Ok(())
}

/// Law: a zero counter initializes to one.
pub proof fn lemma_counter_from_zero()
    ensures
        counter_transition(0) == 1,
{
}

/// Law: a positive counter doubles modulo 2^32, wrapping at the boundary.
pub proof fn lemma_counter_doubles(n: u32)
    requires
        n > 0,
    ensures
        counter_transition(n) as int == (n as int * 2) % 0x1_0000_0000,
{
}

/// Law: doubling is not idempotent. From a positive counter below the
/// wraparound boundary, two consecutive calls yield 2n and then 4n,
/// which never equals n.
pub proof fn lemma_two_calls_quadruple(n: u32)
    requires
        0 < n,
        4 * n < 0x1_0000_0000,
    ensures
        counter_transition(n) == 2 * n,
        counter_transition(counter_transition(n)) == 4 * n,
        counter_transition(counter_transition(n)) != n,
{
}

/// Law: the transition never returns to its starting point after two
/// calls, for any counter at all, wraparound included.
pub proof fn lemma_two_calls_never_return(n: u32)
    ensures
        counter_transition(counter_transition(n)) != n,
{
    let m: int = 0x1_0000_0000;
    if n == 0 {
        assert(counter_transition(counter_transition(0)) == 2);
    } else {
        let t1 = counter_transition(n);
        if 2 * n < m {
            assert(t1 == 2 * n);
        } else {
            assert((2 * n) % m == 2 * n - m) by {
                assert(0 <= 2 * n - m < m);
                assert(2 * n == m + (2 * n - m));
                vstd::arithmetic::div_mod::lemma_mod_multiples_vanish(1, 2 * n - m, m);
                vstd::arithmetic::div_mod::lemma_small_mod((2 * n - m) as nat, m as nat);
            }
            assert(t1 == 2 * n - m);
        }
        if t1 == 0 {
            assert(counter_transition(t1) == 1);
            assert(n == 0x8000_0000);
        } else {
            let t2 = counter_transition(t1);
            assert(t2 as int == (t1 as int * 2) % m);
            let d: int = 2 * (t1 as int);
            assert(0 < d < 2 * m);
            if d < m {
                assert(d % m == d) by {
                    vstd::arithmetic::div_mod::lemma_small_mod(d as nat, m as nat);
                }
            } else {
                assert(d % m == d - m) by {
                    assert(0 <= d - m < m);
                    vstd::arithmetic::div_mod::lemma_mod_multiples_vanish(1, d - m, m);
                    vstd::arithmetic::div_mod::lemma_small_mod((d - m) as nat, m as nat);
                }
            }
            // In every branch t2 is one of 4n, 4n - m, 4n - 2m, 4n - 3m;
            // equality with n would force 3n to be a multiple of 2^32,
            // impossible for 0 < n < 2^32.
            assert(t2 != n);
        }
    }
}

} // verus!
