//! The refund schedule: how much of the price of a token is paid back at a
//! given time.
//!
//! The schedule is walked from its first window. The first window that is
//! still open decides the share; once every window has closed, or where the
//! schedule is empty, nothing is paid back. Windows are expected by
//! increasing duration and are taken as they come: a schedule out of order
//! yields the share of whichever open window stands first.

use crate::types::RefundWindow;
use vstd::prelude::*;

verus! {

/// Whether a window is still open at `now`: strictly before the end of the
/// public sale plus the window's duration.
pub open spec fn window_is_open(window: RefundWindow, public_sale_end_at: u64, now: u64) -> bool {
    now < public_sale_end_at + window.duration
}

/// The first window of the schedule that is open at `now`.
pub open spec fn first_open_window(
    schedule: Seq<RefundWindow>,
    public_sale_end_at: u64,
    now: u64,
) -> Option<RefundWindow>
    decreases schedule.len(),
{
    if schedule.len() == 0 {
        None
    } else if window_is_open(schedule[0], public_sale_end_at, now) {
        Some(schedule[0])
    } else {
        first_open_window(schedule.drop_first(), public_sale_end_at, now)
    }
}

/// `percentage` hundredths of `price`, rounded down, and capped at the
/// largest balance there is.
pub open spec fn refund_share(price: u128, percentage: u128) -> int {
    let exact = price as int * percentage as int / 100;
    if exact > u128::MAX {
        u128::MAX as int
    } else {
        exact
    }
}

/// What is paid back at `now` for a token bought at `price`.
pub open spec fn refund_due(
    price: u128,
    schedule: Seq<RefundWindow>,
    public_sale_end_at: u64,
    now: u64,
) -> int {
    match first_open_window(schedule, public_sale_end_at, now) {
        Some(window) => refund_share(price, window.percentage),
        None => 0,
    }
}

/// The first open window is the open window with the least position: every
/// window before it has closed. There is none exactly when no window is
/// open.
pub proof fn lemma_first_open_window(
    schedule: Seq<RefundWindow>,
    public_sale_end_at: u64,
    now: u64,
)
    ensures
        first_open_window(schedule, public_sale_end_at, now) is None <==> forall|i: int|
            0 <= i < schedule.len() ==> !window_is_open(
                #[trigger] schedule[i],
                public_sale_end_at,
                now,
            ),
        first_open_window(schedule, public_sale_end_at, now) matches Some(window) ==> exists|
            i: int,
        |
            {
                &&& 0 <= i < schedule.len()
                &&& #[trigger] schedule[i] == window
                &&& window_is_open(window, public_sale_end_at, now)
                &&& forall|j: int|
                    0 <= j < i ==> !window_is_open(
                        #[trigger] schedule[j],
                        public_sale_end_at,
                        now,
                    )
            },
    decreases schedule.len(),
{
    if schedule.len() == 0 {
    } else if window_is_open(schedule[0], public_sale_end_at, now) {
        assert(schedule[0] == schedule[0]);
    } else {
        let rest = schedule.drop_first();
        lemma_first_open_window(rest, public_sale_end_at, now);
        assert forall|i: int| 0 <= i < rest.len() implies rest[i] == schedule[i + 1] by {}
        if first_open_window(rest, public_sale_end_at, now) is None {
            assert forall|i: int| 0 <= i < schedule.len() implies !window_is_open(
                #[trigger] schedule[i],
                public_sale_end_at,
                now,
            ) by {
                if i > 0 {
                    assert(rest[i - 1] == schedule[i]);
                }
            }
        } else {
            let window = first_open_window(rest, public_sale_end_at, now).unwrap();
            let k = choose|k: int|
                {
                    &&& 0 <= k < rest.len()
                    &&& #[trigger] rest[k] == window
                    &&& window_is_open(window, public_sale_end_at, now)
                    &&& forall|j: int|
                        0 <= j < k ==> !window_is_open(
                            #[trigger] rest[j],
                            public_sale_end_at,
                            now,
                        )
                };
            assert(schedule[k + 1] == window);
            assert forall|j: int| 0 <= j < k + 1 implies !window_is_open(
                #[trigger] schedule[j],
                public_sale_end_at,
                now,
            ) by {
                if j > 0 {
                    assert(rest[j - 1] == schedule[j]);
                }
            }
        }
    }
}

/// The first window of the schedule that is open at `now`.
pub fn find_open_window(schedule: &Vec<RefundWindow>, public_sale_end_at: u64, now: u64) -> (found:
    Option<RefundWindow>)
    ensures
        found == first_open_window(schedule@, public_sale_end_at, now),
{
    let mut i: usize = 0;
    assert(schedule@.skip(0) =~= schedule@);
    while i < schedule.len()
        invariant
            i <= schedule@.len(),
            first_open_window(schedule@, public_sale_end_at, now) == first_open_window(
                schedule@.skip(i as int),
                public_sale_end_at,
                now,
            ),
        decreases schedule@.len() - i,
    {
        let window = schedule[i];
        let ghost rest = schedule@.skip(i as int);
        assert(rest[0] == window);
        assert(rest.drop_first() =~= schedule@.skip(i as int + 1));
        if (now as u128) < public_sale_end_at as u128 + window.duration as u128 {
            return Some(window);
        }
        i += 1;
    }
    assert(schedule@.skip(i as int).len() == 0);
    None
}

/// `percentage` hundredths of `price`, rounded down, and capped at the
/// largest balance there is.
pub fn compute_refund_share(price: u128, percentage: u128) -> (share: u128)
    ensures
        share == refund_share(price, percentage),
{
    let whole = price / 100;
    let rest = price % 100;
    let hundreds = percentage / 100;
    let units = percentage % 100;
    let ghost exact = price as int * percentage as int / 100;
    assert(rest * hundreds <= 99 * (u128::MAX / 100) && rest * units <= 9801 && exact == whole
        * percentage + rest * hundreds + (rest * units) / 100 && whole * percentage >= 0)
        by (nonlinear_arith)
        requires
            price == 100 * whole + rest,
            percentage == 100 * hundreds + units,
            0 <= rest < 100,
            0 <= units < 100,
            0 <= whole,
            0 <= hundreds,
            hundreds <= u128::MAX / 100,
            exact == price as int * percentage as int / 100,
    ;
    let low: u128 = rest * hundreds + (rest * units) / 100;
    match whole.checked_mul(percentage) {
        None => u128::MAX,
        Some(high) => match high.checked_add(low) {
            None => u128::MAX,
            Some(share) => share,
        },
    }
}

/// What is paid back at `now` for a token bought at `price`.
pub fn compute_refund_due(
    price: u128,
    schedule: &Vec<RefundWindow>,
    public_sale_end_at: u64,
    now: u64,
) -> (amount: u128)
    ensures
        amount == refund_due(price, schedule@, public_sale_end_at, now),
{
    match find_open_window(schedule, public_sale_end_at, now) {
        Some(window) => compute_refund_share(price, window.percentage),
        None => 0,
    }
}

} // verus!
