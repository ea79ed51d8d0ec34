//! The pricing engine: a stay's total from the nightly price, the nights,
//! the rooms and the extras booked with it.

use vstd::prelude::*;
use crate::money::Money;

verus! {

/// An optional extra charge booked with a stay. `price` is `None` where the
/// request gave no usable amount; such an entry adds nothing.
#[derive(Debug, Clone)]
pub struct AddonService {
    pub name: String,
    pub price: Option<Money>,
}

/// Cents that one extra adds.
pub open spec fn addon_cents(a: AddonService) -> nat {
    match a.price {
        Some(m) => m.cents as nat,
        None => 0,
    }
}

/// Sum of the prices of the extras.
pub open spec fn addon_sum(addons: Seq<AddonService>) -> nat
    decreases addons.len(),
{
    if addons.len() == 0 {
        0
    } else {
        addon_sum(addons.drop_last()) + addon_cents(addons.last())
    }
}

/// Price of the rooms alone: nightly price times nights times rooms.
pub open spec fn base_cents(price_per_night: nat, nights: nat, rooms: nat) -> nat {
    price_per_night * nights * rooms
}

/// Total of a stay: the rooms plus every extra.
pub open spec fn stay_total(
    price_per_night: nat,
    nights: nat,
    rooms: nat,
    addons: Seq<AddonService>,
) -> nat {
    base_cents(price_per_night, nights, rooms) + addon_sum(addons)
}

impl AddonService {
    /// An extra named `name` that costs `price`, or nothing where `price`
    /// is `None`.
    pub fn new(name: String, price: Option<Money>) -> (r: AddonService)
        ensures
            r.name == name,
            r.price == price,
    {
        AddonService { name, price }
    }
}

/// Sum of the extras' prices; `None` where it does not fit in 64 bits.
pub fn addon_total(addons: &Vec<AddonService>) -> (r: Option<Money>)
    ensures
        r.is_some() <==> addon_sum(addons@) <= u64::MAX,
        r.is_some() ==> r.unwrap().cents == addon_sum(addons@),
{
    let mut sum: u64 = 0;
    let mut i: usize = 0;
    while i < addons.len()
        invariant
            i <= addons@.len(),
            sum == addon_sum(addons@.subrange(0, i as int)),
        decreases addons.len() - i,
    {
        let ghost pre = addons@.subrange(0, i as int);
        let ghost next = addons@.subrange(0, i + 1);
        assert(next.drop_last() =~= pre);
        let add: u64 = match addons[i].price {
            Some(m) => m.cents,
            None => 0,
        };
        if sum > u64::MAX - add {
            proof {
                lemma_addon_sum_prefix(addons@, i + 1);
            }
            return None;
        }
        sum = sum + add;
        i = i + 1;
    }
    assert(addons@.subrange(0, i as int) =~= addons@);
    Some(Money::from_cents(sum))
}

/// The sum over a prefix never exceeds the sum over the whole list.
proof fn lemma_addon_sum_prefix(addons: Seq<AddonService>, j: int)
    requires
        0 <= j <= addons.len(),
    ensures
        addon_sum(addons.subrange(0, j)) <= addon_sum(addons),
    decreases addons.len(),
{
    if j < addons.len() {
        lemma_addon_sum_prefix(addons.drop_last(), j);
        assert(addons.drop_last().subrange(0, j) =~= addons.subrange(0, j));
    } else {
        assert(addons.subrange(0, j) =~= addons);
    }
}

/// The total of a stay of `nights` nights in `rooms` rooms at
/// `price_per_night`, plus the extras; `None` where it does not fit in 64
/// bits. The total is never below the extras alone.
pub fn compute_total(
    price_per_night: Money,
    nights: u64,
    rooms: u64,
    addons: &Vec<AddonService>,
) -> (r: Option<Money>)
    requires
        nights >= 1,
        rooms >= 1,
    ensures
        r.is_some() <==> stay_total(price_per_night.cents as nat, nights as nat, rooms as nat, addons@)
            <= u64::MAX,
        r.is_some() ==> r.unwrap().cents == stay_total(
            price_per_night.cents as nat,
            nights as nat,
            rooms as nat,
            addons@,
        ),
        r.is_some() ==> r.unwrap().cents >= addon_sum(addons@),
{
    let ghost base = base_cents(price_per_night.cents as nat, nights as nat, rooms as nat);
    let extras = addon_total(addons);
    let p = price_per_night.cents;
    let per_room = match p.checked_mul(nights) {
        Some(v) => v,
        None => {
            assert(base >= p * nights) by (nonlinear_arith)
                requires
                    base == p * nights * rooms,
                    rooms >= 1,
            ;
            return None;
        },
    };
    let rooms_price = match per_room.checked_mul(rooms) {
        Some(v) => v,
        None => {
            return None;
        },
    };
    match extras {
        Some(e) => {
            match rooms_price.checked_add(e.cents) {
                Some(t) => Some(Money::from_cents(t)),
                None => None,
            }
        },
        None => None,
    }
}

} // verus!
